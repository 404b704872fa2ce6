//! Feedback texts the minimal loop sends back to the model, and which tools
//! change files.
use crate::text::{join, owned, push_str, str_eq, views};
use vstd::prelude::*;

verus! {

/// The feedback for an answer that only announces a tool action.
pub fn future_action_feedback() -> (r: String)
    ensures
        r@ == "You described a future tool action without calling a tool. If you need to create, edit, read, run, or verify something, call the tool now. Final answers must describe completed work, not planned next steps."@,
{
    owned(
        "You described a future tool action without calling a tool. If you need to create, edit, read, run, or verify something, call the tool now. Final answers must describe completed work, not planned next steps.",
    )
}

/// The feedback for a completion claimed without any file change.
pub fn completion_without_write_feedback() -> (r: String)
    ensures
        r@ == "No file changes have been made in this session. If the task requires creating or modifying files, use Write or Edit now. If no file changes are needed, say that explicitly and finish."@,
{
    owned(
        "No file changes have been made in this session. If the task requires creating or modifying files, use Write or Edit now. If no file changes are needed, say that explicitly and finish.",
    )
}

/// The missing paths as a bullet list, one `- <path>` line each.
pub open spec fn bullet_lines(paths: Seq<Seq<char>>) -> Seq<char> {
    join(paths.map_values(|p: Seq<char>| "- "@ + p), "\n"@)
}

/// The feedback naming requested artifacts that are still missing.
pub open spec fn requested_artifact_text(missing: Seq<Seq<char>>) -> Seq<char> {
    "The requested artifact paths are still missing:\n"@ + bullet_lines(missing)
        + "\nCreate the missing paths with Write/Edit now, or explain why they are not required."@
}

/// The feedback naming requested artifacts that are still missing.
pub fn requested_artifact_feedback(missing: &[String]) -> (r: String)
    ensures
        r@ == requested_artifact_text(views(missing@)),
{
    let mut bullets: Vec<String> = Vec::new();
    let mut i: usize = 0;
    while i < missing.len()
        invariant
            i <= missing@.len(),
            views(bullets@) == views(missing@).take(i as int).map_values(|p: Seq<char>| "- "@ + p),
        decreases missing.len() - i,
    {
        let ghost before = bullets@;
        let mut line = owned("- ");
        push_str(&mut line, missing[i].as_str());
        bullets.push(line);
        proof {
            assert(views(missing@).take(i + 1) == views(missing@).take(i as int).push(missing@[i as int]@));
            assert(views(bullets@) =~= views(before).push("- "@ + missing@[i as int]@));
        }
        i = i + 1;
    }
    assert(views(missing@).take(missing@.len() as int) == views(missing@));
    let body = crate::text::join_strings(&bullets, "\n");
    let mut s = owned("The requested artifact paths are still missing:\n");
    push_str(&mut s, body.as_str());
    push_str(&mut s, "\nCreate the missing paths with Write/Edit now, or explain why they are not required.");
    s
}

/// Whether the tool changes files: exactly `Write` and `Edit`.
pub fn is_file_change_tool(name: &str) -> (r: bool)
    ensures
        r == (name@ == "Write"@ || name@ == "Edit"@),
{
    str_eq(name, "Write") || str_eq(name, "Edit")
}

} // verus!
