//! The minimal loop's system prompt and its final-answer contract.
use super::{ToolCallMode, ToolSpec};
use crate::text::{contains, lower, lower_str, owned, push_str, str_contains, str_views};
use vstd::prelude::*;

verus! {

/// The opening of every system prompt.
pub open spec fn prompt_base() -> Seq<char> {
    "You are CommandAgent, a minimal local-first coding agent.\nUse tools for file inspection, file changes, search, and local verification.\nIf you say you will create, edit, read, or verify something, call the tool in that same response.\nFinal answers must describe completed work, not planned next steps.\nDo not use Bash to create directories before Write; Write creates parent directories automatically."@
}

/// The XML fallback tool-call example.
pub open spec fn xml_format() -> Seq<char> {
    "<commandagent_tool_call>{\"name\":\"Write\",\"args\":{\"path\":\"README.md\",\"content\":\"text\"}}</commandagent_tool_call>"@
}

/// One `- <name>: <description>` line per tool.
pub open spec fn tool_lines(tools: Seq<ToolSpec>) -> Seq<char>
    decreases tools.len(),
{
    if tools.len() == 0 {
        Seq::empty()
    } else {
        tool_lines(tools.drop_last()) + "- "@ + tools.last().name@ + ": "@ + tools.last().description@
            + "\n"@
    }
}

/// The argument shapes listed for XML fallback.
pub open spec fn argument_shapes() -> Seq<char> {
    "\nArgument shapes:\n- Read: {\"path\":\"README.md\"}\n- Write: {\"path\":\"README.md\",\"content\":\"text\"}\n- Edit: {\"path\":\"README.md\",\"old\":\"before\",\"new\":\"after\"}\n- Glob: {\"pattern\":\"src/*.rs\"}\n- Grep: {\"pattern\":\"TODO\"}\n- Bash: {\"command\":\"cargo test\"}"@
}

/// The system prompt: the base text, and under XML fallback the call
/// format, the available tools and the argument shapes.
pub open spec fn prompt_text(mode: ToolCallMode, tools: Seq<ToolSpec>) -> Seq<char> {
    match mode {
        ToolCallMode::Native => prompt_base(),
        ToolCallMode::XmlFallback => prompt_base()
            + "\n\nNative tool calls are unavailable in this session. Emit exactly one complete XML fallback tool call when you need a tool.\n"@
            + "Format:\n"@ + xml_format()
            + "\n\nUse `args` as the JSON object for tool arguments. Do not use Markdown fences around tool calls.\n"@
            + "\nAvailable tools:\n"@ + tool_lines(tools) + argument_shapes(),
    }
}

/// The example of an XML fallback tool call.
pub fn xml_tool_call_format() -> (r: &'static str)
    ensures
        r@ == xml_format(),
{
    "<commandagent_tool_call>{\"name\":\"Write\",\"args\":{\"path\":\"README.md\",\"content\":\"text\"}}</commandagent_tool_call>"
}

/// The system prompt for a tool-call mode and the offered tools.
pub fn system_prompt(mode: ToolCallMode, tools: &[ToolSpec]) -> (r: String)
    ensures
        r@ == prompt_text(mode, tools@),
{
    let mut prompt = owned(
        "You are CommandAgent, a minimal local-first coding agent.\nUse tools for file inspection, file changes, search, and local verification.\nIf you say you will create, edit, read, or verify something, call the tool in that same response.\nFinal answers must describe completed work, not planned next steps.\nDo not use Bash to create directories before Write; Write creates parent directories automatically.",
    );
    match mode {
        ToolCallMode::Native => {},
        ToolCallMode::XmlFallback => {
            push_str(
                &mut prompt,
                "\n\nNative tool calls are unavailable in this session. Emit exactly one complete XML fallback tool call when you need a tool.\n",
            );
            push_str(&mut prompt, "Format:\n");
            push_str(&mut prompt, xml_tool_call_format());
            push_str(
                &mut prompt,
                "\n\nUse `args` as the JSON object for tool arguments. Do not use Markdown fences around tool calls.\n",
            );
            push_str(&mut prompt, "\nAvailable tools:\n");
            let ghost head = prompt@;
            let mut i: usize = 0;
            while i < tools.len()
                invariant
                    i <= tools@.len(),
                    prompt@ == head + tool_lines(tools@.take(i as int)),
                decreases tools.len() - i,
            {
                proof {
                    assert(tools@.take(i + 1).drop_last() == tools@.take(i as int));
                }
                push_str(&mut prompt, "- ");
                push_str(&mut prompt, tools[i].name.as_str());
                push_str(&mut prompt, ": ");
                push_str(&mut prompt, tools[i].description.as_str());
                push_str(&mut prompt, "\n");
                i = i + 1;
            }
            assert(tools@.take(tools@.len() as int) == tools@);
            push_str(&mut prompt, "\nArgument shapes:\n");
            push_str(&mut prompt, "- Read: {\"path\":\"README.md\"}\n");
            push_str(&mut prompt, "- Write: {\"path\":\"README.md\",\"content\":\"text\"}\n");
            push_str(&mut prompt, "- Edit: {\"path\":\"README.md\",\"old\":\"before\",\"new\":\"after\"}\n");
            push_str(&mut prompt, "- Glob: {\"pattern\":\"src/*.rs\"}\n");
            push_str(&mut prompt, "- Grep: {\"pattern\":\"TODO\"}\n");
            push_str(&mut prompt, "- Bash: {\"command\":\"cargo test\"}");
            proof {
                reveal_strlit("\nArgument shapes:\n");
                reveal_strlit("- Read: {\"path\":\"README.md\"}\n");
                reveal_strlit("- Write: {\"path\":\"README.md\",\"content\":\"text\"}\n");
                reveal_strlit("- Edit: {\"path\":\"README.md\",\"old\":\"before\",\"new\":\"after\"}\n");
                reveal_strlit("- Glob: {\"pattern\":\"src/*.rs\"}\n");
                reveal_strlit("- Grep: {\"pattern\":\"TODO\"}\n");
                reveal_strlit("- Bash: {\"command\":\"cargo test\"}");
                reveal_strlit("\nArgument shapes:\n- Read: {\"path\":\"README.md\"}\n- Write: {\"path\":\"README.md\",\"content\":\"text\"}\n- Edit: {\"path\":\"README.md\",\"old\":\"before\",\"new\":\"after\"}\n- Glob: {\"pattern\":\"src/*.rs\"}\n- Grep: {\"pattern\":\"TODO\"}\n- Bash: {\"command\":\"cargo test\"}");
            }
        },
    }
    prompt
}

/// The feedback for a malformed tool call, with the expected format.
pub fn parser_failure_feedback(error: &str) -> (r: String)
    ensures
        r@ == "The previous tool call was malformed: "@ + error@
            + "\nUse XML fallback format exactly like this:\n"@ + xml_format(),
{
    let mut s = owned("The previous tool call was malformed: ");
    push_str(&mut s, error);
    push_str(&mut s, "\nUse XML fallback format exactly like this:\n");
    push_str(&mut s, xml_tool_call_format());
    s
}

/// Phrases that announce a future action.
pub open spec fn future_markers() -> Seq<Seq<char>> {
    seq![
        "i will "@,
        "i'll "@,
        "let me "@,
        "now i'll "@,
        "now i will "@,
        "next i will "@,
        "i am going to "@,
        "i\u{2019}m going to "@,
    ]
}

/// Words naming a tool action.
pub open spec fn tool_action_words() -> Seq<Seq<char>> {
    seq!["create"@, "edit"@, "read"@, "verify"@, "run"@, "write"@, "inspect"@, "check"@]
}

/// An answer breaks the final-answer contract when, lower-cased, it
/// contains a future-action marker together with a tool action word
/// (right after the marker or anywhere).
pub open spec fn violates_contract(text: Seq<char>) -> bool {
    let l = lower(text);
    exists|i: int|
        0 <= i < future_markers().len() && contains(l, #[trigger] future_markers()[i]) && exists|j: int|
            0 <= j < tool_action_words().len() && (contains(l, future_markers()[i] + #[trigger] tool_action_words()[j])
                || contains(l, tool_action_words()[j]))
}

/// Whether the answer announces a tool action instead of reporting work.
pub fn violates_final_answer_contract(text: &str) -> (r: bool)
    ensures
        r == violates_contract(text@),
{
    let lowered = lower_str(text);
    let l = lowered.as_str();
    let markers = ["i will ", "i'll ", "let me ", "now i'll ", "now i will ", "next i will ", "i am going to ", "i\u{2019}m going to "];
    let words = ["create", "edit", "read", "verify", "run", "write", "inspect", "check"];
    assert(str_views(markers@) =~= future_markers());
    assert(str_views(words@) =~= tool_action_words());
    let mut i: usize = 0;
    while i < markers.len()
        invariant
            i <= markers@.len(),
            l@ == lower(text@),
            str_views(markers@) == future_markers(),
            str_views(words@) == tool_action_words(),
            forall|k: int| 0 <= k < i ==> !(contains(l@, #[trigger] future_markers()[k]) && exists|j: int|
                0 <= j < tool_action_words().len() && (contains(l@, future_markers()[k] + #[trigger] tool_action_words()[j])
                    || contains(l@, tool_action_words()[j]))),
        decreases markers.len() - i,
    {
        let m = markers[i];
        assert(m@ == future_markers()[i as int]);
        if str_contains(l, m) {
            let mut j: usize = 0;
            while j < words.len()
                invariant
                    j <= words@.len(),
                    i < markers@.len(),
                    l@ == lower(text@),
                    contains(l@, m@),
                    m@ == future_markers()[i as int],
                    str_views(words@) == tool_action_words(),
                    forall|q: int| 0 <= q < j ==> !(contains(l@, m@ + #[trigger] tool_action_words()[q]) || contains(l@, tool_action_words()[q])),
                decreases words.len() - j,
            {
                let w = words[j];
                assert(w@ == tool_action_words()[j as int]);
                let mut joined = owned(m);
                push_str(&mut joined, w);
                if str_contains(l, joined.as_str()) || str_contains(l, w) {
                    assert(contains(l@, future_markers()[i as int] + tool_action_words()[j as int])
                        || contains(l@, tool_action_words()[j as int]));
                    return true;
                }
                j = j + 1;
            }
        }
        i = i + 1;
    }
    false
}

} // verus!
