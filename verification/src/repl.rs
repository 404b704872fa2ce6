//! The interactive loop's decisions: what each input line asks for and what
//! the loop writes back. Reading the terminal and running turns belong to the
//! caller; the turn runner is the caller's.
use crate::text::{
    chars_of, is_blank, is_blank_str, owned, push_str, str_eq, string_of, trim, trim_str, views,
};
use vstd::prelude::*;

verus! {

/// What the loop does with one read.
#[derive(Debug, Clone, PartialEq, Eq)]
pub enum ReplAction {
    /// The input ended: end the prompt line and stop.
    EndOfInput,
    /// A blank line: prompt again.
    Skip,
    /// `/exit` or `/quit`: say `bye` and stop.
    Exit,
    /// Run a turn with the trimmed line.
    Run(String),
}

/// The action a read calls for.
pub open spec fn action_of(line: Option<Seq<char>>) -> Option<Seq<char>> {
    match line {
        None => None,
        Some(l) => Some(trim(l)),
    }
}

/// The action a read calls for, as a view: the end of input, a blank line,
/// an exit command, or a turn with the trimmed line.
pub open spec fn repl_decision(line: Option<Seq<char>>, a: ReplAction) -> bool {
    match line {
        None => a == ReplAction::EndOfInput,
        Some(l) => {
            let p = trim(l);
            if p.len() == 0 {
                a == ReplAction::Skip
            } else if p == "/exit"@ || p == "/quit"@ {
                a == ReplAction::Exit
            } else {
                a matches ReplAction::Run(x) && x@ == p
            }
        },
    }
}

/// Decides what a read calls for.
pub fn repl_action(line: Option<&str>) -> (r: ReplAction)
    ensures
        repl_decision(
            match line {
                Some(l) => Some(l@),
                None => None,
            },
            r,
        ),
{
    match line {
        None => ReplAction::EndOfInput,
        Some(l) => {
            let p = trim_str(l);
            if crate::text::char_count(p.as_str()) == 0 {
                ReplAction::Skip
            } else if str_eq(p.as_str(), "/exit") || str_eq(p.as_str(), "/quit") {
                ReplAction::Exit
            } else {
                ReplAction::Run(p)
            }
        },
    }
}

/// A call the loop made on its runner, with what came back.
pub enum RunnerCall {
    /// A turn run with the prompt, and its answer or error message.
    Turn(Seq<char>, Result<Seq<char>, Seq<char>>),
    /// An answer formatted for the user, and the text it was formatted as.
    Format(Seq<char>, Seq<char>),
    /// A save, and its error message if it failed.
    Save(Result<(), Seq<char>>),
}

/// A turn's outcome as plain values.
pub open spec fn outcome_view(r: Result<String, String>) -> Result<Seq<char>, Seq<char>> {
    match r {
        Ok(a) => Ok(a@),
        Err(e) => Err(e@),
    }
}

/// A save's outcome as plain values.
pub open spec fn save_view(r: Result<(), String>) -> Result<(), Seq<char>> {
    match r {
        Ok(_) => Ok(()),
        Err(e) => Err(e@),
    }
}

/// Runs the turns of the loop; the caller implements it. `calls` is the
/// record of the calls made on the runner, in order: every turn run, answer
/// formatted and save made, with what came back; what [`run_repl`] states
/// of the calls it makes is stated over that record. Its default body
/// records nothing, and no implementation that Verus checks can keep it,
/// since each of `run_turn`, `format_answer` and `save` must extend the
/// record: a verified implementation defines `calls` itself. An
/// implementation compiled outside Verus keeps the default; of it, the
/// `ensures` below are trusted, not checked against any record.
pub trait ReplTurnRunner {
    /// The calls made on the runner so far, as it records them.
    closed spec fn calls(&self) -> Seq<RunnerCall> {
        Seq::empty()
    }

    /// Runs the prompt and returns the answer or an error message.
    fn run_turn(&mut self, prompt: &str) -> (r: Result<String, String>)
        ensures
            final(self).calls() == old(self).calls().push(RunnerCall::Turn(prompt@, outcome_view(r))),
    ;

    /// Persists the session after a successful turn.
    fn save(&mut self) -> (r: Result<(), String>)
        ensures
            final(self).calls() == old(self).calls().push(RunnerCall::Save(save_view(r))),
    ;

    /// The answer as shown to the user; [`trimmed_answer`] is the plain
    /// choice.
    fn format_answer(&mut self, answer: &str) -> (r: String)
        ensures
            final(self).calls() == old(self).calls().push(RunnerCall::Format(answer@, r@)),
    ;
}

/// An answer shown as it is, without its surrounding whitespace.
pub fn trimmed_answer(answer: &str) -> (r: String)
    ensures
        r@ == trim(answer@),
{
    trim_str(answer)
}

/// Why the loop stopped with an error.
#[derive(Debug, Clone, PartialEq, Eq)]
pub enum ReplError {
    Io(String),
    Runner(String),
}

impl ReplError {
    /// The error's message.
    pub fn to_string(&self) -> (r: String)
        ensures
            r@ == (match *self {
                ReplError::Io(m) => m@,
                ReplError::Runner(m) => m@,
            }),
    {
        match self {
            ReplError::Io(m) => crate::text::copy_string(m),
            ReplError::Runner(m) => crate::text::copy_string(m),
        }
    }
}

/// The text the loop writes after a failed turn.
pub open spec fn error_line(message: Seq<char>) -> Seq<char> {
    "ERROR: "@ + message + "\n"@
}

/// The lines of an input as `read_line` returns them, without their line
/// breaks, as the finished lines and the line being read.
pub open spec fn lines_state(s: Seq<char>) -> (Seq<Seq<char>>, Seq<char>)
    decreases s.len(),
{
    if s.len() == 0 {
        (Seq::empty(), Seq::empty())
    } else {
        let (ls, cur) = lines_state(s.drop_last());
        if s.last() == '\n' {
            (ls.push(cur), Seq::empty())
        } else {
            (ls, cur.push(s.last()))
        }
    }
}

/// The lines of an input: each line ended by a line break, and a last line
/// without one when the input does not end with a break.
pub open spec fn input_lines(s: Seq<char>) -> Seq<Seq<char>> {
    let (ls, cur) = lines_state(s);
    if cur.len() > 0 {
        ls.push(cur)
    } else {
        ls
    }
}

fn read_lines(input: &str) -> (r: Vec<String>)
    ensures
        views(r@) == input_lines(input@),
{
    let v = chars_of(input);
    let mut ls: Vec<String> = Vec::new();
    let mut cur: Vec<char> = Vec::new();
    let mut i: usize = 0;
    while i < v.len()
        invariant
            i <= v@.len(),
            (views(ls@), cur@) == lines_state(v@.take(i as int)),
        decreases v.len() - i,
    {
        proof {
            assert(v@.take(i + 1).drop_last() == v@.take(i as int));
        }
        if v[i] == '\n' {
            let ghost before = ls@;
            ls.push(string_of(cur.as_slice()));
            assert(views(ls@) =~= views(before).push(cur@));
            cur = Vec::new();
        } else {
            cur.push(v[i]);
        }
        i = i + 1;
    }
    assert(v@.take(v@.len() as int) == v@);
    if cur.len() > 0 {
        let ghost before = ls@;
        ls.push(string_of(cur.as_slice()));
        assert(views(ls@) =~= views(before).push(cur@));
    }
    ls
}

/// The prompt written before each read.
pub open spec fn prompt_text() -> Seq<char> {
    "commandagent> "@
}

/// How a run of the loop ended: at the end of the input or an exit command,
/// or at a save that failed with the message.
pub enum ReplEnd {
    Finished,
    SaveFailed(Seq<char>),
}

/// The text an answer was formatted as, when the call formatted that
/// answer.
pub open spec fn formatted_as(c: RunnerCall, answer: Seq<char>) -> Option<Seq<char>> {
    match c {
        RunnerCall::Format(a, f) => if a == answer {
            Some(f)
        } else {
            None
        },
        _ => None,
    }
}

/// What the loop writes for the input lines when its runner records
/// `calls` (the turns, formats and saves, in order), and how it ends;
/// `None` when the calls are not the ones the loop makes. Each read is
/// preceded by the prompt. A blank line is skipped; `/exit` or `/quit`
/// writes `bye` and ends; the end of the input ends the prompt line and
/// ends. Any other line, trimmed, is run as a turn: a failed turn writes
/// `ERROR: <message>` and the loop goes on; a successful one with a
/// non-blank answer has the answer formatted and writes what the runner
/// formatted it as; after a successful turn the session is saved, and a
/// failed save ends the loop.
pub open spec fn replay(lines: Seq<Seq<char>>, calls: Seq<RunnerCall>) -> Option<(Seq<char>, ReplEnd)>
    decreases lines.len(),
{
    if lines.len() == 0 {
        if calls.len() == 0 {
            Some((prompt_text() + "\n"@, ReplEnd::Finished))
        } else {
            None
        }
    } else {
        let p = trim(lines[0]);
        if p.len() == 0 {
            match replay(lines.skip(1), calls) {
                Some(x) => Some((prompt_text() + x.0, x.1)),
                None => None,
            }
        } else if p == "/exit"@ || p == "/quit"@ {
            if calls.len() == 0 {
                Some((prompt_text() + "bye\n"@, ReplEnd::Finished))
            } else {
                None
            }
        } else if calls.len() == 0 {
            None
        } else {
            match calls[0] {
                RunnerCall::Turn(q, outcome) => if q != p {
                    None
                } else {
                    match outcome {
                        Err(m) => match replay(lines.skip(1), calls.skip(1)) {
                            Some(x) => Some((prompt_text() + turn_text(outcome, Seq::empty()) + x.0, x.1)),
                            None => None,
                        },
                        Ok(a) => {
                            let shown = !is_blank(a);
                            let k: int = if shown { 2 } else { 1 };
                            if calls.len() <= k {
                                None
                            } else if shown && formatted_as(calls[1], a) is None {
                                None
                            } else {
                                let f = if shown { formatted_as(calls[1], a)->0 } else { Seq::empty() };
                                let text = prompt_text() + turn_text(outcome, f);
                                match calls[k] {
                                    RunnerCall::Save(Err(m)) => if calls.len() == k + 1 {
                                        Some((text, ReplEnd::SaveFailed(m)))
                                    } else {
                                        None
                                    },
                                    RunnerCall::Save(Ok(_)) => match replay(lines.skip(1), calls.skip(k + 1)) {
                                        Some(x) => Some((text + x.0, x.1)),
                                        None => None,
                                    },
                                    _ => None,
                                }
                            }
                        },
                    }
                },
                _ => None,
            }
        }
    }
}

/// What a replay writes.
pub open spec fn replay_text(x: Option<(Seq<char>, ReplEnd)>) -> Seq<char> {
    match x {
        Some(y) => y.0,
        None => Seq::empty(),
    }
}

/// How a replay ends.
pub open spec fn replay_end_of(x: Option<(Seq<char>, ReplEnd)>) -> ReplEnd {
    match x {
        Some(y) => y.1,
        None => ReplEnd::Finished,
    }
}

/// How a result of the loop ends it.
pub open spec fn repl_end(r: Result<(), ReplError>) -> Option<ReplEnd> {
    match r {
        Ok(_) => Some(ReplEnd::Finished),
        Err(ReplError::Runner(m)) => Some(ReplEnd::SaveFailed(m@)),
        Err(ReplError::Io(_)) => None,
    }
}

/// The loop so far: after the calls `cs`, having written `w`, whatever the
/// rest of the lines from `i` gives is added to it.
pub open spec fn replay_prefix(lines: Seq<Seq<char>>, i: int, cs: Seq<RunnerCall>, w: Seq<char>) -> bool {
    forall|rc: Seq<RunnerCall>|
        #[trigger] replay(lines.skip(i), rc) is Some ==> replay(lines, cs + rc) == Some(
            (w + replay_text(replay(lines.skip(i), rc)), replay_end_of(replay(lines.skip(i), rc))),
        )
}

/// The text the loop writes after a turn with the outcome (the answer
/// formatted as `formatted`), and whether the session is then saved: only
/// after a successful turn.
pub fn after_turn(outcome: &Result<String, String>, formatted: &str) -> (r: (String, bool))
    ensures
        r.0@ == turn_text(outcome_view(*outcome), formatted@),
        r.1 == (outcome is Ok),
{
    match outcome {
        Ok(answer) => {
            if is_blank_str(answer.as_str()) {
                (String::new(), true)
            } else {
                let mut r = owned(formatted);
                push_str(&mut r, "\n");
                (r, true)
            }
        },
        Err(message) => {
            let mut r = owned("ERROR: ");
            push_str(&mut r, message.as_str());
            push_str(&mut r, "\n");
            proof {
                assert(r@ =~= error_line(message@));
            }
            (r, false)
        },
    }
}

/// What the loop writes after a turn: nothing for a blank answer, the
/// answer as formatted on a line of its own otherwise, and
/// `ERROR: <message>` on a line of its own for a failed turn.
pub open spec fn turn_text(outcome: Result<Seq<char>, Seq<char>>, formatted: Seq<char>) -> Seq<char> {
    match outcome {
        Ok(answer) => if is_blank(answer) {
            Seq::empty()
        } else {
            formatted + "\n"@
        },
        Err(message) => error_line(message),
    }
}

/// Runs the loop over an input, writing to `output` and running turns on
/// the runner, as [`replay`] describes: the calls the loop makes on the
/// runner and what it writes are those `replay` gives for the lines of the
/// input and the runner's answers, and its result says how it ended.
#[verifier::spinoff_prover]
#[verifier::rlimit(100)]
pub fn run_repl<T: ReplTurnRunner>(input: &str, output: &mut String, runner: &mut T) -> (r: Result<(), ReplError>)
    ensures
        old(runner).calls().len() <= final(runner).calls().len(),
        final(runner).calls().take(old(runner).calls().len() as int) == old(runner).calls(),
        old(output)@.len() <= final(output)@.len(),
        final(output)@.take(old(output)@.len() as int) == old(output)@,
        repl_end(r) is Some,
        replay(input_lines(input@), final(runner).calls().skip(old(runner).calls().len() as int)) == Some(
            (final(output)@.skip(old(output)@.len() as int), repl_end(r)->0),
        ),
{
    let lines = read_lines(input);
    let ghost ls = views(lines@);
    let ghost start = output@;
    let ghost calls0 = runner.calls();
    let ghost mut cs: Seq<RunnerCall> = Seq::empty();
    let ghost mut w: Seq<char> = Seq::empty();
    let mut i: usize = 0;
    proof {
        assert(ls.skip(0) =~= ls);
        assert forall|rc: Seq<RunnerCall>| #[trigger] replay(ls.skip(0), rc) is Some implies replay(ls, cs + rc)
            == Some((w + replay_text(replay(ls.skip(0), rc)), replay_end_of(replay(ls.skip(0), rc)))) by {
            assert(cs + rc =~= rc);
            assert(w + replay_text(replay(ls.skip(0), rc)) =~= replay_text(replay(ls.skip(0), rc)));
        }
    }
    loop
        invariant
            i <= ls.len(),
            ls == views(lines@),
            ls == input_lines(input@),
            start == old(output)@,
            calls0 == old(runner).calls(),
            runner.calls() == calls0 + cs,
            output@ == start + w,
            replay_prefix(ls, i as int, cs, w),
        decreases ls.len() - i,
    {
        push_str(output, "commandagent> ");
        proof {
            reveal_strlit("commandagent> ");
        }
        let ghost i0 = i as int;
        let ghost rest = ls.skip(i as int);
        if i >= lines.len() {
            push_str(output, "\n");
            proof {
                reveal_strlit("\n");
                assert(rest.len() == 0);
                let e: Seq<RunnerCall> = Seq::empty();
                assert(replay(rest, e) == Some((prompt_text() + "\n"@, ReplEnd::Finished)));
                assert(runner.calls() =~= calls0 + (cs + e));
                assert(output@ =~= start + w + (prompt_text() + "\n"@));
                lemma_replay_end(ls, i0, cs, w, e, calls0, start, runner.calls(), output@, prompt_text() + "\n"@, ReplEnd::Finished);
            }
            return Ok(());
        }
        let action = repl_action(Some(lines[i].as_str()));
        proof {
            assert(rest[0] == ls[i as int]);
            assert(rest.skip(1) =~= ls.skip(i + 1));
            reveal_strlit("bye\n");
        }
        i = i + 1;
        match action {
            ReplAction::EndOfInput | ReplAction::Skip => {
                proof {
                    let w2 = w + prompt_text();
                    assert forall|rc: Seq<RunnerCall>| #[trigger] replay(ls.skip(i as int), rc) is Some implies replay(
                        ls,
                        cs + rc,
                    ) == Some((w2 + replay_text(replay(ls.skip(i as int), rc)), replay_end_of(replay(ls.skip(i as int), rc)))) by {
                        let x = replay(ls.skip(i as int), rc)->0;
                        assert(replay(rest, rc) == Some((prompt_text() + x.0, x.1)));
                        assert(w + (prompt_text() + x.0) =~= w2 + x.0);
                    }
                    w = w2;
                }
            },
            ReplAction::Exit => {
                push_str(output, "bye\n");
                proof {
                    let e: Seq<RunnerCall> = Seq::empty();
                    assert(replay(rest, e) == Some((prompt_text() + "bye\n"@, ReplEnd::Finished)));
                    assert(runner.calls() =~= calls0 + (cs + e));
                    assert(output@ =~= start + w + (prompt_text() + "bye\n"@));
                    lemma_replay_end(ls, i0, cs, w, e, calls0, start, runner.calls(), output@, prompt_text() + "bye\n"@, ReplEnd::Finished);
                }
                return Ok(());
            },
            ReplAction::Run(prompt) => {
                let outcome = runner.run_turn(prompt.as_str());
                let ghost turn = RunnerCall::Turn(prompt@, outcome_view(outcome));
                let ghost mut fcall: Seq<RunnerCall> = Seq::empty();
                let shown = match &outcome {
                    Ok(answer) => if !is_blank_str(answer.as_str()) {
                        let f = runner.format_answer(answer.as_str());
                        proof {
                            fcall = seq![RunnerCall::Format(answer@, f@)];
                        }
                        f
                    } else {
                        String::new()
                    },
                    Err(_) => String::new(),
                };
                proof {
                    assert(runner.calls() =~= calls0 + (cs + (seq![turn] + fcall)));
                }
                let (text, save) = after_turn(&outcome, shown.as_str());
                push_str(output, text.as_str());
                if save {
                    let saved = runner.save();
                    let ghost sv = RunnerCall::Save(save_view(saved));
                    let ghost head = seq![turn] + fcall + seq![sv];
                    let ghost k: int = fcall.len() as int;
                    proof {
                        assert(runner.calls() =~= calls0 + (cs + head));
                        assert(head[0] == turn);
                        assert(head[k + 1] == sv);
                        assert(head.len() == k + 2);
                        if k == 1 {
                            assert(head[1] == fcall[0]);
                        }
                    }
                    match saved {
                        Ok(()) => {
                            proof {
                                let w2 = w + prompt_text() + text@;
                                let cs2 = cs + head;
                                assert forall|rc: Seq<RunnerCall>| #[trigger] replay(ls.skip(i as int), rc) is Some implies replay(
                                    ls,
                                    cs2 + rc,
                                ) == Some((w2 + replay_text(replay(ls.skip(i as int), rc)), replay_end_of(replay(ls.skip(i as int), rc)))) by {
                                    let x = replay(ls.skip(i as int), rc)->0;
                                    let crc = head + rc;
                                    assert(crc[0] == turn);
                                    assert(crc[k + 1] == sv);
                                    if k == 1 {
                                        assert(crc[1] == fcall[0]);
                                    }
                                    assert(crc.skip(k + 2) =~= rc);
                                    assert(replay(rest, crc) == Some((prompt_text() + text@ + x.0, x.1)));
                                    assert(cs + crc =~= cs2 + rc);
                                    assert(w + (prompt_text() + text@ + x.0) =~= w2 + x.0);
                                }
                                cs = cs2;
                                w = w2;
                                assert(output@ =~= start + w);
                            }
                        },
                        Err(e) => {
                            proof {
                                assert(replay(rest, head) == Some((prompt_text() + text@, ReplEnd::SaveFailed(e@))));
                                assert(output@ =~= start + w + (prompt_text() + text@));
                                lemma_replay_end(ls, i0, cs, w, head, calls0, start, runner.calls(), output@, prompt_text() + text@, ReplEnd::SaveFailed(e@));
                            }
                            return Err(ReplError::Runner(e));
                        },
                    }
                } else {
                    proof {
                        assert(fcall.len() == 0);
                        let w2 = w + prompt_text() + text@;
                        let cs2 = cs.push(turn);
                        assert forall|rc: Seq<RunnerCall>| #[trigger] replay(ls.skip(i as int), rc) is Some implies replay(
                            ls,
                            cs2 + rc,
                        ) == Some((w2 + replay_text(replay(ls.skip(i as int), rc)), replay_end_of(replay(ls.skip(i as int), rc)))) by {
                            let x = replay(ls.skip(i as int), rc)->0;
                            let crc = seq![turn] + rc;
                            assert(crc[0] == turn);
                            assert(crc.skip(1) =~= rc);
                            assert(replay(rest, crc) == Some((prompt_text() + text@ + x.0, x.1)));
                            assert(cs + crc =~= cs2 + rc);
                            assert(w + (prompt_text() + text@ + x.0) =~= w2 + x.0);
                        }
                        cs = cs2;
                        w = w2;
                        assert(runner.calls() =~= calls0 + cs);
                        assert(output@ =~= start + w);
                    }
                }
            },
        }
    }
}

/// At the end of a run: the rest of the lines replay as `tail` with the
/// calls `rc`, so the whole input replays as all that was written with all
/// the calls made.
proof fn lemma_replay_end(
    ls: Seq<Seq<char>>,
    i: int,
    cs: Seq<RunnerCall>,
    w: Seq<char>,
    rc: Seq<RunnerCall>,
    calls0: Seq<RunnerCall>,
    start: Seq<char>,
    calls: Seq<RunnerCall>,
    out: Seq<char>,
    tail: Seq<char>,
    end: ReplEnd,
)
    requires
        replay_prefix(ls, i, cs, w),
        replay(ls.skip(i), rc) == Some((tail, end)),
        calls == calls0 + (cs + rc),
        out == start + w + tail,
    ensures
        calls0.len() <= calls.len(),
        calls.take(calls0.len() as int) == calls0,
        start.len() <= out.len(),
        out.take(start.len() as int) == start,
        replay(ls, calls.skip(calls0.len() as int)) == Some((out.skip(start.len() as int), end)),
{
    assert(calls.take(calls0.len() as int) =~= calls0);
    assert(calls.skip(calls0.len() as int) =~= cs + rc);
    assert(out.take(start.len() as int) =~= start);
    assert(out.skip(start.len() as int) =~= w + tail);
}

} // verus!
