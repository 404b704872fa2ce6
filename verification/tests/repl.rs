use commandagent::repl::{
    after_turn, repl_action, run_repl, trimmed_answer, ReplAction, ReplError, ReplTurnRunner,
};
use std::collections::VecDeque;

struct MockRunner {
    responses: VecDeque<Result<String, String>>,
    prompts: Vec<String>,
    save_count: usize,
    save_fails: bool,
}

impl MockRunner {
    fn new(responses: Vec<Result<String, String>>) -> Self {
        Self {
            responses: VecDeque::from(responses),
            prompts: Vec::new(),
            save_count: 0,
            save_fails: false,
        }
    }
}

impl ReplTurnRunner for MockRunner {
    fn run_turn(&mut self, prompt: &str) -> Result<String, String> {
        self.prompts.push(prompt.to_string());
        self.responses
            .pop_front()
            .unwrap_or_else(|| Err("missing mock response".to_string()))
    }

    fn save(&mut self) -> Result<(), String> {
        self.save_count += 1;
        if self.save_fails {
            Err("disk full".to_string())
        } else {
            Ok(())
        }
    }

    fn format_answer(&mut self, answer: &str) -> String {
        trimmed_answer(answer)
    }
}

#[test]
fn repl_skips_empty_lines_and_exits() {
    let mut runner = MockRunner::new(vec![]);
    let mut output = String::new();

    run_repl("\n/exit\n", &mut output, &mut runner).unwrap();

    assert_eq!(runner.prompts, Vec::<String>::new());
    assert_eq!(runner.save_count, 0);
    assert!(output.contains("commandagent> "));
    assert!(output.contains("bye"));
}

#[test]
fn repl_runs_turn_and_saves_after_success() {
    let mut runner = MockRunner::new(vec![Ok("done".to_string())]);
    let mut output = String::new();

    run_repl("create file\n/quit\n", &mut output, &mut runner).unwrap();

    assert_eq!(runner.prompts, vec!["create file"]);
    assert_eq!(runner.save_count, 1);
    assert!(output.contains("done"));
}

#[test]
fn repl_reports_turn_error_and_continues() {
    let mut runner = MockRunner::new(vec![Err("failed".to_string()), Ok("ok".to_string())]);
    let mut output = String::new();

    run_repl("bad\nnext\n/exit\n", &mut output, &mut runner).unwrap();

    assert_eq!(runner.prompts, vec!["bad", "next"]);
    assert_eq!(runner.save_count, 1);
    assert!(output.contains("ERROR: failed"));
    assert!(output.contains("ok"));
}

#[test]
fn repl_writes_exact_transcript_and_ends_at_input_end() {
    let mut runner = MockRunner::new(vec![Ok("  answer  ".to_string()), Ok("   ".to_string())]);
    let mut output = String::new();
    run_repl("  first  \nsecond", &mut output, &mut runner).unwrap();
    assert_eq!(output, "commandagent> answer\ncommandagent> commandagent> \n");
    assert_eq!(runner.prompts, vec!["first", "second"]);
    assert_eq!(runner.save_count, 2);
}

#[test]
fn repl_stops_when_save_fails() {
    let mut runner = MockRunner::new(vec![Ok("x".to_string())]);
    runner.save_fails = true;
    let mut output = String::new();
    let err = run_repl("go\nmore\n", &mut output, &mut runner).unwrap_err();
    assert_eq!(err, ReplError::Runner("disk full".to_string()));
    assert_eq!(err.to_string(), "disk full");
    assert_eq!(runner.prompts, vec!["go"]);
}

#[test]
fn repl_actions_classify_reads() {
    assert_eq!(repl_action(None), ReplAction::EndOfInput);
    assert_eq!(repl_action(Some("  \t ")), ReplAction::Skip);
    assert_eq!(repl_action(Some(" /quit ")), ReplAction::Exit);
    assert_eq!(repl_action(Some(" hi ")), ReplAction::Run("hi".to_string()));
    let mut empty = String::new();
    run_repl("", &mut empty, &mut MockRunner::new(vec![])).unwrap();
    assert_eq!(empty, "commandagent> \n");
}

#[test]
fn after_turn_texts_and_saves() {
    assert_eq!(after_turn(&Ok("  ".to_string()), "ignored"), (String::new(), true));
    assert_eq!(after_turn(&Ok("answer".to_string()), "ANSWER"), ("ANSWER\n".to_string(), true));
    assert_eq!(after_turn(&Err("boom".to_string()), ""), ("ERROR: boom\n".to_string(), false));
}

struct ShoutingRunner {
    formatted: Vec<String>,
}

impl ReplTurnRunner for ShoutingRunner {
    fn run_turn(&mut self, prompt: &str) -> Result<String, String> {
        Ok(format!("  answer to {prompt}  "))
    }

    fn save(&mut self) -> Result<(), String> {
        Ok(())
    }

    fn format_answer(&mut self, answer: &str) -> String {
        self.formatted.push(answer.to_string());
        format!("** {} **", answer.trim().to_uppercase())
    }
}

#[test]
fn repl_writes_what_the_runner_formats() {
    let mut runner = ShoutingRunner { formatted: Vec::new() };
    let mut output = String::new();

    run_repl("hi\n/quit\n", &mut output, &mut runner).unwrap();

    assert_eq!(runner.formatted, vec!["  answer to hi  ".to_string()]);
    assert_eq!(output, "commandagent> ** ANSWER TO HI **\ncommandagent> bye\n");
}

#[test]
fn trimmed_answer_drops_surrounding_whitespace() {
    assert_eq!(trimmed_answer("  done \n"), "done");
}
