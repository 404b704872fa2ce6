use commandagent::slash_command::{
    cat_references, check_file_reference_size, check_reference_path, parse_expanded_slash_command, parse_slash_command,
    SlashCommandError, SlashCommandKind, MAX_FILE_REF_BYTES,
};

fn parse_without_files(input: &str) -> Result<Option<commandagent::slash_command::SlashCommand>, SlashCommandError> {
    assert!(cat_references(input).is_empty());
    parse_slash_command(input, &Vec::new())
}

#[test]
fn returns_none_for_plain_prompt() {
    let parsed = parse_without_files("create README").unwrap();

    assert_eq!(parsed, None);
}

#[test]
fn parses_ultra_plan_run_options_and_goal() {
    let parsed = parse_without_files(
        r#"/ultra-plan-run --profile nextjs --style tdd --intent modify --artifact app/page.tsx "build a game""#,
    )
    .unwrap()
    .unwrap();

    assert_eq!(parsed.kind, SlashCommandKind::UltraPlanRun);
    assert_eq!(parsed.profile.as_deref(), Some("nextjs"));
    assert_eq!(parsed.style.as_deref(), Some("tdd"));
    assert_eq!(parsed.intent.as_deref(), Some("modify"));
    assert_eq!(parsed.artifacts, vec!["app/page.tsx"]);
    assert_eq!(parsed.argument, "build a game");
}

#[test]
fn expands_commandagent_cat_file_reference() {
    let input = r#"/ultra-plan-run --profile nextjs "$(cat .commandagent/repairs/repair.md)""#;
    let paths = cat_references(input);
    assert_eq!(paths, vec![".commandagent/repairs/repair.md".to_string()]);

    let parsed = parse_slash_command(input, &vec![Ok("fix build".to_string())])
        .unwrap()
        .unwrap();

    assert_eq!(parsed.argument, "fix build");
}

#[test]
fn rejects_file_reference_path_escape() {
    let input = r#"/ultra-plan-run "$(cat ../repair.md)""#;
    assert_eq!(cat_references(input), vec!["../repair.md".to_string()]);

    let read = check_reference_path("../repair.md");
    assert_eq!(read, Err(SlashCommandError::Path("path escapes workspace: ../repair.md".to_string())));
    let err = parse_slash_command(input, &vec![read.map(|_| String::new())]).unwrap_err();

    assert!(matches!(err, SlashCommandError::Path(_)));
}

#[test]
fn rejects_unknown_slash_command() {
    let err = parse_without_files("/unknown do thing").unwrap_err();

    assert_eq!(err, SlashCommandError::UnknownCommand("/unknown".to_string()));
}

#[test]
fn every_command_word_names_its_kind() {
    let cases = [
        ("/plan-steps", SlashCommandKind::PlanSteps),
        ("/plan-run", SlashCommandKind::PlanRun),
        ("/run-plan", SlashCommandKind::RunPlan),
        ("/ultra-plan", SlashCommandKind::UltraPlan),
        ("/ultra-plan-run", SlashCommandKind::UltraPlanRun),
        ("/run-ultra-plan", SlashCommandKind::RunUltraPlan),
    ];
    for (word, kind) in cases {
        let parsed = parse_without_files(&format!("  {word}   Create README  ")).unwrap().unwrap();
        assert_eq!(parsed.kind, kind);
        assert_eq!(parsed.argument, "Create README");
        assert_eq!(parsed.profile, None);
        assert!(parsed.artifacts.is_empty());
    }
}

#[test]
fn equals_forms_and_repeated_artifacts() {
    let parsed = parse_without_files(
        "/plan-run --profile=docs --artifact=a.md --artifact b.md --style=lean --intent=create write docs",
    )
    .unwrap()
    .unwrap();
    assert_eq!(parsed.profile.as_deref(), Some("docs"));
    assert_eq!(parsed.style.as_deref(), Some("lean"));
    assert_eq!(parsed.intent.as_deref(), Some("create"));
    assert_eq!(parsed.artifacts, vec!["a.md".to_string(), "b.md".to_string()]);
    assert_eq!(parsed.argument, "write docs");
}

#[test]
fn options_after_the_goal_are_part_of_it() {
    let parsed = parse_without_files("/plan-steps build it --profile docs").unwrap().unwrap();
    assert_eq!(parsed.profile, None);
    assert_eq!(parsed.argument, "build it --profile docs");
}

#[test]
fn later_profile_replaces_earlier() {
    let parsed = parse_without_files("/plan-run --profile a --profile=b go").unwrap().unwrap();
    assert_eq!(parsed.profile.as_deref(), Some("b"));
}

#[test]
fn missing_option_value_is_an_error() {
    for option in ["--profile", "--style", "--intent", "--artifact"] {
        let err = parse_without_files(&format!("/plan-run {option}")).unwrap_err();
        assert_eq!(err, SlashCommandError::MissingOptionValue(option.to_string()));
        assert_eq!(err.to_string(), format!("missing value for {option}"));
    }
}

#[test]
fn unclosed_quote_is_an_error() {
    let err = parse_without_files("/plan-run \"never closed").unwrap_err();
    assert_eq!(err, SlashCommandError::UnclosedQuote);
    assert_eq!(err.to_string(), "unclosed quote in slash command");
}

#[test]
fn quotes_and_backslashes_group_and_escape() {
    let parsed = parse_without_files(r#"/plan-run --profile 'my docs' a\ b "c  d""#).unwrap().unwrap();
    assert_eq!(parsed.profile.as_deref(), Some("my docs"));
    assert_eq!(parsed.argument, "a b c  d");
}

#[test]
fn unclosed_file_reference_is_an_error() {
    let input = "/plan-run $(cat notes.md";
    assert!(cat_references(input).is_empty());
    let err = parse_slash_command(input, &Vec::new()).unwrap_err();
    assert_eq!(err, SlashCommandError::UnclosedFileReference);
    assert_eq!(err.to_string(), "unclosed $(cat ...) file reference");
}

#[test]
fn read_error_comes_before_a_later_unclosed_reference() {
    let input = "/plan-run $(cat a.md) and $(cat b.md";
    assert_eq!(cat_references(input), vec!["a.md".to_string()]);
    let io = SlashCommandError::Io { path: "a.md".to_string(), message: "not found".to_string() };
    let err = parse_slash_command(input, &vec![Err(io.clone())]).unwrap_err();
    assert_eq!(err, io);
    assert_eq!(err.to_string(), "a.md: not found");
}

#[test]
fn several_references_are_spliced_in_order() {
    let input = "/plan-steps $(cat  'a.md' ) then $(cat \"b.md\") end";
    assert_eq!(cat_references(input), vec!["a.md".to_string(), "b.md".to_string()]);
    let parsed = parse_slash_command(input, &vec![Ok("first".to_string()), Ok("second".to_string())])
        .unwrap()
        .unwrap();
    assert_eq!(parsed.argument, "first then second end");
}

#[test]
fn plain_input_references_nothing() {
    assert!(cat_references("hello $(cat a.md)").is_empty());
    assert_eq!(parse_slash_command("hello $(cat a.md)", &Vec::new()).unwrap(), None);
}

#[test]
fn expanded_command_parses_without_references() {
    let parsed = parse_expanded_slash_command("/run-plan").unwrap();
    assert_eq!(parsed.kind, SlashCommandKind::RunPlan);
    assert_eq!(parsed.argument, "");
}

#[test]
fn file_reference_size_limit() {
    assert_eq!(MAX_FILE_REF_BYTES, 32 * 1024);
    assert_eq!(check_file_reference_size("a.md", 32768), Ok(()));
    let err = check_file_reference_size("a.md", 32769).unwrap_err();
    assert_eq!(
        err,
        SlashCommandError::FileReferenceTooLarge { path: "a.md".to_string(), bytes: 32769, max: 32768 }
    );
    assert_eq!(err.to_string(), "file reference is too large: a.md has 32769 bytes; max is 32768");
}

#[test]
fn unknown_command_message() {
    let err = SlashCommandError::UnknownCommand("/x".to_string());
    assert_eq!(err.to_string(), "unknown slash command: /x");
}

#[test]
fn reference_paths_inside_the_workspace() {
    assert_eq!(check_reference_path(".commandagent/repairs/repair.md"), Ok(()));
    assert_eq!(check_reference_path("a/./b.md"), Ok(()));
    assert!(check_reference_path("/etc/passwd").is_err());
    assert!(check_reference_path("a/../../b").is_err());
}
