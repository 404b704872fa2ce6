use commandagent::command_classification::{classify_shell_command, CommandAuthority, CommandClass};

#[test]
fn classifies_verifier_commands() {
    let cases = ["cargo test", "npm run build", "python -m pytest tests"];
    for case in cases {
        let classified = classify_shell_command(case);
        assert_eq!(classified.command_class, CommandClass::Verifier);
        assert_eq!(classified.authority, CommandAuthority::OriginalVerifier);
    }
}

#[test]
fn classifies_dependency_install_as_policy_required() {
    let classified = classify_shell_command("npm install");

    assert_eq!(classified.command_class, CommandClass::NetworkOrDependency);
    assert_eq!(
        classified.authority,
        CommandAuthority::ExplicitSetupPolicyRequired
    );
}

#[test]
fn classifies_setup_checks_and_workspace_inspection() {
    assert_eq!(
        classify_shell_command("node --version").command_class,
        CommandClass::SetupCheck
    );
    assert_eq!(
        classify_shell_command("rg TODO src").authority,
        CommandAuthority::ReadOnlyInspection
    );
}

#[test]
fn blocks_compound_shell_control() {
    let classified = classify_shell_command("npm install && npm run build");

    assert_eq!(classified.command_class, CommandClass::Blocked);
    assert_eq!(classified.authority, CommandAuthority::BlockedByPolicy);
}

#[test]
fn exposes_eval_fields() {
    let fields = classify_shell_command("cargo test").eval_report_fields();

    assert!(fields.contains(&"setup_command_classification=verifier".to_string()));
    assert!(fields.contains(&"command_authority=original_verifier".to_string()));
}

#[test]
fn empty_and_unknown_commands_have_distinct_reasons() {
    let empty = classify_shell_command("   ");
    assert_eq!(empty.command_class, CommandClass::Unknown);
    assert_eq!(empty.reason, "empty command");
    let other = classify_shell_command("make all");
    assert_eq!(other.command_class, CommandClass::Unknown);
    assert_eq!(other.reason, "command has no deterministic class");
}

#[test]
fn classifies_mutation_setup_execution_and_pipes() {
    assert_eq!(classify_shell_command("git status").command_class, CommandClass::Mutation);
    assert_eq!(
        classify_shell_command("cargo  generate-lockfile").authority,
        CommandAuthority::VerifierOwnedSetup
    );
    assert_eq!(classify_shell_command("ls|wc").command_class, CommandClass::Blocked);
    assert_eq!(classify_shell_command("echo `id`").command_class, CommandClass::Blocked);
}

#[test]
fn reason_field_joins_words_with_underscores() {
    let fields = classify_shell_command("pwd").eval_report_fields();
    assert_eq!(
        fields[2],
        "command_classification_reason=command_is_read-only_workspace_inspection"
    );
}
