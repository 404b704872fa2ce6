use commandagent::budget::{
    enforce_tool_result_budget, BudgetAction, BudgetContract, BudgetDecision, BudgetScope,
    BudgetUsage, ToolResultBudget,
};

#[test]
fn budget_check_stops_on_model_request_limit() {
    let contract = BudgetContract {
        max_model_requests: Some(2),
        ..BudgetContract::default()
    };
    let usage = BudgetUsage {
        model_requests: 3,
        ..BudgetUsage::default()
    };

    assert_eq!(
        contract.check(BudgetScope::Step, &usage),
        BudgetDecision::Exceeded {
            scope: BudgetScope::Step,
            action: BudgetAction::Stop,
            reason: "max_model_requests".to_string(),
        }
    );
}

#[test]
fn tool_result_budget_records_truncation() {
    let (output, record) = enforce_tool_result_budget(
        "abcdef".to_string(),
        ToolResultBudget {
            max_output_chars: 3,
        },
    );

    assert!(record.truncated);
    assert_eq!(record.original_chars, 6);
    assert!(output.starts_with("abc"));
    assert!(output.contains("tool result truncated"));
}

#[test]
fn budget_check_reports_first_limit_in_order() {
    let contract = BudgetContract {
        max_input_tokens: Some(10),
        max_cumulative_tokens: Some(5),
        ..BudgetContract::default()
    };
    let usage = BudgetUsage {
        input_tokens: 11,
        cumulative_tokens: 6,
        ..BudgetUsage::default()
    };
    assert_eq!(
        contract.check(BudgetScope::Job, &usage),
        BudgetDecision::Exceeded {
            scope: BudgetScope::Job,
            action: BudgetAction::Stop,
            reason: "max_input_tokens".to_string(),
        }
    );
    let usage = BudgetUsage {
        cumulative_tokens: 6,
        ..BudgetUsage::default()
    };
    assert_eq!(
        contract.check(BudgetScope::Job, &usage),
        BudgetDecision::Exceeded {
            scope: BudgetScope::Job,
            action: BudgetAction::DeterministicCompaction,
            reason: "max_cumulative_tokens".to_string(),
        }
    );
    assert_eq!(
        BudgetContract::default().check(BudgetScope::Job, &usage),
        BudgetDecision::WithinBudget
    );
}

#[test]
fn tool_result_within_budget_is_unchanged() {
    let (output, record) = enforce_tool_result_budget(
        "abc".to_string(),
        ToolResultBudget { max_output_chars: 3 },
    );
    assert_eq!(output, "abc");
    assert!(!record.truncated);
    assert_eq!(record.returned_chars, 3);
    assert_eq!(record.reason, "within_budget");
    assert_eq!(ToolResultBudget::default().max_output_chars, 65536);
}

#[test]
fn tool_result_truncation_counts_returned_chars() {
    let (output, record) = enforce_tool_result_budget(
        "héllo wörld".to_string(),
        ToolResultBudget { max_output_chars: 2 },
    );
    assert_eq!(output, "hé\n[commandagent: tool result truncated by budget]");
    assert_eq!(record.returned_chars, output.chars().count());
    assert_eq!(record.original_chars, 11);
}
