use budgey::budgey_config::BudgeyConfig;
use budgey::budgey_context::BudgeyContext;
use budgey::budgey_state::BudgeyState;
use budgey::utils::{create_budgey_path, create_json_path};

#[test]
fn get_budget_path_gives_custom_path() {
    let sample = BudgeyConfig::new("test", "path.json");
    let expected = "test/path.json";
    let actual = sample.get_budget_path("path.json");
    assert_eq!(expected, actual);
}

#[test]
fn update_state_changes_context_state() {
    let state = BudgeyState::new(&vec!["budget_one".to_string()], "budget_one");
    let new_state = BudgeyState::new(
        &vec!["budget_one".to_string(), "budgey_two".to_string()],
        "budget_one",
    );
    let config = BudgeyConfig::new("test/", "path.json");
    let sample = BudgeyContext::new(&state, &config);
    let expected = BudgeyContext::new(&new_state, &config);
    let actual = sample.update_state(&new_state);
    assert_eq!(expected, actual);
}

#[test]
fn get_current_budget_json_path() {
    let sample = BudgeyContext::new(
        &BudgeyState::new(&vec!["test_budget".to_string()], "test_budget"),
        &BudgeyConfig::new("test", "state.json"),
    );

    let expected = "test/test_budget/test_budget.json";
    let actual = sample.get_current_budget_json_path();
    assert_eq!(expected, actual);
}

#[test]
fn get_current_budget_path() {
    let sample = BudgeyContext::new(
        &BudgeyState::new(&vec![], "test_budget"),
        &BudgeyConfig::new("test", "state.json"),
    );
    let expected = "test/test_budget";
    let actual = sample.get_current_budget_path();
    assert_eq!(expected, actual);
}

#[test]
fn test_create_pile_json_path() {
    let data = "~";
    let expected = "~/budgey/";
    let actual = create_budgey_path(data);
    assert_eq!(expected, actual);
}

#[test]
fn test_create_json_path() {
    let budgey_path = "/tmp";
    let name = "test";
    let expected = "/tmp/test.json";
    let result = create_json_path(budgey_path, name);
    assert_eq!(expected, result);
}

#[test]
fn get_state_path_joins_root_and_state_file() {
    let sample = BudgeyConfig::new("/home/user/.budgey", "budgey_state.json");
    assert_eq!(
        "/home/user/.budgey/budgey_state.json",
        sample.get_state_path()
    );
}

#[test]
fn create_json_file_name_appends_extension() {
    assert_eq!("ledger.json", budgey::utils::create_json_file_name("ledger"));
}

#[test]
fn concat_paths_joins_with_slash() {
    assert_eq!("a/b", budgey::utils::concat_paths("a", "b"));
}

#[test]
fn get_current_budget_name_returns_focused() {
    let sample = BudgeyContext::new(
        &BudgeyState::new(&vec!["alpha".to_string()], "alpha"),
        &BudgeyConfig::new("root", "state.json"),
    );
    assert_eq!("alpha", sample.get_current_budget_name());
}

#[test]
fn contains_budget_reports_known_and_unknown() {
    let sample = BudgeyContext::new(
        &BudgeyState::new(&vec!["alpha".to_string(), "beta".to_string()], "alpha"),
        &BudgeyConfig::new("root", "state.json"),
    );
    assert!(sample.contains_budget("beta"));
    assert!(!sample.contains_budget("gamma"));
}
