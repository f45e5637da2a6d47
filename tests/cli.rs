use calendar::cli::Command;
use calendar::AppError;

fn process(date: Option<&str>, dates: Option<Vec<&str>>) -> Command {
    Command::Process {
        date: date.map(|d| d.to_string()),
        dates: dates.map(|v| v.into_iter().map(|d| d.to_string()).collect()),
        overwrite: false,
        metadata_only: false,
    }
}

#[test]
fn test_cli_process_command_single_date() {
    let command = process(Some("2024-06-15"), None);
    assert!(matches!(command, Command::Process { .. }));
    let dates = command.get_dates().unwrap();
    assert_eq!(dates, vec!["2024-06-15"]);
}

#[test]
fn test_cli_process_command_multiple_dates() {
    let command = process(None, Some(vec!["2024-06-15", "2024-06-20", "2024-06-25"]));
    let dates = command.get_dates().unwrap();
    assert_eq!(dates.len(), 3);
    assert!(dates.contains(&"2024-06-15".to_string()));
    assert!(dates.contains(&"2024-06-20".to_string()));
    assert!(dates.contains(&"2024-06-25".to_string()));
}

#[test]
fn test_cli_process_command_multiple_specifications() {
    let command = process(None, Some(vec!["2024-06-15", "2024-06-20"]));
    let dates = command.get_dates().unwrap();
    assert_eq!(dates.len(), 2);
    assert!(dates.contains(&"2024-06-15".to_string()));
    assert!(dates.contains(&"2024-06-20".to_string()));
}

#[test]
fn test_cli_invalid_date_format() {
    let command = process(Some("invalid"), None);
    let result = command.get_dates();
    assert!(result.is_err());
}

#[test]
fn process_dates_are_sorted_and_deduplicated() {
    let command = process(
        Some("2024-06-20"),
        Some(vec!["2024-06-25", "2024-06-15", "2024-06-20", "2024-06-15"]),
    );
    assert_eq!(command.get_dates().unwrap(), vec!["2024-06-15", "2024-06-20", "2024-06-25"]);
}

#[test]
fn process_without_dates_is_an_argument_error() {
    let command = process(None, Some(vec![]));
    assert!(matches!(command.get_dates(), Err(AppError::ArgumentError(_))));
    let command = process(None, None);
    assert!(matches!(command.get_dates(), Err(AppError::ArgumentError(_))));
}

#[test]
fn invalid_date_is_reported_by_name() {
    let command = process(Some("2024-06-15"), Some(vec!["2024-02-30"]));
    match command.get_dates() {
        Err(AppError::InvalidDate { input, .. }) => assert_eq!(input, "2024-02-30"),
        other => panic!("unexpected {:?}", other),
    }
}

#[test]
fn run_and_config_name_no_dates() {
    let run = Command::Run { start_date: None, end_date: None, overwrite: false, download_only: false };
    assert!(run.get_dates().unwrap().is_empty());
    let config = Command::Config { validate: true };
    assert!(config.get_dates().unwrap().is_empty());
}
