use calendar::cli::Command;
use calendar::config::{
    default_max_concurrent, default_max_retries, default_retry_delay, default_timeout,
    default_user_agent, Config,
};
use calendar::date_utils::Date;

fn config() -> Config {
    Config {
        start_date: Date::from_ymd_opt(2024, 1, 1).unwrap(),
        base_url: "https://example.com/images/{year}/{month:02}/{day:02}.jpg".to_string(),
        output_dir: "./images".to_string(),
        filename_format: "{yyyy}{mm}{dd}.jpg".to_string(),
        max_concurrent: default_max_concurrent(),
        user_agent: default_user_agent(),
        timeout: default_timeout(),
        max_retries: default_max_retries(),
        retry_delay_ms: default_retry_delay(),
    }
}

#[test]
fn test_default_values() {
    let c = config();
    assert_eq!(c.max_concurrent, 3);
    assert_eq!(c.user_agent, "Mozilla/5.0");
    assert_eq!(c.timeout, 30);
    assert_eq!(c.max_retries, 3);
    assert_eq!(c.retry_delay_ms, 1000);
}

#[test]
fn test_merge_cli_defaults() {
    let command = Command::Run {
        start_date: Some("2024-06-01".to_string()),
        end_date: Some("2024-06-30".to_string()),
        overwrite: true,
        download_only: false,
    };
    let defaults = config().merge_cli_defaults(&command);
    assert_eq!(defaults.start_date_override, Some("2024-06-01".to_string()));
    assert_eq!(defaults.end_date, Some("2024-06-30".to_string()));
    assert!(defaults.overwrite);
}

#[test]
fn process_settings_come_from_the_command() {
    let command = Command::Process { date: None, dates: None, overwrite: true, metadata_only: true };
    let d = config().merge_cli_defaults(&command);
    assert!(d.start_date_override.is_none() && d.end_date.is_none());
    assert!(d.overwrite && d.metadata_only && !d.download_only);
}

#[test]
fn effective_dates() {
    let c = config();
    assert_eq!(c.get_effective_start_date(&None).unwrap(), c.start_date);
    let s = c.get_effective_start_date(&Some("2024-06-01".to_string())).unwrap();
    assert_eq!((s.year(), s.month(), s.day()), (2024, 6, 1));
    assert!(c.get_effective_start_date(&Some("bad".to_string())).is_err());
    assert!(c.get_effective_end_date(&None).unwrap().is_none());
    assert!(c.get_effective_end_date(&Some("2024-06-30".to_string())).unwrap().is_some());
    assert!(c.get_effective_end_date(&Some("2024-06-31".to_string())).is_err());
}

#[test]
fn test_apply_env_overrides() {
    let c = config().apply_overrides(Some("EnvAgent/2.0".to_string()), Some("120".to_string()));
    assert_eq!(c.user_agent, "EnvAgent/2.0");
    assert_eq!(c.timeout, 120);
    assert_eq!(c.max_concurrent, 3);
    let c = config().apply_overrides(None, Some("soon".to_string()));
    assert_eq!(c.user_agent, "Mozilla/5.0");
    assert_eq!(c.timeout, 30);
}

#[test]
fn retry_disabled_without_retries() {
    let mut c = config();
    c.max_retries = 0;
    let policy = c.retry_config();
    assert!(!policy.enabled);
    assert_eq!(policy.max_delay_ms, 30000);
    let new_start = Date::from_ymd_opt(2024, 7, 1).unwrap();
    c.update_start_date(new_start);
    assert_eq!(c.start_date, new_start);
}

#[test]
fn start_date_advances_only_forward_and_without_override() {
    let c = config();
    let later = Date::from_ymd_opt(2024, 6, 3).unwrap();
    let earlier = Date::from_ymd_opt(2023, 12, 31).unwrap();
    assert_eq!(c.advanced_start_date(Some(later), false), Some(later));
    assert_eq!(c.advanced_start_date(Some(later), true), None);
    assert_eq!(c.advanced_start_date(Some(earlier), false), None);
    assert_eq!(c.advanced_start_date(Some(c.start_date), false), None);
    assert_eq!(c.advanced_start_date(None, false), None);
}
