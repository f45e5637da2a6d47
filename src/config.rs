//! Run configuration, as values: defaults, retry policy, and how the
//! command line and overrides combine with the loaded settings.
use vstd::prelude::*;
use crate::cli::Command;
use crate::date_utils::{Date, parse_date, parsed_ymd, ymd_lt};
use crate::downloader::RetryConfig;
use crate::error::AppError;
use crate::text::{parse_u64, parsed_u64};

verus! {

/// Settings of a run.
#[derive(Debug, Clone)]
pub struct Config {
    /// First date to fetch.
    pub start_date: Date,
    /// URL template.
    pub base_url: String,
    /// Directory under which files are stored, one subdirectory per year.
    pub output_dir: String,
    /// File name template.
    pub filename_format: String,
    /// Tasks allowed to run at once (`run` command).
    pub max_concurrent: usize,
    /// User-Agent of requests.
    pub user_agent: String,
    /// Request timeout, in seconds.
    pub timeout: u64,
    /// Attempts allowed after the first one.
    pub max_retries: u32,
    /// Base delay of the retry backoff, in milliseconds.
    pub retry_delay_ms: u64,
}

/// Settings that come from the command line.
#[derive(Debug, Clone)]
pub struct ConfigWithDefaults {
    pub start_date_override: Option<String>,
    pub end_date: Option<String>,
    pub overwrite: bool,
    pub download_only: bool,
    pub metadata_only: bool,
}

/// Upper bound of every retry delay, in milliseconds.
pub const MAX_RETRY_DELAY_MS: u64 = 30000;

/// Default number of concurrent tasks.
pub fn default_max_concurrent() -> (r: usize)
    ensures
        r == 3,
{
    3
}

/// Default User-Agent.
pub fn default_user_agent() -> (r: String)
    ensures
        r@ == "Mozilla/5.0"@,
{
    String::from_str("Mozilla/5.0")
}

/// Default request timeout, in seconds.
pub fn default_timeout() -> (r: u64)
    ensures
        r == 30,
{
    30
}

/// Default number of retries.
pub fn default_max_retries() -> (r: u32)
    ensures
        r == 3,
{
    3
}

/// Default base retry delay, in milliseconds.
pub fn default_retry_delay() -> (r: u64)
    ensures
        r == 1000,
{
    1000
}

fn clone_text(s: &Option<String>) -> (r: Option<String>)
    ensures
        r is Some <==> s is Some,
        r matches Some(t) ==> t@ == s->Some_0@,
{
    match s {
        Some(t) => Some(t.clone()),
        None => None,
    }
}

impl Config {
    /// The retry policy: retry is enabled when retries are allowed, and every
    /// delay is capped at 30 seconds.
    pub fn retry_config(&self) -> (r: RetryConfig)
        ensures
            r == (RetryConfig {
                max_retries: self.max_retries,
                base_delay_ms: self.retry_delay_ms,
                max_delay_ms: MAX_RETRY_DELAY_MS,
                enabled: self.max_retries > 0,
            }),
    {
        RetryConfig {
            max_retries: self.max_retries,
            base_delay_ms: self.retry_delay_ms,
            max_delay_ms: MAX_RETRY_DELAY_MS,
            enabled: self.max_retries > 0,
        }
    }

    /// The command-line settings of `command`.
    pub fn merge_cli_defaults(&self, command: &Command) -> (r: ConfigWithDefaults)
        ensures
            command matches Command::Run { start_date, end_date, overwrite, download_only } ==> (
                r.start_date_override is Some <==> start_date is Some) && (r.start_date_override
                matches Some(t) ==> t@ == start_date->Some_0@) && (r.end_date is Some <==> end_date
                is Some) && (r.end_date matches Some(t) ==> t@ == end_date->Some_0@) && r.overwrite
                == overwrite && r.download_only == download_only && !r.metadata_only,
            command matches Command::Process { overwrite, metadata_only, .. } ==> (
                r.start_date_override is None && r.end_date is None && r.overwrite == overwrite
                && !r.download_only && r.metadata_only == metadata_only),
            command is Config ==> (r.start_date_override is None && r.end_date is None
                && !r.overwrite && !r.download_only && !r.metadata_only),
    {
        match command {
            Command::Run { start_date, end_date, overwrite, download_only } => ConfigWithDefaults {
                start_date_override: clone_text(start_date),
                end_date: clone_text(end_date),
                overwrite: *overwrite,
                download_only: *download_only,
                metadata_only: false,
            },
            Command::Process { overwrite, metadata_only, .. } => ConfigWithDefaults {
                start_date_override: None,
                end_date: None,
                overwrite: *overwrite,
                download_only: false,
                metadata_only: *metadata_only,
            },
            Command::Config { .. } => ConfigWithDefaults {
                start_date_override: None,
                end_date: None,
                overwrite: false,
                download_only: false,
                metadata_only: false,
            },
        }
    }

    /// The start date: the override when one is given, else the configured one.
    pub fn get_effective_start_date(&self, override_date: &Option<String>) -> (r: Result<Date, AppError>)
        ensures
            override_date is None ==> r == Ok::<Date, AppError>(self.start_date),
            override_date matches Some(s) ==> (r is Ok <==> parsed_ymd(s@) is Some),
            override_date matches Some(s) ==> (r matches Ok(d) ==> parsed_ymd(s@) matches Some(t)
                && d@ == (t.0 as int, t.1 as int, t.2 as int)),
    {
        match override_date {
            Some(s) => parse_date(s.as_str()),
            None => Ok(self.start_date),
        }
    }

    /// The end date, when one is given.
    pub fn get_effective_end_date(&self, override_date: &Option<String>) -> (r: Result<Option<Date>, AppError>)
        ensures
            override_date is None ==> r matches Ok(None),
            override_date matches Some(s) ==> (r is Ok <==> parsed_ymd(s@) is Some),
            override_date matches Some(s) ==> (r matches Ok(Some(d)) ==> parsed_ymd(s@) matches Some(t)
                && d@ == (t.0 as int, t.1 as int, t.2 as int)),
            override_date is Some ==> !(r matches Ok(None)),
    {
        match override_date {
            Some(s) => match parse_date(s.as_str()) {
                Ok(d) => Ok(Some(d)),
                Err(e) => Err(e),
            },
            None => Ok(None),
        }
    }

    /// The settings with outside overrides applied: a User-Agent replaces the
    /// configured one; a timeout replaces it when it parses as a number of
    /// seconds.
    pub fn apply_overrides(self, user_agent: Option<String>, timeout: Option<String>) -> (r: Self)
        ensures
            user_agent matches Some(a) ==> r.user_agent == a,
            user_agent is None ==> r.user_agent == self.user_agent,
            timeout matches Some(t) ==> (parsed_u64(t@) matches Some(v) ==> r.timeout == v),
            timeout matches Some(t) ==> (parsed_u64(t@) is None ==> r.timeout == self.timeout),
            timeout is None ==> r.timeout == self.timeout,
            r.start_date == self.start_date,
            r.base_url == self.base_url,
            r.output_dir == self.output_dir,
            r.filename_format == self.filename_format,
            r.max_concurrent == self.max_concurrent,
            r.max_retries == self.max_retries,
            r.retry_delay_ms == self.retry_delay_ms,
    {
        let mut config = self;
        if let Some(agent) = user_agent {
            config.user_agent = agent;
        }
        if let Some(t) = timeout {
            if let Some(secs) = parse_u64(t.as_str()) {
                config.timeout = secs;
            }
        }
        config
    }

    /// The start date to store after a run: the latest success date, when
    /// the run's start was not given on the command line and that date comes
    /// after the configured start.
    pub fn advanced_start_date(&self, latest: Option<Date>, start_overridden: bool) -> (r: Option<Date>)
        ensures
            r is Some <==> (!start_overridden && latest is Some && ymd_lt(self.start_date@, latest->Some_0@)),
            r is Some ==> r == latest,
    {
        if start_overridden {
            return None;
        }
        match latest {
            Some(d) => {
                let (sy, sm, sd) = (self.start_date.year(), self.start_date.month(), self.start_date.day());
                let (y, m, dd) = (d.year(), d.month(), d.day());
                if sy < y || (sy == y && (sm < m || (sm == m && sd < dd))) {
                    Some(d)
                } else {
                    None
                }
            },
            None => None,
        }
    }

    /// Moves the start date to `new_date`.
    pub fn update_start_date(&mut self, new_date: Date)
        ensures
            *final(self) == (Config { start_date: new_date, ..*old(self) }),
    {
        self.start_date = new_date;
    }
}

} // verus!
