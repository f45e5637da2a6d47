//! The retry policy and its backoff, and the resolution of each date's URL,
//! target path and task runner.
use vstd::prelude::*;
use crate::date_utils::Date;
use crate::error::AppError;
use crate::text::{signed_decimal, signed_decimal_text};
use crate::config::Config;
use crate::filename::{FilenameFormatter, formatted};
use crate::task::{Phase, RunnerView, TaskRunner};
use vstd::string::*;

verus! {


/// Retry policy of one run.
#[derive(Debug, Clone, Copy, PartialEq, Eq, Structural)]
pub struct RetryConfig {
    /// Attempts allowed after the first one.
    pub max_retries: u32,
    /// Delay before the first retry, in milliseconds.
    pub base_delay_ms: u64,
    /// Upper bound of any delay, in milliseconds.
    pub max_delay_ms: u64,
    /// Whether failed attempts are retried at all.
    pub enabled: bool,
}

impl Default for RetryConfig {
    fn default() -> (r: Self)
        ensures
            r == (RetryConfig { max_retries: 3, base_delay_ms: 1000, max_delay_ms: 30000, enabled: true }),
    {
        RetryConfig { max_retries: 3, base_delay_ms: 1000, max_delay_ms: 30000, enabled: true }
    }
}

/// `2^e`.
pub open spec fn two_pow(e: nat) -> nat
    decreases e,
{
    if e == 0 {
        1
    } else {
        2 * two_pow((e - 1) as nat)
    }
}

/// Delay before the retry that follows failed attempt `attempt`:
/// `min(base * 2^min(attempt, 10), max)`.
pub open spec fn backoff_ms(attempt: nat, base: nat, max: nat) -> nat {
    let e: nat = if attempt < 10 {
        attempt
    } else {
        10
    };
    let d = base * two_pow(e);
    if d < max {
        d
    } else {
        max
    }
}

/// Exponential backoff: `min(base_delay * 2^min(attempt, 10), max_delay)`.
pub fn calculate_delay(attempt: u32, base_delay: u64, max_delay: u64) -> (r: u64)
    ensures
        r as nat == backoff_ms(attempt as nat, base_delay as nat, max_delay as nat),
{
    let e: u32 = if attempt < 10 {
        attempt
    } else {
        10
    };
    let mut factor: u128 = 1;
    let mut i: u32 = 0;
    while i < e
        invariant
            i <= e <= 10,
            factor == two_pow(i as nat),
            factor <= 1024,
        decreases e - i,
    {
        proof {
            reveal_with_fuel(two_pow, 10);
            assert(two_pow(9) == 512);
            lemma_two_pow_monotone(i as nat, 9);
        }
        factor = factor * 2;
        i = i + 1;
    }
    let base = base_delay as u128;
    assert(base * factor <= 18446744073709551615u128 * 1024) by (nonlinear_arith)
        requires
            base <= 18446744073709551615u128,
            factor <= 1024,
    ;
    let d: u128 = base * factor;
    if d < max_delay as u128 {
        d as u64
    } else {
        max_delay
    }
}

proof fn lemma_two_pow_monotone(a: nat, b: nat)
    requires
        a <= b,
    ensures
        two_pow(a) <= two_pow(b),
    decreases b,
{
    if a < b {
        lemma_two_pow_monotone(a, (b - 1) as nat);
    }
}

/// `part` appended to the path `base` with one separator, as `Path::join`
/// does on Unix; an absolute `part` replaces `base`.
pub open spec fn joined(base: Seq<char>, part: Seq<char>) -> Seq<char> {
    if part.len() > 0 && part[0] == '/' {
        part
    } else if base.len() == 0 {
        part
    } else if base.last() == '/' {
        base + part
    } else {
        base + seq!['/'] + part
    }
}

/// Joins two path parts with one separator.
pub fn join_path(base: &str, part: &str) -> (r: String)
    ensures
        r@ == joined(base@, part@),
{
    let n = base.unicode_len();
    if part.unicode_len() > 0 && part.get_char(0) == '/' {
        return part.to_string();
    }
    if n == 0 {
        return part.to_string();
    }
    if base.get_char(n - 1) == '/' {
        let b = base.to_string();
        return b.concat(part);
    }
    proof {
        reveal_strlit("/");
    }
    let b = base.to_string();
    let b = b.concat("/");
    b.concat(part)
}

/// Mathematical picture of a [`Downloader`].
pub struct DownloaderView {
    pub format: Seq<char>,
    pub output_dir: Seq<char>,
    pub retry_config: RetryConfig,
}

/// Where the file of a date goes: `output_dir/<year>/<file name>`.
pub open spec fn target_path(v: DownloaderView, d: (int, int, int)) -> Seq<char> {
    joined(joined(v.output_dir, signed_decimal(d.0)), formatted(v.format, d))
}

/// Resolves the URL and path of each date and prepares its task runner.
#[derive(Debug, Clone)]
pub struct Downloader {
    formatter: FilenameFormatter,
    output_dir: String,
    retry_config: RetryConfig,
}

impl View for Downloader {
    type V = DownloaderView;

    closed spec fn view(&self) -> DownloaderView {
        DownloaderView {
            format: self.formatter@,
            output_dir: self.output_dir@,
            retry_config: self.retry_config,
        }
    }
}

impl Downloader {
    /// A downloader for `config`, with the default retry policy.
    pub fn new(config: &Config) -> (r: Result<Self, AppError>)
        ensures
            r is Ok <==> config.filename_format@.len() > 0,
            r matches Ok(d) ==> d@ == (DownloaderView {
                format: config.filename_format@,
                output_dir: config.output_dir@,
                retry_config: RetryConfig { max_retries: 3, base_delay_ms: 1000, max_delay_ms: 30000, enabled: true },
            }),
    {
        Self::with_retry_config(config, RetryConfig::default())
    }

    /// A downloader for `config` with the retry policy `retry_config`.
    pub fn with_retry_config(config: &Config, retry_config: RetryConfig) -> (r: Result<Self, AppError>)
        ensures
            r is Ok <==> config.filename_format@.len() > 0,
            r matches Ok(d) ==> d@ == (DownloaderView {
                format: config.filename_format@,
                output_dir: config.output_dir@,
                retry_config,
            }),
    {
        let formatter = match FilenameFormatter::new(config.filename_format.as_str()) {
            Ok(f) => f,
            Err(e) => return Err(e),
        };
        Ok(Downloader { formatter, output_dir: config.output_dir.clone(), retry_config })
    }

    /// The retry policy.
    pub fn retry_config(&self) -> (r: RetryConfig)
        ensures
            r == self@.retry_config,
    {
        self.retry_config
    }

    /// The URL of `date`: `base_url` as a template, or the file name
    /// template when `base_url` is empty.
    pub fn build_url(&self, base_url: &str, date: &Date) -> (r: String)
        ensures
            base_url@.len() > 0 ==> r@ == formatted(base_url@, date@),
            base_url@.len() == 0 ==> r@ == formatted(self@.format, date@),
    {
        match FilenameFormatter::new(base_url) {
            Ok(f) => f.format_url(date),
            Err(_) => self.formatter.format_url(date),
        }
    }

    /// The path of the file of `date`.
    pub fn build_path(&self, date: &Date) -> (r: String)
        ensures
            r@ == target_path(self@, date@),
    {
        let filename = self.formatter.format(date);
        let year = signed_decimal_text(date.year() as i64);
        let year_dir = join_path(self.output_dir.as_str(), year.as_str());
        join_path(year_dir.as_str(), filename.as_str())
    }

    /// The task runner of `date`; `download_only` suppresses metadata repair.
    pub fn task(&self, date: &Date, overwrite: bool, download_only: bool) -> (r: TaskRunner)
        ensures
            r@ == (RunnerView {
                policy: self@.retry_config,
                path: target_path(self@, date@),
                overwrite,
                repair: !download_only,
                attempt: 0,
                phase: Phase::Start,
            }),
    {
        TaskRunner::new(self.retry_config, self.build_path(date), overwrite, download_only)
    }
}

/// Settings of the `process` command as a batch: one task at a time, and
/// `metadata_only` suppresses the metadata repair step.
pub fn process_options(metadata_only: bool) -> (r: (usize, bool))
    ensures
        r == (1usize, metadata_only),
{
    (1, metadata_only)
}

/// Backoff is a function of the policy and the attempt index alone, never
/// exceeds the maximum, and stops growing from attempt 10 on.
pub proof fn lemma_backoff_is_capped(attempt: nat, base: nat, max: nat)
    ensures
        backoff_ms(attempt, base, max) <= max,
        attempt >= 10 ==> backoff_ms(attempt, base, max) == backoff_ms(10, base, max),
{
}

/// With a base of 1000 ms and a maximum of 30000 ms, every attempt from 10
/// on waits exactly the maximum.
pub proof fn lemma_default_backoff_caps_at_max(attempt: nat)
    requires
        attempt >= 10,
    ensures
        backoff_ms(attempt, 1000, 30000) == 30000,
{
    reveal_with_fuel(two_pow, 11);
    assert(two_pow(10) == 1024);
}

} // verus!
