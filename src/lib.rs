//! Batch retrieval of one dated resource per calendar day: classification of
//! failures, retry with exponential backoff, bounded admission of tasks and
//! aggregation of their outcomes.
use vstd::prelude::*;

pub mod batch;
pub mod cli;
pub mod config;
pub mod date_utils;
pub mod downloader;
pub mod error;
pub mod exif;
pub mod filename;
pub mod task;
pub mod text;
pub mod validator;

pub use error::{AppError, RetryableError};
use date_utils::{Date, parse_date, parsed_ymd, ymd_le};

verus! {

/// Counts and dates gathered over one batch run.
#[derive(Debug, Clone)]
pub struct DownloadStats {
    pub total: usize,
    pub succeeded: usize,
    pub failed: usize,
    pub skipped: usize,
    pub failed_dates: Vec<String>,
    pub succeeded_dates: Vec<String>,
}

impl DownloadStats {
    /// Empty statistics for a run over `total` dates.
    pub fn new(total: usize) -> (r: Self)
        ensures
            r.total == total,
            r.succeeded == 0,
            r.failed == 0,
            r.skipped == 0,
            r.failed_dates@.len() == 0,
            r.succeeded_dates@.len() == 0,
    {
        DownloadStats {
            total,
            succeeded: 0,
            failed: 0,
            skipped: 0,
            failed_dates: Vec::new(),
            succeeded_dates: Vec::new(),
        }
    }

    /// Counts one success whose date is not recorded.
    pub fn record_success(&mut self)
        requires
            old(self).succeeded < usize::MAX,
        ensures
            *final(self) == (DownloadStats { succeeded: (old(self).succeeded + 1) as usize, ..*old(self) }),
    {
        self.succeeded += 1;
    }

    /// Counts one success and records its date.
    pub fn record_success_with_date(&mut self, date: &str)
        requires
            old(self).succeeded < usize::MAX,
        ensures
            final(self).succeeded == old(self).succeeded + 1,
            final(self).succeeded_dates@.len() == old(self).succeeded_dates@.len() + 1,
            final(self).succeeded_dates@.drop_last().map_values(|s: String| s@)
                == old(self).succeeded_dates@.map_values(|s: String| s@),
            final(self).succeeded_dates@.last()@ == date@,
            final(self).total == old(self).total,
            final(self).failed == old(self).failed,
            final(self).skipped == old(self).skipped,
            final(self).failed_dates == old(self).failed_dates,
    {
        self.succeeded += 1;
        let ghost prev = self.succeeded_dates@;
        self.succeeded_dates.push(date.to_string());
        assert(self.succeeded_dates@.drop_last() =~= prev);
    }

    /// Counts one failure and records its date.
    pub fn record_failure(&mut self, date: &str)
        requires
            old(self).failed < usize::MAX,
        ensures
            final(self).failed == old(self).failed + 1,
            final(self).failed_dates@.len() == old(self).failed_dates@.len() + 1,
            final(self).failed_dates@.drop_last().map_values(|s: String| s@)
                == old(self).failed_dates@.map_values(|s: String| s@),
            final(self).failed_dates@.last()@ == date@,
            final(self).total == old(self).total,
            final(self).succeeded == old(self).succeeded,
            final(self).skipped == old(self).skipped,
            final(self).succeeded_dates == old(self).succeeded_dates,
    {
        self.failed += 1;
        let ghost prev = self.failed_dates@;
        self.failed_dates.push(date.to_string());
        assert(self.failed_dates@.drop_last() =~= prev);
    }

    /// Counts one date whose file was already present.
    pub fn record_skip(&mut self)
        requires
            old(self).skipped < usize::MAX,
        ensures
            *final(self) == (DownloadStats { skipped: (old(self).skipped + 1) as usize, ..*old(self) }),
    {
        self.skipped += 1;
    }

    /// The latest of the recorded success dates that parse as `YYYY-MM-DD`,
    /// if any does.
    pub fn latest_success_date(&self) -> (r: Option<Date>)
        ensures
            r is Some <==> latest_parsed(self.succeeded_dates@.map_values(|s: String| s@)) is Some,
            r matches Some(d) ==> latest_parsed(self.succeeded_dates@.map_values(|s: String| s@))
                == Some(d@),
    {
        let ghost all = self.succeeded_dates@.map_values(|s: String| s@);
        let mut best: Option<Date> = None;
        let mut i: usize = 0;
        while i < self.succeeded_dates.len()
            invariant
                i <= all.len(),
                all == self.succeeded_dates@.map_values(|s: String| s@),
                best is Some <==> latest_parsed(all.subrange(0, i as int)) is Some,
                best matches Some(d) ==> latest_parsed(all.subrange(0, i as int)) == Some(d@),
            decreases all.len() - i,
        {
            assert(all.subrange(0, i + 1).drop_last() =~= all.subrange(0, i as int));
            assert(all.subrange(0, i + 1).last() == self.succeeded_dates@[i as int]@);
            match parse_date(self.succeeded_dates[i].as_str()) {
                Ok(d) => {
                    best = match best {
                        None => Some(d),
                        Some(b) => {
                            let (by, bm, bd) = (b.year(), b.month(), b.day());
                            let (dy, dm, dd) = (d.year(), d.month(), d.day());
                            if by < dy || (by == dy && (bm < dm || (bm == dm && bd <= dd))) {
                                Some(d)
                            } else {
                                Some(b)
                            }
                        },
                    };
                },
                Err(_) => {},
            }
            i += 1;
        }
        assert(all.subrange(0, all.len() as int) =~= all);
        best
    }

    /// Share of the total that succeeded, in hundredths of a percent
    /// (`succeeded / total * 10000`, rounded down); 0 when the total is 0.
    pub fn success_rate_basis_points(&self) -> (r: u128)
        ensures
            self.total == 0 ==> r == 0,
            self.total > 0 ==> r == (self.succeeded as int * 10000) / (self.total as int),
    {
        if self.total == 0 {
            return 0;
        }
        (self.succeeded as u128 * 10000) / (self.total as u128)
    }
}

/// The latest day among the texts that parse as dates.
pub open spec fn latest_parsed(texts: Seq<Seq<char>>) -> Option<(int, int, int)>
    decreases texts.len(),
{
    if texts.len() == 0 {
        None
    } else {
        let rest = latest_parsed(texts.drop_last());
        match parsed_ymd(texts.last()) {
            None => rest,
            Some(t) => {
                let d = (t.0 as int, t.1 as int, t.2 as int);
                match rest {
                    None => Some(d),
                    Some(b) => if ymd_le(b, d) {
                        Some(d)
                    } else {
                        Some(b)
                    },
                }
            },
        }
    }
}

/// Outcome of the work on one date.
#[derive(Debug, Clone)]
pub enum ProcessResult {
    /// The file was fetched and written to this path.
    Downloaded(String),
    /// The file was already at this path and was left in place.
    AlreadyExists(String),
    /// The work failed, for the reason given.
    Failed(String),
}

/// Mathematical picture of a [`ProcessResult`].
pub enum Outcome {
    Downloaded(Seq<char>),
    AlreadyExists(Seq<char>),
    Failed(Seq<char>),
}

impl View for ProcessResult {
    type V = Outcome;

    open spec fn view(&self) -> Outcome {
        match self {
            ProcessResult::Downloaded(p) => Outcome::Downloaded(p@),
            ProcessResult::AlreadyExists(p) => Outcome::AlreadyExists(p@),
            ProcessResult::Failed(m) => Outcome::Failed(m@),
        }
    }
}

impl ProcessResult {
    /// A file stands at the path: fetched now or found in place.
    pub fn is_success(&self) -> (r: bool)
        ensures
            r == !(self@ is Failed),
    {
        match self {
            ProcessResult::Failed(_) => false,
            _ => true,
        }
    }

    /// The path of the file, unless the work failed.
    pub fn path(&self) -> (r: Option<&String>)
        ensures
            self@ matches Outcome::Downloaded(p) ==> r matches Some(q) && q@ == p,
            self@ matches Outcome::AlreadyExists(p) ==> r matches Some(q) && q@ == p,
            self@ is Failed ==> r is None,
    {
        match self {
            ProcessResult::Downloaded(p) => Some(p),
            ProcessResult::AlreadyExists(p) => Some(p),
            ProcessResult::Failed(_) => None,
        }
    }
}

} // verus!
