//! Command-line arguments, as values, and the date list of the `process`
//! command.
use vstd::prelude::*;
use crate::text::same_text;
use crate::date_utils::{parse_date, parsed_ymd};
use crate::error::AppError;
use vstd::string::*;

verus! {

/// Arguments of the program.
#[derive(Debug)]
pub struct Cli {
    /// Path of the configuration file.
    pub config: String,
    /// Log level: trace, debug, info, warn or error.
    pub log_level: String,
    /// The command to run; `run` when absent.
    pub command: Option<Command>,
}

/// The commands of the program.
#[derive(Debug)]
pub enum Command {
    /// Fetch every date from the start date to the end date.
    Run { start_date: Option<String>, end_date: Option<String>, overwrite: bool, download_only: bool },
    /// Process the given dates one at a time.
    Process { date: Option<String>, dates: Option<Vec<String>>, overwrite: bool, metadata_only: bool },
    /// Check the configuration file.
    Config { validate: bool },
}

/// Code-point order of texts, which is the order of their UTF-8 bytes.
pub open spec fn text_lt(a: Seq<char>, b: Seq<char>) -> bool
    decreases a.len(),
{
    if b.len() == 0 {
        false
    } else if a.len() == 0 {
        true
    } else if a[0] != b[0] {
        a[0] < b[0]
    } else {
        text_lt(a.subrange(1, a.len() as int), b.subrange(1, b.len() as int))
    }
}

/// Two distinct texts are ordered one way or the other.
proof fn lemma_text_lt_total(a: Seq<char>, b: Seq<char>)
    requires
        a != b,
        !text_lt(a, b),
    ensures
        text_lt(b, a),
    decreases a.len(),
{
    if a.len() > 0 && b.len() > 0 && a[0] == b[0] {
        let a1 = a.subrange(1, a.len() as int);
        let b1 = b.subrange(1, b.len() as int);
        if a1 == b1 {
            assert(a =~= seq![a[0]] + a1);
            assert(b =~= seq![b[0]] + b1);
        }
        lemma_text_lt_total(a1, b1);
    } else if a.len() == 0 && b.len() == 0 {
        assert(a =~= b);
    }
}

/// The texts of `s`, in order.
pub open spec fn texts(s: Seq<String>) -> Seq<Seq<char>> {
    s.map_values(|t: String| t@)
}

/// Each text is strictly before the next.
pub open spec fn strictly_ascending(s: Seq<Seq<char>>) -> bool {
    forall|i: int| 0 <= i < s.len() - 1 ==> text_lt(#[trigger] s[i], s[i + 1])
}

/// The dates named on the command line: the single date first, then the list.
pub open spec fn named_dates(date: Option<String>, dates: Option<Vec<String>>) -> Seq<Seq<char>> {
    let first: Seq<Seq<char>> = match date {
        Some(d) => seq![d@],
        None => seq![],
    };
    let rest: Seq<Seq<char>> = match dates {
        Some(v) => texts(v@),
        None => seq![],
    };
    first + rest
}

/// `a` and `b` hold the same texts.
pub open spec fn same_texts(a: Seq<Seq<char>>, b: Seq<Seq<char>>) -> bool {
    forall|t: Seq<char>| a.contains(t) <==> b.contains(t)
}

/// Inserts `x` into a strictly ascending list unless it is already there.
fn insert_sorted(list: &mut Vec<String>, x: &String)
    requires
        strictly_ascending(texts(old(list)@)),
    ensures
        strictly_ascending(texts(final(list)@)),
        forall|t: Seq<char>| #[trigger] texts(final(list)@).contains(t) <==> (texts(old(list)@).contains(t) || t == x@),
{
    let n = list.len();
    let mut p: usize = 0;
    while p < n && text_lt_exec(list[p].as_str(), x.as_str())
        invariant
            p <= n,
            n == list@.len(),
            forall|j: int| 0 <= j < p ==> text_lt(#[trigger] list@[j]@, x@),
        decreases n - p,
    {
        p += 1;
    }
    let ghost before = texts(list@);
    if p < n && same_text(list[p].as_str(), x.as_str()) {
        assert(before[p as int] == x@);
        return;
    }
    proof {
        if p < n {
            lemma_text_lt_total(list@[p as int]@, x@);
        }
    }
    list.insert(p, x.clone());
    let ghost after = texts(list@);
    assert(after =~= before.insert(p as int, x@));
    assert forall|i: int| 0 <= i < after.len() - 1 implies text_lt(#[trigger] after[i], after[i + 1]) by {
        if i < p - 1 {
            assert(after[i] == before[i] && after[i + 1] == before[i + 1]);
        } else if i == p - 1 {
            assert(after[i] == before[i] && after[i + 1] == x@);
        } else if i == p {
            assert(after[i] == x@ && after[i + 1] == before[i]);
        } else {
            assert(after[i] == before[i - 1] && after[i + 1] == before[i]);
        }
    }
    assert forall|t: Seq<char>| #[trigger] after.contains(t) <==> (before.contains(t) || t == x@) by {
        if after.contains(t) {
            let k = choose|k: int| 0 <= k < after.len() && after[k] == t;
            if k < p {
                assert(before[k] == t);
            } else if k > p {
                assert(before[k - 1] == t);
            }
        }
        if t == x@ {
            assert(after[p as int] == t);
        } else if before.contains(t) {
            let k = choose|k: int| 0 <= k < before.len() && before[k] == t;
            if k < p {
                assert(after[k] == t);
            } else {
                assert(after[k + 1] == t);
            }
        }
    }
}

/// Whether `a` comes strictly before `b` in code-point order.
fn text_lt_exec(a: &str, b: &str) -> (r: bool)
    ensures
        r == text_lt(a@, b@),
{
    let n = a.unicode_len();
    let m = b.unicode_len();
    let mut i: usize = 0;
    assert(a@.subrange(0, n as int) =~= a@);
    assert(b@.subrange(0, m as int) =~= b@);
    while i < n && i < m
        invariant
            i <= n,
            i <= m,
            n == a@.len(),
            m == b@.len(),
            text_lt(a@, b@) == text_lt(a@.subrange(i as int, n as int), b@.subrange(i as int, m as int)),
        decreases n - i,
    {
        let ca = a.get_char(i);
        let cb = b.get_char(i);
        let ghost ra = a@.subrange(i as int, n as int);
        let ghost rb = b@.subrange(i as int, m as int);
        assert(ra[0] == ca && rb[0] == cb);
        if ca != cb {
            return ca < cb;
        }
        assert(ra.subrange(1, ra.len() as int) =~= a@.subrange(i + 1, n as int));
        assert(rb.subrange(1, rb.len() as int) =~= b@.subrange(i + 1, m as int));
        i += 1;
    }
    i < m
}

/// Checks that every text is a `YYYY-MM-DD` date; fails on the first that is not.
fn validate_dates(list: &Vec<String>) -> (r: Result<(), AppError>)
    ensures
        r is Ok <==> forall|j: int| 0 <= j < list@.len() ==> parsed_ymd(#[trigger] texts(list@)[j]) is Some,
        r matches Err(e) ==> (e matches AppError::InvalidDate { input, .. } && texts(list@).contains(input@)
            && parsed_ymd(input@) is None),
{
    let mut i: usize = 0;
    while i < list.len()
        invariant
            i <= list@.len(),
            forall|j: int| 0 <= j < i ==> parsed_ymd(#[trigger] texts(list@)[j]) is Some,
        decreases list@.len() - i,
    {
        match parse_date(list[i].as_str()) {
            Ok(_) => {},
            Err(e) => {
                assert(texts(list@)[i as int] == list@[i as int]@);
                return Err(e);
            },
        }
        i += 1;
    }
    Ok(())
}

impl Command {
    /// The dates of the `process` command: those named, sorted in ascending
    /// order without repeats, each checked to be a `YYYY-MM-DD` date. The
    /// other commands name no dates.
    pub fn get_dates(&self) -> (r: Result<Vec<String>, AppError>)
        ensures
            !(self is Process) ==> (r matches Ok(v) && v@.len() == 0),
            self matches Command::Process { date, dates, .. } ==> {
                let named = named_dates(*date, *dates);
                &&& named.len() == 0 ==> (r matches Err(AppError::ArgumentError(_)))
                &&& named.len() > 0 && (forall|i: int| 0 <= i < named.len() ==> parsed_ymd(#[trigger] named[i]) is Some)
                    ==> (r matches Ok(v) && strictly_ascending(texts(v@)) && same_texts(texts(v@), named))
                &&& named.len() > 0 && (exists|i: int| 0 <= i < named.len() && parsed_ymd(#[trigger] named[i]) is None)
                    ==> (r matches Err(AppError::InvalidDate { input, .. }) && named.contains(input@)
                        && parsed_ymd(input@) is None)
            },
    {
        match self {
            Command::Run { .. } => Ok(Vec::new()),
            Command::Config { .. } => Ok(Vec::new()),
            Command::Process { date, dates, .. } => {
                let ghost named = named_dates(*date, *dates);
                let mut list: Vec<String> = Vec::new();
                let ghost mut seen: Seq<Seq<char>> = seq![];
                match date {
                    Some(d) => {
                        insert_sorted(&mut list, d);
                        proof {
                            seen = seq![d@];
                            assert forall|t: Seq<char>| #[trigger] texts(list@).contains(t) <==> seen.contains(t) by {
                                if t == d@ {
                                    assert(seen[0] == t);
                                }
                            }
                        }
                    },
                    None => {},
                }
                assert(seen =~= named_dates(*date, None));
                match dates {
                    Some(v) => {
                        let mut k: usize = 0;
                        while k < v.len()
                            invariant
                                k <= v@.len(),
                                strictly_ascending(texts(list@)),
                                seen == named_dates(*date, None) + texts(v@).subrange(0, k as int),
                                same_texts(texts(list@), seen),
                            decreases v@.len() - k,
                        {
                            let ghost old_seen = seen;
                            insert_sorted(&mut list, &v[k]);
                            proof {
                                seen = seen.push(v@[k as int]@);
                                assert(seen =~= named_dates(*date, None) + texts(v@).subrange(0, k + 1));
                                assert forall|t: Seq<char>| #[trigger] seen.contains(t) <==> (old_seen.contains(t) || t == v@[k as int]@) by {
                                    if seen.contains(t) {
                                        let j = choose|j: int| 0 <= j < seen.len() && seen[j] == t;
                                        if j < old_seen.len() {
                                            assert(old_seen[j] == t);
                                        }
                                    }
                                    if old_seen.contains(t) {
                                        let j = choose|j: int| 0 <= j < old_seen.len() && old_seen[j] == t;
                                        assert(seen[j] == t);
                                    }
                                    if t == v@[k as int]@ {
                                        assert(seen[old_seen.len() as int] == t);
                                    }
                                }
                            }
                            k += 1;
                        }
                        assert(seen =~= named);
                    },
                    None => {
                        assert(seen =~= named);
                    },
                }
                if list.len() == 0 {
                    proof {
                        if named.len() > 0 {
                            assert(named.contains(named[0]));
                            assert(!texts(list@).contains(named[0]));
                        }
                    }
                    return Err(AppError::argument_error("必须指定 --date 或 --dates 参数"));
                }
                proof {
                    assert(texts(list@).contains(texts(list@)[0]));
                    assert(named.len() > 0);
                }
                match validate_dates(&list) {
                    Ok(()) => {},
                    Err(e) => {
                        proof {
                            let input = e->InvalidDate_input@;
                            assert(named.contains(input));
                        }
                        return Err(e);
                    },
                }
                proof {
                    assert forall|j: int| 0 <= j < named.len() implies parsed_ymd(#[trigger] named[j]) is Some by {
                        assert(named.contains(named[j]));
                        assert(texts(list@).contains(named[j]));
                        let k = choose|k: int| 0 <= k < texts(list@).len() && texts(list@)[k] == named[j];
                        assert(parsed_ymd(texts(list@)[k]) is Some);
                    }
                }
                Ok(list)
            },
        }
    }
}

} // verus!
