//! Which log files are old enough to be deleted.

use vstd::prelude::*;

use crate::text::begins_with;

verus! {

/// How long log files are kept: seven days, in seconds.
pub const LOG_RETENTION_SECS: u64 = 604_800;

/// How often log files are looked through: daily, in seconds.
pub const PRUNE_INTERVAL_SECS: u64 = 86_400;

/// A length of time.
#[derive(Debug, Clone, Copy, PartialEq, Eq, Structural)]
pub struct Span {
    pub secs: u64,
    pub nanos: u32,
}

impl Span {
    /// How long log files are kept.
    pub fn log_retention() -> (s: Span)
        ensures
            s == (Span { secs: LOG_RETENTION_SECS, nanos: 0 }),
    {
        Span { secs: LOG_RETENTION_SECS, nanos: 0 }
    }

    /// Whether this is longer than another.
    pub open spec fn longer_than(self, other: Span) -> bool {
        self.secs > other.secs || (self.secs == other.secs && self.nanos > other.nanos)
    }
}

/// A file in the directory of the logs.
#[derive(Debug)]
pub struct LogFile {
    pub name: String,
    /// The time since its last change, where that is known and not in the future.
    pub age: Option<Span>,
}

/// Whether a file is one of the logs and older than it may be.
pub open spec fn is_expired(file: LogFile, prefix: Seq<char>, retention: Span) -> bool {
    prefix.is_prefix_of(file.name@) && (file.age matches Some(a) && a.longer_than(retention))
}

/// Where the expired files stand in the list, in order.
pub open spec fn expired(files: Seq<LogFile>, prefix: Seq<char>, retention: Span) -> Seq<int>
    decreases files.len(),
{
    if files.len() == 0 {
        seq![]
    } else {
        let front = expired(files.drop_last(), prefix, retention);
        if is_expired(files.last(), prefix, retention) {
            front.push(files.len() - 1)
        } else {
            front
        }
    }
}

fn check_expired(file: &LogFile, prefix: &str, retention: Span) -> (r: bool)
    ensures
        r == is_expired(*file, prefix@, retention),
{
    if !begins_with(file.name.as_str(), prefix) {
        return false;
    }
    match file.age {
        Some(a) => a.secs > retention.secs || (a.secs == retention.secs && a.nanos
            > retention.nanos),
        None => false,
    }
}

/// Finds the files that are to be deleted: those whose name begins with the prefix and
/// whose last change is longer ago than the retention. A directory that cannot be read
/// holds none.
pub fn prune_old_logs(files: &Option<Vec<LogFile>>, prefix: &str, retention: Span) -> (out: Vec<
    usize,
>)
    ensures
        match *files {
            Some(v) => out@.map_values(|i: usize| i as int) == expired(v@, prefix@, retention),
            None => out@.len() == 0,
        },
{
    let mut out: Vec<usize> = Vec::new();
    match files {
        None => out,
        Some(v) => {
            let mut i: usize = 0;
            assert(out@.map_values(|i: usize| i as int) =~= expired(v@.take(0), prefix@, retention));
            while i < v.len()
                invariant
                    i <= v@.len(),
                    out@.map_values(|i: usize| i as int) == expired(
                        v@.take(i as int),
                        prefix@,
                        retention,
                    ),
                decreases v@.len() - i,
            {
                let ghost before = out@;
                assert(v@.take(i + 1).drop_last() =~= v@.take(i as int));
                if check_expired(&v[i], prefix, retention) {
                    out.push(i);
                    assert(out@.map_values(|i: usize| i as int) =~= before.map_values(
                        |i: usize| i as int,
                    ).push(i as int));
                }
                i = i + 1;
            }
            assert(v@.take(v@.len() as int) =~= v@);
            out
        },
    }
}

/// How many of the deletions went well.
pub open spec fn deleted(results: Seq<bool>) -> nat
    decreases results.len(),
{
    if results.len() == 0 {
        0
    } else {
        deleted(results.drop_last()) + if results.last() {
            1nat
        } else {
            0
        }
    }
}

/// Counts the files that were deleted, by whether each deletion went well. A file that
/// cannot be deleted does not count.
pub fn count_deleted(results: &Vec<bool>) -> (n: usize)
    ensures
        n == deleted(results@),
{
    let mut n: usize = 0;
    let mut i: usize = 0;
    while i < results.len()
        invariant
            i <= results@.len(),
            n <= i,
            n == deleted(results@.take(i as int)),
        decreases results@.len() - i,
    {
        assert(results@.take(i + 1).drop_last() =~= results@.take(i as int));
        if results[i] {
            n = n + 1;
        }
        i = i + 1;
    }
    assert(results@.take(results@.len() as int) =~= results@);
    n
}

/// No more files are deleted than were tried, and all of them where nothing fails.
pub proof fn no_more_deleted_than_tried(results: Seq<bool>)
    ensures
        deleted(results) <= results.len(),
        (forall|k: int| 0 <= k < results.len() ==> #[trigger] results[k]) <==> deleted(results)
            == results.len(),
    decreases results.len(),
{
    if results.len() > 0 {
        let front = results.drop_last();
        no_more_deleted_than_tried(front);
        if deleted(results) == results.len() {
            assert forall|k: int| 0 <= k < results.len() implies #[trigger] results[k] by {
                if k < front.len() {
                    assert(front[k]);
                }
            }
        }
        if forall|k: int| 0 <= k < results.len() ==> #[trigger] results[k] {
            assert forall|k: int| 0 <= k < front.len() implies #[trigger] front[k] by {
                assert(results[k]);
            }
            assert(results[results.len() - 1]);
        }
    }
}

/// A file is deleted only if it is a log and too old.
pub proof fn only_expired_logs_are_deleted(
    files: Seq<LogFile>,
    prefix: Seq<char>,
    retention: Span,
    k: int,
)
    requires
        0 <= k < expired(files, prefix, retention).len(),
    ensures
        ({
            let i = expired(files, prefix, retention)[k];
            0 <= i < files.len() && is_expired(files[i], prefix, retention)
        }),
    decreases files.len(),
{
    let front = expired(files.drop_last(), prefix, retention);
    if k < front.len() {
        only_expired_logs_are_deleted(files.drop_last(), prefix, retention, k);
        assert(expired(files, prefix, retention)[k] == front[k]);
    }
}

/// Every log that is too old is deleted.
pub proof fn every_expired_log_is_deleted(
    files: Seq<LogFile>,
    prefix: Seq<char>,
    retention: Span,
    i: int,
)
    requires
        0 <= i < files.len(),
        is_expired(files[i], prefix, retention),
    ensures
        expired(files, prefix, retention).contains(i),
    decreases files.len(),
{
    let front = expired(files.drop_last(), prefix, retention);
    let all = expired(files, prefix, retention);
    if i < files.len() - 1 {
        every_expired_log_is_deleted(files.drop_last(), prefix, retention, i);
        let k = choose|k: int| 0 <= k < front.len() && front[k] == i;
        assert(all[k] == i);
    } else {
        assert(all[front.len() as int] == i);
    }
}

} // verus!
