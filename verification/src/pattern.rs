//! Pattern expansion: a glob pattern becomes an ordered list of entries.
//!
//! Whether a pattern is well formed is a fixed function of the pattern text,
//! named by `pattern_ok`. Which paths it matches depends on the filesystem,
//! so nothing is claimed of the entries themselves: an entry is either a
//! matched path or a per-entry failure that downstream logic logs and skips.

use vstd::prelude::*;

verus! {

/// One entry of an expanded pattern: a matched path, or the display text of
/// a failure to resolve one candidate (the rest of the expansion goes on).
pub enum PatternEntry {
    Found(String),
    Failed(String),
}

/// A pattern whose own syntax is invalid; the run stops before any counting.
#[derive(Debug)]
pub struct ExpandError {
    pub message: String,
}

/// Whether the glob pattern's syntax is well formed.
pub uninterp spec fn pattern_ok(pattern: Seq<char>) -> bool;

/// Relies on `glob::glob`: it returns `Err` exactly when parsing the pattern
/// itself fails, which depends on the pattern text alone; entry errors are
/// carried as their display text, and a matched path as its (lossy) text.
#[verifier::external_body]
fn glob_entries(pattern: &str) -> (r: Result<Vec<PatternEntry>, ExpandError>)
    ensures
        r is Ok <==> pattern_ok(pattern@),
{
    match glob::glob(pattern) {
        Ok(paths) => Ok(
            paths.map(
                |entry| match entry {
                    Ok(p) => PatternEntry::Found(p.to_string_lossy().into_owned()),
                    Err(e) => PatternEntry::Failed(e.to_string()),
                },
            ).collect(),
        ),
        Err(e) => Err(ExpandError { message: e.to_string() }),
    }
}

/// Expands a glob pattern into its ordered entries. Fails, before any entry
/// is produced, exactly when the pattern's own syntax is invalid.
pub fn expand_pattern(pattern: &str) -> (r: Result<Vec<PatternEntry>, ExpandError>)
    ensures
        r is Ok <==> pattern_ok(pattern@),
{
    glob_entries(pattern)
}

/// The matched paths among a pattern's entries, in order.
pub open spec fn found_paths_of(entries: Seq<PatternEntry>) -> Seq<String>
    decreases entries.len(),
{
    if entries.len() == 0 {
        Seq::empty()
    } else {
        match entries.last() {
            PatternEntry::Found(p) => found_paths_of(entries.drop_last()).push(p),
            _ => found_paths_of(entries.drop_last()),
        }
    }
}

/// The per-entry failure messages among a pattern's entries, in order.
pub open spec fn failures_of(entries: Seq<PatternEntry>) -> Seq<String>
    decreases entries.len(),
{
    if entries.len() == 0 {
        Seq::empty()
    } else {
        match entries.last() {
            PatternEntry::Failed(m) => failures_of(entries.drop_last()).push(m),
            _ => failures_of(entries.drop_last()),
        }
    }
}

/// Splits a pattern's entries into the matched paths, which flow on to
/// counting, and the per-entry failure messages, which are logged and
/// skipped; each keeps the expansion's order.
pub fn split_entries(entries: Vec<PatternEntry>) -> (r: (Vec<String>, Vec<String>))
    ensures
        r.0@ == found_paths_of(entries@),
        r.1@ == failures_of(entries@),
{
    let mut entries = entries;
    let ghost all = entries@;
    let n = entries.len();
    proof {
        assert(all.len() == n);
    }
    let mut paths: Vec<String> = Vec::new();
    let mut failures: Vec<String> = Vec::new();
    let mut i: usize = 0;
    proof {
        assert(all.take(0) =~= Seq::<PatternEntry>::empty());
    }
    while entries.len() > 0
        invariant
            i + entries@.len() == all.len(),
            all.len() <= usize::MAX,
            entries@ =~= all.skip(i as int),
            paths@ == found_paths_of(all.take(i as int)),
            failures@ == failures_of(all.take(i as int)),
        decreases entries@.len(),
    {
        let e = entries.remove(0);
        proof {
            assert(e == all[i as int]);
            assert(all.take(i + 1).drop_last() =~= all.take(i as int));
            assert(all.take(i + 1).last() == e);
        }
        match e {
            PatternEntry::Found(p) => paths.push(p),
            PatternEntry::Failed(m) => failures.push(m),
        }
        i = i + 1;
    }
    proof {
        assert(all.take(all.len() as int) =~= all);
    }
    (paths, failures)
}

} // verus!
