//! The counting engine: what one expanded entry contributes to the report.
//!
//! The caller reads the filesystem and hands each path here together with
//! what the read produced; this module decides, with a proved contract, what
//! the run does with it: add a row, skip silently, or skip with exactly one
//! diagnostic. Directories and unreadable files never abort the run, and the
//! bundled tokenizer schemes always load, so every entry gets an action.

use vstd::prelude::*;
use crate::tokenizer::{TokenizerKind, TokenError, kind_tokens, count_tokens};

verus! {

/// What reading one candidate path produced, as the caller saw it.
pub enum ReadOutcome {
    /// The path denotes a directory.
    Directory,
    /// The file could not be opened, read, or decoded.
    Unreadable,
    /// The file's full text.
    Content(String),
}

/// One reported row: a file's path and its token count.
pub struct FileResult {
    pub path: String,
    pub count: usize,
}

/// What the run does with one entry.
pub enum EntryAction {
    /// Report this row.
    Count(FileResult),
    /// A directory: no row, no diagnostic.
    SkipSilently,
    /// No row, and exactly one diagnostic for the path carried here.
    SkipWithDiagnostic(String),
}

/// Decides what one entry contributes: a directory is skipped silently, an
/// unreadable file is skipped with one diagnostic, and readable content is
/// counted. Always succeeds: the bundled tokenizer schemes always load; the
/// error channel remains for the caller's fatal-error path.
pub fn process_entry(kind: TokenizerKind, path: String, outcome: ReadOutcome) -> (r: Result<
    EntryAction,
    TokenError,
>)
    ensures
        r is Ok,
        outcome is Directory ==> (r matches Ok(a) && a is SkipSilently),
        outcome is Unreadable ==> (r matches Ok(a) && a matches EntryAction::SkipWithDiagnostic(p)
            && p@ == path@),
        r matches Ok(a) ==> (a matches EntryAction::Count(fr) ==> outcome matches
            ReadOutcome::Content(text) && fr.path@ == path@ && fr.count == kind_tokens(
            kind,
            text@,
        ).len() && (text@.len() == 0 ==> fr.count == 0)),
        outcome is Content ==> (r matches Ok(a) && a is Count),
{
    match outcome {
        ReadOutcome::Directory => Ok(EntryAction::SkipSilently),
        ReadOutcome::Unreadable => Ok(EntryAction::SkipWithDiagnostic(path)),
        ReadOutcome::Content(text) => match count_tokens(kind, text.as_str()) {
            Ok(count) => Ok(EntryAction::Count(FileResult { path, count })),
            Err(e) => Err(e),
        },
    }
}

/// The rows among a sequence of entry actions, in order.
pub open spec fn rows_of(actions: Seq<EntryAction>) -> Seq<FileResult>
    decreases actions.len(),
{
    if actions.len() == 0 {
        Seq::empty()
    } else {
        match actions.last() {
            EntryAction::Count(fr) => rows_of(actions.drop_last()).push(fr),
            _ => rows_of(actions.drop_last()),
        }
    }
}

/// The diagnostics among a sequence of entry actions (one path per skipped
/// unreadable file), in order.
pub open spec fn diagnostics_of(actions: Seq<EntryAction>) -> Seq<String>
    decreases actions.len(),
{
    if actions.len() == 0 {
        Seq::empty()
    } else {
        match actions.last() {
            EntryAction::SkipWithDiagnostic(p) => diagnostics_of(actions.drop_last()).push(p),
            _ => diagnostics_of(actions.drop_last()),
        }
    }
}

/// Splits the actions of a run into its reported rows and its diagnostics,
/// each in the order the actions came; silent skips contribute nothing.
pub fn collect_actions(actions: Vec<EntryAction>) -> (r: (Vec<FileResult>, Vec<String>))
    ensures
        r.0@ == rows_of(actions@),
        r.1@ == diagnostics_of(actions@),
{
    let mut actions = actions;
    let ghost all = actions@;
    let n = actions.len();
    proof {
        assert(all.len() == n);
    }
    let mut rows: Vec<FileResult> = Vec::new();
    let mut diagnostics: Vec<String> = Vec::new();
    let mut i: usize = 0;
    proof {
        assert(all.take(0) =~= Seq::<EntryAction>::empty());
    }
    while actions.len() > 0
        invariant
            i + actions@.len() == all.len(),
            all.len() <= usize::MAX,
            actions@ =~= all.skip(i as int),
            rows@ == rows_of(all.take(i as int)),
            diagnostics@ == diagnostics_of(all.take(i as int)),
        decreases actions@.len(),
    {
        let a = actions.remove(0);
        proof {
            assert(a == all[i as int]);
            assert(all.take(i + 1).drop_last() =~= all.take(i as int));
            assert(all.take(i + 1).last() == a);
        }
        match a {
            EntryAction::Count(fr) => rows.push(fr),
            EntryAction::SkipSilently => (),
            EntryAction::SkipWithDiagnostic(p) => diagnostics.push(p),
        }
        i = i + 1;
    }
    proof {
        assert(all.take(all.len() as int) =~= all);
    }
    (rows, diagnostics)
}

} // verus!
