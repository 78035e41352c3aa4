use tokencount::engine::{collect_actions, process_entry, EntryAction, FileResult, ReadOutcome};
use tokencount::pattern::{expand_pattern, split_entries, PatternEntry};
use tokencount::summary::summarize;
use tokencount::tokenizer::{count_tokens, tokenize, TokenizerKind};

#[test]
fn from_name_known_schemes() {
    assert_eq!(
        TokenizerKind::from_name("cl100k-base"),
        Some(TokenizerKind::Cl100kBase)
    );
    assert_eq!(
        TokenizerKind::from_name("p50k-base"),
        Some(TokenizerKind::P50kBase)
    );
    assert_eq!(
        TokenizerKind::from_name("p50k-edit"),
        Some(TokenizerKind::P50kEdit)
    );
    assert_eq!(
        TokenizerKind::from_name("r50k-base"),
        Some(TokenizerKind::R50kBase)
    );
    assert_eq!(TokenizerKind::from_name("gpt2"), Some(TokenizerKind::Gpt2));
}

#[test]
fn from_name_unknown_scheme() {
    assert_eq!(TokenizerKind::from_name(""), None);
    assert_eq!(TokenizerKind::from_name("cl100k"), None);
    assert_eq!(TokenizerKind::from_name("o200k-base"), None);
}

#[test]
fn empty_text_counts_zero_tokens() {
    assert_eq!(count_tokens(TokenizerKind::Cl100kBase, "").unwrap(), 0);
    assert_eq!(count_tokens(TokenizerKind::P50kBase, "").unwrap(), 0);
    assert_eq!(count_tokens(TokenizerKind::P50kEdit, "").unwrap(), 0);
    assert_eq!(count_tokens(TokenizerKind::R50kBase, "").unwrap(), 0);
    assert_eq!(count_tokens(TokenizerKind::Gpt2, "").unwrap(), 0);
}

#[test]
fn hello_is_one_token() {
    assert_eq!(count_tokens(TokenizerKind::Cl100kBase, "hello").unwrap(), 1);
    assert_eq!(count_tokens(TokenizerKind::R50kBase, "hello").unwrap(), 1);
}

#[test]
fn special_token_counts_as_one_token() {
    assert_eq!(
        count_tokens(TokenizerKind::Cl100kBase, "<|endoftext|>").unwrap(),
        1
    );
}

#[test]
fn counting_is_deterministic() {
    let text = "The quick brown fox jumps over the lazy dog.";
    let first = count_tokens(TokenizerKind::Cl100kBase, text).unwrap();
    let second = count_tokens(TokenizerKind::Cl100kBase, text).unwrap();
    assert_eq!(first, second);
    let t1 = tokenize(TokenizerKind::P50kBase, text).unwrap();
    let t2 = tokenize(TokenizerKind::P50kBase, text).unwrap();
    assert_eq!(t1, t2);
}

#[test]
fn gpt2_is_an_alias_of_r50k() {
    let text = "Counting tokens, one file at a time.";
    assert_eq!(
        tokenize(TokenizerKind::Gpt2, text).unwrap(),
        tokenize(TokenizerKind::R50kBase, text).unwrap()
    );
}

#[test]
fn directory_is_skipped_silently() {
    let action = process_entry(
        TokenizerKind::Cl100kBase,
        "some/dir".to_string(),
        ReadOutcome::Directory,
    )
    .unwrap();
    assert!(matches!(action, EntryAction::SkipSilently));
}

#[test]
fn unreadable_file_gets_one_diagnostic_and_no_row() {
    let action = process_entry(
        TokenizerKind::Cl100kBase,
        "locked.txt".to_string(),
        ReadOutcome::Unreadable,
    )
    .unwrap();
    match action {
        EntryAction::SkipWithDiagnostic(path) => assert_eq!(path, "locked.txt"),
        _ => panic!("expected a diagnostic skip"),
    }
}

#[test]
fn readable_content_becomes_a_row() {
    let action = process_entry(
        TokenizerKind::Cl100kBase,
        "a.txt".to_string(),
        ReadOutcome::Content("hello".to_string()),
    )
    .unwrap();
    match action {
        EntryAction::Count(row) => {
            assert_eq!(row.path, "a.txt");
            assert_eq!(row.count, 1);
        }
        _ => panic!("expected a counted row"),
    }
}

#[test]
fn empty_content_becomes_a_zero_row() {
    let action = process_entry(
        TokenizerKind::Cl100kBase,
        "b.txt".to_string(),
        ReadOutcome::Content(String::new()),
    )
    .unwrap();
    match action {
        EntryAction::Count(row) => {
            assert_eq!(row.path, "b.txt");
            assert_eq!(row.count, 0);
        }
        _ => panic!("expected a counted row"),
    }
}

#[test]
fn collect_actions_keeps_rows_and_diagnostics_in_order() {
    let actions = vec![
        EntryAction::Count(FileResult {
            path: "a.txt".to_string(),
            count: 3,
        }),
        EntryAction::SkipSilently,
        EntryAction::SkipWithDiagnostic("locked.txt".to_string()),
        EntryAction::Count(FileResult {
            path: "b.txt".to_string(),
            count: 4,
        }),
    ];
    let (rows, diagnostics) = collect_actions(actions);
    assert_eq!(rows.len(), 2);
    assert_eq!(rows[0].path, "a.txt");
    assert_eq!(rows[0].count, 3);
    assert_eq!(rows[1].path, "b.txt");
    assert_eq!(rows[1].count, 4);
    assert_eq!(diagnostics, vec!["locked.txt".to_string()]);
}

#[test]
fn total_is_the_sum_of_all_counts() {
    let rows = vec![
        FileResult {
            path: "a".to_string(),
            count: 2,
        },
        FileResult {
            path: "b".to_string(),
            count: 3,
        },
        FileResult {
            path: "c".to_string(),
            count: 4,
        },
    ];
    let summary = summarize(rows).unwrap();
    assert_eq!(summary.total, 9);
    assert_eq!(summary.results.len(), 3);
}

#[test]
fn total_of_no_rows_is_zero() {
    let summary = summarize(Vec::new()).unwrap();
    assert_eq!(summary.total, 0);
    assert!(summary.results.is_empty());
}

#[test]
fn overflowing_total_is_refused() {
    let rows = vec![
        FileResult {
            path: "a".to_string(),
            count: usize::MAX,
        },
        FileResult {
            path: "b".to_string(),
            count: 1,
        },
    ];
    assert!(summarize(rows).is_none());
}

#[test]
fn total_does_not_depend_on_row_order() {
    let forward = vec![
        FileResult {
            path: "a".to_string(),
            count: 1,
        },
        FileResult {
            path: "b".to_string(),
            count: 20,
        },
        FileResult {
            path: "c".to_string(),
            count: 300,
        },
    ];
    let shuffled = vec![
        FileResult {
            path: "c".to_string(),
            count: 300,
        },
        FileResult {
            path: "a".to_string(),
            count: 1,
        },
        FileResult {
            path: "b".to_string(),
            count: 20,
        },
    ];
    assert_eq!(
        summarize(forward).unwrap().total,
        summarize(shuffled).unwrap().total
    );
}

#[test]
fn txt_scenario_two_rows_total_one() {
    let kind = TokenizerKind::Cl100kBase;
    let entries = vec![
        ("a.txt", ReadOutcome::Content("hello".to_string())),
        ("b.txt", ReadOutcome::Content(String::new())),
    ];
    let mut actions = Vec::new();
    for (path, outcome) in entries {
        actions.push(process_entry(kind, path.to_string(), outcome).unwrap());
    }
    let (rows, diagnostics) = collect_actions(actions);
    assert!(diagnostics.is_empty());
    assert_eq!(rows.len(), 2);
    assert_eq!(rows[0].path, "a.txt");
    assert_eq!(rows[0].count, 1);
    assert_eq!(rows[1].path, "b.txt");
    assert_eq!(rows[1].count, 0);
    let summary = summarize(rows).unwrap();
    assert_eq!(summary.total, 1);
}

#[test]
fn split_entries_separates_paths_from_failures() {
    let entries = vec![
        PatternEntry::Found("a.txt".to_string()),
        PatternEntry::Failed("could not list a directory".to_string()),
        PatternEntry::Found("b.txt".to_string()),
    ];
    let (paths, failures) = split_entries(entries);
    assert_eq!(paths, vec!["a.txt".to_string(), "b.txt".to_string()]);
    assert_eq!(failures, vec!["could not list a directory".to_string()]);
}

#[test]
fn invalid_pattern_fails_before_any_entry() {
    assert!(expand_pattern("[abc").is_err());
    assert!(expand_pattern("a/**[").is_err());
}

#[test]
fn valid_pattern_with_no_match_expands_to_nothing() {
    let entries = expand_pattern("*.zz_no_such_extension_zz").unwrap();
    assert!(entries.is_empty());
}

#[test]
fn plain_path_pattern_finds_the_path() {
    let entries = expand_pattern("/tmp").unwrap();
    assert_eq!(entries.len(), 1);
    match &entries[0] {
        PatternEntry::Found(path) => assert_eq!(path, "/tmp"),
        PatternEntry::Failed(_) => panic!("expected a matched path"),
    }
}
