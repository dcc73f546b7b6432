use git_dx::err::Error;
use git_dx::trailer::{
    branch_name, look_up_trailer, parse_trailer_lines, rewrite_pairs, split_lines, TrailerMatch,
};

fn pairs(ps: &[(&str, &str)]) -> Vec<(String, String)> {
    ps.iter().map(|(k, v)| (k.to_string(), v.to_string())).collect()
}

#[test]
fn lookup_zero_occurrences_is_missing() {
    let ts = pairs(&[("other", "x"), ("another", "y")]);
    let m = look_up_trailer("wchargin-branch", &ts);
    assert!(matches!(m, TrailerMatch::Missing { key: "wchargin-branch" }));
}

#[test]
fn lookup_one_occurrence_is_unique() {
    let ts = pairs(&[("other", "x"), ("wchargin-branch", "foo"), ("another", "y")]);
    let m = look_up_trailer("wchargin-branch", &ts);
    match m {
        TrailerMatch::Unique { key, value } => {
            assert_eq!(key, "wchargin-branch");
            assert_eq!(value, "foo");
        }
        other => panic!("expected unique, got {:?}", other),
    }
}

#[test]
fn lookup_two_occurrences_is_duplicate() {
    let ts = pairs(&[("wchargin-branch", "foo"), ("mid", "m"), ("wchargin-branch", "bar")]);
    let m = look_up_trailer("wchargin-branch", &ts);
    assert!(matches!(m, TrailerMatch::Duplicate { .. }));
}

#[test]
fn lookup_three_occurrences_is_duplicate() {
    let ts = pairs(&[("k", "1"), ("k", "2"), ("k", "3")]);
    let m = look_up_trailer("k", &ts);
    assert!(matches!(m, TrailerMatch::Duplicate { .. }));
}

#[test]
fn plus_walks_missing_unique_duplicate() {
    let m = TrailerMatch::Missing { key: "k" };
    let m = m.plus("a");
    assert!(matches!(m, TrailerMatch::Unique { key: "k", value: "a" }));
    let m = m.plus("b");
    assert!(matches!(m, TrailerMatch::Duplicate { key: "k" }));
    let m = m.plus("c");
    assert!(matches!(m, TrailerMatch::Duplicate { key: "k" }));
    assert!(m.is_duplicate());
}

#[test]
fn unique_returns_the_value() {
    let m = TrailerMatch::Unique { key: "k", value: "v" };
    assert_eq!(m.unique("OID").unwrap(), "v");
}

#[test]
fn unique_fails_missing_with_oid_and_key() {
    let m = TrailerMatch::Missing { key: "wchargin-branch" };
    match m.unique("OID") {
        Err(Error::MissingTrailer { oid, key }) => {
            assert_eq!(oid, "OID");
            assert_eq!(key, "wchargin-branch");
        }
        other => panic!("expected missing-trailer error, got {:?}", other),
    }
}

#[test]
fn duplicate_branch_trailer_fails_unique() {
    // a branch trailer that appears twice with different values
    let ts = pairs(&[("wchargin-branch", "foo"), ("wchargin-branch", "bar")]);
    let m = look_up_trailer("wchargin-branch", &ts);
    match m.unique("OID") {
        Err(Error::DuplicateTrailer { oid, key }) => {
            assert_eq!(oid, "OID");
            assert_eq!(key, "wchargin-branch");
        }
        other => panic!("expected duplicate-trailer error, got {:?}", other),
    }
}

#[test]
fn branch_name_prefixes_the_value() {
    let ts = pairs(&[("wchargin-branch", "foo")]);
    let r = branch_name("OID", &ts).unwrap();
    assert_eq!(r, Some("wchargin-foo".to_string()));
}

#[test]
fn branch_name_absent_is_none() {
    let ts = pairs(&[("unrelated", "foo")]);
    let r = branch_name("OID", &ts).unwrap();
    assert_eq!(r, None);
}

#[test]
fn branch_name_duplicate_is_error() {
    let ts = pairs(&[("wchargin-branch", "a"), ("wchargin-branch", "b")]);
    match branch_name("OID", &ts) {
        Err(Error::DuplicateTrailer { oid, key }) => {
            assert_eq!(oid, "OID");
            assert_eq!(key, "wchargin-branch");
        }
        other => panic!("expected duplicate-trailer error, got {:?}", other),
    }
}

#[test]
fn split_lines_drops_terminator_and_carriage_returns() {
    assert_eq!(split_lines(""), Vec::<String>::new());
    assert_eq!(split_lines("a\nb\n"), vec!["a".to_string(), "b".to_string()]);
    assert_eq!(split_lines("a\nb"), vec!["a".to_string(), "b".to_string()]);
    assert_eq!(split_lines("a\r\nb\r\n"), vec!["a".to_string(), "b".to_string()]);
    assert_eq!(split_lines("a\n\nb\n"), vec!["a".to_string(), "".to_string(), "b".to_string()]);
}

#[test]
fn parse_trailer_lines_splits_on_first_separator() {
    let r = parse_trailer_lines("Key: value\nOther: a: b\n").unwrap();
    assert_eq!(
        r,
        vec![
            ("Key".to_string(), "value".to_string()),
            ("Other".to_string(), "a: b".to_string()),
        ]
    );
}

#[test]
fn parse_trailer_lines_empty_listing_is_empty() {
    assert_eq!(parse_trailer_lines("").unwrap(), Vec::<(String, String)>::new());
}

#[test]
fn parse_trailer_lines_rejects_line_without_separator() {
    match parse_trailer_lines("Key: value\nnonsense\n") {
        Err(Error::GitContract(_)) => {}
        other => panic!("expected a backend-contract error, got {:?}", other),
    }
}

#[test]
fn rewrite_round_trip_replaces_and_preserves() {
    let ts = pairs(&[
        ("Co-authored-by", "Someone <s@example.com>"),
        ("wchargin-branch", "old"),
        ("Reviewed-by", "R <r@example.com>"),
        ("wchargin-source", "OLDSRC"),
        ("wchargin-branch", "older"),
    ]);
    let rw = rewrite_pairs(&ts, "newbranch", "NEWSRC");
    assert_eq!(
        rw,
        vec![
            ("Co-authored-by".to_string(), "Someone <s@example.com>".to_string()),
            ("Reviewed-by".to_string(), "R <r@example.com>".to_string()),
            ("wchargin-branch".to_string(), "newbranch".to_string()),
            ("wchargin-source".to_string(), "NEWSRC".to_string()),
        ]
    );
    // re-extracting finds exactly one occurrence of each, with the new values
    match look_up_trailer("wchargin-branch", &rw) {
        TrailerMatch::Unique { value, .. } => assert_eq!(value, "newbranch"),
        other => panic!("expected unique, got {:?}", other),
    }
    match look_up_trailer("wchargin-source", &rw) {
        TrailerMatch::Unique { value, .. } => assert_eq!(value, "NEWSRC"),
        other => panic!("expected unique, got {:?}", other),
    }
}
