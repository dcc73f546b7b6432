use git_dx::backend::{GitOutput, Request};
use git_dx::err::Error;
use git_dx::git::{
    parse_oid, parse_show_output, peel_rev, Commit, CommitLookup, FetchStep, GitStore, Resolution,
};

fn out_ok(s: &str) -> GitOutput {
    GitOutput { success: true, stdout: s.as_bytes().to_vec() }
}

fn out_fail() -> GitOutput {
    GitOutput { success: false, stdout: Vec::new() }
}

#[test]
fn parse_oid_strips_the_newline() {
    assert_eq!(parse_oid(b"abc123\n".to_vec()).unwrap(), "abc123");
}

#[test]
fn parse_oid_rejects_text_without_newline() {
    assert_eq!(parse_oid(b"abc123".to_vec()), Err(b"abc123".to_vec()));
}

#[test]
fn parse_oid_rejects_empty_output() {
    assert_eq!(parse_oid(Vec::new()), Err(Vec::new()));
}

#[test]
fn parse_oid_rejects_invalid_utf8() {
    assert_eq!(parse_oid(vec![0xff, 0xfe]), Err(vec![0xff, 0xfe]));
}

#[test]
fn require_utf8_accepts_and_rejects() {
    assert_eq!(Error::require_utf8(b"hi".to_vec(), "OID").unwrap(), "hi");
    match Error::require_utf8(vec![0xff], "OID") {
        Err(Error::InvalidEncoding { oid }) => assert_eq!(oid, "OID"),
        other => panic!("expected an encoding error, got {:?}", other),
    }
}

#[test]
fn peel_rev_appends_the_commit_selector() {
    assert_eq!(peel_rev("abc"), "abc^{commit}");
}

#[test]
fn parse_show_reads_the_suffix_backward() {
    let text = "Fix bug\n\nwith: delimiters\nP1 P2\nTREE1\nOID1";
    let c = parse_show_output("ref", text).unwrap();
    assert_eq!(c.oid, "OID1");
    assert_eq!(c.tree, "TREE1");
    assert_eq!(c.parents, vec!["P1".to_string(), "P2".to_string()]);
    assert_eq!(c.message, "Fix bug\n\nwith: delimiters");
}

#[test]
fn parse_show_no_parents() {
    let text = "root message\n\nTREE1\nOID1";
    let c = parse_show_output("ref", text).unwrap();
    assert_eq!(c.parents, Vec::<String>::new());
    assert_eq!(c.message, "root message");
}

#[test]
fn parse_show_without_suffix_names_no_commit() {
    match parse_show_output("myref", "no newlines at all") {
        Err(Error::NoSuchCommit(r)) => assert_eq!(r, "myref"),
        other => panic!("expected no-such-commit, got {:?}", other),
    }
}

#[test]
fn rev_parse_interprets_failure_as_absence() {
    let store = GitStore::new();
    assert_eq!(store.rev_parse(out_fail()).unwrap(), None);
    assert_eq!(store.rev_parse(out_ok("abc\n")).unwrap(), Some("abc".to_string()));
    match store.rev_parse(out_ok("")) {
        Err(Error::GitContract(_)) => {}
        other => panic!("expected a backend-contract error, got {:?}", other),
    }
}

#[test]
fn rev_parse_commit_hands_back_the_peel() {
    let store = GitStore::new();
    assert!(matches!(store.rev_parse_commit(out_fail()).unwrap(), Resolution::Missing));
    match store.rev_parse_commit(out_ok("abc\n")).unwrap() {
        Resolution::Peel(h) => assert_eq!(h, "abc"),
        other => panic!("expected peel, got {:?}", other),
    }
}

#[test]
fn rev_parse_commit_ok_requires_a_hit() {
    let store = GitStore::new();
    assert_eq!(store.rev_parse_commit_ok("rev", Some("abc".to_string())).unwrap(), "abc");
    match store.rev_parse_commit_ok("badref", None) {
        Err(Error::NoSuchCommit(r)) => assert_eq!(r, "badref"),
        other => panic!("expected no-such-commit, got {:?}", other),
    }
}

/// Drives one full fetch of `reference` through the store.
fn fetch(store: &mut GitStore, reference: &str, show_text: &str, oid: &str) -> Commit {
    let (fetch, req) = match store.commit(reference) {
        CommitLookup::Fetch(f, req) => (f, req),
        CommitLookup::Cached(c) => return c,
    };
    match req {
        Request::Show { reference: r } => assert_eq!(r, reference),
        other => panic!("expected a show request, got {:?}", other),
    }
    let (fetch, req) = match store.fetch_step(fetch, out_ok(show_text)).unwrap() {
        FetchStep::Next(f, req) => (f, req),
        FetchStep::Done(c) => panic!("finished too early at {:?}", c),
    };
    match req {
        Request::RevParse { rev } => assert_eq!(rev, oid),
        other => panic!("expected a rev-parse request, got {:?}", other),
    }
    let (fetch, req) = match store.fetch_step(fetch, out_ok(&format!("{}\n", oid))).unwrap() {
        FetchStep::Next(f, req) => (f, req),
        FetchStep::Done(c) => panic!("finished too early at {:?}", c),
    };
    match req {
        Request::RevParse { rev } => assert_eq!(rev, format!("{}^{{commit}}", oid)),
        other => panic!("expected a rev-parse request, got {:?}", other),
    }
    match store.fetch_step(fetch, out_ok(&format!("{}\n", oid))).unwrap() {
        FetchStep::Done(c) => c,
        FetchStep::Next(_, req) => panic!("expected the record, got {:?}", req),
    }
}

#[test]
fn fetch_validates_and_caches_under_both_keys() {
    let mut store = GitStore::new();
    let c = fetch(&mut store, "HEAD", "msg\nP1\nTREE1\nOID1", "OID1");
    assert_eq!(c.oid, "OID1");
    assert_eq!(c.tree, "TREE1");
    // cached under the canonical id and under the alias
    match store.commit("OID1") {
        CommitLookup::Cached(c2) => assert_eq!(c2, c),
        CommitLookup::Fetch(_, _) => panic!("canonical id missed the cache"),
    }
    match store.commit("HEAD") {
        CommitLookup::Cached(c2) => assert_eq!(c2, c),
        CommitLookup::Fetch(_, _) => panic!("alias missed the cache"),
    }
    // an unknown reference still misses
    assert!(matches!(store.commit("other"), CommitLookup::Fetch(_, _)));
}

#[test]
fn fetch_of_unshowable_reference_fails() {
    let mut store = GitStore::new();
    let (f, _) = match store.commit("nope") {
        CommitLookup::Fetch(f, req) => (f, req),
        CommitLookup::Cached(c) => panic!("unexpected cache hit {:?}", c),
    };
    match store.fetch_step(f, out_fail()) {
        Err(Error::NoSuchCommit(r)) => assert_eq!(r, "nope"),
        other => panic!("expected no-such-commit, got {:?}", other),
    }
}

#[test]
fn fetch_of_a_non_commit_object_fails() {
    // the shown id peels to a different object: e.g. the reference named a tree
    let mut store = GitStore::new();
    let (f, _) = match store.commit("sometree") {
        CommitLookup::Fetch(f, req) => (f, req),
        CommitLookup::Cached(c) => panic!("unexpected cache hit {:?}", c),
    };
    let (f, _) = match store.fetch_step(f, out_ok("msg\n\nTREE1\nOID1")).unwrap() {
        FetchStep::Next(f, req) => (f, req),
        FetchStep::Done(c) => panic!("finished too early at {:?}", c),
    };
    let (f, _) = match store.fetch_step(f, out_ok("OID1\n")).unwrap() {
        FetchStep::Next(f, req) => (f, req),
        FetchStep::Done(c) => panic!("finished too early at {:?}", c),
    };
    match store.fetch_step(f, out_ok("OTHER\n")) {
        Err(Error::NoSuchCommit(r)) => assert_eq!(r, "sometree"),
        other => panic!("expected no-such-commit, got {:?}", other),
    }
}

#[test]
fn fetch_missing_validation_names_the_shown_id() {
    let mut store = GitStore::new();
    let (f, _) = match store.commit("badref") {
        CommitLookup::Fetch(f, req) => (f, req),
        CommitLookup::Cached(c) => panic!("unexpected cache hit {:?}", c),
    };
    let (f, _) = match store.fetch_step(f, out_ok("msg\n\nTREE1\nOID1")).unwrap() {
        FetchStep::Next(f, req) => (f, req),
        FetchStep::Done(c) => panic!("finished too early at {:?}", c),
    };
    match store.fetch_step(f, out_fail()) {
        Err(Error::NoSuchCommit(r)) => assert_eq!(r, "OID1"),
        other => panic!("expected no-such-commit, got {:?}", other),
    }
}

#[test]
fn cache_rejects_a_different_record_for_one_id() {
    let mut store = GitStore::new();
    fetch(&mut store, "refA", "msg\nP1\nTREE1\nOID1", "OID1");
    // a second reference resolves to the same id but shows another tree
    let (f, _) = match store.commit("refB") {
        CommitLookup::Fetch(f, req) => (f, req),
        CommitLookup::Cached(c) => panic!("unexpected cache hit {:?}", c),
    };
    let (f, _) = match store.fetch_step(f, out_ok("msg\nP1\nTREE2\nOID1")).unwrap() {
        FetchStep::Next(f, req) => (f, req),
        FetchStep::Done(c) => panic!("finished too early at {:?}", c),
    };
    let (f, _) = match store.fetch_step(f, out_ok("OID1\n")).unwrap() {
        FetchStep::Next(f, req) => (f, req),
        FetchStep::Done(c) => panic!("finished too early at {:?}", c),
    };
    match store.fetch_step(f, out_ok("OID1\n")) {
        Err(Error::GitContract(_)) => {}
        other => panic!("expected a backend-contract error, got {:?}", other),
    }
}

#[test]
fn fetch_with_matching_record_returns_the_cached_one() {
    let mut store = GitStore::new();
    let first = fetch(&mut store, "refA", "msg\nP1\nTREE1\nOID1", "OID1");
    let second = fetch(&mut store, "refB", "msg\nP1\nTREE1\nOID1", "OID1");
    assert_eq!(first, second);
    match store.commit("refB") {
        CommitLookup::Cached(c) => assert_eq!(c, first),
        CommitLookup::Fetch(_, _) => panic!("second alias missed the cache"),
    }
}
