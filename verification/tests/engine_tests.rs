use git_dx::backend::{GitOutput, Request};
use git_dx::engine::{patch_message, plan_patch, Engine, Integration, Step};
use git_dx::err::Error;
use git_dx::git::{Commit, GitStore};

fn out_ok(s: &str) -> GitOutput {
    GitOutput { success: true, stdout: s.as_bytes().to_vec() }
}

fn out_fail() -> GitOutput {
    GitOutput { success: false, stdout: Vec::new() }
}

fn next(e: Engine, out: GitOutput) -> (Engine, Request) {
    let (e2, r) = e.step(out);
    match r.unwrap() {
        Step::Next(req) => (e2, req),
        Step::Done(i) => panic!("finished early at {:?}", i),
    }
}

fn done(e: Engine, out: GitOutput) -> Integration {
    let (_, r) = e.step(out);
    match r.unwrap() {
        Step::Done(i) => i,
        Step::Next(req) => panic!("expected the result, got {:?}", req),
    }
}

fn source_commit(oid: &str, tree: &str, message: &str) -> Commit {
    Commit {
        oid: oid.to_string(),
        parents: vec!["PAR".to_string()],
        tree: tree.to_string(),
        message: message.to_string(),
    }
}

#[test]
fn message_priority_table() {
    // new branch dominates: the source message, verbatim, in all four cases
    for &(same_tree, bump) in &[(false, false), (false, true), (true, false), (true, true)] {
        assert_eq!(patch_message(true, same_tree, bump, "bv", None, "SRC MSG\n"), "SRC MSG\n");
    }
    // unchanged tree, bump
    assert_eq!(patch_message(false, true, true, "bv", None, "SRC MSG\n"), "[bv: bump ci]\n");
    // unchanged tree, no bump
    assert_eq!(
        patch_message(false, true, false, "bv", None, "SRC MSG\n"),
        "[bv: no-op] [ci skip]\n"
    );
    // changed tree, with and without an explicit description
    assert_eq!(patch_message(false, false, false, "bv", None, "SRC MSG\n"), "[bv: update patch]\n");
    let desc = "fix the tests".to_string();
    assert_eq!(
        patch_message(false, false, true, "bv", Some(&desc), "SRC MSG\n"),
        "[bv: fix the tests]\n"
    );
}

#[test]
fn plan_skips_the_commit_only_for_unallowed_empty() {
    assert_eq!(plan_patch(false, true, false, false, "bv", None, "m"), None);
    assert_eq!(plan_patch(true, true, false, false, "bv", None, "m"), None);
    assert_eq!(
        plan_patch(false, true, true, true, "bv", None, "m"),
        Some("[bv: bump ci]\n".to_string())
    );
    assert_eq!(
        plan_patch(false, false, false, false, "bv", None, "m"),
        Some("[bv: update patch]\n".to_string())
    );
}

#[test]
fn missing_branch_trailer_aborts() {
    let source = source_commit("SRC", "TREEX", "no trailers here\n");
    let (eng, req) = Engine::new(GitStore::new(), source, "origin", false, false, None);
    match req {
        Request::ParseTrailers { message } => assert_eq!(message, "no trailers here\n"),
        other => panic!("expected a trailer listing request, got {:?}", other),
    }
    let (_, r) = eng.step(out_ok(""));
    match r {
        Err(Error::MissingTrailer { oid, key }) => {
            assert_eq!(oid, "SRC");
            assert_eq!(key, "wchargin-branch");
        }
        other => panic!("expected missing-trailer, got {:?}", other),
    }
}

/// Scenario: `wchargin-branch: foo` on the source, no branch trailer on the
/// parent, and no remote branch `wchargin-foo`.
#[test]
fn new_branch_integration_uses_the_source_message_verbatim() {
    let msg = "Fix bug\n\nwchargin-branch: foo";
    let source = source_commit("SRC", "TREEX", msg);
    let (eng, _) = Engine::new(GitStore::new(), source, "origin", false, false, None);

    // source trailers; then the local diffbase is read
    let (eng, req) = next(eng, out_ok("wchargin-branch: foo\n"));
    match req {
        Request::Show { reference } => assert_eq!(reference, "SRC~^{commit}"),
        other => panic!("expected a show request, got {:?}", other),
    }
    let (eng, req) = next(eng, out_ok("parent msg\n\nPTREE\nPAR"));
    assert!(matches!(req, Request::RevParse { rev } if rev == "PAR"));
    let (eng, req) = next(eng, out_ok("PAR\n"));
    assert!(matches!(req, Request::RevParse { rev } if rev == "PAR^{commit}"));
    let (eng, req) = next(eng, out_ok("PAR\n"));
    // parent has no branch trailer: its own id is the remote diffbase,
    // and the remote tip of the target branch is looked up next
    match req {
        Request::ParseTrailers { message } => assert_eq!(message, "parent msg"),
        other => panic!("expected a trailer listing request, got {:?}", other),
    }
    let (eng, req) = next(eng, out_ok(""));
    assert!(matches!(req, Request::RevParse { rev } if rev == "refs/remotes/origin/wchargin-foo"));
    // no remote branch: a new branch, merging onto the remote diffbase
    let (eng, req) = next(eng, out_fail());
    assert!(matches!(req, Request::Checkout { oid } if oid == "PAR"));
    let (eng, req) = next(eng, out_ok(""));
    match req {
        Request::Merge { other, subject, footer } => {
            assert_eq!(other, "PAR");
            assert_eq!(subject, "[foo: update diffbase]");
            assert_eq!(footer, "wchargin-branch: foo\nwchargin-source: SRC");
        }
        other => panic!("expected a merge request, got {:?}", other),
    }
    // clean merge; the base commit is read
    let (eng, req) = next(eng, out_ok(""));
    assert!(matches!(req, Request::Show { reference } if reference == "HEAD"));
    let (eng, req) = next(eng, out_ok("merged\n\nBTREE\nBASE"));
    assert!(matches!(req, Request::RevParse { rev } if rev == "BASE"));
    let (eng, req) = next(eng, out_ok("BASE\n"));
    assert!(matches!(req, Request::RevParse { rev } if rev == "BASE^{commit}"));
    // differing tree on a new branch: the source message, verbatim
    let (eng, req) = next(eng, out_ok("BASE\n"));
    match req {
        Request::CommitTree { tree, message, branch_value, source_oid } => {
            assert_eq!(tree, "TREEX");
            assert_eq!(message, msg);
            assert_eq!(branch_value, "foo");
            assert_eq!(source_oid, "SRC");
        }
        other => panic!("expected a commit-tree request, got {:?}", other),
    }
    let (eng, req) = next(eng, out_ok("NEWOID\n"));
    assert!(matches!(req, Request::Checkout { oid } if oid == "NEWOID"));
    let result = done(eng, out_ok(""));
    assert_eq!(result.remote_commit, "NEWOID");
    assert_eq!(result.target_branch, "wchargin-foo");
}

/// Drives an integration whose parent carries `wchargin-branch: base` with the
/// remote branch `wchargin-base` at tip `RRR`, whose target branch exists at
/// tip `TTT`, and whose merge leaves the tree equal to the source tree.
fn run_up_to_date_integration() -> Integration {
    let msg = "Feature\n\nwchargin-branch: feat";
    let source = source_commit("SRC2", "TREES", msg);
    let (eng, _) = Engine::new(GitStore::new(), source, "origin", false, false, None);

    let (eng, req) = next(eng, out_ok("wchargin-branch: feat\n"));
    assert!(matches!(req, Request::Show { reference } if reference == "SRC2~^{commit}"));
    let (eng, req) = next(eng, out_ok("parent msg\n\nwchargin-branch: base\nGP\nPTREE\nPAR2"));
    assert!(matches!(req, Request::RevParse { rev } if rev == "PAR2"));
    let (eng, req) = next(eng, out_ok("PAR2\n"));
    assert!(matches!(req, Request::RevParse { rev } if rev == "PAR2^{commit}"));
    let (eng, req) = next(eng, out_ok("PAR2\n"));
    match req {
        Request::ParseTrailers { message } => {
            assert_eq!(message, "parent msg\n\nwchargin-branch: base")
        }
        other => panic!("expected a trailer listing request, got {:?}", other),
    }
    // the parent's branch trailer sends the engine to that remote branch
    let (eng, req) = next(eng, out_ok("wchargin-branch: base\n"));
    assert!(matches!(req, Request::RevParse { rev } if rev == "refs/remotes/origin/wchargin-base"));
    // the remote branch exists at RRR: that is the remote diffbase, not PAR2
    let (eng, req) = next(eng, out_ok("RRR\n"));
    assert!(matches!(req, Request::RevParse { rev } if rev == "refs/remotes/origin/wchargin-feat"));
    let (eng, req) = next(eng, out_ok("TTT\n"));
    assert!(matches!(req, Request::Checkout { oid } if oid == "TTT"));
    let (eng, req) = next(eng, out_ok(""));
    match req {
        Request::Merge { other, .. } => assert_eq!(other, "RRR"),
        other => panic!("expected a merge request, got {:?}", other),
    }
    let (eng, req) = next(eng, out_ok(""));
    assert!(matches!(req, Request::Show { reference } if reference == "HEAD"));
    let (eng, req) = next(eng, out_ok("merged\nX Y\nTREES\nBASE3"));
    assert!(matches!(req, Request::RevParse { rev } if rev == "BASE3"));
    let (eng, req) = next(eng, out_ok("BASE3\n"));
    assert!(matches!(req, Request::RevParse { rev } if rev == "BASE3^{commit}"));
    // the base tree equals the source tree and empty commits are not allowed:
    // the run ends at the base commit, with no commit-tree request
    done(eng, out_ok("BASE3\n"))
}

#[test]
fn remote_diffbase_prefers_the_parents_remote_branch() {
    let result = run_up_to_date_integration();
    assert_eq!(result.target_branch, "wchargin-feat");
}

#[test]
fn equal_trees_without_allow_empty_end_at_the_base_commit() {
    let result = run_up_to_date_integration();
    assert_eq!(result.remote_commit, "BASE3");
}

#[test]
fn rerunning_an_up_to_date_integration_is_idempotent() {
    let first = run_up_to_date_integration();
    let second = run_up_to_date_integration();
    assert_eq!(first.remote_commit, second.remote_commit);
    assert_eq!(first.target_branch, second.target_branch);
}

/// Drives an integration up to the merge answer, for an existing remote
/// branch whose tip is the merge head.
fn engine_at_merge(source: Commit, allow_empty: bool, bump: bool, message: Option<String>) -> Engine {
    let (eng, _) = Engine::new(GitStore::new(), source, "origin", allow_empty, bump, message);
    let (eng, _) = next(eng, out_ok("wchargin-branch: feat\n"));
    let (eng, _) = next(eng, out_ok("parent msg\n\nPTREE\nPAR2"));
    let (eng, _) = next(eng, out_ok("PAR2\n"));
    let (eng, _) = next(eng, out_ok("PAR2\n"));
    let (eng, _) = next(eng, out_ok(""));
    let (eng, req) = next(eng, out_ok("TTT\n"));
    assert!(matches!(req, Request::Checkout { oid } if oid == "TTT"));
    let (eng, req) = next(eng, out_ok(""));
    assert!(matches!(req, Request::Merge { .. }));
    eng
}

#[test]
fn conflicted_merge_is_staged_and_committed_as_is() {
    let source = source_commit("SRC2", "TREES", "Feature\n\nwchargin-branch: feat");
    let eng = engine_at_merge(source, false, false, None);
    // the merge fails: conflicts are staged and committed as they stand
    let (eng, req) = next(eng, out_fail());
    assert!(matches!(req, Request::StageAll));
    let (eng, req) = next(eng, out_ok(""));
    assert!(matches!(req, Request::CommitNoEdit));
    let (_, req) = next(eng, out_ok(""));
    assert!(matches!(req, Request::Show { reference } if reference == "HEAD"));
}

#[test]
fn bump_on_an_unchanged_tree_writes_the_bump_message() {
    let source = source_commit("SRC2", "TREES", "Feature\n\nwchargin-branch: feat");
    let eng = engine_at_merge(source, true, true, None);
    let (eng, _) = next(eng, out_ok(""));
    let (eng, _) = next(eng, out_ok("merged\nX Y\nTREES\nBASE3"));
    let (eng, _) = next(eng, out_ok("BASE3\n"));
    let (eng, req) = next(eng, out_ok("BASE3\n"));
    match req {
        Request::CommitTree { message, .. } => assert_eq!(message, "[feat: bump ci]\n"),
        other => panic!("expected a commit-tree request, got {:?}", other),
    }
}

#[test]
fn allowed_empty_without_bump_writes_the_noop_message() {
    let source = source_commit("SRC2", "TREES", "Feature\n\nwchargin-branch: feat");
    let eng = engine_at_merge(source, true, false, None);
    let (eng, _) = next(eng, out_ok(""));
    let (eng, _) = next(eng, out_ok("merged\nX Y\nTREES\nBASE3"));
    let (eng, _) = next(eng, out_ok("BASE3\n"));
    let (eng, req) = next(eng, out_ok("BASE3\n"));
    match req {
        Request::CommitTree { message, .. } => assert_eq!(message, "[feat: no-op] [ci skip]\n"),
        other => panic!("expected a commit-tree request, got {:?}", other),
    }
}

#[test]
fn changed_tree_takes_the_explicit_description() {
    let source = source_commit("SRC2", "TREES", "Feature\n\nwchargin-branch: feat");
    let eng = engine_at_merge(source, false, false, Some("rework the parser".to_string()));
    let (eng, _) = next(eng, out_ok(""));
    let (eng, _) = next(eng, out_ok("merged\nX Y\nOTHERTREE\nBASE3"));
    let (eng, _) = next(eng, out_ok("BASE3\n"));
    let (eng, req) = next(eng, out_ok("BASE3\n"));
    match req {
        Request::CommitTree { message, .. } => assert_eq!(message, "[feat: rework the parser]\n"),
        other => panic!("expected a commit-tree request, got {:?}", other),
    }
}

#[test]
fn failed_checkout_of_the_merge_head_is_fatal() {
    let source = source_commit("SRC2", "TREES", "Feature\n\nwchargin-branch: feat");
    let (eng, _) = Engine::new(GitStore::new(), source, "origin", false, false, None);
    let (eng, _) = next(eng, out_ok("wchargin-branch: feat\n"));
    let (eng, _) = next(eng, out_ok("parent msg\n\nPTREE\nPAR2"));
    let (eng, _) = next(eng, out_ok("PAR2\n"));
    let (eng, _) = next(eng, out_ok("PAR2\n"));
    let (eng, _) = next(eng, out_ok(""));
    let (eng, _) = next(eng, out_ok("TTT\n"));
    let (_, r) = eng.step(out_fail());
    match r {
        Err(Error::GitContract(m)) => assert_eq!(m, "failed to check out TTT"),
        other => panic!("expected a backend-contract error, got {:?}", other),
    }
}

#[test]
fn bad_commit_tree_output_is_fatal() {
    let source = source_commit("SRC2", "TREES", "Feature\n\nwchargin-branch: feat");
    let eng = engine_at_merge(source, false, false, None);
    let (eng, _) = next(eng, out_ok(""));
    let (eng, _) = next(eng, out_ok("merged\nX Y\nOTHERTREE\nBASE3"));
    let (eng, _) = next(eng, out_ok("BASE3\n"));
    let (eng, req) = next(eng, out_ok("BASE3\n"));
    assert!(matches!(req, Request::CommitTree { .. }));
    let (_, r) = eng.step(out_ok("not an id"));
    match r {
        Err(Error::GitContract(m)) => assert_eq!(m, "commit-tree gave bad output"),
        other => panic!("expected a backend-contract error, got {:?}", other),
    }
}

#[test]
fn duplicate_branch_trailer_on_the_source_aborts() {
    let source = source_commit("SRC", "TREEX", "msg");
    let (eng, _) = Engine::new(GitStore::new(), source, "origin", false, false, None);
    let (_, r) = eng.step(out_ok("wchargin-branch: a\nwchargin-branch: b\n"));
    match r {
        Err(Error::DuplicateTrailer { oid, key }) => {
            assert_eq!(oid, "SRC");
            assert_eq!(key, "wchargin-branch");
        }
        other => panic!("expected duplicate-trailer, got {:?}", other),
    }
}
