//! Integration engine: the state machine that computes the remote-friendly
//! commit for one source commit. The engine holds the decision procedure;
//! a driver performs each requested backend call and hands the answer back
//! until the engine finishes with the new commit id and its target branch.

use vstd::prelude::*;

verus! {

use vstd::string::StrSliceExecFns;
use vstd::utf8::{valid_utf8, decode_utf8};
use crate::err::{Error, ErrView, res_view, utf8_string};
use crate::backend::{GitOutput, Request, ReqView};
use crate::git::{
    Commit, CommitView, GitStore, StoreView, CommitFetch, FetchView, FetchStateView,
    FetchStep, FetchStepView, CommitLookup, lookup_spec, spec_fetch_step, spec_rev_parse,
    oid_of_stdout, parse_oid,
};
use crate::text::str_eq;
use crate::trailer::{
    branch_key, source_key, branch_prefix, branch_key_spec, source_key_spec, branch_prefix_spec,
    parse_lines_spec, parse_trailer_lines, trailer_sep_msg, spec_branch_name, branch_name,
    look_up_trailer, first_value_of,
};

// --- What the engine hands back ---

/// What one integration run produces: the remote-friendly commit and the
/// branch it is meant to be pushed to.
#[derive(Debug)]
pub struct Integration {
    pub remote_commit: String,
    pub target_branch: String,
}

/// Mathematical image of an [`Integration`].
#[verifier::ext_equal]
pub struct IntegrationView {
    pub remote_commit: Seq<char>,
    pub target_branch: Seq<char>,
}

impl View for Integration {
    type V = IntegrationView;

    open spec fn view(&self) -> IntegrationView {
        IntegrationView { remote_commit: self.remote_commit@, target_branch: self.target_branch@ }
    }
}

impl DeepView for Integration {
    type V = IntegrationView;

    open spec fn deep_view(&self) -> IntegrationView {
        self.view()
    }
}

/// One answer of the engine: the next backend call to run, or the result.
#[derive(Debug)]
pub enum Step {
    Next(Request),
    Done(Integration),
}

/// Mathematical image of a [`Step`].
#[verifier::ext_equal]
pub enum StepView {
    Next(ReqView),
    Done(IntegrationView),
}

impl View for Step {
    type V = StepView;

    open spec fn view(&self) -> StepView {
        match self {
            Step::Next(req) => StepView::Next(req@),
            Step::Done(i) => StepView::Done(i@),
        }
    }
}

impl DeepView for Step {
    type V = StepView;

    open spec fn deep_view(&self) -> StepView {
        self.view()
    }
}

// --- The texts the engine writes ---

/// `refs/remotes/<remote>/<branch>`: where the remote tip of a branch lives.
pub open spec fn remote_ref_spec(remote: Seq<char>, branch: Seq<char>) -> Seq<char> {
    "refs/remotes/"@ + remote + "/"@ + branch
}

/// Builds the remote reference path for a branch.
pub fn remote_branch_ref(remote: &str, branch: &str) -> (r: String)
    ensures
        r@ == remote_ref_spec(remote@, branch@),
{
    let mut s = String::from_str("refs/remotes/");
    s.append(remote);
    s.append("/");
    s.append(branch);
    s
}

/// Interprets the rev-parse answer for a remote branch reference: the tip's
/// id, or `None` when the remote branch does not exist.
pub fn remote_branch_oid(store: &GitStore, out: GitOutput) -> (r: Result<Option<String>, Error>)
    ensures
        res_view(r) == spec_rev_parse(out),
{
    store.rev_parse(out)
}

/// The revision naming a commit's sole parent, peeled to a commit.
pub open spec fn diffbase_rev_spec(oid: Seq<char>) -> Seq<char> {
    oid + "~^{commit}"@
}

fn diffbase_rev(oid: &str) -> (r: String)
    ensures
        r@ == diffbase_rev_spec(oid@),
{
    let mut s = String::from_str(oid);
    s.append("~^{commit}");
    s
}

/// The full target branch name: prefix plus trailer value.
pub open spec fn target_branch_spec(branch_value: Seq<char>) -> Seq<char> {
    branch_prefix_spec() + branch_value
}

fn target_branch_of(branch_value: &str) -> (r: String)
    ensures
        r@ == target_branch_spec(branch_value@),
{
    let mut s = String::from_str(branch_prefix());
    s.append(branch_value);
    s
}

/// Subject of the merge that incorporates the diffbase.
pub open spec fn merge_subject_spec(branch_value: Seq<char>) -> Seq<char> {
    "["@ + branch_value + ": update diffbase]"@
}

fn merge_subject(branch_value: &str) -> (r: String)
    ensures
        r@ == merge_subject_spec(branch_value@),
{
    let mut s = String::from_str("[");
    s.append(branch_value);
    s.append(": update diffbase]");
    s
}

/// Provenance footer of the merge commit: one branch trailer and one source
/// trailer.
pub open spec fn merge_footer_spec(branch_value: Seq<char>, source_oid: Seq<char>) -> Seq<char> {
    branch_key_spec() + ": "@ + branch_value + "\n"@ + source_key_spec() + ": "@ + source_oid
}

fn merge_footer(branch_value: &str, source_oid: &str) -> (r: String)
    ensures
        r@ == merge_footer_spec(branch_value@, source_oid@),
{
    let mut s = String::from_str(branch_key());
    s.append(": ");
    s.append(branch_value);
    s.append("\n");
    s.append(source_key());
    s.append(": ");
    s.append(source_oid);
    s
}

pub open spec fn bump_message_spec(branch_value: Seq<char>) -> Seq<char> {
    "["@ + branch_value + ": bump ci]\n"@
}

pub open spec fn noop_message_spec(branch_value: Seq<char>) -> Seq<char> {
    "["@ + branch_value + ": no-op] [ci skip]\n"@
}

pub open spec fn update_message_spec(branch_value: Seq<char>, description: Seq<char>) -> Seq<char> {
    "["@ + branch_value + ": "@ + description + "]\n"@
}

pub open spec fn update_patch_default() -> Seq<char> {
    "update patch"@
}

/// The message of the patch commit, by the priority table: a new branch takes
/// the source message verbatim; an unchanged tree takes the bump text when a
/// bump was asked for and the no-op text otherwise; a changed tree takes the
/// explicit description, or its default.
pub open spec fn patch_message_spec(
    new_branch: bool,
    same_tree: bool,
    bump: bool,
    branch_value: Seq<char>,
    explicit: Option<Seq<char>>,
    source_message: Seq<char>,
) -> Seq<char> {
    if new_branch {
        source_message
    } else if same_tree && bump {
        bump_message_spec(branch_value)
    } else if same_tree {
        noop_message_spec(branch_value)
    } else {
        update_message_spec(
            branch_value,
            match explicit {
                Some(m) => m,
                None => update_patch_default(),
            },
        )
    }
}

/// Writes the message of the patch commit, exactly by the priority table.
pub fn patch_message(
    new_branch: bool,
    same_tree: bool,
    bump: bool,
    branch_value: &str,
    explicit: Option<&String>,
    source_message: &str,
) -> (r: String)
    ensures
        r@ == patch_message_spec(
            new_branch,
            same_tree,
            bump,
            branch_value@,
            explicit.deep_view(),
            source_message@,
        ),
{
    if new_branch {
        String::from_str(source_message)
    } else if same_tree && bump {
        let mut s = String::from_str("[");
        s.append(branch_value);
        s.append(": bump ci]\n");
        s
    } else if same_tree {
        let mut s = String::from_str("[");
        s.append(branch_value);
        s.append(": no-op] [ci skip]\n");
        s
    } else {
        let mut s = String::from_str("[");
        s.append(branch_value);
        s.append(": ");
        match explicit {
            Some(m) => s.append(m.as_str()),
            None => s.append("update patch"),
        }
        s.append("]\n");
        s
    }
}

/// What to do at the tree-comparison step: `None` creates no patch commit
/// (the run is a no-op), `Some` gives the message of the commit to create.
pub open spec fn patch_plan_spec(
    new_branch: bool,
    same_tree: bool,
    bump: bool,
    allow_empty: bool,
    branch_value: Seq<char>,
    explicit: Option<Seq<char>>,
    source_message: Seq<char>,
) -> Option<Seq<char>> {
    if same_tree && !allow_empty {
        None
    } else {
        Some(patch_message_spec(new_branch, same_tree, bump, branch_value, explicit, source_message))
    }
}

/// Decides the tree-comparison step: an unchanged tree without `allow_empty`
/// creates nothing, and otherwise the patch commit's message follows the
/// priority table.
pub fn plan_patch(
    new_branch: bool,
    same_tree: bool,
    bump: bool,
    allow_empty: bool,
    branch_value: &str,
    explicit: Option<&String>,
    source_message: &str,
) -> (r: Option<String>)
    ensures
        r.deep_view() == patch_plan_spec(
            new_branch,
            same_tree,
            bump,
            allow_empty,
            branch_value@,
            explicit.deep_view(),
            source_message@,
        ),
{
    if same_tree && !allow_empty {
        None
    } else {
        Some(patch_message(new_branch, same_tree, bump, branch_value, explicit, source_message))
    }
}

/// Law: integration is idempotent. When the checked-out base already carries
/// the source tree and empty commits are not allowed, no patch commit is
/// planned -- the run ends at the base commit itself, so a re-run against an
/// up-to-date remote tip returns the same remote commit and creates no new
/// commit object. The plan is a function of its inputs, so every run over the
/// same state decides the same.
pub proof fn lemma_no_op_idempotent(
    new_branch: bool,
    bump: bool,
    branch_value: Seq<char>,
    explicit: Option<Seq<char>>,
    source: CommitView,
    base: CommitView,
)
    requires
        base.tree == source.tree,
    ensures
        patch_plan_spec(
            new_branch,
            base.tree == source.tree,
            bump,
            false,
            branch_value,
            explicit,
            source.message,
        ) is None,
        spec_after_base(
            source,
            false,
            bump,
            explicit,
            branch_value,
            new_branch,
            base,
        ).1 == Ok::<StepView, ErrView>(StepView::Done(IntegrationView {
            remote_commit: base.oid,
            target_branch: target_branch_spec(branch_value),
        })),
        spec_after_base(source, false, bump, explicit, branch_value, new_branch, base).0
            is Finished,
{
}

// --- The state machine ---

/// Where the engine stands: which backend answer it is waiting for, and what
/// it has established so far.
#[derive(Debug)]
pub enum Phase {
    /// Awaiting the trailer listing of the source commit's message.
    SourceTrailers,
    /// Awaiting a fetch step for the local diffbase (the source's parent).
    DiffbaseFetch { branch_value: String, fetch: CommitFetch },
    /// Awaiting the trailer listing of the local diffbase's message.
    DiffbaseTrailers { branch_value: String, local: Commit },
    /// Awaiting the remote tip of the parent's branch.
    ParentRemote { branch_value: String, local_oid: String },
    /// Awaiting the remote tip of the target branch.
    TargetRemote { branch_value: String, remote_diffbase: String },
    /// Awaiting the detached checkout of the merge head.
    CheckoutWait {
        branch_value: String,
        remote_diffbase: String,
        merge_head: String,
        new_branch: bool,
    },
    /// Awaiting the merge that incorporates the diffbase.
    MergeWait { branch_value: String, new_branch: bool },
    /// Awaiting the staging of a conflicted merge's tree.
    StageWait { branch_value: String, new_branch: bool },
    /// Awaiting the commit that preserves the conflict markers.
    ConflictCommitWait { branch_value: String, new_branch: bool },
    /// Awaiting a fetch step for the base commit (head after the merge).
    BaseFetch { branch_value: String, new_branch: bool, fetch: CommitFetch },
    /// Awaiting the rewritten patch commit's id.
    CommitTreeWait { branch_value: String },
    /// Awaiting the checkout of the patch commit.
    FinalCheckout { branch_value: String, remote_commit: String },
    /// The run has ended, in the result or in an error.
    Finished,
}

/// Mathematical image of a [`Phase`].
#[verifier::ext_equal]
pub enum PhaseView {
    SourceTrailers,
    DiffbaseFetch { branch_value: Seq<char>, fetch: FetchView },
    DiffbaseTrailers { branch_value: Seq<char>, local: CommitView },
    ParentRemote { branch_value: Seq<char>, local_oid: Seq<char> },
    TargetRemote { branch_value: Seq<char>, remote_diffbase: Seq<char> },
    CheckoutWait {
        branch_value: Seq<char>,
        remote_diffbase: Seq<char>,
        merge_head: Seq<char>,
        new_branch: bool,
    },
    MergeWait { branch_value: Seq<char>, new_branch: bool },
    StageWait { branch_value: Seq<char>, new_branch: bool },
    ConflictCommitWait { branch_value: Seq<char>, new_branch: bool },
    BaseFetch { branch_value: Seq<char>, new_branch: bool, fetch: FetchView },
    CommitTreeWait { branch_value: Seq<char> },
    FinalCheckout { branch_value: Seq<char>, remote_commit: Seq<char> },
    Finished,
}

impl View for Phase {
    type V = PhaseView;

    open spec fn view(&self) -> PhaseView {
        match self {
            Phase::SourceTrailers => PhaseView::SourceTrailers,
            Phase::DiffbaseFetch { branch_value, fetch } => PhaseView::DiffbaseFetch {
                branch_value: branch_value@,
                fetch: fetch@,
            },
            Phase::DiffbaseTrailers { branch_value, local } => PhaseView::DiffbaseTrailers {
                branch_value: branch_value@,
                local: local@,
            },
            Phase::ParentRemote { branch_value, local_oid } => PhaseView::ParentRemote {
                branch_value: branch_value@,
                local_oid: local_oid@,
            },
            Phase::TargetRemote { branch_value, remote_diffbase } => PhaseView::TargetRemote {
                branch_value: branch_value@,
                remote_diffbase: remote_diffbase@,
            },
            Phase::CheckoutWait { branch_value, remote_diffbase, merge_head, new_branch } => {
                PhaseView::CheckoutWait {
                    branch_value: branch_value@,
                    remote_diffbase: remote_diffbase@,
                    merge_head: merge_head@,
                    new_branch: *new_branch,
                }
            },
            Phase::MergeWait { branch_value, new_branch } => PhaseView::MergeWait {
                branch_value: branch_value@,
                new_branch: *new_branch,
            },
            Phase::StageWait { branch_value, new_branch } => PhaseView::StageWait {
                branch_value: branch_value@,
                new_branch: *new_branch,
            },
            Phase::ConflictCommitWait { branch_value, new_branch } => {
                PhaseView::ConflictCommitWait {
                    branch_value: branch_value@,
                    new_branch: *new_branch,
                }
            },
            Phase::BaseFetch { branch_value, new_branch, fetch } => PhaseView::BaseFetch {
                branch_value: branch_value@,
                new_branch: *new_branch,
                fetch: fetch@,
            },
            Phase::CommitTreeWait { branch_value } => PhaseView::CommitTreeWait {
                branch_value: branch_value@,
            },
            Phase::FinalCheckout { branch_value, remote_commit } => PhaseView::FinalCheckout {
                branch_value: branch_value@,
                remote_commit: remote_commit@,
            },
            Phase::Finished => PhaseView::Finished,
        }
    }
}

/// The engine: the source commit, the run's flags, the commit cache, and the
/// phase the run stands in.
pub struct Engine {
    pub store: GitStore,
    pub source: Commit,
    pub remote: String,
    pub allow_empty: bool,
    pub bump: bool,
    pub explicit_message: Option<String>,
    pub phase: Phase,
}

/// Mathematical image of an [`Engine`].
#[verifier::ext_equal]
pub struct EngineView {
    pub store: StoreView,
    pub source: CommitView,
    pub remote: Seq<char>,
    pub allow_empty: bool,
    pub bump: bool,
    pub explicit_message: Option<Seq<char>>,
    pub phase: PhaseView,
}

impl View for Engine {
    type V = EngineView;

    open spec fn view(&self) -> EngineView {
        EngineView {
            store: self.store@,
            source: self.source@,
            remote: self.remote@,
            allow_empty: self.allow_empty,
            bump: self.bump,
            explicit_message: self.explicit_message.deep_view(),
            phase: self.phase@,
        }
    }
}

// --- The transition function ---

pub open spec fn trailer_utf8_msg() -> Seq<char> {
    "interpret-trailers emitted bytes that are not valid UTF-8"@
}

pub open spec fn checkout_fail_msg(oid: Seq<char>) -> Seq<char> {
    "failed to check out "@ + oid
}

pub open spec fn stage_fail_msg() -> Seq<char> {
    "failed to stage"@
}

pub open spec fn commit_merge_fail_msg() -> Seq<char> {
    "failed to commit merge"@
}

pub open spec fn commit_tree_msg() -> Seq<char> {
    "commit-tree gave bad output"@
}

pub open spec fn finished_msg() -> Seq<char> {
    "integration already finished"@
}

/// The trailer pairs in the backend's listing, or the backend-contract error.
pub open spec fn pairs_of_output(out: GitOutput) -> Result<Seq<(Seq<char>, Seq<char>)>, ErrView> {
    if !valid_utf8(out.stdout@) {
        Err(ErrView::GitContract(trailer_utf8_msg()))
    } else {
        match parse_lines_spec(decode_utf8(out.stdout@)) {
            None => Err(ErrView::GitContract(trailer_sep_msg())),
            Some(ps) => Ok(ps),
        }
    }
}

fn pairs_from_output(out: GitOutput) -> (r: Result<Vec<(String, String)>, Error>)
    ensures
        res_view(r) == pairs_of_output(out),
{
    match utf8_string(out.stdout) {
        Err(_) => Err(Error::GitContract(String::from_str(
            "interpret-trailers emitted bytes that are not valid UTF-8",
        ))),
        Ok(text) => parse_trailer_lines(text.as_str()),
    }
}

/// An engine with only its phase changed.
pub open spec fn with_phase(e: EngineView, p: PhaseView) -> EngineView {
    EngineView { phase: p, ..e }
}

/// An engine run ends in this state on an error.
pub open spec fn aborted(e: EngineView, err: ErrView) -> (EngineView, Result<StepView, ErrView>) {
    (with_phase(e, PhaseView::Finished), Err(err))
}

/// Begins reading the local diffbase once the target branch is known: the
/// cache may answer at once, else the fetch protocol starts.
pub open spec fn spec_begin_diffbase(e: EngineView, branch_value: Seq<char>) -> (
    EngineView,
    Result<StepView, ErrView>,
) {
    let dref = diffbase_rev_spec(e.source.oid);
    match lookup_spec(e.store, dref) {
        Some(local) => (
            with_phase(e, PhaseView::DiffbaseTrailers { branch_value, local }),
            Ok(StepView::Next(ReqView::ParseTrailers { message: local.message })),
        ),
        None => (
            with_phase(
                e,
                PhaseView::DiffbaseFetch {
                    branch_value,
                    fetch: FetchView { reference: dref, state: FetchStateView::Show },
                },
            ),
            Ok(StepView::Next(ReqView::Show { reference: dref })),
        ),
    }
}

/// Asks for the remote tip of the target branch once the remote diffbase is
/// known.
pub open spec fn spec_begin_target(
    e: EngineView,
    branch_value: Seq<char>,
    remote_diffbase: Seq<char>,
) -> (EngineView, Result<StepView, ErrView>) {
    (
        with_phase(e, PhaseView::TargetRemote { branch_value, remote_diffbase }),
        Ok(StepView::Next(ReqView::RevParse {
            rev: remote_ref_spec(e.remote, target_branch_spec(branch_value)),
        })),
    )
}

/// Begins reading the base commit (head after the merge): the cache may
/// answer at once, else the fetch protocol starts.
pub open spec fn spec_begin_base(e: EngineView, branch_value: Seq<char>, new_branch: bool) -> (
    EngineView,
    Result<StepView, ErrView>,
) {
    match lookup_spec(e.store, "HEAD"@) {
        Some(base) => {
            let (p, r) = spec_after_base(
                e.source,
                e.allow_empty,
                e.bump,
                e.explicit_message,
                branch_value,
                new_branch,
                base,
            );
            (with_phase(e, p), r)
        },
        None => (
            with_phase(
                e,
                PhaseView::BaseFetch {
                    branch_value,
                    new_branch,
                    fetch: FetchView { reference: "HEAD"@, state: FetchStateView::Show },
                },
            ),
            Ok(StepView::Next(ReqView::Show { reference: "HEAD"@ })),
        ),
    }
}

/// The tree-comparison step, once the base commit is at hand: either the run
/// is a no-op ending at the base commit, or the patch commit is created with
/// the planned message and the rewritten provenance trailers.
pub open spec fn spec_after_base(
    source: CommitView,
    allow_empty: bool,
    bump: bool,
    explicit: Option<Seq<char>>,
    branch_value: Seq<char>,
    new_branch: bool,
    base: CommitView,
) -> (PhaseView, Result<StepView, ErrView>) {
    let same_tree = base.tree == source.tree;
    match patch_plan_spec(
        new_branch,
        same_tree,
        bump,
        allow_empty,
        branch_value,
        explicit,
        source.message,
    ) {
        None => (
            PhaseView::Finished,
            Ok(StepView::Done(IntegrationView {
                remote_commit: base.oid,
                target_branch: target_branch_spec(branch_value),
            })),
        ),
        Some(msg) => (
            PhaseView::CommitTreeWait { branch_value },
            Ok(StepView::Next(ReqView::CommitTree {
                tree: source.tree,
                message: msg,
                branch_value,
                source_oid: source.oid,
            })),
        ),
    }
}

/// One transition of the engine: from the engine's state and one backend
/// answer to the next state and either the next request, the result, or the
/// error that aborts the run.
pub open spec fn spec_step(e: EngineView, out: GitOutput) -> (EngineView, Result<
    StepView,
    ErrView,
>) {
    match e.phase {
        PhaseView::SourceTrailers => match pairs_of_output(out) {
            Err(err) => aborted(e, err),
            Ok(ts) => match spec_branch_name(ts, e.source.oid) {
                Err(err) => aborted(e, err),
                Ok(None) => aborted(
                    e,
                    ErrView::MissingTrailer { oid: e.source.oid, key: branch_key_spec() },
                ),
                Ok(Some(_)) => spec_begin_diffbase(e, first_value_of(ts, branch_key_spec())),
            },
        },
        PhaseView::DiffbaseFetch { branch_value, fetch } => {
            let (s2, fr) = spec_fetch_step(e.store, fetch, out);
            let e2 = EngineView { store: s2, ..e };
            match fr {
                Err(err) => aborted(e2, err),
                Ok(FetchStepView::Next(f2, req)) => (
                    with_phase(e2, PhaseView::DiffbaseFetch { branch_value, fetch: f2 }),
                    Ok(StepView::Next(req)),
                ),
                Ok(FetchStepView::Done(local)) => (
                    with_phase(e2, PhaseView::DiffbaseTrailers { branch_value, local }),
                    Ok(StepView::Next(ReqView::ParseTrailers { message: local.message })),
                ),
            }
        },
        PhaseView::DiffbaseTrailers { branch_value, local } => match pairs_of_output(out) {
            Err(err) => aborted(e, err),
            Ok(ts) => match spec_branch_name(ts, local.oid) {
                Err(err) => aborted(e, err),
                Ok(None) => spec_begin_target(e, branch_value, local.oid),
                Ok(Some(name)) => (
                    with_phase(
                        e,
                        PhaseView::ParentRemote { branch_value, local_oid: local.oid },
                    ),
                    Ok(StepView::Next(ReqView::RevParse {
                        rev: remote_ref_spec(e.remote, name),
                    })),
                ),
            },
        },
        PhaseView::ParentRemote { branch_value, local_oid } => match spec_rev_parse(out) {
            Err(err) => aborted(e, err),
            Ok(None) => spec_begin_target(e, branch_value, local_oid),
            Ok(Some(h)) => spec_begin_target(e, branch_value, h),
        },
        PhaseView::TargetRemote { branch_value, remote_diffbase } => match spec_rev_parse(out) {
            Err(err) => aborted(e, err),
            Ok(tip) => {
                let new_branch = tip is None;
                let merge_head = match tip {
                    Some(t) => t,
                    None => remote_diffbase,
                };
                (
                    with_phase(
                        e,
                        PhaseView::CheckoutWait {
                            branch_value,
                            remote_diffbase,
                            merge_head,
                            new_branch,
                        },
                    ),
                    Ok(StepView::Next(ReqView::Checkout { oid: merge_head })),
                )
            },
        },
        PhaseView::CheckoutWait { branch_value, remote_diffbase, merge_head, new_branch } => {
            if !out.success {
                aborted(e, ErrView::GitContract(checkout_fail_msg(merge_head)))
            } else {
                (
                    with_phase(e, PhaseView::MergeWait { branch_value, new_branch }),
                    Ok(StepView::Next(ReqView::Merge {
                        other: remote_diffbase,
                        subject: merge_subject_spec(branch_value),
                        footer: merge_footer_spec(branch_value, e.source.oid),
                    })),
                )
            }
        },
        PhaseView::MergeWait { branch_value, new_branch } => {
            if out.success {
                spec_begin_base(e, branch_value, new_branch)
            } else {
                (
                    with_phase(e, PhaseView::StageWait { branch_value, new_branch }),
                    Ok(StepView::Next(ReqView::StageAll)),
                )
            }
        },
        PhaseView::StageWait { branch_value, new_branch } => {
            if out.success {
                (
                    with_phase(e, PhaseView::ConflictCommitWait { branch_value, new_branch }),
                    Ok(StepView::Next(ReqView::CommitNoEdit)),
                )
            } else {
                aborted(e, ErrView::GitContract(stage_fail_msg()))
            }
        },
        PhaseView::ConflictCommitWait { branch_value, new_branch } => {
            if out.success {
                spec_begin_base(e, branch_value, new_branch)
            } else {
                aborted(e, ErrView::GitContract(commit_merge_fail_msg()))
            }
        },
        PhaseView::BaseFetch { branch_value, new_branch, fetch } => {
            let (s2, fr) = spec_fetch_step(e.store, fetch, out);
            let e2 = EngineView { store: s2, ..e };
            match fr {
                Err(err) => aborted(e2, err),
                Ok(FetchStepView::Next(f2, req)) => (
                    with_phase(
                        e2,
                        PhaseView::BaseFetch { branch_value, new_branch, fetch: f2 },
                    ),
                    Ok(StepView::Next(req)),
                ),
                Ok(FetchStepView::Done(base)) => {
                    let (p, r) = spec_after_base(
                        e2.source,
                        e2.allow_empty,
                        e2.bump,
                        e2.explicit_message,
                        branch_value,
                        new_branch,
                        base,
                    );
                    (with_phase(e2, p), r)
                },
            }
        },
        PhaseView::CommitTreeWait { branch_value } => match oid_of_stdout(out.stdout@) {
            None => aborted(e, ErrView::GitContract(commit_tree_msg())),
            Some(o) => (
                with_phase(
                    e,
                    PhaseView::FinalCheckout { branch_value, remote_commit: o },
                ),
                Ok(StepView::Next(ReqView::Checkout { oid: o })),
            ),
        },
        PhaseView::FinalCheckout { branch_value, remote_commit } => {
            if out.success {
                (
                    with_phase(e, PhaseView::Finished),
                    Ok(StepView::Done(IntegrationView {
                        remote_commit,
                        target_branch: target_branch_spec(branch_value),
                    })),
                )
            } else {
                aborted(e, ErrView::GitContract(commit_merge_fail_msg()))
            }
        },
        PhaseView::Finished => (e, Err(ErrView::GitContract(finished_msg()))),
    }
}

// --- The executable engine ---

fn after_base_exec(
    store: GitStore,
    source: Commit,
    remote: String,
    allow_empty: bool,
    bump: bool,
    explicit_message: Option<String>,
    branch_value: String,
    new_branch: bool,
    base: &Commit,
) -> (r: (Engine, Result<Step, Error>))
    ensures
        ({
            let (p, rv) = spec_after_base(
                source@,
                allow_empty,
                bump,
                explicit_message.deep_view(),
                branch_value@,
                new_branch,
                base@,
            );
            r.0@ == (EngineView {
                store: store@,
                source: source@,
                remote: remote@,
                allow_empty,
                bump,
                explicit_message: explicit_message.deep_view(),
                phase: p,
            }) && res_view(r.1) == rv
        }),
{
    let same_tree = str_eq(base.tree.as_str(), source.tree.as_str());
    let expl: Option<&String> = match &explicit_message {
        Some(m) => Some(m),
        None => None,
    };
    match plan_patch(
        new_branch,
        same_tree,
        bump,
        allow_empty,
        branch_value.as_str(),
        expl,
        source.message.as_str(),
    ) {
        None => {
            let result = Integration {
                remote_commit: base.oid.clone(),
                target_branch: target_branch_of(branch_value.as_str()),
            };
            (
                Engine {
                    store,
                    source,
                    remote,
                    allow_empty,
                    bump,
                    explicit_message,
                    phase: Phase::Finished,
                },
                Ok(Step::Done(result)),
            )
        },
        Some(msg) => {
            let req = Request::CommitTree {
                tree: source.tree.clone(),
                message: msg,
                branch_value: branch_value.clone(),
                source_oid: source.oid.clone(),
            };
            (
                Engine {
                    store,
                    source,
                    remote,
                    allow_empty,
                    bump,
                    explicit_message,
                    phase: Phase::CommitTreeWait { branch_value },
                },
                Ok(Step::Next(req)),
            )
        },
    }
}

fn begin_base_exec(
    store: GitStore,
    source: Commit,
    remote: String,
    allow_empty: bool,
    bump: bool,
    explicit_message: Option<String>,
    branch_value: String,
    new_branch: bool,
) -> (r: (Engine, Result<Step, Error>))
    ensures
        ({
            let e0 = EngineView {
                store: store@,
                source: source@,
                remote: remote@,
                allow_empty,
                bump,
                explicit_message: explicit_message.deep_view(),
                phase: PhaseView::Finished,
            };
            let (e2, rv) = spec_begin_base(e0, branch_value@, new_branch);
            r.0@ == e2 && res_view(r.1) == rv
        }),
{
    match store.commit("HEAD") {
        CommitLookup::Cached(base) => after_base_exec(
            store,
            source,
            remote,
            allow_empty,
            bump,
            explicit_message,
            branch_value,
            new_branch,
            &base,
        ),
        CommitLookup::Fetch(fetch, req) => (
            Engine {
                store,
                source,
                remote,
                allow_empty,
                bump,
                explicit_message,
                phase: Phase::BaseFetch { branch_value, new_branch, fetch },
            },
            Ok(Step::Next(req)),
        ),
    }
}

fn begin_target_exec(
    store: GitStore,
    source: Commit,
    remote: String,
    allow_empty: bool,
    bump: bool,
    explicit_message: Option<String>,
    branch_value: String,
    remote_diffbase: String,
) -> (r: (Engine, Result<Step, Error>))
    ensures
        ({
            let e0 = EngineView {
                store: store@,
                source: source@,
                remote: remote@,
                allow_empty,
                bump,
                explicit_message: explicit_message.deep_view(),
                phase: PhaseView::Finished,
            };
            let (e2, rv) = spec_begin_target(e0, branch_value@, remote_diffbase@);
            r.0@ == e2 && res_view(r.1) == rv
        }),
{
    let target = target_branch_of(branch_value.as_str());
    let rev = remote_branch_ref(remote.as_str(), target.as_str());
    (
        Engine {
            store,
            source,
            remote,
            allow_empty,
            bump,
            explicit_message,
            phase: Phase::TargetRemote { branch_value, remote_diffbase },
        },
        Ok(Step::Next(Request::RevParse { rev })),
    )
}

impl Engine {
    pub open spec fn wf(self) -> bool {
        self.store.wf()
    }

    /// Sets up one integration run for a pre-resolved source commit, handing
    /// back the first backend request: the trailer listing of the source
    /// commit's message.
    pub fn new(
        store: GitStore,
        source: Commit,
        remote: &str,
        allow_empty: bool,
        bump: bool,
        message: Option<String>,
    ) -> (r: (Engine, Request))
        ensures
            r.0@ == (EngineView {
                store: store@,
                source: source@,
                remote: remote@,
                allow_empty,
                bump,
                explicit_message: message.deep_view(),
                phase: PhaseView::SourceTrailers,
            }),
            r.1@ == (ReqView::ParseTrailers { message: source.message@ }),
            store.wf() ==> r.0.wf(),
    {
        let req = Request::ParseTrailers { message: source.message.clone() };
        (
            Engine {
                store,
                source,
                remote: String::from_str(remote),
                allow_empty,
                bump,
                explicit_message: message,
                phase: Phase::SourceTrailers,
            },
            req,
        )
    }

    /// Advances the run by one backend answer, exactly as [`spec_step`] says:
    /// the returned engine replaces this one, and the run goes on until a
    /// `Done` step or an error.
    pub fn step(self, out: GitOutput) -> (r: (Engine, Result<Step, Error>))
        ensures
            r.0@ == spec_step(self@, out).0,
            res_view(r.1) == spec_step(self@, out).1,
            self.wf() ==> r.0.wf(),
    {
        let ghost pre = self@;
        let Engine { mut store, source, remote, allow_empty, bump, explicit_message, phase } =
            self;
        match phase {
            Phase::SourceTrailers => {
                match pairs_from_output(out) {
                    Err(e) => (
                        Engine {
                            store,
                            source,
                            remote,
                            allow_empty,
                            bump,
                            explicit_message,
                            phase: Phase::Finished,
                        },
                        Err(e),
                    ),
                    Ok(ts) => {
                        let found = look_up_trailer(branch_key(), &ts);
                        match found.unique(source.oid.as_str()) {
                            Err(e) => (
                                Engine {
                                    store,
                                    source,
                                    remote,
                                    allow_empty,
                                    bump,
                                    explicit_message,
                                    phase: Phase::Finished,
                                },
                                Err(e),
                            ),
                            Ok(value) => {
                                let branch_value = String::from_str(value);
                                let dref = diffbase_rev(source.oid.as_str());
                                match store.commit(dref.as_str()) {
                                    CommitLookup::Cached(local) => {
                                        let req = Request::ParseTrailers {
                                            message: local.message.clone(),
                                        };
                                        (
                                            Engine {
                                                store,
                                                source,
                                                remote,
                                                allow_empty,
                                                bump,
                                                explicit_message,
                                                phase: Phase::DiffbaseTrailers {
                                                    branch_value,
                                                    local,
                                                },
                                            },
                                            Ok(Step::Next(req)),
                                        )
                                    },
                                    CommitLookup::Fetch(fetch, req) => (
                                        Engine {
                                            store,
                                            source,
                                            remote,
                                            allow_empty,
                                            bump,
                                            explicit_message,
                                            phase: Phase::DiffbaseFetch { branch_value, fetch },
                                        },
                                        Ok(Step::Next(req)),
                                    ),
                                }
                            },
                        }
                    },
                }
            },
            Phase::DiffbaseFetch { branch_value, fetch } => {
                match store.fetch_step(fetch, out) {
                    Err(e) => (
                        Engine {
                            store,
                            source,
                            remote,
                            allow_empty,
                            bump,
                            explicit_message,
                            phase: Phase::Finished,
                        },
                        Err(e),
                    ),
                    Ok(FetchStep::Next(f2, req)) => (
                        Engine {
                            store,
                            source,
                            remote,
                            allow_empty,
                            bump,
                            explicit_message,
                            phase: Phase::DiffbaseFetch { branch_value, fetch: f2 },
                        },
                        Ok(Step::Next(req)),
                    ),
                    Ok(FetchStep::Done(local)) => {
                        let req = Request::ParseTrailers { message: local.message.clone() };
                        (
                            Engine {
                                store,
                                source,
                                remote,
                                allow_empty,
                                bump,
                                explicit_message,
                                phase: Phase::DiffbaseTrailers { branch_value, local },
                            },
                            Ok(Step::Next(req)),
                        )
                    },
                }
            },
            Phase::DiffbaseTrailers { branch_value, local } => {
                match pairs_from_output(out) {
                    Err(e) => (
                        Engine {
                            store,
                            source,
                            remote,
                            allow_empty,
                            bump,
                            explicit_message,
                            phase: Phase::Finished,
                        },
                        Err(e),
                    ),
                    Ok(ts) => match branch_name(local.oid.as_str(), &ts) {
                        Err(e) => (
                            Engine {
                                store,
                                source,
                                remote,
                                allow_empty,
                                bump,
                                explicit_message,
                                phase: Phase::Finished,
                            },
                            Err(e),
                        ),
                        Ok(None) => begin_target_exec(
                            store,
                            source,
                            remote,
                            allow_empty,
                            bump,
                            explicit_message,
                            branch_value,
                            local.oid,
                        ),
                        Ok(Some(name)) => {
                            let rev = remote_branch_ref(remote.as_str(), name.as_str());
                            (
                                Engine {
                                    store,
                                    source,
                                    remote,
                                    allow_empty,
                                    bump,
                                    explicit_message,
                                    phase: Phase::ParentRemote {
                                        branch_value,
                                        local_oid: local.oid,
                                    },
                                },
                                Ok(Step::Next(Request::RevParse { rev })),
                            )
                        },
                    },
                }
            },
            Phase::ParentRemote { branch_value, local_oid } => {
                match remote_branch_oid(&store, out) {
                    Err(e) => (
                        Engine {
                            store,
                            source,
                            remote,
                            allow_empty,
                            bump,
                            explicit_message,
                            phase: Phase::Finished,
                        },
                        Err(e),
                    ),
                    Ok(None) => begin_target_exec(
                        store,
                        source,
                        remote,
                        allow_empty,
                        bump,
                        explicit_message,
                        branch_value,
                        local_oid,
                    ),
                    Ok(Some(h)) => begin_target_exec(
                        store,
                        source,
                        remote,
                        allow_empty,
                        bump,
                        explicit_message,
                        branch_value,
                        h,
                    ),
                }
            },
            Phase::TargetRemote { branch_value, remote_diffbase } => {
                match remote_branch_oid(&store, out) {
                    Err(e) => (
                        Engine {
                            store,
                            source,
                            remote,
                            allow_empty,
                            bump,
                            explicit_message,
                            phase: Phase::Finished,
                        },
                        Err(e),
                    ),
                    Ok(tip) => {
                        let new_branch = match &tip {
                            None => true,
                            Some(_) => false,
                        };
                        let merge_head = match tip {
                            Some(t) => t,
                            None => remote_diffbase.clone(),
                        };
                        let req = Request::Checkout { oid: merge_head.clone() };
                        (
                            Engine {
                                store,
                                source,
                                remote,
                                allow_empty,
                                bump,
                                explicit_message,
                                phase: Phase::CheckoutWait {
                                    branch_value,
                                    remote_diffbase,
                                    merge_head,
                                    new_branch,
                                },
                            },
                            Ok(Step::Next(req)),
                        )
                    },
                }
            },
            Phase::CheckoutWait { branch_value, remote_diffbase, merge_head, new_branch } => {
                if !out.success {
                    let mut msg = String::from_str("failed to check out ");
                    msg.append(merge_head.as_str());
                    (
                        Engine {
                            store,
                            source,
                            remote,
                            allow_empty,
                            bump,
                            explicit_message,
                            phase: Phase::Finished,
                        },
                        Err(Error::GitContract(msg)),
                    )
                } else {
                    let subject = merge_subject(branch_value.as_str());
                    let footer = merge_footer(branch_value.as_str(), source.oid.as_str());
                    let req = Request::Merge { other: remote_diffbase, subject, footer };
                    (
                        Engine {
                            store,
                            source,
                            remote,
                            allow_empty,
                            bump,
                            explicit_message,
                            phase: Phase::MergeWait { branch_value, new_branch },
                        },
                        Ok(Step::Next(req)),
                    )
                }
            },
            Phase::MergeWait { branch_value, new_branch } => {
                if out.success {
                    begin_base_exec(
                        store,
                        source,
                        remote,
                        allow_empty,
                        bump,
                        explicit_message,
                        branch_value,
                        new_branch,
                    )
                } else {
                    (
                        Engine {
                            store,
                            source,
                            remote,
                            allow_empty,
                            bump,
                            explicit_message,
                            phase: Phase::StageWait { branch_value, new_branch },
                        },
                        Ok(Step::Next(Request::StageAll)),
                    )
                }
            },
            Phase::StageWait { branch_value, new_branch } => {
                if out.success {
                    (
                        Engine {
                            store,
                            source,
                            remote,
                            allow_empty,
                            bump,
                            explicit_message,
                            phase: Phase::ConflictCommitWait { branch_value, new_branch },
                        },
                        Ok(Step::Next(Request::CommitNoEdit)),
                    )
                } else {
                    (
                        Engine {
                            store,
                            source,
                            remote,
                            allow_empty,
                            bump,
                            explicit_message,
                            phase: Phase::Finished,
                        },
                        Err(Error::GitContract(String::from_str("failed to stage"))),
                    )
                }
            },
            Phase::ConflictCommitWait { branch_value, new_branch } => {
                if out.success {
                    begin_base_exec(
                        store,
                        source,
                        remote,
                        allow_empty,
                        bump,
                        explicit_message,
                        branch_value,
                        new_branch,
                    )
                } else {
                    (
                        Engine {
                            store,
                            source,
                            remote,
                            allow_empty,
                            bump,
                            explicit_message,
                            phase: Phase::Finished,
                        },
                        Err(Error::GitContract(String::from_str("failed to commit merge"))),
                    )
                }
            },
            Phase::BaseFetch { branch_value, new_branch, fetch } => {
                match store.fetch_step(fetch, out) {
                    Err(e) => (
                        Engine {
                            store,
                            source,
                            remote,
                            allow_empty,
                            bump,
                            explicit_message,
                            phase: Phase::Finished,
                        },
                        Err(e),
                    ),
                    Ok(FetchStep::Next(f2, req)) => (
                        Engine {
                            store,
                            source,
                            remote,
                            allow_empty,
                            bump,
                            explicit_message,
                            phase: Phase::BaseFetch { branch_value, new_branch, fetch: f2 },
                        },
                        Ok(Step::Next(req)),
                    ),
                    Ok(FetchStep::Done(base)) => after_base_exec(
                        store,
                        source,
                        remote,
                        allow_empty,
                        bump,
                        explicit_message,
                        branch_value,
                        new_branch,
                        &base,
                    ),
                }
            },
            Phase::CommitTreeWait { branch_value } => {
                match parse_oid(out.stdout) {
                    Err(_) => (
                        Engine {
                            store,
                            source,
                            remote,
                            allow_empty,
                            bump,
                            explicit_message,
                            phase: Phase::Finished,
                        },
                        Err(Error::GitContract(String::from_str("commit-tree gave bad output"))),
                    ),
                    Ok(oid) => {
                        let req = Request::Checkout { oid: oid.clone() };
                        (
                            Engine {
                                store,
                                source,
                                remote,
                                allow_empty,
                                bump,
                                explicit_message,
                                phase: Phase::FinalCheckout {
                                    branch_value,
                                    remote_commit: oid,
                                },
                            },
                            Ok(Step::Next(req)),
                        )
                    },
                }
            },
            Phase::FinalCheckout { branch_value, remote_commit } => {
                if out.success {
                    let result = Integration {
                        remote_commit,
                        target_branch: target_branch_of(branch_value.as_str()),
                    };
                    (
                        Engine {
                            store,
                            source,
                            remote,
                            allow_empty,
                            bump,
                            explicit_message,
                            phase: Phase::Finished,
                        },
                        Ok(Step::Done(result)),
                    )
                } else {
                    (
                        Engine {
                            store,
                            source,
                            remote,
                            allow_empty,
                            bump,
                            explicit_message,
                            phase: Phase::Finished,
                        },
                        Err(Error::GitContract(String::from_str("failed to commit merge"))),
                    )
                }
            },
            Phase::Finished => (
                Engine {
                    store,
                    source,
                    remote,
                    allow_empty,
                    bump,
                    explicit_message,
                    phase: Phase::Finished,
                },
                Err(Error::GitContract(String::from_str("integration already finished"))),
            ),
        }
    }
}

} // verus!
