//! The protocol between the verified engine and the git backend: the requests
//! the engine asks its driver to run, and the output the driver hands back.

use vstd::prelude::*;

verus! {

/// Outcome of one backend invocation: whether it exited successfully, and the
/// bytes it wrote to standard output.
pub struct GitOutput {
    pub success: bool,
    pub stdout: Vec<u8>,
}

/// One backend invocation the engine asks its driver to perform.
#[derive(Debug)]
pub enum Request {
    /// `git show --no-patch --pretty=format:%B%n%P%n%T%n%H <reference>`
    Show { reference: String },
    /// `git rev-parse --verify <rev>`
    RevParse { rev: String },
    /// `git -c trailer.separators=: interpret-trailers --parse --no-divider`,
    /// with `message` on standard input
    ParseTrailers { message: String },
    /// `git checkout --detach <oid>`
    Checkout { oid: String },
    /// `git -c rerere.enabled=false merge --no-verify --no-edit <other> -m <subject>
    /// -m <footer>`
    Merge { other: String, subject: String, footer: String },
    /// `git add .`
    StageAll,
    /// `git commit --no-edit --no-verify`
    CommitNoEdit,
    /// `git interpret-trailers --no-divider --where end --if-exists replace` with
    /// the branch and source trailers, its output piped into
    /// `git commit-tree <tree> -p HEAD`, and `message` fed to the rewriter
    CommitTree { tree: String, message: String, branch_value: String, source_oid: String },
}

/// Mathematical image of a [`Request`].
#[verifier::ext_equal]
pub enum ReqView {
    Show { reference: Seq<char> },
    RevParse { rev: Seq<char> },
    ParseTrailers { message: Seq<char> },
    Checkout { oid: Seq<char> },
    Merge { other: Seq<char>, subject: Seq<char>, footer: Seq<char> },
    StageAll,
    CommitNoEdit,
    CommitTree {
        tree: Seq<char>,
        message: Seq<char>,
        branch_value: Seq<char>,
        source_oid: Seq<char>,
    },
}

impl View for Request {
    type V = ReqView;

    open spec fn view(&self) -> ReqView {
        match self {
            Request::Show { reference } => ReqView::Show { reference: reference@ },
            Request::RevParse { rev } => ReqView::RevParse { rev: rev@ },
            Request::ParseTrailers { message } => ReqView::ParseTrailers { message: message@ },
            Request::Checkout { oid } => ReqView::Checkout { oid: oid@ },
            Request::Merge { other, subject, footer } => ReqView::Merge {
                other: other@,
                subject: subject@,
                footer: footer@,
            },
            Request::StageAll => ReqView::StageAll,
            Request::CommitNoEdit => ReqView::CommitNoEdit,
            Request::CommitTree { tree, message, branch_value, source_oid } => ReqView::CommitTree {
                tree: tree@,
                message: message@,
                branch_value: branch_value@,
                source_oid: source_oid@,
            },
        }
    }
}

} // verus!
