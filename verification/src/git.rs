//! Commit store: the commit record, parsers for the backend's answers, the
//! deduplicating cache keyed by canonical object id, and the fetch protocol
//! that reads and validates one commit through the backend.

use vstd::prelude::*;

verus! {

use vstd::string::StrSliceExecFns;
use vstd::utf8::{valid_utf8, decode_utf8};
use crate::err::{Error, ErrView, utf8_string, res_view};
use crate::backend::{GitOutput, Request, ReqView};
use crate::text::{
    split_char, split_all, rfind_char, str_eq, last_occurrence,
};

/// One commit, as the backend reports it.
#[derive(Debug, PartialEq, Eq)]
pub struct Commit {
    /// The canonical object ID for this commit.
    pub oid: String,
    /// The object IDs of this commit's parents, in order.
    pub parents: Vec<String>,
    /// The object ID of this commit's tree.
    pub tree: String,
    /// The raw commit message.
    pub message: String,
}

/// Mathematical image of a [`Commit`].
#[verifier::ext_equal]
pub struct CommitView {
    pub oid: Seq<char>,
    pub parents: Seq<Seq<char>>,
    pub tree: Seq<char>,
    pub message: Seq<char>,
}

impl View for Commit {
    type V = CommitView;

    open spec fn view(&self) -> CommitView {
        CommitView {
            oid: self.oid@,
            parents: self.parents.deep_view(),
            tree: self.tree@,
            message: self.message@,
        }
    }
}

impl DeepView for Commit {
    type V = CommitView;

    open spec fn deep_view(&self) -> CommitView {
        self.view()
    }
}

fn clone_string_vec(v: &Vec<String>) -> (r: Vec<String>)
    ensures
        r.deep_view() == v.deep_view(),
{
    let mut r: Vec<String> = Vec::new();
    let n = v.len();
    let mut i: usize = 0;
    while i < n
        invariant
            n == v.len(),
            0 <= i <= n,
            r.len() == i,
            forall|j: int| 0 <= j < i ==> r.deep_view()[j] == v.deep_view()[j],
        decreases n - i,
    {
        r.push(v[i].clone());
        i += 1;
    }
    proof {
        assert(r.deep_view() =~= v.deep_view());
    }
    r
}

impl Clone for Commit {
    fn clone(&self) -> (r: Self)
        ensures
            r@ == self@,
    {
        let r = Commit {
            oid: self.oid.clone(),
            parents: clone_string_vec(&self.parents),
            tree: self.tree.clone(),
            message: self.message.clone(),
        };
        proof {
            assert(r@ =~= self@);
        }
        r
    }
}

impl Commit {
    /// Structural equality of two commit records.
    pub fn same_as(&self, other: &Commit) -> (r: bool)
        ensures
            r == (self@ == other@),
    {
        if !(self.oid == other.oid && self.tree == other.tree && self.message == other.message) {
            return false;
        }
        let n = self.parents.len();
        if n != other.parents.len() {
            proof {
                assert(self@.parents.len() != other@.parents.len());
            }
            return false;
        }
        let mut i: usize = 0;
        while i < n
            invariant
                n == self.parents.len(),
                n == other.parents.len(),
                0 <= i <= n,
                forall|j: int| 0 <= j < i ==> self.parents.deep_view()[j]
                    == other.parents.deep_view()[j],
            decreases n - i,
        {
            if !str_eq(self.parents[i].as_str(), other.parents[i].as_str()) {
                proof {
                    if self@ == other@ {
                        assert(self@.parents[i as int] == other@.parents[i as int]);
                    }
                }
                return false;
            }
            i += 1;
        }
        proof {
            assert(self.parents.deep_view() =~= other.parents.deep_view());
            assert(self@ =~= other@);
        }
        true
    }
}

// --- Parsing the object id written by rev-parse ---

/// The object id in one line of backend output: the line without its
/// terminating newline, provided the bytes decode and end with a newline.
pub open spec fn oid_of_stdout(bytes: Seq<u8>) -> Option<Seq<char>> {
    if valid_utf8(bytes) && decode_utf8(bytes).len() > 0 && decode_utf8(bytes).last() == '\n' {
        Some(decode_utf8(bytes).drop_last())
    } else {
        None
    }
}

fn copy_bytes(v: &Vec<u8>) -> (r: Vec<u8>)
    ensures
        r@ == v@,
{
    let mut r: Vec<u8> = Vec::new();
    let n = v.len();
    let mut i: usize = 0;
    while i < n
        invariant
            n == v.len(),
            0 <= i <= n,
            r@ == v@.take(i as int),
        decreases n - i,
    {
        r.push(v[i]);
        proof {
            assert(r@ =~= v@.take(i + 1));
        }
        i += 1;
    }
    proof {
        assert(v@.take(n as int) =~= v@);
    }
    r
}

/// Reads an object id from the bytes a successful `rev-parse` wrote: the line
/// without its newline, or the input bytes unchanged when they are not one
/// newline-terminated line of text.
pub fn parse_oid(stdout: Vec<u8>) -> (r: Result<String, Vec<u8>>)
    ensures
        match r {
            Ok(s) => oid_of_stdout(stdout@) == Some(s@),
            Err(b) => oid_of_stdout(stdout@) is None && b@ == stdout@,
        },
{
    let copy = copy_bytes(&stdout);
    match utf8_string(stdout) {
        Err(b) => Err(b),
        Ok(s) => {
            let n = s.as_str().unicode_len();
            if n > 0 && s.as_str().get_char(n - 1) == '\n' {
                let prefix = s.as_str().substring_char(0, n - 1);
                proof {
                    assert(prefix@ =~= decode_utf8(stdout@).drop_last());
                }
                Ok(String::from_str(prefix))
            } else {
                Err(copy)
            }
        },
    }
}

// --- Parsing the answer of the show command ---

/// The parent ids of the space-separated parent segment: empty when the
/// segment is empty, and otherwise the segments between the spaces, dropping
/// an empty leading piece.
pub open spec fn parents_of_segment(seg: Seq<char>) -> Seq<Seq<char>> {
    let ps = split_char(seg, ' ');
    if ps.len() > 0 && ps.first().len() == 0 {
        ps.drop_first()
    } else {
        ps
    }
}

/// The fields of the show command's answer, parsed from the end backward:
/// the canonical id after the last newline, the tree id before it, then the
/// parent segment, and everything earlier is the message. `None` when fewer
/// than three newlines anchor the fixed-format suffix.
pub open spec fn show_parse_spec(text: Seq<char>) -> Option<CommitView> {
    match last_occurrence(text, '\n') {
        None => None,
        Some(i3) => {
            let oid = text.skip(i3 + 1);
            let rest3 = text.take(i3);
            match last_occurrence(rest3, '\n') {
                None => None,
                Some(i2) => {
                    let tree = rest3.skip(i2 + 1);
                    let rest2 = rest3.take(i2);
                    match last_occurrence(rest2, '\n') {
                        None => None,
                        Some(i1) => Some(CommitView {
                            oid,
                            tree,
                            message: rest2.take(i1),
                            parents: parents_of_segment(rest2.skip(i1 + 1)),
                        }),
                    }
                },
            }
        },
    }
}

/// Parses the text a successful show command wrote, anchoring to the
/// fixed-format suffix and never scanning forward through the message.
/// Text without the expected suffix names no commit.
pub fn parse_show_output(reference: &str, text: &str) -> (r: Result<Commit, Error>)
    ensures
        match r {
            Ok(c) => show_parse_spec(text@) == Some(c@),
            Err(e) => show_parse_spec(text@) is None && e@ == ErrView::NoSuchCommit(reference@),
        },
{
    let n = text.unicode_len();
    proof {
        assert(text@.take(n as int) =~= text@);
    }
    let i3 = match rfind_char(text, '\n', n) {
        Some(i) => i,
        None => {
            return Err(Error::NoSuchCommit(String::from_str(reference)));
        },
    };
    let oid = text.substring_char(i3 + 1, n);
    proof {
        assert(oid@ =~= text@.skip(i3 + 1));
        assert(text@.take(n as int).take(i3 as int) =~= text@.take(i3 as int));
    }
    let i2 = match rfind_char(text, '\n', i3) {
        Some(i) => i,
        None => {
            return Err(Error::NoSuchCommit(String::from_str(reference)));
        },
    };
    let tree = text.substring_char(i2 + 1, i3);
    proof {
        assert(tree@ =~= text@.take(i3 as int).skip(i2 + 1));
        assert(text@.take(i3 as int).take(i2 as int) =~= text@.take(i2 as int));
    }
    let i1 = match rfind_char(text, '\n', i2) {
        Some(i) => i,
        None => {
            return Err(Error::NoSuchCommit(String::from_str(reference)));
        },
    };
    let seg = text.substring_char(i1 + 1, i2);
    let message = text.substring_char(0, i1);
    proof {
        assert(seg@ =~= text@.take(i2 as int).skip(i1 + 1));
        assert(message@ =~= text@.take(i2 as int).take(i1 as int));
    }
    let mut parts = split_all(seg, ' ');
    let ghost ps = split_char(seg@, ' ');
    if parts.len() > 0 && parts[0].as_str().is_empty() {
        parts.remove(0);
        proof {
            assert(parts.deep_view() =~= ps.drop_first());
        }
    }
    proof {
        assert(parts.deep_view() =~= parents_of_segment(seg@));
    }
    let c = Commit {
        oid: String::from_str(oid),
        parents: parts,
        tree: String::from_str(tree),
        message: String::from_str(message),
    };
    proof {
        assert(show_parse_spec(text@) == Some(c@));
    }
    Ok(c)
}

// --- The cache ---

/// The deduplicating commit cache: records keyed by canonical object id, plus
/// a map from other references that were looked up to the canonical id they
/// named.
#[derive(Debug)]
pub struct GitStore {
    pub commits: Vec<Commit>,
    pub aliases: Vec<(String, String)>,
}

/// Mathematical image of a [`GitStore`].
#[verifier::ext_equal]
pub struct StoreView {
    pub commits: Seq<CommitView>,
    pub aliases: Seq<(Seq<char>, Seq<char>)>,
}

impl View for GitStore {
    type V = StoreView;

    open spec fn view(&self) -> StoreView {
        StoreView { commits: self.commits.deep_view(), aliases: self.aliases.deep_view() }
    }
}

/// The first cached record carrying the canonical id `oid`.
pub open spec fn find_commit(cs: Seq<CommitView>, oid: Seq<char>) -> Option<CommitView>
    decreases cs.len(),
{
    if cs.len() == 0 {
        None
    } else if cs.first().oid == oid {
        Some(cs.first())
    } else {
        find_commit(cs.drop_first(), oid)
    }
}

/// The canonical id recorded for the alias `key`.
pub open spec fn find_alias(al: Seq<(Seq<char>, Seq<char>)>, key: Seq<char>) -> Option<Seq<char>>
    decreases al.len(),
{
    if al.len() == 0 {
        None
    } else if al.first().0 == key {
        Some(al.first().1)
    } else {
        find_alias(al.drop_first(), key)
    }
}

/// The cached record for `reference`: directly when the reference is a
/// canonical id, or through the alias map.
pub open spec fn lookup_spec(s: StoreView, reference: Seq<char>) -> Option<CommitView> {
    match find_commit(s.commits, reference) {
        Some(c) => Some(c),
        None => match find_alias(s.aliases, reference) {
            Some(canon) => find_commit(s.commits, canon),
            None => None,
        },
    }
}

/// Cache well-formedness: canonical ids are unique, alias keys are unique,
/// and every alias names a cached record. Unique keys make the data-model
/// invariant hold that two cache entries for one object id are identical.
pub open spec fn store_wf(s: StoreView) -> bool {
    &&& forall|i: int, j: int|
        0 <= i < j < s.commits.len() ==> (#[trigger] s.commits[i]).oid
            != (#[trigger] s.commits[j]).oid
    &&& forall|i: int, j: int|
        0 <= i < j < s.aliases.len() ==> (#[trigger] s.aliases[i]).0
            != (#[trigger] s.aliases[j]).0
    &&& forall|i: int|
        0 <= i < s.aliases.len() ==> find_commit(s.commits, (#[trigger] s.aliases[i]).1) is Some
}

proof fn lemma_find_commit_none(cs: Seq<CommitView>, oid: Seq<char>)
    requires
        find_commit(cs, oid) is None,
    ensures
        forall|i: int| 0 <= i < cs.len() ==> (#[trigger] cs[i]).oid != oid,
    decreases cs.len(),
{
    if cs.len() > 0 {
        lemma_find_commit_none(cs.drop_first(), oid);
        assert forall|i: int| 0 <= i < cs.len() implies (#[trigger] cs[i]).oid != oid by {
            if i > 0 {
                assert(cs[i] == cs.drop_first()[i - 1]);
            }
        }
    }
}

proof fn lemma_find_alias_none(al: Seq<(Seq<char>, Seq<char>)>, key: Seq<char>)
    requires
        find_alias(al, key) is None,
    ensures
        forall|i: int| 0 <= i < al.len() ==> (#[trigger] al[i]).0 != key,
    decreases al.len(),
{
    if al.len() > 0 {
        lemma_find_alias_none(al.drop_first(), key);
        assert forall|i: int| 0 <= i < al.len() implies (#[trigger] al[i]).0 != key by {
            if i > 0 {
                assert(al[i] == al.drop_first()[i - 1]);
            }
        }
    }
}

proof fn lemma_find_commit_push(cs: Seq<CommitView>, x: CommitView, oid: Seq<char>)
    ensures
        find_commit(cs.push(x), oid) == (match find_commit(cs, oid) {
            Some(c) => Some(c),
            None => if x.oid == oid {
                Some(x)
            } else {
                None
            },
        }),
    decreases cs.len(),
{
    if cs.len() == 0 {
        assert(cs.push(x).first() == x);
        assert(cs.push(x).drop_first() =~= Seq::<CommitView>::empty());
        assert(find_commit(Seq::<CommitView>::empty(), oid) is None);
        if x.oid == oid {
            assert(find_commit(cs.push(x), oid) == Some(x));
        } else {
            assert(find_commit(cs.push(x), oid) is None);
        }
    } else {
        lemma_find_commit_push(cs.drop_first(), x, oid);
        assert(cs.push(x).first() == cs.first());
        assert(cs.push(x).drop_first() =~= cs.drop_first().push(x));
        if cs.first().oid == oid {
            assert(find_commit(cs.push(x), oid) == Some(cs.first()));
            assert(find_commit(cs, oid) == Some(cs.first()));
        } else {
            assert(find_commit(cs.push(x), oid) == find_commit(cs.drop_first().push(x), oid));
            assert(find_commit(cs, oid) == find_commit(cs.drop_first(), oid));
        }
    }
}

impl GitStore {
    pub open spec fn wf(self) -> bool {
        store_wf(self@)
    }

    /// Construct an empty store.
    pub fn new() -> (s: GitStore)
        ensures
            s@.commits.len() == 0,
            s@.aliases.len() == 0,
            s.wf(),
    {
        GitStore { commits: Vec::new(), aliases: Vec::new() }
    }
}

fn find_commit_exec(commits: &Vec<Commit>, oid: &str) -> (r: Option<usize>)
    ensures
        match r {
            Some(i) => i < commits.len() && find_commit(commits.deep_view(), oid@)
                == Some(commits.deep_view()[i as int]),
            None => find_commit(commits.deep_view(), oid@) is None,
        },
{
    let ghost csv = commits.deep_view();
    proof {
        assert(csv.skip(0) =~= csv);
    }
    let n = commits.len();
    let mut i: usize = 0;
    while i < n
        invariant
            n == commits.len(),
            csv == commits.deep_view(),
            0 <= i <= n,
            find_commit(csv, oid@) == find_commit(csv.skip(i as int), oid@),
        decreases n - i,
    {
        proof {
            assert(csv.skip(i as int).first() == csv[i as int]);
            assert(csv.skip(i as int).drop_first() =~= csv.skip(i + 1));
        }
        if str_eq(commits[i].oid.as_str(), oid) {
            return Some(i);
        }
        i += 1;
    }
    proof {
        assert(csv.skip(n as int) =~= Seq::<CommitView>::empty());
    }
    None
}

fn find_alias_exec(aliases: &Vec<(String, String)>, key: &str) -> (r: Option<usize>)
    ensures
        match r {
            Some(i) => i < aliases.len() && find_alias(aliases.deep_view(), key@)
                == Some(aliases.deep_view()[i as int].1),
            None => find_alias(aliases.deep_view(), key@) is None,
        },
{
    let ghost alv = aliases.deep_view();
    proof {
        assert(alv.skip(0) =~= alv);
    }
    let n = aliases.len();
    let mut i: usize = 0;
    while i < n
        invariant
            n == aliases.len(),
            alv == aliases.deep_view(),
            0 <= i <= n,
            find_alias(alv, key@) == find_alias(alv.skip(i as int), key@),
        decreases n - i,
    {
        proof {
            assert(alv.skip(i as int).first() == alv[i as int]);
            assert(alv.skip(i as int).drop_first() =~= alv.skip(i + 1));
        }
        if str_eq(aliases[i].0.as_str(), key) {
            return Some(i);
        }
        i += 1;
    }
    proof {
        assert(alv.skip(n as int) =~= Seq::<(Seq<char>, Seq<char>)>::empty());
    }
    None
}

/// Answer of a cache lookup: the cached record, or the fetch to run.
#[derive(Debug)]
pub enum CommitLookup {
    Cached(Commit),
    Fetch(CommitFetch, Request),
}

/// State of one in-flight commit read.
#[derive(Debug)]
pub struct CommitFetch {
    pub reference: String,
    pub state: FetchState,
}

#[derive(Debug)]
pub enum FetchState {
    /// Awaiting the show command's answer.
    Show,
    /// Awaiting resolution of the parsed canonical id.
    Verify { parsed: Commit },
    /// Awaiting the resolved id peeled to its commit.
    Peel { parsed: Commit, first: String },
}

/// Mathematical image of a [`CommitFetch`].
#[verifier::ext_equal]
pub struct FetchView {
    pub reference: Seq<char>,
    pub state: FetchStateView,
}

#[verifier::ext_equal]
pub enum FetchStateView {
    Show,
    Verify { parsed: CommitView },
    Peel { parsed: CommitView, first: Seq<char> },
}

impl View for CommitFetch {
    type V = FetchView;

    open spec fn view(&self) -> FetchView {
        FetchView { reference: self.reference@, state: self.state@ }
    }
}

impl View for FetchState {
    type V = FetchStateView;

    open spec fn view(&self) -> FetchStateView {
        match self {
            FetchState::Show => FetchStateView::Show,
            FetchState::Verify { parsed } => FetchStateView::Verify { parsed: parsed@ },
            FetchState::Peel { parsed, first } => FetchStateView::Peel {
                parsed: parsed@,
                first: first@,
            },
        }
    }
}

/// One step of an in-flight commit read: the next backend call, or the record.
#[derive(Debug)]
pub enum FetchStep {
    Next(CommitFetch, Request),
    Done(Commit),
}

/// Mathematical image of a [`FetchStep`].
#[verifier::ext_equal]
pub enum FetchStepView {
    Next(FetchView, ReqView),
    Done(CommitView),
}

impl View for FetchStep {
    type V = FetchStepView;

    open spec fn view(&self) -> FetchStepView {
        match self {
            FetchStep::Next(f, req) => FetchStepView::Next(f@, req@),
            FetchStep::Done(c) => FetchStepView::Done(c@),
        }
    }
}

impl DeepView for FetchStep {
    type V = FetchStepView;

    open spec fn deep_view(&self) -> FetchStepView {
        self.view()
    }
}

// --- Resolving references ---

pub open spec fn rev_parse_msg() -> Seq<char> {
    "rev-parse returned success but stdout was not an object id"@
}

/// What one `rev-parse --verify` answer means: failure says the reference does
/// not exist, and success must carry one newline-terminated object id.
pub open spec fn spec_rev_parse(out: GitOutput) -> Result<Option<Seq<char>>, ErrView> {
    if !out.success {
        Ok(None)
    } else {
        match oid_of_stdout(out.stdout@) {
            Some(o) => Ok(Some(o)),
            None => Err(ErrView::GitContract(rev_parse_msg())),
        }
    }
}

pub open spec fn peel_suffix() -> Seq<char> {
    "^{commit}"@
}

/// First stage of resolving a reference to a commit: either the reference
/// names no object, or its id remains to be peeled to the enclosing commit.
#[derive(Debug)]
pub enum Resolution {
    Missing,
    Peel(String),
}

/// Mathematical image of a [`Resolution`].
#[verifier::ext_equal]
pub enum ResolutionView {
    Missing,
    Peel(Seq<char>),
}

impl View for Resolution {
    type V = ResolutionView;

    open spec fn view(&self) -> ResolutionView {
        match self {
            Resolution::Missing => ResolutionView::Missing,
            Resolution::Peel(h) => ResolutionView::Peel(h@),
        }
    }
}

impl DeepView for Resolution {
    type V = ResolutionView;

    open spec fn deep_view(&self) -> ResolutionView {
        self.view()
    }
}

pub open spec fn spec_rev_parse_commit(out: GitOutput) -> Result<ResolutionView, ErrView> {
    match spec_rev_parse(out) {
        Err(e) => Err(e),
        Ok(None) => Ok(ResolutionView::Missing),
        Ok(Some(h)) => Ok(ResolutionView::Peel(h)),
    }
}

/// The revision whose rev-parse peels `oid` to its enclosing commit.
pub fn peel_rev(oid: &str) -> (r: String)
    ensures
        r@ == oid@ + peel_suffix(),
{
    let mut s = String::from_str(oid);
    s.append("^{commit}");
    s
}

impl GitStore {
    /// Interprets one answer of `git rev-parse --verify`: an unsuccessful exit
    /// means the reference does not exist and is not an error; a successful
    /// exit without a parseable object id breaks the backend's contract.
    pub fn rev_parse(&self, out: GitOutput) -> (r: Result<Option<String>, Error>)
        ensures
            res_view(r) == spec_rev_parse(out),
    {
        if !out.success {
            return Ok(None);
        }
        match parse_oid(out.stdout) {
            Ok(s) => Ok(Some(s)),
            Err(_) => Err(Error::GitContract(String::from_str(
                "rev-parse returned success but stdout was not an object id",
            ))),
        }
    }

    /// First step of resolving a reference to a commit: interprets the
    /// rev-parse answer; a hit must still be peeled by a second rev-parse of
    /// the id followed by `^{commit}`.
    pub fn rev_parse_commit(&self, out: GitOutput) -> (r: Result<Resolution, Error>)
        ensures
            res_view(r) == spec_rev_parse_commit(out),
    {
        match self.rev_parse(out) {
            Err(e) => Err(e),
            Ok(None) => Ok(Resolution::Missing),
            Ok(Some(h)) => Ok(Resolution::Peel(h)),
        }
    }

    /// The resolved commit id, failing with `NoSuchCommit` naming `rev` when
    /// the resolution found nothing.
    pub fn rev_parse_commit_ok(&self, rev: &str, resolved: Option<String>) -> (r: Result<
        String,
        Error,
    >)
        ensures
            match resolved {
                Some(h) => r matches Ok(h2) && h2@ == h@,
                None => r matches Err(e) && e@ == ErrView::NoSuchCommit(rev@),
            },
    {
        match resolved {
            Some(h) => Ok(h),
            None => Err(Error::NoSuchCommit(String::from_str(rev))),
        }
    }
}

// --- The fetch protocol ---

pub open spec fn cache_alias_msg() -> Seq<char> {
    "commit cache alias names no cached record"@
}

pub open spec fn cache_mismatch_msg() -> Seq<char> {
    "commit cache already held a different record for this object id"@
}

/// Finishing a fetched record in the cache: a reference that is already a
/// cached alias short-circuits to the existing entry; a record already cached
/// under its canonical id must equal the fresh one exactly; otherwise the
/// record is inserted, recording the reference as an alias when it differs
/// from the canonical id.
pub open spec fn spec_store_insert(
    s: StoreView,
    reference: Seq<char>,
    parsed: CommitView,
) -> (StoreView, Result<FetchStepView, ErrView>) {
    if reference != parsed.oid && find_alias(s.aliases, reference) is Some {
        match find_commit(s.commits, find_alias(s.aliases, reference)->Some_0) {
            Some(c) => (s, Ok(FetchStepView::Done(c))),
            None => (s, Err(ErrView::GitContract(cache_alias_msg()))),
        }
    } else {
        let aliases2 = if reference != parsed.oid {
            s.aliases.push((reference, parsed.oid))
        } else {
            s.aliases
        };
        match find_commit(s.commits, parsed.oid) {
            Some(existing) => if existing == parsed {
                (StoreView { commits: s.commits, aliases: aliases2 }, Ok(
                    FetchStepView::Done(existing),
                ))
            } else {
                (s, Err(ErrView::GitContract(cache_mismatch_msg())))
            },
            None => (StoreView { commits: s.commits.push(parsed), aliases: aliases2 }, Ok(
                FetchStepView::Done(parsed),
            )),
        }
    }
}

/// What one show answer means for an in-flight read: no commit when the
/// command failed, an encoding error when its bytes do not decode, no commit
/// when the fixed-format suffix is missing, and otherwise the validation
/// request for the parsed canonical id.
pub open spec fn spec_fetch_show(reference: Seq<char>, out: GitOutput) -> Result<
    FetchStepView,
    ErrView,
> {
    if !out.success {
        Err(ErrView::NoSuchCommit(reference))
    } else if !valid_utf8(out.stdout@) {
        Err(ErrView::InvalidEncoding { oid: reference })
    } else {
        match show_parse_spec(decode_utf8(out.stdout@)) {
            None => Err(ErrView::NoSuchCommit(reference)),
            Some(cv) => Ok(FetchStepView::Next(
                FetchView { reference, state: FetchStateView::Verify { parsed: cv } },
                ReqView::RevParse { rev: cv.oid },
            )),
        }
    }
}

pub open spec fn spec_fetch_verify(
    reference: Seq<char>,
    parsed: CommitView,
    out: GitOutput,
) -> Result<FetchStepView, ErrView> {
    match spec_rev_parse_commit(out) {
        Err(e) => Err(e),
        Ok(ResolutionView::Missing) => Err(ErrView::NoSuchCommit(parsed.oid)),
        Ok(ResolutionView::Peel(h)) => Ok(FetchStepView::Next(
            FetchView { reference, state: FetchStateView::Peel { parsed, first: h } },
            ReqView::RevParse { rev: h + peel_suffix() },
        )),
    }
}

/// The peeled id must name the parsed record itself: the show command having
/// answered for a different kind of object means the reference names no
/// commit. A validated record is finished in the cache.
pub open spec fn spec_fetch_peel(
    s: StoreView,
    reference: Seq<char>,
    parsed: CommitView,
    out: GitOutput,
) -> (StoreView, Result<FetchStepView, ErrView>) {
    match spec_rev_parse(out) {
        Err(e) => (s, Err(e)),
        Ok(None) => (s, Err(ErrView::NoSuchCommit(parsed.oid))),
        Ok(Some(h2)) => if h2 != parsed.oid {
            (s, Err(ErrView::NoSuchCommit(reference)))
        } else {
            spec_store_insert(s, reference, parsed)
        },
    }
}

/// One step of the fetch protocol, as a function of the cache, the in-flight
/// read and the backend's answer: the new cache and the outcome.
pub open spec fn spec_fetch_step(s: StoreView, f: FetchView, out: GitOutput) -> (
    StoreView,
    Result<FetchStepView, ErrView>,
) {
    match f.state {
        FetchStateView::Show => (s, spec_fetch_show(f.reference, out)),
        FetchStateView::Verify { parsed } => (s, spec_fetch_verify(f.reference, parsed, out)),
        FetchStateView::Peel { parsed, first: _ } => spec_fetch_peel(s, f.reference, parsed, out),
    }
}

impl GitStore {
    fn insert_fetched(&mut self, reference: String, parsed: Commit) -> (r: Result<
        FetchStep,
        Error,
    >)
        ensures
            final(self)@ == spec_store_insert(old(self)@, reference@, parsed@).0,
            res_view(r) == spec_store_insert(old(self)@, reference@, parsed@).1,
            old(self).wf() ==> final(self).wf(),
    {
        let same_id = str_eq(reference.as_str(), parsed.oid.as_str());
        if !same_id {
            match find_alias_exec(&self.aliases, reference.as_str()) {
                Some(i) => {
                    let canon = self.aliases[i].1.clone();
                    return match find_commit_exec(&self.commits, canon.as_str()) {
                        Some(j) => Ok(FetchStep::Done(self.commits[j].clone())),
                        None => Err(Error::GitContract(String::from_str(
                            "commit cache alias names no cached record",
                        ))),
                    };
                },
                None => {},
            }
        }
        let ghost pre = self@;
        match find_commit_exec(&self.commits, parsed.oid.as_str()) {
            Some(j) => {
                if self.commits[j].same_as(&parsed) {
                    let existing = self.commits[j].clone();
                    if !same_id {
                        proof {
                            lemma_find_alias_none(pre.aliases, reference@);
                        }
                        let target = parsed.oid.clone();
                        self.aliases.push((reference, target));
                        proof {
                            assert(self@.aliases =~= pre.aliases.push((reference@, parsed@.oid)));
                            assert(self@ =~= spec_store_insert(pre, reference@, parsed@).0);
                        }
                    }
                    Ok(FetchStep::Done(existing))
                } else {
                    Err(Error::GitContract(String::from_str(
                        "commit cache already held a different record for this object id",
                    )))
                }
            },
            None => {
                proof {
                    lemma_find_commit_none(pre.commits, parsed@.oid);
                }
                let done = parsed.clone();
                let target = parsed.oid.clone();
                self.commits.push(parsed);
                proof {
                    assert(self@.commits =~= pre.commits.push(done@));
                }
                if !same_id {
                    proof {
                        lemma_find_alias_none(pre.aliases, reference@);
                    }
                    self.aliases.push((reference, target));
                    proof {
                        assert(self@.aliases =~= pre.aliases.push((reference@, done@.oid)));
                    }
                }
                proof {
                    assert(self@ =~= spec_store_insert(pre, reference@, done@).0);
                    if store_wf(pre) {
                        assert forall|a: int, b: int|
                            0 <= a < b < self@.commits.len() implies (#[trigger] self@.commits[a]).oid
                            != (#[trigger] self@.commits[b]).oid by {
                            if b < pre.commits.len() {
                                assert(pre.commits[a] == self@.commits[a]);
                                assert(pre.commits[b] == self@.commits[b]);
                            } else {
                                assert(self@.commits[b] == done@);
                                assert(pre.commits[a].oid != done@.oid);
                            }
                        }
                        assert forall|a: int|
                            0 <= a < self@.aliases.len() implies find_commit(
                            self@.commits,
                            (#[trigger] self@.aliases[a]).1,
                        ) is Some by {
                            lemma_find_commit_push(pre.commits, done@, self@.aliases[a].1);
                            if a < pre.aliases.len() {
                                assert(self@.aliases[a] == pre.aliases[a]);
                                assert(find_commit(pre.commits, pre.aliases[a].1) is Some);
                            } else {
                                assert(self@.aliases[a].1 == done@.oid);
                            }
                        }
                        assert forall|a: int, b: int|
                            0 <= a < b < self@.aliases.len() implies (#[trigger] self@.aliases[a]).0
                            != (#[trigger] self@.aliases[b]).0 by {
                            if b < pre.aliases.len() {
                                assert(pre.aliases[a] == self@.aliases[a]);
                                assert(pre.aliases[b] == self@.aliases[b]);
                            } else if self@.aliases.len() > pre.aliases.len() {
                                assert(self@.aliases[b] == (reference@, done@.oid));
                                assert(pre.aliases[a].0 != reference@);
                            }
                        }
                    }
                }
                Ok(FetchStep::Done(done))
            },
        }
    }

    /// Advances one in-flight commit read by one backend answer: parses the
    /// show answer, validates that the canonical id truly names this commit,
    /// and finishes the validated record in the cache.
    pub fn fetch_step(&mut self, f: CommitFetch, out: GitOutput) -> (r: Result<FetchStep, Error>)
        ensures
            final(self)@ == spec_fetch_step(old(self)@, f@, out).0,
            res_view(r) == spec_fetch_step(old(self)@, f@, out).1,
            old(self).wf() ==> final(self).wf(),
    {
        let CommitFetch { reference, state } = f;
        match state {
            FetchState::Show => {
                if !out.success {
                    return Err(Error::NoSuchCommit(reference));
                }
                let text = match Error::require_utf8(out.stdout, reference.as_str()) {
                    Ok(t) => t,
                    Err(e) => {
                        return Err(e);
                    },
                };
                match parse_show_output(reference.as_str(), text.as_str()) {
                    Err(e) => Err(e),
                    Ok(c) => {
                        let rev = c.oid.clone();
                        Ok(FetchStep::Next(
                            CommitFetch { reference, state: FetchState::Verify { parsed: c } },
                            Request::RevParse { rev },
                        ))
                    },
                }
            },
            FetchState::Verify { parsed } => {
                match self.rev_parse_commit(out) {
                    Err(e) => Err(e),
                    Ok(Resolution::Missing) => Err(Error::NoSuchCommit(parsed.oid)),
                    Ok(Resolution::Peel(h)) => {
                        let rev = peel_rev(h.as_str());
                        Ok(FetchStep::Next(
                            CommitFetch {
                                reference,
                                state: FetchState::Peel { parsed, first: h },
                            },
                            Request::RevParse { rev },
                        ))
                    },
                }
            },
            FetchState::Peel { parsed, first: _ } => {
                match self.rev_parse(out) {
                    Err(e) => Err(e),
                    Ok(None) => Err(Error::NoSuchCommit(parsed.oid)),
                    Ok(Some(h2)) => {
                        if !str_eq(h2.as_str(), parsed.oid.as_str()) {
                            Err(Error::NoSuchCommit(reference))
                        } else {
                            self.insert_fetched(reference, parsed)
                        }
                    },
                }
            },
        }
    }

    /// Gets the cached record for `reference`, or the fetch protocol to run
    /// for it: first the show request, then two resolution requests that
    /// validate the canonical id.
    pub fn commit(&self, reference: &str) -> (r: CommitLookup)
        ensures
            match lookup_spec(self@, reference@) {
                Some(cv) => r matches CommitLookup::Cached(c) && c@ == cv,
                None => r matches CommitLookup::Fetch(f, req) && f@ == (FetchView {
                    reference: reference@,
                    state: FetchStateView::Show,
                }) && req@ == (ReqView::Show { reference: reference@ }),
            },
    {
        match find_commit_exec(&self.commits, reference) {
            Some(i) => CommitLookup::Cached(self.commits[i].clone()),
            None => match find_alias_exec(&self.aliases, reference) {
                Some(i) => {
                    let canon = &self.aliases[i].1;
                    match find_commit_exec(&self.commits, canon.as_str()) {
                        Some(j) => CommitLookup::Cached(self.commits[j].clone()),
                        None => CommitLookup::Fetch(
                            CommitFetch {
                                reference: String::from_str(reference),
                                state: FetchState::Show,
                            },
                            Request::Show { reference: String::from_str(reference) },
                        ),
                    }
                },
                None => CommitLookup::Fetch(
                    CommitFetch {
                        reference: String::from_str(reference),
                        state: FetchState::Show,
                    },
                    Request::Show { reference: String::from_str(reference) },
                ),
            },
        }
    }
}

} // verus!
