//! Trailer engine: parsing the backend's trailer listing into key/value pairs,
//! classifying a key's occurrences, and rewriting the provenance trailers.

use vstd::prelude::*;

verus! {

use vstd::string::StrSliceExecFns;
use crate::err::{Error, ErrView, res_view};
use crate::text::{split_char, split_all, str_eq, lemma_split_char_len};

/// Key of the trailer naming the remote branch a change belongs to.
pub open spec fn branch_key_spec() -> Seq<char> {
    "wchargin-branch"@
}

pub fn branch_key() -> (r: &'static str)
    ensures
        r@ == branch_key_spec(),
{
    "wchargin-branch"
}

/// Key of the trailer recording which local commit a remote commit was built from.
pub open spec fn source_key_spec() -> Seq<char> {
    "wchargin-source"@
}

pub fn source_key() -> (r: &'static str)
    ensures
        r@ == source_key_spec(),
{
    "wchargin-source"
}

/// Prefix put before a branch trailer's value to form the remote branch name.
pub open spec fn branch_prefix_spec() -> Seq<char> {
    "wchargin-"@
}

pub fn branch_prefix() -> (r: &'static str)
    ensures
        r@ == branch_prefix_spec(),
{
    "wchargin-"
}

pub proof fn lemma_keys_differ()
    ensures
        branch_key_spec() != source_key_spec(),
{
    reveal_strlit("wchargin-branch");
    reveal_strlit("wchargin-source");
    assert(branch_key_spec()[9] == 'b');
    assert(source_key_spec()[9] == 's');
}

// --- Splitting the backend's trailer listing into lines ---

/// A line with a final carriage return removed, as the line iterator of the
/// standard library does.
pub open spec fn strip_cr(l: Seq<char>) -> Seq<char> {
    if l.len() > 0 && l.last() == '\r' {
        l.drop_last()
    } else {
        l
    }
}

/// The lines of `s`: segments between newlines, without a final empty segment
/// after a terminating newline, each with a trailing carriage return removed.
pub open spec fn lines_of(s: Seq<char>) -> Seq<Seq<char>> {
    let ps = split_char(s, '\n');
    let qs = if ps.last().len() == 0 {
        ps.drop_last()
    } else {
        ps
    };
    qs.map(|i: int, l: Seq<char>| strip_cr(l))
}

pub fn split_lines(s: &str) -> (r: Vec<String>)
    ensures
        r.deep_view() == lines_of(s@),
{
    let mut parts = split_all(s, '\n');
    proof {
        lemma_split_char_len(s@, '\n');
    }
    if parts[parts.len() - 1].as_str().is_empty() {
        parts.pop();
    }
    let ghost qs = if split_char(s@, '\n').last().len() == 0 {
        split_char(s@, '\n').drop_last()
    } else {
        split_char(s@, '\n')
    };
    proof {
        assert(parts.deep_view() =~= qs);
    }
    let mut out: Vec<String> = Vec::new();
    let n = parts.len();
    let mut i: usize = 0;
    while i < n
        invariant
            n == parts.len(),
            parts.deep_view() =~= qs,
            0 <= i <= n,
            out.len() == i,
            forall|j: int| 0 <= j < i ==> out.deep_view()[j] == strip_cr(qs[j]),
        decreases n - i,
    {
        let p = &parts[i];
        let pn = p.as_str().unicode_len();
        let elem = if pn > 0 && p.as_str().get_char(pn - 1) == '\r' {
            let stripped = p.as_str().substring_char(0, pn - 1);
            proof {
                assert(stripped@ =~= strip_cr(qs[i as int]));
            }
            String::from_str(stripped)
        } else {
            p.clone()
        };
        proof {
            assert(elem@ == strip_cr(qs[i as int]));
        }
        let ghost prev = out.deep_view();
        out.push(elem);
        proof {
            assert(out.deep_view() =~= prev.push(strip_cr(qs[i as int])));
        }
        i += 1;
    }
    proof {
        assert(out.deep_view() =~= lines_of(s@));
    }
    out
}

// --- Splitting one trailer line into key and value ---

/// Index of the first occurrence of the separator `": "` in `l`, if any.
pub open spec fn first_sep(l: Seq<char>) -> Option<int>
    decreases l.len(),
{
    if l.len() < 2 {
        None
    } else if l[0] == ':' && l[1] == ' ' {
        Some(0int)
    } else {
        match first_sep(l.drop_first()) {
            None => None,
            Some(i) => Some(i + 1),
        }
    }
}

proof fn lemma_first_sep_none(l: Seq<char>)
    requires
        forall|j: int| 0 <= j < l.len() - 1 ==> !((#[trigger] l[j]) == ':' && l[j + 1] == ' '),
    ensures
        first_sep(l) is None,
    decreases l.len(),
{
    if l.len() >= 2 {
        lemma_first_sep_none(l.drop_first());
    }
}

proof fn lemma_first_sep_at(l: Seq<char>, i: int)
    requires
        0 <= i < l.len() - 1,
        l[i] == ':',
        l[i + 1] == ' ',
        forall|j: int| 0 <= j < i ==> !((#[trigger] l[j]) == ':' && l[j + 1] == ' '),
    ensures
        first_sep(l) == Some(i),
    decreases i,
{
    if i > 0 {
        lemma_first_sep_at(l.drop_first(), i - 1);
    }
}

fn find_sep(l: &str) -> (r: Option<usize>)
    ensures
        match r {
            Some(i) => first_sep(l@) == Some(i as int) && i + 1 < l@.len(),
            None => first_sep(l@) is None,
        },
{
    let n = l.unicode_len();
    if n < 2 {
        proof {
            lemma_first_sep_none(l@);
        }
        return None;
    }
    let mut i: usize = 0;
    while i < n - 1
        invariant
            n == l@.len(),
            2 <= n,
            0 <= i <= n - 1,
            forall|j: int| 0 <= j < i ==> !((#[trigger] l@[j]) == ':' && l@[j + 1] == ' '),
        decreases n - i,
    {
        if l.get_char(i) == ':' && l.get_char(i + 1) == ' ' {
            proof {
                lemma_first_sep_at(l@, i as int);
            }
            return Some(i);
        }
        i += 1;
    }
    proof {
        lemma_first_sep_none(l@);
    }
    None
}

/// Key and value of one trailer line, split at the first `": "`.
pub open spec fn split_trailer_line(l: Seq<char>) -> Option<(Seq<char>, Seq<char>)> {
    match first_sep(l) {
        None => None,
        Some(i) => Some((l.take(i), l.skip(i + 2))),
    }
}

/// Key/value pairs of the trailer listing `s`, or `None` if some line of `s`
/// lacks the separator.
pub open spec fn parse_lines_spec(s: Seq<char>) -> Option<Seq<(Seq<char>, Seq<char>)>> {
    let ls = lines_of(s);
    if forall|i: int| 0 <= i < ls.len() ==> split_trailer_line(#[trigger] ls[i]) is Some {
        Some(Seq::new(ls.len(), |i: int| split_trailer_line(ls[i])->Some_0))
    } else {
        None
    }
}

pub open spec fn trailer_sep_msg() -> Seq<char> {
    "interpret-trailers emitted a line without a separator"@
}

/// Splits each line of the backend's trailer listing on the first `": "`.
/// A line without the separator breaks the backend's contract.
pub fn parse_trailer_lines(text: &str) -> (r: Result<Vec<(String, String)>, Error>)
    ensures
        match r {
            Ok(ps) => parse_lines_spec(text@) == Some(ps.deep_view()),
            Err(e) => parse_lines_spec(text@) is None && e@ == ErrView::GitContract(
                trailer_sep_msg(),
            ),
        },
{
    let ls = split_lines(text);
    let ghost lsv = lines_of(text@);
    let mut out: Vec<(String, String)> = Vec::new();
    let n = ls.len();
    let mut i: usize = 0;
    while i < n
        invariant
            n == ls.len(),
            ls.deep_view() == lsv,
            lsv == lines_of(text@),
            0 <= i <= n,
            out.len() == i,
            forall|j: int| 0 <= j < i ==> split_trailer_line(#[trigger] lsv[j]) is Some,
            forall|j: int| 0 <= j < i
                ==> out.deep_view()[j] == split_trailer_line(#[trigger] lsv[j])->Some_0,
        decreases n - i,
    {
        let l = &ls[i];
        match find_sep(l.as_str()) {
            None => {
                return Err(Error::GitContract(String::from_str(
                    "interpret-trailers emitted a line without a separator",
                )));
            },
            Some(sep) => {
                let ln = l.as_str().unicode_len();
                let k = l.as_str().substring_char(0, sep);
                let v = l.as_str().substring_char(sep + 2, ln);
                proof {
                    assert(k@ =~= lsv[i as int].take(first_sep(lsv[i as int]).unwrap()));
                    assert(v@ =~= lsv[i as int].skip(first_sep(lsv[i as int]).unwrap() + 2));
                }
                out.push((String::from_str(k), String::from_str(v)));
            },
        }
        i += 1;
    }
    proof {
        assert(out.deep_view() =~= parse_lines_spec(text@).unwrap());
    }
    Ok(out)
}

// --- Classifying a key's occurrences ---

/// How many pairs of `ts` carry the key `key`.
pub open spec fn key_count(ts: Seq<(Seq<char>, Seq<char>)>, key: Seq<char>) -> int
    decreases ts.len(),
{
    if ts.len() == 0 {
        0
    } else {
        key_count(ts.drop_last(), key) + if ts.last().0 == key {
            1int
        } else {
            0int
        }
    }
}

/// Value of the first pair of `ts` carrying the key `key` (the empty sequence
/// if there is none).
pub open spec fn first_value_of(ts: Seq<(Seq<char>, Seq<char>)>, key: Seq<char>) -> Seq<char>
    decreases ts.len(),
{
    if ts.len() == 0 {
        Seq::empty()
    } else if key_count(ts.drop_last(), key) > 0 {
        first_value_of(ts.drop_last(), key)
    } else if ts.last().0 == key {
        ts.last().1
    } else {
        Seq::empty()
    }
}

pub proof fn lemma_key_count_take_le(ts: Seq<(Seq<char>, Seq<char>)>, key: Seq<char>, i: int, j: int)
    requires
        0 <= i <= j <= ts.len(),
    ensures
        key_count(ts.take(i), key) <= key_count(ts.take(j), key),
    decreases j - i,
{
    if i < j {
        lemma_key_count_take_le(ts, key, i, j - 1);
        assert(ts.take(j).drop_last() =~= ts.take(j - 1));
    }
}

/// Result of folding all trailers for one key.
#[derive(Debug)]
pub enum TrailerMatch<'a> {
    Missing { key: &'a str },
    Duplicate { key: &'a str },
    Unique { key: &'a str, value: &'a str },
}

impl<'a> TrailerMatch<'a> {
    /// Absorbs one more occurrence of the key: a first match becomes `Unique`,
    /// a second collapses to `Duplicate`, and further matches are absorbed.
    pub fn plus(self, value: &'a str) -> (r: Self)
        ensures
            match self {
                TrailerMatch::Missing { key } => r matches TrailerMatch::Unique {
                    key: k,
                    value: v,
                } && k@ == key@ && v@ == value@,
                TrailerMatch::Unique { key, .. } => r matches TrailerMatch::Duplicate { key: k }
                    && k@ == key@,
                TrailerMatch::Duplicate { key } => r matches TrailerMatch::Duplicate { key: k }
                    && k@ == key@,
            },
    {
        match self {
            TrailerMatch::Missing { key } => TrailerMatch::Unique { key, value },
            TrailerMatch::Unique { key, .. } => TrailerMatch::Duplicate { key },
            TrailerMatch::Duplicate { .. } => self,
        }
    }

    /// The unique value for the key, or the error naming the commit whose
    /// message lacks or over-specifies it.
    pub fn unique(self, oid: &str) -> (r: Result<&'a str, Error>)
        ensures
            match self {
                TrailerMatch::Unique { value, .. } => r matches Ok(v) && v@ == value@,
                TrailerMatch::Missing { key } => r matches Err(Error::MissingTrailer {
                    oid: o,
                    key: k,
                }) && o@ == oid@ && k@ == key@,
                TrailerMatch::Duplicate { key } => r matches Err(Error::DuplicateTrailer {
                    oid: o,
                    key: k,
                }) && o@ == oid@ && k@ == key@,
            },
    {
        match self {
            TrailerMatch::Unique { value, .. } => Ok(value),
            TrailerMatch::Missing { key } => Err(Error::MissingTrailer {
                oid: String::from_str(oid),
                key: String::from_str(key),
            }),
            TrailerMatch::Duplicate { key } => Err(Error::DuplicateTrailer {
                oid: String::from_str(oid),
                key: String::from_str(key),
            }),
        }
    }

    pub fn is_duplicate(&self) -> (r: bool)
        ensures
            r == (self matches TrailerMatch::Duplicate { .. }),
    {
        match self {
            TrailerMatch::Duplicate { .. } => true,
            _ => false,
        }
    }
}

/// Folds all trailers for `key`: no occurrence is `Missing`, exactly one is
/// `Unique` with its value, and two or more are `Duplicate`.
pub fn look_up_trailer<'a>(key: &'a str, trailers: &'a Vec<(String, String)>) -> (r: TrailerMatch<
    'a,
>)
    ensures
        ({
            let tsv = trailers.deep_view();
            match r {
                TrailerMatch::Missing { key: k } => k@ == key@ && key_count(tsv, key@) == 0,
                TrailerMatch::Unique { key: k, value: v } => k@ == key@
                    && key_count(tsv, key@) == 1 && v@ == first_value_of(tsv, key@),
                TrailerMatch::Duplicate { key: k } => k@ == key@ && key_count(tsv, key@) >= 2,
            }
        }),
{
    let ghost tsv = trailers.deep_view();
    let mut found = TrailerMatch::Missing { key };
    let n = trailers.len();
    let mut i: usize = 0;
    while i < n
        invariant
            n == trailers.len(),
            tsv == trailers.deep_view(),
            0 <= i <= n,
            match found {
                TrailerMatch::Missing { key: k } => k@ == key@
                    && key_count(tsv.take(i as int), key@) == 0,
                TrailerMatch::Unique { key: k, value: v } => k@ == key@
                    && key_count(tsv.take(i as int), key@) == 1
                    && v@ == first_value_of(tsv.take(i as int), key@),
                TrailerMatch::Duplicate { key: k } => false,
            },
        decreases n - i,
    {
        proof {
            assert(tsv.take(i + 1).drop_last() =~= tsv.take(i as int));
            assert(tsv.take(i + 1).last() == tsv[i as int]);
        }
        let k = &trailers[i].0;
        let v = &trailers[i].1;
        if str_eq(k.as_str(), key) {
            found = found.plus(v.as_str());
            if found.is_duplicate() {
                proof {
                    lemma_key_count_take_le(tsv, key@, i + 1, tsv.len() as int);
                    assert(tsv.take(tsv.len() as int) =~= tsv);
                }
                return found;
            }
        }
        i += 1;
    }
    proof {
        assert(tsv.take(tsv.len() as int) =~= tsv);
    }
    found
}

/// The remote branch name carried by a commit's trailers: no occurrence of the
/// branch trailer names no branch, a unique occurrence names the prefixed
/// value, and more than one is a `DuplicateTrailer` error naming `oid`.
pub open spec fn spec_branch_name(ts: Seq<(Seq<char>, Seq<char>)>, oid: Seq<char>) -> Result<
    Option<Seq<char>>,
    ErrView,
> {
    let c = key_count(ts, branch_key_spec());
    if c == 0 {
        Ok(None)
    } else if c == 1 {
        Ok(Some(branch_prefix_spec() + first_value_of(ts, branch_key_spec())))
    } else {
        Err(ErrView::DuplicateTrailer { oid, key: branch_key_spec() })
    }
}

/// The remote branch name carried by a commit's trailers: the branch prefix
/// plus the unique branch-trailer value, `None` when the trailer is absent,
/// and a `DuplicateTrailer` error naming `oid` when it occurs more than once.
pub fn branch_name(oid: &str, trailers: &Vec<(String, String)>) -> (r: Result<
    Option<String>,
    Error,
>)
    ensures
        res_view(r) == spec_branch_name(trailers.deep_view(), oid@),
{
    let m = look_up_trailer(branch_key(), trailers);
    match m.unique(oid) {
        Ok(v) => {
            let mut s = String::from_str(branch_prefix());
            s.append(v);
            Ok(Some(s))
        },
        Err(e) => match e {
            Error::MissingTrailer { .. } => Ok(None),
            other => Err(other),
        },
    }
}

// --- Rewriting the provenance trailers ---

/// True of the keys this tool itself maintains.
pub open spec fn is_directive_key(k: Seq<char>) -> bool {
    k == branch_key_spec() || k == source_key_spec()
}

/// The pairs of `ts` that carry neither of the directive keys, in order.
pub open spec fn others_spec(ts: Seq<(Seq<char>, Seq<char>)>) -> Seq<(Seq<char>, Seq<char>)>
    decreases ts.len(),
{
    if ts.len() == 0 {
        Seq::empty()
    } else {
        others_spec(ts.drop_last()) + if is_directive_key(ts.last().0) {
            Seq::empty()
        } else {
            seq![ts.last()]
        }
    }
}

/// Replacing the branch and source trailers: every pre-existing occurrence of
/// either key is dropped, the other pairs keep their order, and one fresh pair
/// for each key is put at the end.
pub open spec fn rewrite_spec(
    ts: Seq<(Seq<char>, Seq<char>)>,
    branch_value: Seq<char>,
    source_value: Seq<char>,
) -> Seq<(Seq<char>, Seq<char>)> {
    others_spec(ts) + seq![
        (branch_key_spec(), branch_value),
        (source_key_spec(), source_value),
    ]
}

/// Rewrites the parsed trailers so that exactly one branch trailer and one
/// source trailer remain, replacing any pre-existing ones.
pub fn rewrite_pairs(
    trailers: &Vec<(String, String)>,
    branch_value: &str,
    source_value: &str,
) -> (r: Vec<(String, String)>)
    ensures
        r.deep_view() == rewrite_spec(trailers.deep_view(), branch_value@, source_value@),
{
    let ghost tsv = trailers.deep_view();
    let mut out: Vec<(String, String)> = Vec::new();
    let n = trailers.len();
    let mut i: usize = 0;
    while i < n
        invariant
            n == trailers.len(),
            tsv == trailers.deep_view(),
            0 <= i <= n,
            out.deep_view() == others_spec(tsv.take(i as int)),
        decreases n - i,
    {
        proof {
            assert(tsv.take(i + 1).drop_last() =~= tsv.take(i as int));
            assert(tsv.take(i + 1).last() == tsv[i as int]);
        }
        let k = &trailers[i].0;
        let v = &trailers[i].1;
        if !(str_eq(k.as_str(), branch_key()) || str_eq(k.as_str(), source_key())) {
            out.push((k.clone(), v.clone()));
        }
        proof {
            assert(out.deep_view() =~= others_spec(tsv.take(i + 1)));
        }
        i += 1;
    }
    proof {
        assert(tsv.take(tsv.len() as int) =~= tsv);
    }
    out.push((String::from_str(branch_key()), String::from_str(branch_value)));
    out.push((String::from_str(source_key()), String::from_str(source_value)));
    proof {
        assert(out.deep_view() =~= rewrite_spec(tsv, branch_value@, source_value@));
    }
    out
}

proof fn lemma_key_count_concat(a: Seq<(Seq<char>, Seq<char>)>, b: Seq<(Seq<char>, Seq<char>)>, key: Seq<char>)
    ensures
        key_count(a + b, key) == key_count(a, key) + key_count(b, key),
    decreases b.len(),
{
    if b.len() == 0 {
        assert(a + b =~= a);
    } else {
        lemma_key_count_concat(a, b.drop_last(), key);
        assert((a + b).drop_last() =~= a + b.drop_last());
    }
}

proof fn lemma_others_clean(ts: Seq<(Seq<char>, Seq<char>)>)
    ensures
        forall|i: int| 0 <= i < others_spec(ts).len()
            ==> !is_directive_key(#[trigger] others_spec(ts)[i].0),
    decreases ts.len(),
{
    if ts.len() > 0 {
        lemma_others_clean(ts.drop_last());
        let pre = others_spec(ts.drop_last());
        assert forall|i: int| 0 <= i < others_spec(ts).len() implies !is_directive_key(
            #[trigger] others_spec(ts)[i].0,
        ) by {
            if i < pre.len() {
                assert(others_spec(ts)[i] == pre[i]);
            } else {
                assert(!is_directive_key(ts.last().0));
                assert(others_spec(ts)[i] == ts.last());
            }
        }
    }
}

proof fn lemma_clean_key_count(s: Seq<(Seq<char>, Seq<char>)>, key: Seq<char>)
    requires
        is_directive_key(key),
        forall|i: int| 0 <= i < s.len() ==> !is_directive_key(#[trigger] s[i].0),
    ensures
        key_count(s, key) == 0,
    decreases s.len(),
{
    if s.len() > 0 {
        lemma_clean_key_count(s.drop_last(), key);
    }
}

proof fn lemma_others_identity(s: Seq<(Seq<char>, Seq<char>)>)
    requires
        forall|i: int| 0 <= i < s.len() ==> !is_directive_key(#[trigger] s[i].0),
    ensures
        others_spec(s) == s,
    decreases s.len(),
{
    if s.len() > 0 {
        lemma_others_identity(s.drop_last());
        assert(others_spec(s) =~= s);
    } else {
        assert(others_spec(s) =~= s);
    }
}

proof fn lemma_others_concat(a: Seq<(Seq<char>, Seq<char>)>, b: Seq<(Seq<char>, Seq<char>)>)
    ensures
        others_spec(a + b) == others_spec(a) + others_spec(b),
    decreases b.len(),
{
    if b.len() == 0 {
        assert(a + b =~= a);
        assert(others_spec(a) + others_spec(b) =~= others_spec(a));
    } else {
        lemma_others_concat(a, b.drop_last());
        assert((a + b).drop_last() =~= a + b.drop_last());
        assert(others_spec(a + b) =~= others_spec(a) + others_spec(b));
    }
}

/// Law: rewriting the branch and source trailers and looking them up again
/// finds exactly one occurrence of each, carrying the new values, while all
/// other trailers are preserved in their original order.
pub proof fn lemma_rewrite_round_trip(
    ts: Seq<(Seq<char>, Seq<char>)>,
    branch_value: Seq<char>,
    source_value: Seq<char>,
)
    ensures
        key_count(rewrite_spec(ts, branch_value, source_value), branch_key_spec()) == 1,
        first_value_of(rewrite_spec(ts, branch_value, source_value), branch_key_spec())
            == branch_value,
        key_count(rewrite_spec(ts, branch_value, source_value), source_key_spec()) == 1,
        first_value_of(rewrite_spec(ts, branch_value, source_value), source_key_spec())
            == source_value,
        others_spec(rewrite_spec(ts, branch_value, source_value)) == others_spec(ts),
{
    lemma_keys_differ();
    let bp = (branch_key_spec(), branch_value);
    let sp = (source_key_spec(), source_value);
    let tail = seq![bp, sp];
    let os = others_spec(ts);
    let rw = rewrite_spec(ts, branch_value, source_value);
    lemma_others_clean(ts);
    lemma_clean_key_count(os, branch_key_spec());
    lemma_clean_key_count(os, source_key_spec());

    // occurrence counts: none in the kept pairs, one in the fresh tail
    lemma_key_count_concat(os, tail, branch_key_spec());
    lemma_key_count_concat(os, tail, source_key_spec());
    let e = Seq::<(Seq<char>, Seq<char>)>::empty();
    assert(tail.drop_last() =~= seq![bp]);
    assert(seq![bp].drop_last() =~= e);
    assert(key_count(e, branch_key_spec()) == 0);
    assert(key_count(e, source_key_spec()) == 0);
    assert(seq![bp].last() == bp);
    assert(key_count(seq![bp], branch_key_spec()) == 1);
    assert(key_count(seq![bp], source_key_spec()) == 0);
    assert(tail.last() == sp);
    assert(key_count(tail, branch_key_spec()) == 1);
    assert(key_count(tail, source_key_spec()) == 1);

    // first values: the kept pairs carry neither key, so the fresh pairs are found
    assert(rw.drop_last() =~= os + seq![bp]);
    assert((os + seq![bp]).drop_last() =~= os);
    lemma_key_count_concat(os, seq![bp], branch_key_spec());
    lemma_key_count_concat(os, seq![bp], source_key_spec());
    assert(key_count(os + seq![bp], branch_key_spec()) == 1);
    assert(first_value_of(os + seq![bp], branch_key_spec()) == branch_value);
    assert(first_value_of(rw, branch_key_spec()) == branch_value);
    assert(key_count(rw.drop_last(), source_key_spec()) == 0);
    assert(rw.last() == sp);
    assert(first_value_of(rw, source_key_spec()) == source_value);

    // everything else is untouched
    lemma_others_concat(os, tail);
    assert(others_spec(e) == e);
    assert(others_spec(seq![bp]) =~= e);
    assert(others_spec(tail) =~= e);
    lemma_others_identity(os);
    assert(others_spec(rw) =~= others_spec(ts));
}

} // verus!
