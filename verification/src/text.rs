//! Character-level text helpers: finding characters, splitting, and comparing
//! strings, with specifications over `Seq<char>` views.

use vstd::prelude::*;

verus! {

use vstd::string::StrSliceExecFns;

/// Index of the first occurrence of `c` in `s`, if any.
pub open spec fn first_occurrence(s: Seq<char>, c: char) -> Option<int>
    decreases s.len(),
{
    if s.len() == 0 {
        None
    } else if s.first() == c {
        Some(0int)
    } else {
        match first_occurrence(s.drop_first(), c) {
            None => None,
            Some(i) => Some(i + 1),
        }
    }
}

/// Index of the last occurrence of `c` in `s`, if any.
pub open spec fn last_occurrence(s: Seq<char>, c: char) -> Option<int>
    decreases s.len(),
{
    if s.len() == 0 {
        None
    } else if s.last() == c {
        Some(s.len() - 1)
    } else {
        last_occurrence(s.drop_last(), c)
    }
}

pub proof fn lemma_first_occurrence_none(s: Seq<char>, c: char)
    requires
        forall|j: int| 0 <= j < s.len() ==> s[j] != c,
    ensures
        first_occurrence(s, c) is None,
    decreases s.len(),
{
    if s.len() > 0 {
        lemma_first_occurrence_none(s.drop_first(), c);
    }
}

pub proof fn lemma_first_occurrence_at(s: Seq<char>, c: char, i: int)
    requires
        0 <= i < s.len(),
        s[i] == c,
        forall|j: int| 0 <= j < i ==> s[j] != c,
    ensures
        first_occurrence(s, c) == Some(i),
    decreases i,
{
    if i > 0 {
        lemma_first_occurrence_at(s.drop_first(), c, i - 1);
    }
}

pub proof fn lemma_last_occurrence_none(s: Seq<char>, c: char)
    requires
        forall|j: int| 0 <= j < s.len() ==> s[j] != c,
    ensures
        last_occurrence(s, c) is None,
    decreases s.len(),
{
    if s.len() > 0 {
        lemma_last_occurrence_none(s.drop_last(), c);
    }
}

pub proof fn lemma_last_occurrence_at(s: Seq<char>, c: char, i: int)
    requires
        0 <= i < s.len(),
        s[i] == c,
        forall|j: int| i < j < s.len() ==> s[j] != c,
    ensures
        last_occurrence(s, c) == Some(i),
    decreases s.len(),
{
    if i < s.len() - 1 {
        lemma_last_occurrence_at(s.drop_last(), c, i);
    }
}

/// Splits `s` at every occurrence of `c`; the separators themselves are dropped,
/// and the result always has one more segment than there are separators.
pub open spec fn split_char(s: Seq<char>, c: char) -> Seq<Seq<char>>
    decreases s.len(),
{
    match first_occurrence(s, c) {
        Some(i) => if 0 <= i < s.len() {
            seq![s.take(i)] + split_char(s.skip(i + 1), c)
        } else {
            // never reached: a first occurrence always lies inside the sequence
            seq![s]
        },
        None => seq![s],
    }
}

pub proof fn lemma_split_char_none(s: Seq<char>, c: char)
    requires
        forall|j: int| 0 <= j < s.len() ==> s[j] != c,
    ensures
        split_char(s, c) == seq![s],
{
    lemma_first_occurrence_none(s, c);
}

pub proof fn lemma_split_char_step(s: Seq<char>, c: char, i: int)
    requires
        0 <= i < s.len(),
        s[i] == c,
        forall|j: int| 0 <= j < i ==> s[j] != c,
    ensures
        split_char(s, c) == seq![s.take(i)] + split_char(s.skip(i + 1), c),
{
    lemma_first_occurrence_at(s, c, i);
}

pub proof fn lemma_split_char_len(s: Seq<char>, c: char)
    ensures
        split_char(s, c).len() >= 1,
    decreases s.len(),
{
    match first_occurrence(s, c) {
        Some(i) => if 0 <= i < s.len() {
            lemma_split_char_len(s.skip(i + 1), c);
        },
        None => {},
    }
}

/// True exactly when the two string slices hold the same characters.
pub fn str_eq(a: &str, b: &str) -> (r: bool)
    ensures
        r == (a@ == b@),
{
    let na = a.unicode_len();
    let nb = b.unicode_len();
    if na != nb {
        return false;
    }
    let mut i: usize = 0;
    while i < na
        invariant
            na == a@.len(),
            na == b@.len(),
            0 <= i <= na,
            forall|j: int| 0 <= j < i ==> a@[j] == b@[j],
        decreases na - i,
    {
        if a.get_char(i) != b.get_char(i) {
            return false;
        }
        i += 1;
    }
    proof {
        assert(a@ =~= b@);
    }
    true
}

/// First index `i` with `from <= i` and `s[i] == c`, if any.
pub fn find_char_from(s: &str, c: char, from: usize) -> (r: Option<usize>)
    requires
        from <= s@.len(),
    ensures
        match r {
            Some(i) => from <= i < s@.len() && s@[i as int] == c
                && (forall|j: int| from <= j < i ==> s@[j] != c)
                && first_occurrence(s@.skip(from as int), c) == Some(i - from),
            None => (forall|j: int| from <= j < s@.len() ==> s@[j] != c)
                && first_occurrence(s@.skip(from as int), c) is None,
        },
{
    let n = s.unicode_len();
    let mut i: usize = from;
    while i < n
        invariant
            from <= i <= n,
            n == s@.len(),
            forall|j: int| from <= j < i ==> s@[j] != c,
        decreases n - i,
    {
        if s.get_char(i) == c {
            proof {
                lemma_first_occurrence_at(s@.skip(from as int), c, i - from);
            }
            return Some(i);
        }
        i += 1;
    }
    proof {
        lemma_first_occurrence_none(s@.skip(from as int), c);
    }
    None
}

/// Last index `i` with `i < upto` and `s[i] == c`, if any.
pub fn rfind_char(s: &str, c: char, upto: usize) -> (r: Option<usize>)
    requires
        upto <= s@.len(),
    ensures
        match r {
            Some(i) => i < upto && s@[i as int] == c
                && (forall|j: int| i < j < upto ==> s@[j] != c)
                && last_occurrence(s@.take(upto as int), c) == Some(i as int),
            None => (forall|j: int| 0 <= j < upto ==> s@[j] != c)
                && last_occurrence(s@.take(upto as int), c) is None,
        },
{
    let mut i: usize = upto;
    while i > 0
        invariant
            0 <= i <= upto,
            upto <= s@.len(),
            forall|j: int| i <= j < upto ==> s@[j] != c,
        decreases i,
    {
        i -= 1;
        if s.get_char(i) == c {
            proof {
                lemma_last_occurrence_at(s@.take(upto as int), c, i as int);
            }
            return Some(i);
        }
    }
    proof {
        lemma_last_occurrence_none(s@.take(upto as int), c);
    }
    None
}

/// Splits `s` at every occurrence of `c`.
pub fn split_all(s: &str, c: char) -> (r: Vec<String>)
    ensures
        r.deep_view() == split_char(s@, c),
{
    let n = s.unicode_len();
    let mut r: Vec<String> = Vec::new();
    let mut pos: usize = 0;
    proof {
        assert(s@.skip(0) =~= s@);
        assert(r.deep_view() + split_char(s@, c) =~= split_char(s@, c));
    }
    loop
        invariant
            0 <= pos <= n,
            n == s@.len(),
            split_char(s@, c) == r.deep_view() + split_char(s@.skip(pos as int), c),
        decreases n - pos,
    {
        match find_char_from(s, c, pos) {
            Some(i) => {
                let piece = s.substring_char(pos, i);
                proof {
                    lemma_split_char_step(s@.skip(pos as int), c, i - pos);
                    assert(s@.skip(pos as int).take(i - pos) =~= piece@);
                    assert(s@.skip(pos as int).skip(i - pos + 1) =~= s@.skip(i + 1));
                    assert(r.deep_view().push(piece@) + split_char(s@.skip(i + 1), c)
                        =~= r.deep_view() + split_char(s@.skip(pos as int), c));
                }
                r.push(String::from_str(piece));
                pos = i + 1;
            },
            None => {
                let piece = s.substring_char(pos, n);
                proof {
                    lemma_split_char_none(s@.skip(pos as int), c);
                    assert(s@.skip(pos as int) =~= piece@);
                    assert(r.deep_view().push(piece@)
                        =~= r.deep_view() + split_char(s@.skip(pos as int), c));
                }
                r.push(String::from_str(piece));
                return r;
            },
        }
    }
}

} // verus!
