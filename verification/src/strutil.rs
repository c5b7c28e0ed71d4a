//! Verified helpers for the character-level string work the library needs:
//! splitting on a separator, searching for the last occurrence of a
//! character, trimming a repeated leading or trailing character, and a few
//! comparisons.
use vstd::prelude::*;

verus! {

/// The pieces of `s` between occurrences of `sep`: splitting the empty
/// string yields one empty piece, and every separator ends the piece before
/// it, so a string with `k` separators yields `k + 1` pieces.
pub open spec fn split_on(s: Seq<char>, sep: char) -> Seq<Seq<char>>
    decreases s.len(),
{
    if s.len() == 0 {
        seq![Seq::<char>::empty()]
    } else if s[0] == sep {
        seq![Seq::<char>::empty()].add(split_on(s.skip(1), sep))
    } else {
        let rest = split_on(s.skip(1), sep);
        seq![seq![s[0]].add(rest[0])].add(rest.skip(1))
    }
}

pub proof fn lemma_split_on_len(s: Seq<char>, sep: char)
    ensures
        split_on(s, sep).len() >= 1,
    decreases s.len(),
{
    if s.len() > 0 {
        lemma_split_on_len(s.skip(1), sep);
    }
}

/// A string without the separator splits into exactly itself.
pub proof fn lemma_split_no_sep(s: Seq<char>, sep: char)
    requires
        forall|j: int| 0 <= j < s.len() ==> s[j] != sep,
    ensures
        split_on(s, sep) == seq![s],
    decreases s.len(),
{
    if s.len() == 0 {
        assert(split_on(s, sep) =~~= seq![s]);
    } else {
        lemma_split_no_sep(s.skip(1), sep);
        lemma_split_on_len(s.skip(1), sep);
        assert(seq![s[0]].add(s.skip(1)) =~= s);
        assert(split_on(s, sep) =~~= seq![s]);
    }
}

/// Splitting at the first separator: the piece before it, then the split of
/// what follows it.
pub proof fn lemma_split_at_first(s: Seq<char>, sep: char, i: int)
    requires
        0 <= i < s.len(),
        s[i] == sep,
        forall|j: int| 0 <= j < i ==> s[j] != sep,
    ensures
        split_on(s, sep) == seq![s.take(i)].add(split_on(s.skip(i + 1), sep)),
    decreases i,
{
    if i == 0 {
        assert(s.take(0) =~= Seq::<char>::empty());
        assert(split_on(s, sep) =~~= seq![s.take(0)].add(split_on(s.skip(1), sep)));
    } else {
        let t = s.skip(1);
        lemma_split_at_first(t, sep, i - 1);
        lemma_split_on_len(t.skip(i), sep);
        let rest = split_on(t, sep);
        assert(rest[0] == t.take(i - 1));
        assert(seq![s[0]].add(t.take(i - 1)) =~= s.take(i));
        assert(t.skip(i) =~= s.skip(i + 1));
        assert(rest.skip(1) =~~= split_on(s.skip(i + 1), sep));
        assert(split_on(s, sep) =~~= seq![s.take(i)].add(split_on(s.skip(i + 1), sep)));
    }
}

/// The views of a vector of strings.
pub open spec fn views_of(v: Seq<String>) -> Seq<Seq<char>> {
    v.map_values(|t: String| t@)
}

/// Split `s` into the pieces between occurrences of `sep`.
pub fn split_str(s: &str, sep: char) -> (r: Vec<String>)
    ensures
        views_of(r@) == split_on(s@, sep),
    decreases s@.len(),
{
    let n = s.unicode_len();
    let mut i: usize = 0;
    while i < n && s.get_char(i) != sep
        invariant
            0 <= i <= n,
            forall|j: int| 0 <= j < i ==> s@[j] != sep,
        decreases n - i,
    {
        i = i + 1;
    }
    if i == n {
        proof {
            lemma_split_no_sep(s@, sep);
        }
        let mut one: Vec<String> = Vec::new();
        one.push(s.to_owned());
        assert(views_of(one@) =~~= split_on(s@, sep));
        one
    } else {
        let head = s.substring_char(0, i);
        let tail = s.substring_char(i + 1, n);
        proof {
            assert(tail@ =~= s@.skip(i + 1));
            assert(head@ =~= s@.take(i as int));
            lemma_split_at_first(s@, sep, i as int);
        }
        let mut rest = split_str(tail, sep);
        rest.insert(0, head.to_owned());
        assert(views_of(rest@) =~~= split_on(s@, sep));
        rest
    }
}

/// The `k`-th piece, or the empty string where there is none.
pub open spec fn field_or_empty(parts: Seq<Seq<char>>, k: int) -> Seq<char> {
    if 0 <= k < parts.len() {
        parts[k]
    } else {
        Seq::<char>::empty()
    }
}

/// The index of the last occurrence of `c` in `s`, or `-1` if there is none.
pub open spec fn last_sep(s: Seq<char>, c: char) -> int
    decreases s.len(),
{
    if s.len() == 0 {
        -1
    } else if s[s.len() - 1] == c {
        s.len() - 1
    } else {
        last_sep(s.drop_last(), c)
    }
}

pub proof fn lemma_last_sep_none(s: Seq<char>, c: char)
    requires
        forall|j: int| 0 <= j < s.len() ==> s[j] != c,
    ensures
        last_sep(s, c) == -1,
    decreases s.len(),
{
    if s.len() > 0 {
        lemma_last_sep_none(s.drop_last(), c);
    }
}

pub proof fn lemma_last_sep_at(s: Seq<char>, c: char, i: int)
    requires
        0 <= i < s.len(),
        s[i] == c,
        forall|j: int| i < j < s.len() ==> s[j] != c,
    ensures
        last_sep(s, c) == i,
    decreases s.len(),
{
    if i < s.len() - 1 {
        lemma_last_sep_at(s.drop_last(), c, i);
    }
}

/// The index of the last occurrence of `c` in `s`, if any.
pub fn rfind_char(s: &str, c: char) -> (r: Option<usize>)
    ensures
        match r {
            Some(i) => i < s@.len() && last_sep(s@, c) == i as int,
            None => last_sep(s@, c) == -1,
        },
{
    let n = s.unicode_len();
    let mut i: usize = n;
    while i > 0
        invariant
            0 <= i <= n,
            forall|j: int| i <= j < n ==> s@[j] != c,
        decreases i,
    {
        i = i - 1;
        if s.get_char(i) == c {
            proof {
                lemma_last_sep_at(s@, c, i as int);
            }
            return Some(i);
        }
    }
    proof {
        lemma_last_sep_none(s@, c);
    }
    None
}

/// `s` with every leading occurrence of `c` removed.
pub open spec fn drop_leading(s: Seq<char>, c: char) -> Seq<char>
    decreases s.len(),
{
    if s.len() > 0 && s[0] == c {
        drop_leading(s.skip(1), c)
    } else {
        s
    }
}

/// `s` with every trailing occurrence of `c` removed.
pub open spec fn drop_trailing(s: Seq<char>, c: char) -> Seq<char>
    decreases s.len(),
{
    if s.len() > 0 && s[s.len() - 1] == c {
        drop_trailing(s.drop_last(), c)
    } else {
        s
    }
}

/// Remove every leading occurrence of `c` from `s`.
pub fn trim_left_char<'a>(s: &'a str, c: char) -> (r: &'a str)
    ensures
        r@ == drop_leading(s@, c),
    decreases s@.len(),
{
    let n = s.unicode_len();
    if n > 0 && s.get_char(0) == c {
        let t = s.substring_char(1, n);
        assert(t@ =~= s@.skip(1));
        trim_left_char(t, c)
    } else {
        s
    }
}

/// Remove every trailing occurrence of `c` from `s`.
pub fn trim_right_char<'a>(s: &'a str, c: char) -> (r: &'a str)
    ensures
        r@ == drop_trailing(s@, c),
    decreases s@.len(),
{
    let n = s.unicode_len();
    if n > 0 && s.get_char(n - 1) == c {
        let t = s.substring_char(0, n - 1);
        assert(t@ =~= s@.drop_last());
        trim_right_char(t, c)
    } else {
        s
    }
}

/// Character-for-character equality of two string slices.
pub fn str_eq(a: &str, b: &str) -> (r: bool)
    ensures
        r == (a@ == b@),
{
    let n = a.unicode_len();
    let m = b.unicode_len();
    if n != m {
        return false;
    }
    let mut i: usize = 0;
    while i < n
        invariant
            0 <= i <= n,
            forall|j: int| 0 <= j < i ==> a@[j] == b@[j],
        decreases n - i,
    {
        if a.get_char(i) != b.get_char(i) {
            return false;
        }
        i = i + 1;
    }
    assert(a@ =~= b@);
    true
}

/// Does `s` end with `suffix`?
pub fn ends_with_str(s: &str, suffix: &str) -> (r: bool)
    ensures
        r == (s@.len() >= suffix@.len() && s@.skip(s@.len() - suffix@.len()) == suffix@),
{
    let n = s.unicode_len();
    let m = suffix.unicode_len();
    if n < m {
        return false;
    }
    let end = s.substring_char(n - m, n);
    assert(end@ =~= s@.skip(s@.len() - suffix@.len()));
    str_eq(end, suffix)
}

} // verus!
