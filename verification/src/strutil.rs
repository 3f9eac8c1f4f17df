//! Character-level string helpers: prefix tests, first/last occurrence
//! of a character, equality, and character counting, each with an exact
//! specification over the string's view.

use vstd::prelude::*;

verus! {

/// Whether `c` has a Unicode letter or number category.
pub uninterp spec fn char_alphanumeric(c: char) -> bool;

/// Relies on char::is_alphanumeric: true exactly for Unicode letters and
/// numbers, a fixed classification of the character alone.
pub assume_specification[ char::is_alphanumeric ](c: char) -> (r: bool)
    ensures
        r == char_alphanumeric(c),
;

/// How many times `c` occurs in `s`.
pub open spec fn count_char(s: Seq<char>, c: char) -> nat
    decreases s.len(),
{
    if s.len() == 0 {
        0
    } else {
        count_char(s.drop_last(), c) + if s.last() == c {
            1nat
        } else {
            0nat
        }
    }
}

/// Counting over a prefix grows by one exactly at an occurrence.
proof fn lemma_count_char_take_step(s: Seq<char>, c: char, i: int)
    requires
        0 <= i < s.len(),
    ensures
        count_char(s.take(i + 1), c) == count_char(s.take(i), c) + if s[i] == c {
            1nat
        } else {
            0nat
        },
{
    assert(s.take(i + 1).drop_last() =~= s.take(i));
    assert(s.take(i + 1).last() == s[i]);
}

/// A sequence with no occurrence counts zero; one with an occurrence counts at least one.
pub proof fn lemma_count_char_zero(s: Seq<char>, c: char)
    ensures
        (count_char(s, c) == 0) <==> (forall|i: int| 0 <= i < s.len() ==> s[i] != c),
    decreases s.len(),
{
    if s.len() > 0 {
        lemma_count_char_zero(s.drop_last(), c);
        assert(forall|i: int| 0 <= i < s.len() - 1 ==> s.drop_last()[i] == s[i]);
    }
}

/// The index of the first occurrence of `c` in `s`, meaningful when `s`
/// contains one.
pub open spec fn first_index_of(s: Seq<char>, c: char) -> int {
    choose|k: int| 0 <= k < s.len() && #[trigger] s[k] == c && forall|j: int| 0 <= j < k ==> s[j] != c
}

/// An index that carries `c` with none before it is the first index of `c`.
pub proof fn lemma_first_index_of(s: Seq<char>, c: char, k: int)
    requires
        0 <= k < s.len(),
        s[k] == c,
        forall|j: int| 0 <= j < k ==> s[j] != c,
    ensures
        first_index_of(s, c) == k,
{
    assert(exists|k2: int|
        0 <= k2 < s.len() && #[trigger] s[k2] == c && forall|j: int| 0 <= j < k2 ==> s[j] != c) by {
        assert(s[k] == c && forall|j: int| 0 <= j < k ==> s[j] != c);
    }
    let k2 = first_index_of(s, c);
    if k2 < k {
        assert(s[k2] == c);
        assert(false);
    }
    if k2 > k {
        assert(false);
    }
}

/// The index of the last occurrence of `c` in `s`, meaningful when `s`
/// contains one.
pub open spec fn last_index_of(s: Seq<char>, c: char) -> int {
    choose|k: int|
        0 <= k < s.len() && #[trigger] s[k] == c && forall|j: int| k < j < s.len() ==> s[j] != c
}

/// An index that carries `c` with none after it is the last index of `c`.
pub proof fn lemma_last_index_of(s: Seq<char>, c: char, k: int)
    requires
        0 <= k < s.len(),
        s[k] == c,
        forall|j: int| k < j < s.len() ==> s[j] != c,
    ensures
        last_index_of(s, c) == k,
{
    assert(exists|k2: int|
        0 <= k2 < s.len() && #[trigger] s[k2] == c && forall|j: int|
            k2 < j < s.len() ==> s[j] != c) by {
        assert(s[k] == c && forall|j: int| k < j < s.len() ==> s[j] != c);
    }
    let k2 = last_index_of(s, c);
    if k2 < k {
        assert(s[k] == c);
        assert(false);
    }
    if k2 > k {
        assert(s[k2] == c);
        assert(false);
    }
}

/// Whether `p` occurs in `s` as a contiguous run.
pub open spec fn contains_seq(s: Seq<char>, p: Seq<char>) -> bool {
    exists|i: int| 0 <= i <= s.len() - p.len() && #[trigger] s.subrange(i, i + p.len()) == p
}

/// Substring test over characters.
pub fn str_contains_str(s: &str, p: &str) -> (r: bool)
    ensures
        r == contains_seq(s@, p@),
{
    let sn: usize = s.unicode_len();
    let pn: usize = p.unicode_len();
    if pn > sn {
        return false;
    }
    if pn == 0 {
        assert(contains_seq(s@, p@)) by {
            assert(s@.subrange(0, 0 + p@.len() as int) =~= p@);
        }
        return true;
    }
    let mut i: usize = 0;
    while i <= sn - pn
        invariant
            1 <= pn <= sn,
            sn == s@.len(),
            pn == p@.len(),
            i <= sn - pn + 1,
            forall|a: int| 0 <= a < i ==> #[trigger] s@.subrange(a, a + pn as int) != p@,
        decreases sn - pn + 1 - i,
    {
        let window = s.substring_char(i, i + pn);
        if str_eq(window, p) {
            return true;
        }
        i += 1;
    }
    false
}

/// Whether `p` is a suffix of `s`.
pub fn str_ends_with(s: &str, p: &str) -> (r: bool)
    ensures
        r == p@.is_suffix_of(s@),
{
    let sn: usize = s.unicode_len();
    let pn: usize = p.unicode_len();
    if pn > sn {
        assert(!p@.is_suffix_of(s@));
        return false;
    }
    let mut j: usize = 0;
    while j < pn
        invariant
            j <= pn <= sn,
            sn == s@.len(),
            pn == p@.len(),
            forall|b: int| 0 <= b < j ==> s@[sn - pn + b] == p@[b],
        decreases pn - j,
    {
        if s.get_char(sn - pn + j) != p.get_char(j) {
            assert(s@.subrange(sn - pn, sn as int)[j as int] != p@[j as int]);
            assert(!p@.is_suffix_of(s@));
            return false;
        }
        j += 1;
    }
    assert(p@ =~= s@.subrange(sn - pn, sn as int));
    true
}

/// Whether `p` is a prefix of `s`.
pub open spec fn starts_with(s: Seq<char>, p: Seq<char>) -> bool {
    p.is_prefix_of(s)
}

/// Prefix test over characters.
pub fn str_starts_with(s: &str, p: &str) -> (r: bool)
    ensures
        r == starts_with(s@, p@),
{
    let sn: usize = s.unicode_len();
    let pn: usize = p.unicode_len();
    if sn < pn {
        assert(!p@.is_prefix_of(s@));
        return false;
    }
    let mut i: usize = 0;
    while i < pn
        invariant
            i <= pn <= sn,
            sn == s@.len(),
            pn == p@.len(),
            forall|j: int| 0 <= j < i ==> s@[j] == p@[j],
        decreases pn - i,
    {
        if s.get_char(i) != p.get_char(i) {
            assert(!p@.is_prefix_of(s@));
            return false;
        }
        i += 1;
    }
    assert(p@ =~= s@.subrange(0, pn as int));
    true
}

/// Character-for-character equality of two string slices.
pub fn str_eq(a: &str, b: &str) -> (r: bool)
    ensures
        r == (a@ == b@),
{
    let an: usize = a.unicode_len();
    let bn: usize = b.unicode_len();
    if an != bn {
        return false;
    }
    let mut i: usize = 0;
    while i < an
        invariant
            i <= an,
            an == a@.len(),
            an == b@.len(),
            forall|j: int| 0 <= j < i ==> a@[j] == b@[j],
        decreases an - i,
    {
        if a.get_char(i) != b.get_char(i) {
            return false;
        }
        i += 1;
    }
    assert(a@ =~= b@);
    true
}

/// Whether `s` contains `c`.
pub fn str_contains_char(s: &str, c: char) -> (r: bool)
    ensures
        r == s@.contains(c),
{
    match find_char(s, c) {
        Some(_) => true,
        None => false,
    }
}

/// The first occurrence of `c` in `s`, if any.
pub fn find_char(s: &str, c: char) -> (r: Option<usize>)
    ensures
        match r {
            Some(i) => i < s@.len() && s@[i as int] == c && forall|j: int|
                0 <= j < i ==> s@[j] != c,
            None => !s@.contains(c),
        },
{
    let n: usize = s.unicode_len();
    let mut i: usize = 0;
    while i < n
        invariant
            i <= n,
            n == s@.len(),
            forall|j: int| 0 <= j < i ==> s@[j] != c,
        decreases n - i,
    {
        if s.get_char(i) == c {
            return Some(i);
        }
        i += 1;
    }
    None
}

/// The last occurrence of `c` in `s`, if any.
pub fn rfind_char(s: &str, c: char) -> (r: Option<usize>)
    ensures
        match r {
            Some(i) => i < s@.len() && s@[i as int] == c && forall|j: int|
                i < j < s@.len() ==> s@[j] != c,
            None => !s@.contains(c),
        },
{
    let n: usize = s.unicode_len();
    let mut i: usize = n;
    while i > 0
        invariant
            i <= n,
            n == s@.len(),
            forall|j: int| i <= j < n ==> s@[j] != c,
        decreases i,
    {
        i -= 1;
        if s.get_char(i) == c {
            return Some(i);
        }
    }
    None
}

/// Counts the occurrences of `c` in `s`.
pub fn str_count_char(s: &str, c: char) -> (r: usize)
    ensures
        r == count_char(s@, c),
{
    let n: usize = s.unicode_len();
    let mut cnt: usize = 0;
    let mut i: usize = 0;
    assert(s@.take(0) =~= Seq::<char>::empty());
    while i < n
        invariant
            i <= n,
            n == s@.len(),
            cnt == count_char(s@.take(i as int), c),
            cnt <= i,
        decreases n - i,
    {
        proof {
            lemma_count_char_take_step(s@, c, i as int);
        }
        if s.get_char(i) == c {
            cnt += 1;
        }
        i += 1;
    }
    assert(s@.take(n as int) =~= s@);
    cnt
}

/// A character-preserving copy of a vector of strings.
pub fn clone_string_vec(v: &Vec<String>) -> (r: Vec<String>)
    ensures
        r.deep_view() == v.deep_view(),
{
    let mut out: Vec<String> = Vec::new();
    let n: usize = v.len();
    let mut i: usize = 0;
    while i < n
        invariant
            i <= n,
            n == v@.len(),
            out.deep_view() =~= v.deep_view().take(i as int),
        decreases n - i,
    {
        let ghost prev = out.deep_view();
        let c = v[i].clone();
        assert(c == v@[i as int]);
        out.push(c);
        proof {
            assert(out.deep_view() =~= prev.push(v@[i as int].deep_view()));
            assert(out.deep_view() =~= v.deep_view().take(i + 1));
        }
        i += 1;
    }
    proof {
        assert(v.deep_view().take(n as int) =~= v.deep_view());
    }
    out
}

/// Appends `tail` to an owned string.
pub fn push_str(s: &mut String, tail: &str)
    ensures
        final(s)@ == old(s)@ + tail@,
{
    s.append(tail);
}

/// The characters of `s` from `from` (inclusive) to `to` (exclusive).
pub fn substr(s: &str, from: usize, to: usize) -> (r: String)
    requires
        from <= to <= s@.len(),
    ensures
        r@ == s@.subrange(from as int, to as int),
{
    s.substring_char(from, to).to_owned()
}

} // verus!
