//! Character-level string helpers: prefix/suffix tests, slicing, and
//! ASCII whitespace trimming, each proved against a sequence-level spec.

use vstd::prelude::*;
use vstd::string::StrSliceExecFns;

verus! {

/// `s` ends with `suf`.
pub open spec fn ends_with_spec(s: Seq<char>, suf: Seq<char>) -> bool {
    suf.len() <= s.len() && s.skip(s.len() - suf.len()) == suf
}

/// `s` starts with `pre`.
pub open spec fn starts_with_spec(s: Seq<char>, pre: Seq<char>) -> bool {
    pre.len() <= s.len() && s.take(pre.len() as int) == pre
}

pub fn str_ends_with(s: &str, suf: &str) -> (r: bool)
    ensures
        r == ends_with_spec(s@, suf@),
{
    let n = s.unicode_len();
    let m = suf.unicode_len();
    if m > n {
        return false;
    }
    let mut i: usize = 0;
    while i < m
        invariant
            i <= m <= n,
            n == s@.len(),
            m == suf@.len(),
            forall|k: int| 0 <= k < i ==> s@[n - m + k] == suf@[k],
        decreases m - i,
    {
        if s.get_char(n - m + i) != suf.get_char(i) {
            assert(s@[n - m + i] != suf@[i as int]);
            assert(!ends_with_spec(s@, suf@)) by {
                if s@.skip(n - m) == suf@ {
                    assert(s@.skip(n - m)[i as int] == s@[n - m + i]);
                }
            }
            return false;
        }
        i += 1;
    }
    assert(s@.skip(n - m) =~= suf@);
    true
}

pub fn str_starts_with(s: &str, pre: &str) -> (r: bool)
    ensures
        r == starts_with_spec(s@, pre@),
{
    let n = s.unicode_len();
    let m = pre.unicode_len();
    if m > n {
        return false;
    }
    let mut i: usize = 0;
    while i < m
        invariant
            i <= m <= n,
            n == s@.len(),
            m == pre@.len(),
            forall|k: int| 0 <= k < i ==> s@[k] == pre@[k],
        decreases m - i,
    {
        if s.get_char(i) != pre.get_char(i) {
            assert(!starts_with_spec(s@, pre@)) by {
                if s@.take(m as int) == pre@ {
                    assert(s@.take(m as int)[i as int] == s@[i as int]);
                }
            }
            return false;
        }
        i += 1;
    }
    assert(s@.take(m as int) =~= pre@);
    true
}

/// The characters of `s` from `from` (inclusive) to `to` (exclusive), as an
/// owned string.
pub fn str_slice_to_string(s: &str, from: usize, to: usize) -> (r: String)
    requires
        from <= to <= s@.len(),
    ensures
        r@ == s@.subrange(from as int, to as int),
{
    s.substring_char(from, to).to_owned()
}

/// Character-for-character equality of two string slices.
pub fn str_eq(a: &str, b: &str) -> (r: bool)
    ensures
        r == (a@ == b@),
{
    let n = a.unicode_len();
    let m = b.unicode_len();
    if n != m {
        return false;
    }
    let mut i: usize = 0;
    while i < n
        invariant
            i <= n,
            n == a@.len(),
            n == b@.len(),
            forall|k: int| 0 <= k < i ==> a@[k] == b@[k],
        decreases n - i,
    {
        if a.get_char(i) != b.get_char(i) {
            return false;
        }
        i += 1;
    }
    assert(a@ =~= b@);
    true
}

/// ASCII whitespace, as recognized by the trimming rule.
pub open spec fn is_space(c: char) -> bool {
    c == ' ' || c == '\n' || c == '\r' || c == '\t'
}

/// `s` with leading whitespace removed.
pub open spec fn trim_start_spec(s: Seq<char>) -> Seq<char>
    decreases s.len(),
{
    if s.len() > 0 && is_space(s[0]) {
        trim_start_spec(s.skip(1))
    } else {
        s
    }
}

/// `s` with trailing whitespace removed.
pub open spec fn trim_end_spec(s: Seq<char>) -> Seq<char>
    decreases s.len(),
{
    if s.len() > 0 && is_space(s[s.len() - 1]) {
        trim_end_spec(s.take(s.len() - 1))
    } else {
        s
    }
}

/// `s` with whitespace removed from both ends.
pub open spec fn trim_spec(s: Seq<char>) -> Seq<char> {
    trim_end_spec(trim_start_spec(s))
}

proof fn lemma_trim_start_stops(s: Seq<char>, i: int)
    requires
        0 <= i <= s.len(),
        forall|k: int| 0 <= k < i ==> is_space(s[k]),
        i == s.len() || !is_space(s[i]),
    ensures
        trim_start_spec(s) == s.skip(i),
    decreases s.len(),
{
    if i == 0 {
        assert(s.skip(0) =~= s);
    } else {
        assert(is_space(s[0]));
        assert(forall|k: int| 0 <= k < i - 1 ==> is_space(s.skip(1)[k]));
        lemma_trim_start_stops(s.skip(1), i - 1);
        assert(s.skip(1).skip(i - 1) =~= s.skip(i));
    }
}

proof fn lemma_trim_end_stops(s: Seq<char>, j: int)
    requires
        0 <= j <= s.len(),
        forall|k: int| j <= k < s.len() ==> is_space(s[k]),
        j == 0 || !is_space(s[j - 1]),
    ensures
        trim_end_spec(s) == s.take(j),
    decreases s.len(),
{
    if j == s.len() {
        assert(s.take(j) =~= s);
        if s.len() > 0 {
            assert(!is_space(s[s.len() - 1]));
        }
    } else {
        assert(is_space(s[s.len() - 1]));
        let t = s.take(s.len() - 1);
        assert(forall|k: int| j <= k < t.len() ==> t[k] == s[k]);
        lemma_trim_end_stops(t, j);
        assert(t.take(j) =~= s.take(j));
    }
}

proof fn lemma_trim_start_len(s: Seq<char>)
    ensures
        trim_start_spec(s).len() <= s.len(),
        trim_start_spec(s).len() == s.len() ==> trim_start_spec(s) == s,
    decreases s.len(),
{
    if s.len() > 0 && is_space(s[0]) {
        lemma_trim_start_len(s.skip(1));
    }
}

proof fn lemma_trim_end_len(s: Seq<char>)
    ensures
        trim_end_spec(s).len() <= s.len(),
        trim_end_spec(s).len() == s.len() ==> trim_end_spec(s) == s,
    decreases s.len(),
{
    if s.len() > 0 && is_space(s[s.len() - 1]) {
        lemma_trim_end_len(s.take(s.len() - 1));
    }
}

/// A string equal to its own trim neither starts nor ends with whitespace.
proof fn lemma_trim_fixed(t: Seq<char>)
    requires
        trim_spec(t) == t,
    ensures
        trim_start_spec(t) == t,
        trim_end_spec(t) == t,
        t.len() > 0 ==> !is_space(t[0]),
        t.len() > 0 ==> !is_space(t[t.len() - 1]),
{
    lemma_trim_start_len(t);
    lemma_trim_end_len(trim_start_spec(t));
    assert(trim_start_spec(t).len() == t.len());
    if t.len() > 0 && is_space(t[0]) {
        lemma_trim_start_len(t.skip(1));
        assert(trim_start_spec(t) == trim_start_spec(t.skip(1)));
    }
    if t.len() > 0 && is_space(t[t.len() - 1]) {
        lemma_trim_end_len(t.take(t.len() - 1));
        assert(trim_end_spec(t) == trim_end_spec(t.take(t.len() - 1)));
    }
}

proof fn lemma_trim_start_all_spaces(s: Seq<char>)
    requires
        forall|k: int| 0 <= k < s.len() ==> is_space(s[k]),
    ensures
        trim_start_spec(s) == Seq::<char>::empty(),
    decreases s.len(),
{
    if s.len() > 0 {
        lemma_trim_start_all_spaces(s.skip(1));
    } else {
        assert(s =~= Seq::<char>::empty());
    }
}

proof fn lemma_trim_start_prepend(a: Seq<char>, u: Seq<char>)
    requires
        forall|k: int| 0 <= k < a.len() ==> is_space(a[k]),
    ensures
        trim_start_spec(a + u) == trim_start_spec(u),
    decreases a.len(),
{
    if a.len() == 0 {
        assert(a + u =~= u);
    } else {
        assert((a + u)[0] == a[0]);
        assert((a + u).skip(1) =~= a.skip(1) + u);
        assert(forall|k: int| 0 <= k < a.skip(1).len() ==> is_space(a.skip(1)[k]));
        lemma_trim_start_prepend(a.skip(1), u);
    }
}

proof fn lemma_trim_end_append(u: Seq<char>, b: Seq<char>)
    requires
        forall|k: int| 0 <= k < b.len() ==> is_space(b[k]),
    ensures
        trim_end_spec(u + b) == trim_end_spec(u),
    decreases b.len(),
{
    if b.len() == 0 {
        assert(u + b =~= u);
    } else {
        let t = u + b;
        assert(t[t.len() - 1] == b[b.len() - 1]);
        assert(t.take(t.len() - 1) =~= u + b.take(b.len() - 1));
        assert(forall|k: int|
            0 <= k < b.take(b.len() - 1).len() ==> is_space(#[trigger] b.take(b.len() - 1)[k]));
        lemma_trim_end_append(u, b.take(b.len() - 1));
    }
}

/// Trimming strips any whitespace padding around an already trimmed text.
pub proof fn lemma_trim_surround(a: Seq<char>, t: Seq<char>, b: Seq<char>)
    requires
        forall|k: int| 0 <= k < a.len() ==> is_space(a[k]),
        forall|k: int| 0 <= k < b.len() ==> is_space(b[k]),
        trim_spec(t) == t,
    ensures
        trim_spec(a + t + b) == t,
{
    lemma_trim_fixed(t);
    assert(a + t + b =~= a + (t + b));
    lemma_trim_start_prepend(a, t + b);
    if t.len() == 0 {
        assert(t + b =~= b);
        lemma_trim_start_all_spaces(b);
        assert(t =~= Seq::<char>::empty());
    } else {
        assert((t + b)[0] == t[0]);
        assert(trim_start_spec(t + b) == t + b);
        lemma_trim_end_append(t, b);
    }
}

/// Whether the character at index `i` of `s` is ASCII whitespace.
fn space_at(s: &str, i: usize) -> (r: bool)
    requires
        i < s@.len(),
    ensures
        r == is_space(s@[i as int]),
{
    let c = s.get_char(i);
    c == ' ' || c == '\n' || c == '\r' || c == '\t'
}

/// Removes ASCII whitespace from both ends of `s`.
pub fn str_trim(s: &str) -> (r: String)
    ensures
        r@ == trim_spec(s@),
{
    let n = s.unicode_len();
    let mut a: usize = 0;
    while a < n && space_at(s, a)
        invariant
            a <= n,
            n == s@.len(),
            forall|k: int| 0 <= k < a ==> is_space(s@[k]),
        decreases n - a,
    {
        a += 1;
    }
    proof {
        lemma_trim_start_stops(s@, a as int);
    }
    if a == n {
        proof {
            assert(s@.skip(n as int) =~= Seq::<char>::empty());
        }
        return String::new();
    }
    let mut b: usize = n;
    while b > a && space_at(s, b - 1)
        invariant
            a <= b <= n,
            n == s@.len(),
            forall|k: int| b <= k < n ==> is_space(s@[k]),
        decreases b,
    {
        b -= 1;
    }
    assert(b > a);
    assert(!is_space(s@[b - 1]));
    proof {
        let t = s@.skip(a as int);
        assert(forall|k: int| b - a <= k < t.len() ==> t[k] == s@[k + a]);
        lemma_trim_end_stops(t, b - a);
        assert(t.take(b - a) =~= s@.subrange(a as int, b as int));
    }
    str_slice_to_string(s, a, b)
}

} // verus!
