//! The query mini-language: a free-text query with optional trailing literal
//! control markers. The markers are checked in a fixed priority order against
//! the original string: the combined marker first, then `" --debug"`, then
//! `" --bust-cache"`. The remainder is the cache key.

use vstd::prelude::*;
use vstd::string::StrSliceExecFns;
use crate::text::ends_with_spec;
use crate::text::str_ends_with;
use crate::text::str_slice_to_string;

verus! {

/// A query with its control flags extracted; `cache_key` is the query text
/// with the recognized trailing marker removed.
pub struct ParsedQuery {
    pub cache_key: String,
    pub debug: bool,
    pub bust_cache: bool,
}

pub open spec fn debug_marker() -> Seq<char> {
    " --debug"@
}

pub open spec fn bust_marker() -> Seq<char> {
    " --bust-cache"@
}

pub open spec fn both_marker() -> Seq<char> {
    " --debug --bust-cache"@
}

/// What `strip_flags` yields: the cache key, the debug flag, and the
/// bust-cache flag.
pub open spec fn strip_flags_spec(q: Seq<char>) -> (Seq<char>, bool, bool) {
    if ends_with_spec(q, both_marker()) {
        (q.take(q.len() - both_marker().len()), true, true)
    } else if ends_with_spec(q, debug_marker()) {
        (q.take(q.len() - debug_marker().len()), true, false)
    } else if ends_with_spec(q, bust_marker()) {
        (q.take(q.len() - bust_marker().len()), false, true)
    } else {
        (q, false, false)
    }
}

/// Detects and strips the trailing control markers of a raw query.
pub fn strip_flags(q: &str) -> (r: ParsedQuery)
    ensures
        r.cache_key@ == strip_flags_spec(q@).0,
        r.debug == strip_flags_spec(q@).1,
        r.bust_cache == strip_flags_spec(q@).2,
{
    let n = q.unicode_len();
    if str_ends_with(q, " --debug --bust-cache") {
        let m = " --debug --bust-cache".unicode_len();
        ParsedQuery { cache_key: str_slice_to_string(q, 0, n - m), debug: true, bust_cache: true }
    } else if str_ends_with(q, " --debug") {
        let m = " --debug".unicode_len();
        ParsedQuery { cache_key: str_slice_to_string(q, 0, n - m), debug: true, bust_cache: false }
    } else if str_ends_with(q, " --bust-cache") {
        let m = " --bust-cache".unicode_len();
        ParsedQuery { cache_key: str_slice_to_string(q, 0, n - m), debug: false, bust_cache: true }
    } else {
        ParsedQuery { cache_key: q.to_owned(), debug: false, bust_cache: false }
    }
}

/// Appending a marker makes the string end with it.
proof fn lemma_append_ends_with(q: Seq<char>, suf: Seq<char>)
    ensures
        ends_with_spec(q + suf, suf),
        (q + suf).take(q.len() as int) == q,
{
    assert((q + suf).skip(q.len() as int) =~= suf);
    assert((q + suf).take(q.len() as int) =~= q);
}

/// A string that ends with a marker ends with its last character.
proof fn lemma_ends_with_last(s: Seq<char>, suf: Seq<char>)
    requires
        ends_with_spec(s, suf),
        suf.len() > 0,
    ensures
        s[s.len() - 1] == suf[suf.len() - 1],
{
    assert(s.skip(s.len() - suf.len())[suf.len() - 1] == s[s.len() - 1]);
}

/// The combined marker is the debug marker followed by the bust-cache marker.
proof fn lemma_marker_split()
    ensures
        both_marker() == debug_marker() + bust_marker(),
        debug_marker().len() == 8,
        bust_marker().len() == 13,
        both_marker().len() == 21,
        debug_marker()[7] == 'g',
        bust_marker()[12] == 'e',
        both_marker()[20] == 'e',
{
    reveal_strlit(" --debug");
    reveal_strlit(" --bust-cache");
    reveal_strlit(" --debug --bust-cache");
    assert(both_marker() =~= debug_marker() + bust_marker());
}

/// Appending `" --debug"` to any query sets exactly the debug flag and strips
/// exactly the appended marker.
pub proof fn lemma_strip_flags_debug(q: Seq<char>)
    ensures
        strip_flags_spec(q + debug_marker()) == (q, true, false),
{
    lemma_marker_split();
    let s = q + debug_marker();
    lemma_append_ends_with(q, debug_marker());
    if ends_with_spec(s, both_marker()) {
        lemma_ends_with_last(s, both_marker());
        lemma_ends_with_last(s, debug_marker());
    }
}

/// Appending `" --bust-cache"` to a query that does not itself end with
/// `" --debug"` sets exactly the bust-cache flag and strips exactly the
/// appended marker. (A query that ends with `" --debug"` instead completes
/// the combined marker, which takes priority.)
pub proof fn lemma_strip_flags_bust(q: Seq<char>)
    requires
        !ends_with_spec(q, debug_marker()),
    ensures
        strip_flags_spec(q + bust_marker()) == (q, false, true),
{
    lemma_marker_split();
    let s = q + bust_marker();
    lemma_append_ends_with(q, bust_marker());
    if ends_with_spec(s, both_marker()) {
        assert(q.len() >= 8) by {
            assert(s.len() >= 21);
        }
        assert(q.skip(q.len() - 8) =~= debug_marker()) by {
            let tail = s.skip(s.len() - 21);
            assert(tail == both_marker());
            assert forall|k: int| 0 <= k < 8 implies q.skip(q.len() - 8)[k] == debug_marker()[k] by {
                assert(tail[k] == s[s.len() - 21 + k]);
                assert(s[q.len() - 8 + k] == q[q.len() - 8 + k]);
            }
        }
    }
    if ends_with_spec(s, debug_marker()) {
        lemma_ends_with_last(s, debug_marker());
        lemma_ends_with_last(s, bust_marker());
    }
}

/// Appending the combined marker to any query sets both flags and strips
/// exactly the appended marker.
pub proof fn lemma_strip_flags_both(q: Seq<char>)
    ensures
        strip_flags_spec(q + both_marker()) == (q, true, true),
{
    lemma_marker_split();
    lemma_append_ends_with(q, both_marker());
}

} // verus!
