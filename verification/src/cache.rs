//! The response cache: a map from cache key to a previously generated
//! (code, schema) pair. Entries persist for the lifetime of the store and
//! are only ever replaced, never removed. The store is modelled as an
//! association sequence with first-match lookup.

use vstd::prelude::*;
use crate::schema::ColumnSchema;
use crate::schema::ColumnModel;
use crate::schema::schema_model;
use crate::schema::clone_schema;
use crate::text::str_eq;

verus! {

/// A cached generation result: the generated code, the declared schema, and
/// the time the pair was generated (as rendered text; it is kept for
/// diagnostics only and never compared).
pub struct CachedEntry {
    pub code: String,
    pub schema: Vec<ColumnSchema>,
    pub generated_at: String,
}

/// Mathematical model of a `CachedEntry`.
pub struct EntryModel {
    pub code: Seq<char>,
    pub schema: Seq<ColumnModel>,
    pub generated_at: Seq<char>,
}

impl View for CachedEntry {
    type V = EntryModel;

    open spec fn view(&self) -> EntryModel {
        EntryModel {
            code: self.code@,
            schema: schema_model(self.schema@),
            generated_at: self.generated_at@,
        }
    }
}

impl Clone for CachedEntry {
    fn clone(&self) -> (r: Self)
        ensures
            r@ == self@,
    {
        CachedEntry {
            code: self.code.clone(),
            schema: clone_schema(&self.schema),
            generated_at: self.generated_at.clone(),
        }
    }
}

/// First-match lookup in an association sequence.
pub open spec fn lookup_spec(s: Seq<(Seq<char>, EntryModel)>, k: Seq<char>) -> Option<EntryModel>
    decreases s.len(),
{
    if s.len() == 0 {
        None
    } else if s[0].0 == k {
        Some(s[0].1)
    } else {
        lookup_spec(s.skip(1), k)
    }
}

/// The process-wide store of generation results, keyed by cache key.
/// Callers that share one store across threads guard it with a lock; the
/// store itself is a plain value.
pub struct ResponseCache {
    entries: Vec<(String, CachedEntry)>,
}

impl View for ResponseCache {
    type V = Seq<(Seq<char>, EntryModel)>;

    closed spec fn view(&self) -> Seq<(Seq<char>, EntryModel)> {
        self.entries@.map_values(|p: (String, CachedEntry)| (p.0@, p.1@))
    }
}

proof fn lemma_lookup_found(s: Seq<(Seq<char>, EntryModel)>, k: Seq<char>, i: int)
    requires
        0 <= i < s.len(),
        s[i].0 == k,
        forall|j: int| 0 <= j < i ==> s[j].0 != k,
    ensures
        lookup_spec(s, k) == Some(s[i].1),
    decreases i,
{
    if i > 0 {
        lemma_lookup_found(s.skip(1), k, i - 1);
    }
}

proof fn lemma_lookup_absent(s: Seq<(Seq<char>, EntryModel)>, k: Seq<char>)
    requires
        forall|j: int| 0 <= j < s.len() ==> s[j].0 != k,
    ensures
        lookup_spec(s, k) is None,
    decreases s.len(),
{
    if s.len() > 0 {
        lemma_lookup_absent(s.skip(1), k);
    }
}

proof fn lemma_lookup_update(
    s: Seq<(Seq<char>, EntryModel)>,
    i: int,
    p: (Seq<char>, EntryModel),
    k: Seq<char>,
)
    requires
        0 <= i < s.len(),
        s[i].0 == p.0,
        forall|j: int| 0 <= j < i ==> s[j].0 != p.0,
    ensures
        k == p.0 ==> lookup_spec(s.update(i, p), k) == Some(p.1),
        k != p.0 ==> lookup_spec(s.update(i, p), k) == lookup_spec(s, k),
    decreases i,
{
    let t = s.update(i, p);
    if i == 0 {
        assert(t.skip(1) =~= s.skip(1));
    } else {
        assert(t[0] == s[0]);
        assert(t.skip(1) =~= s.skip(1).update(i - 1, p));
        lemma_lookup_update(s.skip(1), i - 1, p, k);
    }
}

proof fn lemma_lookup_push(
    s: Seq<(Seq<char>, EntryModel)>,
    p: (Seq<char>, EntryModel),
    k: Seq<char>,
)
    requires
        forall|j: int| 0 <= j < s.len() ==> s[j].0 != p.0,
    ensures
        k == p.0 ==> lookup_spec(s.push(p), k) == Some(p.1),
        k != p.0 ==> lookup_spec(s.push(p), k) == lookup_spec(s, k),
    decreases s.len(),
{
    let t = s.push(p);
    if s.len() == 0 {
        assert(t[0] == p);
        assert(t.skip(1) =~= Seq::<(Seq<char>, EntryModel)>::empty());
        if k != p.0 {
            assert(lookup_spec(t, k) == lookup_spec(t.skip(1), k));
            assert(lookup_spec(t.skip(1), k) is None);
        }
    } else {
        assert(t[0] == s[0]);
        assert(t.skip(1) =~= s.skip(1).push(p));
        assert(forall|j: int| 0 <= j < s.skip(1).len() ==> s.skip(1)[j] == s[j + 1]);
        lemma_lookup_push(s.skip(1), p, k);
    }
}

impl ResponseCache {
    /// An empty store.
    pub fn new() -> (r: Self)
        ensures
            r@ == Seq::<(Seq<char>, EntryModel)>::empty(),
    {
        let r = ResponseCache { entries: Vec::new() };
        proof {
            assert(r@ =~= Seq::<(Seq<char>, EntryModel)>::empty());
        }
        r
    }

    /// The entry stored under `k`, if any.
    pub open spec fn cached(&self, k: Seq<char>) -> Option<EntryModel> {
        lookup_spec(self@, k)
    }

    /// Looks up the entry stored under `k`.
    pub fn get(&self, k: &str) -> (r: Option<&CachedEntry>)
        ensures
            match r {
                Some(e) => self.cached(k@) == Some(e@),
                None => self.cached(k@) is None,
            },
    {
        let n = self.entries.len();
        let mut i: usize = 0;
        while i < n
            invariant
                i <= n,
                n == self.entries.len(),
                forall|j: int| 0 <= j < i ==> self@[j].0 != k@,
            decreases n - i,
        {
            if str_eq(self.entries[i].0.as_str(), k) {
                proof {
                    lemma_lookup_found(self@, k@, i as int);
                }
                return Some(&self.entries[i].1);
            }
            i += 1;
        }
        proof {
            lemma_lookup_absent(self@, k@);
        }
        None
    }

    /// Stores `e` under `k`, replacing any previous entry for that key and
    /// leaving every other key's entry unchanged.
    pub fn put(&mut self, k: &str, e: CachedEntry)
        ensures
            final(self).cached(k@) == Some(e@),
            forall|k2: Seq<char>|
                k2 != k@ ==> #[trigger] lookup_spec(final(self)@, k2) == lookup_spec(
                    old(self)@,
                    k2,
                ),
    {
        let ghost s0 = self@;
        let n = self.entries.len();
        let mut i: usize = 0;
        while i < n
            invariant
                i <= n,
                n == self.entries.len(),
                self@ == s0,
                old(self)@ == s0,
                forall|j: int| 0 <= j < i ==> self@[j].0 != k@,
            decreases n - i,
        {
            if str_eq(self.entries[i].0.as_str(), k) {
                let ghost p = (k@, e@);
                self.entries.remove(i);
                self.entries.insert(i, (k.to_owned(), e));
                proof {
                    assert(self@ =~= s0.update(i as int, p));
                    lemma_lookup_update(s0, i as int, p, k@);
                    assert forall|k2: Seq<char>| k2 != k@ implies #[trigger] lookup_spec(
                        self@,
                        k2,
                    ) == lookup_spec(s0, k2) by {
                        lemma_lookup_update(s0, i as int, p, k2);
                    }
                }
                return ;
            }
            i += 1;
        }
        let ghost p = (k@, e@);
        self.entries.push((k.to_owned(), e));
        proof {
            assert(self@ =~= s0.push(p));
            lemma_lookup_push(s0, p, k@);
            assert forall|k2: Seq<char>| k2 != k@ implies #[trigger] lookup_spec(self@, k2)
                == lookup_spec(s0, k2) by {
                lemma_lookup_push(s0, p, k2);
            }
        }
    }
}

} // verus!
