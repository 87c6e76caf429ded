//! The mapping store: a table from minted token to real upstream path.
//!
//! The store is the only shared mutable state of the pipeline. It is kept
//! behind a single mutual-exclusion domain by the embedding program; this
//! module provides the sequential table that runs inside each critical
//! section, so every interleaving of serialized operations is covered by
//! the contracts here. A lookup never fails — a miss is an absent result —
//! and an insert overwrites any entry already stored under the token
//! (last write wins). Entries live for the lifetime of the process.

use vstd::prelude::*;

verus! {

/// The abstract contents of a sequence of (token, real path) entries:
/// later entries win.
pub open spec fn map_of(entries: Seq<(String, String)>) -> Map<Seq<char>, Seq<char>>
    decreases entries.len(),
{
    if entries.len() == 0 {
        Map::empty()
    } else {
        map_of(entries.drop_last()).insert(entries.last().0@, entries.last().1@)
    }
}

/// Each token appears at most once among the entries.
pub open spec fn tokens_unique(entries: Seq<(String, String)>) -> bool {
    forall|i: int, j: int|
        0 <= i < j < entries.len() ==> entries[i].0@ != entries[j].0@
}

proof fn lemma_map_of_dom(entries: Seq<(String, String)>, k: Seq<char>)
    ensures
        map_of(entries).contains_key(k) <==> exists|i: int|
            0 <= i < entries.len() && entries[i].0@ == k,
    decreases entries.len(),
{
    if entries.len() > 0 {
        lemma_map_of_dom(entries.drop_last(), k);
        let last = entries.len() - 1;
        if entries[last].0@ == k {
            assert(entries.last().0@ == k);
        } else if map_of(entries).contains_key(k) {
            let i = choose|i: int| 0 <= i < entries.drop_last().len() && entries.drop_last()[i].0@ == k;
            assert(entries[i].0@ == k);
        } else {
            assert(forall|i: int| 0 <= i < entries.drop_last().len() ==> entries.drop_last()[i] == entries[i]);
        }
    }
}

proof fn lemma_map_of_at(entries: Seq<(String, String)>, i: int)
    requires
        tokens_unique(entries),
        0 <= i < entries.len(),
    ensures
        map_of(entries).contains_key(entries[i].0@),
        map_of(entries)[entries[i].0@] == entries[i].1@,
    decreases entries.len(),
{
    if i == entries.len() - 1 {
        assert(entries.last() == entries[i]);
    } else {
        assert(forall|a: int| 0 <= a < entries.drop_last().len() ==> entries.drop_last()[a] == entries[a]);
        lemma_map_of_at(entries.drop_last(), i);
        assert(entries[i].0@ != entries.last().0@);
    }
}

proof fn lemma_map_of_push(entries: Seq<(String, String)>, token: String, real_path: String)
    ensures
        map_of(entries.push((token, real_path))) == map_of(entries).insert(token@, real_path@),
{
    assert(entries.push((token, real_path)).drop_last() =~= entries);
    assert(entries.push((token, real_path)).last() == (token, real_path));
}

proof fn lemma_map_of_remove(entries: Seq<(String, String)>, i: int)
    requires
        tokens_unique(entries),
        0 <= i < entries.len(),
    ensures
        map_of(entries.remove(i)) == map_of(entries).remove(entries[i].0@),
        tokens_unique(entries.remove(i)),
        forall|j: int| 0 <= j < entries.remove(i).len() ==> entries.remove(i)[j].0@ != entries[i].0@,
    decreases entries.len(),
{
    let k = entries[i].0@;
    let shorter = entries.remove(i);
    assert(forall|j: int| 0 <= j < shorter.len() ==> shorter[j] == (if j < i { entries[j] } else { entries[j + 1] }));
    if i == entries.len() - 1 {
        assert(shorter =~= entries.drop_last());
        lemma_map_of_dom(shorter, k);
        assert(!map_of(shorter).contains_key(k));
        assert(map_of(entries) == map_of(shorter).insert(k, entries[i].1@));
        assert(map_of(entries).remove(k) =~= map_of(shorter));
    } else {
        let last = entries.len() - 1;
        let inner = entries.drop_last();
        assert(forall|a: int| 0 <= a < inner.len() ==> inner[a] == entries[a]);
        lemma_map_of_remove(inner, i);
        assert(shorter.last() == entries.last());
        assert(shorter.drop_last() =~= inner.remove(i));
        assert(map_of(shorter) == map_of(inner.remove(i)).insert(entries[last].0@, entries[last].1@));
        assert(map_of(shorter) == map_of(inner).remove(k).insert(entries[last].0@, entries[last].1@));
        assert(entries[last].0@ != k);
        assert(map_of(inner).remove(k).insert(entries[last].0@, entries[last].1@) =~= map_of(
            inner,
        ).insert(entries[last].0@, entries[last].1@).remove(k));
        assert(map_of(entries) == map_of(inner).insert(entries[last].0@, entries[last].1@));
    }
}

/// The mapping store. At most one real path is stored per token at any
/// instant; its view is the abstract map from token to real path.
pub struct MappingStore {
    entries: Vec<(String, String)>,
}

impl View for MappingStore {
    type V = Map<Seq<char>, Seq<char>>;

    closed spec fn view(&self) -> Map<Seq<char>, Seq<char>> {
        map_of(self.entries@)
    }
}

impl MappingStore {
    /// The store's internal invariant: one entry per token.
    pub closed spec fn wf(&self) -> bool {
        tokens_unique(self.entries@)
    }

    /// An empty store: a restart clears all mappings.
    pub fn new() -> (store: Self)
        ensures
            store.wf(),
            store@ == Map::<Seq<char>, Seq<char>>::empty(),
    {
        MappingStore { entries: Vec::new() }
    }

    /// Look up the real path stored for `token`. A miss is an absent
    /// result, not a failure, and a lookup never changes the store: it
    /// only borrows it immutably.
    pub fn get(&self, token: &String) -> (r: Option<String>)
        requires
            self.wf(),
        ensures
            (match r {
                Some(real_path) => self@.contains_key(token@) && real_path@ == self@[token@],
                None => !self@.contains_key(token@),
            }),
    {
        let n = self.entries.len();
        let mut i: usize = 0;
        while i < n
            invariant
                n == self.entries@.len(),
                self.wf(),
                forall|j: int| 0 <= j < i ==> self.entries@[j].0@ != token@,
            decreases n - i,
        {
            if self.entries[i].0 == *token {
                proof {
                    lemma_map_of_at(self.entries@, i as int);
                }
                return Some(self.entries[i].1.clone());
            }
            i = i + 1;
        }
        proof {
            lemma_map_of_dom(self.entries@, token@);
        }
        None
    }

    /// Record that `token` stands for `real_path`, overwriting any entry
    /// already stored under `token`: last write wins.
    pub fn put(&mut self, token: String, real_path: String)
        requires
            old(self).wf(),
        ensures
            final(self).wf(),
            final(self)@ == old(self)@.insert(token@, real_path@),
    {
        let ghost entries0 = self.entries@;
        let n = self.entries.len();
        let mut i: usize = 0;
        while i < n
            invariant
                n == self.entries@.len(),
                self.entries@ == entries0,
                entries0 == old(self).entries@,
                tokens_unique(entries0),
                forall|j: int| 0 <= j < i ==> self.entries@[j].0@ != token@,
            decreases n - i,
        {
            if self.entries[i].0 == token {
                let _replaced = self.entries.remove(i);
                self.entries.push((token, real_path));
                proof {
                    lemma_map_of_remove(entries0, i as int);
                    lemma_map_of_push(entries0.remove(i as int), token, real_path);
                    assert(map_of(entries0).remove(token@).insert(token@, real_path@) =~= map_of(
                        entries0,
                    ).insert(token@, real_path@));
                }
                return ;
            }
            i = i + 1;
        }
        self.entries.push((token, real_path));
        proof {
            lemma_map_of_push(entries0, token, real_path);
        }
    }
}

/// Overwrite semantics: inserting a mapping for an already-present token
/// replaces the stored real path — a lookup immediately afterwards
/// observes the new value, never the old one.
pub proof fn lemma_put_overwrites(
    m: Map<Seq<char>, Seq<char>>,
    token: Seq<char>,
    old_real: Seq<char>,
    new_real: Seq<char>,
)
    ensures
        m.insert(token, old_real).insert(token, new_real) == m.insert(token, new_real),
        m.insert(token, new_real)[token] == new_real,
{
    assert(m.insert(token, old_real).insert(token, new_real) =~= m.insert(token, new_real));
}

/// Serialized store operations on distinct tokens commute and lose no
/// update: whichever order two inserts for distinct tokens are serialized
/// in, the store ends in the same state and a lookup of either token
/// observes the value inserted for it.
pub proof fn lemma_distinct_puts_commute(
    m: Map<Seq<char>, Seq<char>>,
    token1: Seq<char>,
    real1: Seq<char>,
    token2: Seq<char>,
    real2: Seq<char>,
)
    requires
        token1 != token2,
    ensures
        m.insert(token1, real1).insert(token2, real2) == m.insert(token2, real2).insert(
            token1,
            real1,
        ),
        m.insert(token1, real1).insert(token2, real2)[token1] == real1,
        m.insert(token1, real1).insert(token2, real2)[token2] == real2,
{
    assert(m.insert(token1, real1).insert(token2, real2) =~= m.insert(token2, real2).insert(
        token1,
        real1,
    ));
}

} // verus!
