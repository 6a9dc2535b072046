//! Sets and tables keyed by text.

use vstd::prelude::*;

use crate::text;

verus! {

// ── Sets ─────────────────────────────────────────────────────────────────

/// A set of strings.
pub struct TextSet {
    items: Vec<String>,
}

/// Whether `s` is among `items`.
pub open spec fn listed(items: Seq<String>, s: Seq<char>) -> bool {
    exists|i: int| 0 <= i < items.len() && #[trigger] items[i]@ == s
}

impl View for TextSet {
    type V = Set<Seq<char>>;

    closed spec fn view(&self) -> Set<Seq<char>> {
        Set::new(|s: Seq<char>| listed(self.items@, s))
    }
}

/// The strings of a set that do not start with `prefix`.
pub open spec fn without_prefix(set: Set<Seq<char>>, prefix: Seq<char>) -> Set<Seq<char>> {
    set.filter(|s: Seq<char>| !text::starts(s, prefix))
}

/// Whether some string of a set starts with `prefix`.
pub open spec fn some_prefixed(set: Set<Seq<char>>, prefix: Seq<char>) -> bool {
    exists|s: Seq<char>| #[trigger] set.contains(s) && text::starts(s, prefix)
}

impl TextSet {
    /// The empty set.
    pub fn new() -> (r: Self)
        ensures
            r@ == Set::<Seq<char>>::empty(),
    {
        let r = TextSet { items: Vec::new() };
        proof {
            assert(r@ =~= Set::<Seq<char>>::empty());
        }
        r
    }

    /// Whether `s` is in the set.
    pub fn contains(&self, s: &str) -> (r: bool)
        ensures
            r == self@.contains(s@),
    {
        let mut i: usize = 0;
        while i < self.items.len()
            invariant
                i <= self.items@.len(),
                forall|j: int| 0 <= j < i ==> #[trigger] self.items@[j]@ != s@,
            decreases self.items@.len() - i,
        {
            if text::same(self.items[i].as_str(), s) {
                return true;
            }
            i += 1;
        }
        false
    }

    /// Puts `s` into the set.
    pub fn insert(&mut self, s: &str)
        ensures
            final(self)@ == old(self)@.insert(s@),
    {
        let fresh = !self.contains(s);
        if fresh {
            self.items.push(s.to_owned());
        }
        proof {
            let before = old(self).items@;
            if fresh {
                assert(self.items@[before.len() as int]@ == s@);
            }
            assert forall|t: Seq<char>| #[trigger]
                listed(self.items@, t) == (listed(before, t) || t == s@) by {
                if listed(before, t) {
                    let i = choose|i: int| 0 <= i < before.len() && #[trigger] before[i]@ == t;
                    assert(self.items@[i]@ == t);
                }
                if listed(self.items@, t) {
                    let i = choose|i: int|
                        0 <= i < self.items@.len() && #[trigger] self.items@[i]@ == t;
                    if i < before.len() {
                        assert(before[i]@ == t);
                    }
                }
            }
            assert(self@ =~= old(self)@.insert(s@));
        }
    }

    /// Takes `s` out of the set.
    pub fn remove(&mut self, s: &str)
        ensures
            final(self)@ == old(self)@.remove(s@),
    {
        let mut i: usize = 0;
        while i < self.items.len()
            invariant
                i <= self.items@.len(),
                forall|j: int| 0 <= j < i ==> #[trigger] self.items@[j]@ != s@,
                forall|t: Seq<char>|
                    t != s@ ==> #[trigger] listed(self.items@, t) == listed(old(self).items@, t),
            decreases self.items@.len() - i,
        {
            if text::same(self.items[i].as_str(), s) {
                let ghost before = self.items@;
                let _gone = self.items.remove(i);
                proof {
                    lemma_listed_remove(before, i as int);
                }
            } else {
                i += 1;
            }
        }
        proof {
            assert(self@ =~= old(self)@.remove(s@));
        }
    }

    /// Takes out every string that starts with `prefix`.
    pub fn remove_prefixed(&mut self, prefix: &str)
        ensures
            final(self)@ == without_prefix(old(self)@, prefix@),
    {
        let mut i: usize = 0;
        while i < self.items.len()
            invariant
                i <= self.items@.len(),
                forall|j: int|
                    0 <= j < i ==> !text::starts(#[trigger] self.items@[j]@, prefix@),
                forall|t: Seq<char>|
                    !text::starts(t, prefix@) ==> #[trigger] listed(self.items@, t) == listed(
                        old(self).items@,
                        t,
                    ),
            decreases self.items@.len() - i,
        {
            if text::starts_with(self.items[i].as_str(), prefix) {
                let ghost before = self.items@;
                let _gone = self.items.remove(i);
                proof {
                    lemma_listed_remove(before, i as int);
                }
            } else {
                i += 1;
            }
        }
        proof {
            assert(self@ =~= without_prefix(old(self)@, prefix@));
        }
    }

    /// Whether some string of the set starts with `prefix`.
    pub fn any_prefixed(&self, prefix: &str) -> (r: bool)
        ensures
            r == some_prefixed(self@, prefix@),
    {
        let mut i: usize = 0;
        while i < self.items.len()
            invariant
                i <= self.items@.len(),
                forall|j: int|
                    0 <= j < i ==> !text::starts(#[trigger] self.items@[j]@, prefix@),
            decreases self.items@.len() - i,
        {
            if text::starts_with(self.items[i].as_str(), prefix) {
                proof {
                    assert(self@.contains(self.items@[i as int]@));
                }
                return true;
            }
            i += 1;
        }
        false
    }

    /// Whether the set has no member.
    pub fn is_empty(&self) -> (r: bool)
        ensures
            r == (self@ == Set::<Seq<char>>::empty()),
    {
        let r = self.items.is_empty();
        proof {
            if r {
                assert(self@ =~= Set::<Seq<char>>::empty());
            } else {
                assert(self@.contains(self.items@[0]@));
            }
        }
        r
    }
}

/// Taking one string out of a list leaves every other string listed as before.
proof fn lemma_listed_remove(items: Seq<String>, at: int)
    requires
        0 <= at < items.len(),
    ensures
        forall|t: Seq<char>|
            t != items[at]@ ==> #[trigger] listed(items.remove(at), t) == listed(items, t),
{
    let after = items.remove(at);
    assert forall|t: Seq<char>| t != items[at]@ implies #[trigger] listed(after, t) == listed(
        items,
        t,
    ) by {
        if listed(items, t) {
            let i = choose|i: int| 0 <= i < items.len() && #[trigger] items[i]@ == t;
            if i < at {
                assert(after[i]@ == t);
            } else {
                assert(after[i - 1]@ == t);
            }
        }
        if listed(after, t) {
            let i = choose|i: int| 0 <= i < after.len() && #[trigger] after[i]@ == t;
            if i < at {
                assert(items[i]@ == t);
            } else {
                assert(items[i + 1]@ == t);
            }
        }
    }
}

// ── Tables ───────────────────────────────────────────────────────────────

/// One entry of a table keyed by text.
pub struct TextEntry<T> {
    pub key: String,
    pub value: T,
}

/// At most one value for each key.
pub struct TextTable<T> {
    entries: Vec<TextEntry<T>>,
}

/// The value that `entries` hold for `key`: that of the last entry with this key.
pub open spec fn lookup<T>(entries: Seq<TextEntry<T>>, key: Seq<char>) -> Option<T>
    decreases entries.len(),
{
    if entries.len() == 0 {
        None
    } else if entries.last().key@ == key {
        Some(entries.last().value)
    } else {
        lookup(entries.drop_last(), key)
    }
}

impl<T> View for TextTable<T> {
    type V = Map<Seq<char>, T>;

    closed spec fn view(&self) -> Map<Seq<char>, T> {
        Map::new(
            |k: Seq<char>| lookup(self.entries@, k) is Some,
            |k: Seq<char>| lookup(self.entries@, k)->0,
        )
    }
}

/// The part of a table whose keys do not start with `prefix`.
pub open spec fn table_without_prefix<T>(table: Map<Seq<char>, T>, prefix: Seq<char>) -> Map<
    Seq<char>,
    T,
> {
    table.restrict(without_prefix(table.dom(), prefix))
}

impl<T> TextTable<T> {
    /// A table without values.
    pub fn new() -> (r: Self)
        ensures
            r@ == Map::<Seq<char>, T>::empty(),
    {
        let r = TextTable { entries: Vec::new() };
        proof {
            assert(r@ =~= Map::<Seq<char>, T>::empty());
        }
        r
    }

    /// The value of `key`, if it has one.
    pub fn get(&self, key: &str) -> (r: Option<&T>)
        ensures
            self@.contains_key(key@) ==> r == Some(&self@[key@]),
            !self@.contains_key(key@) ==> r is None,
    {
        let mut i: usize = self.entries.len();
        proof {
            assert(self.entries@.take(i as int) =~= self.entries@);
        }
        while i > 0
            invariant
                i <= self.entries@.len(),
                lookup(self.entries@.take(i as int), key@) == lookup(self.entries@, key@),
            decreases i,
        {
            proof {
                assert(self.entries@.take(i as int).drop_last() =~= self.entries@.take(i - 1));
            }
            i -= 1;
            if text::same(self.entries[i].key.as_str(), key) {
                return Some(&self.entries[i].value);
            }
        }
        None
    }

    /// Gives `key` the value `value`, in place of any it had.
    pub fn insert(&mut self, key: &str, value: T)
        ensures
            final(self)@ == old(self)@.insert(key@, value),
    {
        self.remove(key);
        let ghost before = self.entries@;
        let ghost kept = self@;
        self.entries.push(TextEntry { key: key.to_owned(), value });
        proof {
            assert(self.entries@.drop_last() =~= before);
            assert forall|k: Seq<char>| k != key@ implies #[trigger] lookup(self.entries@, k)
                == lookup(before, k) && kept.contains_key(k) == self@.contains_key(k) by {
                assert(kept.contains_key(k) == (lookup(before, k) is Some));
            }
            assert forall|k: Seq<char>| k != key@ && #[trigger] kept.contains_key(k) implies kept[k]
                == self@[k] by {
                assert(lookup(self.entries@, k) == lookup(before, k));
            }
            assert(kept == old(self)@.remove(key@));
            assert(lookup(self.entries@, key@) == Some(value));
            assert forall|k: Seq<char>| #[trigger] self@.contains_key(k) == old(self)@.insert(
                key@,
                value,
            ).contains_key(k) by {
                if k != key@ {
                    assert(lookup(self.entries@, k) == lookup(before, k));
                }
            }
            assert(self@ =~= old(self)@.insert(key@, value));
        }
    }

    /// Takes the value of `key` away, if it has one.
    pub fn remove(&mut self, key: &str)
        ensures
            final(self)@ == old(self)@.remove(key@),
    {
        let mut i: usize = 0;
        while i < self.entries.len()
            invariant
                i <= self.entries@.len(),
                forall|j: int| 0 <= j < i ==> #[trigger] self.entries@[j].key@ != key@,
                forall|k: Seq<char>|
                    k != key@ ==> #[trigger] lookup(self.entries@, k) == lookup(
                        old(self).entries@,
                        k,
                    ),
            decreases self.entries@.len() - i,
        {
            if text::same(self.entries[i].key.as_str(), key) {
                let ghost before = self.entries@;
                let _gone = self.entries.remove(i);
                proof {
                    assert forall|k: Seq<char>| k != key@ implies #[trigger] lookup(
                        self.entries@,
                        k,
                    ) == lookup(before, k) by {
                        lemma_lookup_remove(before, i as int, k);
                    }
                }
            } else {
                i += 1;
            }
        }
        proof {
            lemma_lookup_absent(self.entries@, key@);
            assert(self@ =~= old(self)@.remove(key@));
        }
    }

    /// Takes away every value whose key starts with `prefix`.
    pub fn remove_prefixed(&mut self, prefix: &str)
        ensures
            final(self)@ == table_without_prefix(old(self)@, prefix@),
    {
        let mut i: usize = 0;
        while i < self.entries.len()
            invariant
                i <= self.entries@.len(),
                forall|j: int|
                    0 <= j < i ==> !text::starts(#[trigger] self.entries@[j].key@, prefix@),
                forall|k: Seq<char>|
                    !text::starts(k, prefix@) ==> #[trigger] lookup(self.entries@, k) == lookup(
                        old(self).entries@,
                        k,
                    ),
            decreases self.entries@.len() - i,
        {
            if text::starts_with(self.entries[i].key.as_str(), prefix) {
                let ghost before = self.entries@;
                let _gone = self.entries.remove(i);
                proof {
                    assert forall|k: Seq<char>| !text::starts(k, prefix@) implies #[trigger] lookup(
                        self.entries@,
                        k,
                    ) == lookup(before, k) by {
                        lemma_lookup_remove(before, i as int, k);
                    }
                }
            } else {
                i += 1;
            }
        }
        proof {
            assert forall|k: Seq<char>| text::starts(k, prefix@) implies #[trigger] lookup(
                self.entries@,
                k,
            ) is None by {
                lemma_lookup_absent(self.entries@, k);
            }
            assert(self@ =~= table_without_prefix(old(self)@, prefix@));
        }
    }
}

/// Taking an entry with another key out changes nothing for `key`.
proof fn lemma_lookup_remove<T>(entries: Seq<TextEntry<T>>, at: int, key: Seq<char>)
    requires
        0 <= at < entries.len(),
        entries[at].key@ != key,
    ensures
        lookup(entries.remove(at), key) == lookup(entries, key),
    decreases entries.len(),
{
    let after = entries.remove(at);
    if at == entries.len() - 1 {
        assert(after =~= entries.drop_last());
    } else {
        assert(after.last() == entries.last());
        assert(after.drop_last() =~= entries.drop_last().remove(at));
        lemma_lookup_remove(entries.drop_last(), at, key);
    }
}

/// A key that no entry has is not looked up.
proof fn lemma_lookup_absent<T>(entries: Seq<TextEntry<T>>, key: Seq<char>)
    requires
        forall|j: int| 0 <= j < entries.len() ==> #[trigger] entries[j].key@ != key,
    ensures
        lookup(entries, key) is None,
    decreases entries.len(),
{
    if entries.len() > 0 {
        assert(entries.last() == entries[entries.len() - 1]);
        assert forall|j: int| 0 <= j < entries.drop_last().len() implies #[trigger]
            entries.drop_last()[j].key@ != key by {
            assert(entries[j].key@ != key);
        }
        lemma_lookup_absent(entries.drop_last(), key);
    }
}

} // verus!
