//! The offering store: offerings by id, listed in ascending key order.

use vstd::prelude::*;
use crate::order::{compare_keys, key_lt, lemma_key_lt_asymmetric, lemma_key_lt_transitive, KeyOrder};
use crate::state::{Offering, OfferingView};

verus! {

/// The entries stand in strictly ascending key order.
spec fn ascending(s: Seq<(String, Offering)>) -> bool {
    forall|i: int, j: int|
        #![trigger s[i], s[j]]
        0 <= i < j < s.len() ==> key_lt(s[i].0@, s[j].0@)
}

/// Some entry has the key `k`.
spec fn has_key(s: Seq<(String, Offering)>, k: Seq<char>) -> bool {
    exists|i: int| #![trigger s[i]] 0 <= i < s.len() && s[i].0@ == k
}

/// The place of an entry with the key `k`.
spec fn index_of(s: Seq<(String, Offering)>, k: Seq<char>) -> int {
    choose|i: int| #![trigger s[i]] 0 <= i < s.len() && s[i].0@ == k
}

/// The entries as a map from key to offering.
spec fn as_map(s: Seq<(String, Offering)>) -> Map<Seq<char>, OfferingView> {
    Map::new(|k: Seq<char>| has_key(s, k), |k: Seq<char>| s[index_of(s, k)].1@)
}

/// A key that stands between its neighbours in the order is no entry's key.
proof fn lemma_absent(s: Seq<(String, Offering)>, p: int, k: Seq<char>)
    requires
        0 <= p <= s.len(),
        forall|j: int| #![trigger s[j]] 0 <= j < p ==> key_lt(s[j].0@, k),
        forall|j: int| #![trigger s[j]] p <= j < s.len() ==> key_lt(k, s[j].0@),
    ensures
        !as_map(s).contains_key(k),
{
    assert forall|j: int| #![trigger s[j]] 0 <= j < s.len() implies s[j].0@ != k by {
        if j < p {
            lemma_key_lt_asymmetric(s[j].0@, k);
        } else {
            lemma_key_lt_asymmetric(k, s[j].0@);
        }
    }
}

/// In ascending entries every key stands once, and the map gives each key
/// its entry's offering.
proof fn lemma_entry_in_map(s: Seq<(String, Offering)>, i: int)
    requires
        ascending(s),
        0 <= i < s.len(),
    ensures
        as_map(s).contains_key(s[i].0@),
        as_map(s)[s[i].0@] == s[i].1@,
        index_of(s, s[i].0@) == i,
{
    let k = s[i].0@;
    assert(has_key(s, k));
    let j = index_of(s, k);
    if j < i {
        assert(key_lt(s[j].0@, s[i].0@));
        lemma_key_lt_asymmetric(s[j].0@, s[i].0@);
    } else if i < j {
        assert(key_lt(s[i].0@, s[j].0@));
        lemma_key_lt_asymmetric(s[i].0@, s[j].0@);
    }
}

/// Putting an entry where its key belongs keeps the order and adds it to the
/// map.
proof fn lemma_insert(s: Seq<(String, Offering)>, p: int, e: (String, Offering))
    requires
        ascending(s),
        0 <= p <= s.len(),
        forall|j: int| #![trigger s[j]] 0 <= j < p ==> key_lt(s[j].0@, e.0@),
        forall|j: int| #![trigger s[j]] p <= j < s.len() ==> key_lt(e.0@, s[j].0@),
    ensures
        ascending(s.insert(p, e)),
        as_map(s.insert(p, e)) == as_map(s).insert(e.0@, e.1@),
{
    let t = s.insert(p, e);
    assert forall|i: int, j: int| #![trigger t[i], t[j]] 0 <= i < j < t.len() implies key_lt(
        t[i].0@,
        t[j].0@,
    ) by {
        if i < p && j < p {
            assert(t[i] == s[i] && t[j] == s[j]);
        } else if i < p && j == p {
            assert(t[i] == s[i]);
        } else if i < p {
            assert(t[i] == s[i] && t[j] == s[j - 1]);
        } else if i == p {
            assert(t[j] == s[j - 1]);
        } else {
            assert(t[i] == s[i - 1] && t[j] == s[j - 1]);
        }
    }
    let m = as_map(s).insert(e.0@, e.1@);
    assert forall|k: Seq<char>| as_map(t).contains_key(k) <==> m.contains_key(k) by {
        if has_key(t, k) {
            let i = index_of(t, k);
            if i < p {
                assert(t[i] == s[i]);
                assert(has_key(s, k));
            } else if i > p {
                assert(t[i] == s[i - 1]);
                assert(has_key(s, k));
            }
        }
        if has_key(s, k) {
            let i = index_of(s, k);
            if i < p {
                assert(t[i] == s[i]);
            } else {
                assert(t[i + 1] == s[i]);
            }
            assert(has_key(t, k));
        }
        if k == e.0@ {
            assert(t[p] == e);
            assert(has_key(t, k));
        }
    }
    assert forall|k: Seq<char>| as_map(t).contains_key(k) implies as_map(t)[k] == m[k] by {
        let i = index_of(t, k);
        lemma_entry_in_map(t, i);
        if i < p {
            assert(t[i] == s[i]);
            lemma_entry_in_map(s, i);
            lemma_key_lt_asymmetric(s[i].0@, e.0@);
        } else if i > p {
            assert(t[i] == s[i - 1]);
            lemma_entry_in_map(s, i - 1);
            lemma_key_lt_asymmetric(e.0@, s[i - 1].0@);
        } else {
            assert(t[p] == e);
        }
    }
    assert(as_map(t) =~= m);
}

/// Replacing an entry by one of the same key keeps the order and replaces
/// the key's offering in the map.
proof fn lemma_update(s: Seq<(String, Offering)>, p: int, e: (String, Offering))
    requires
        ascending(s),
        0 <= p < s.len(),
        s[p].0@ == e.0@,
    ensures
        ascending(s.update(p, e)),
        as_map(s.update(p, e)) == as_map(s).insert(e.0@, e.1@),
{
    let t = s.update(p, e);
    assert forall|i: int, j: int| #![trigger t[i], t[j]] 0 <= i < j < t.len() implies key_lt(
        t[i].0@,
        t[j].0@,
    ) by {
        assert(t[i].0@ == s[i].0@ && t[j].0@ == s[j].0@);
    }
    let m = as_map(s).insert(e.0@, e.1@);
    assert forall|k: Seq<char>| as_map(t).contains_key(k) <==> m.contains_key(k) by {
        if has_key(t, k) {
            let i = index_of(t, k);
            assert(t[i].0@ == s[i].0@);
            assert(has_key(s, k));
        }
        if has_key(s, k) {
            let i = index_of(s, k);
            assert(t[i].0@ == s[i].0@);
            assert(has_key(t, k));
        }
        if k == e.0@ {
            assert(t[p] == e);
            assert(has_key(t, k));
        }
    }
    assert forall|k: Seq<char>| as_map(t).contains_key(k) implies as_map(t)[k] == m[k] by {
        let i = index_of(t, k);
        lemma_entry_in_map(t, i);
        if i != p {
            assert(t[i] == s[i]);
            lemma_entry_in_map(s, i);
            lemma_entry_in_map(s, p);
        }
    }
    assert(as_map(t) =~= m);
}

/// Taking an entry out keeps the order and takes its key out of the map.
proof fn lemma_remove(s: Seq<(String, Offering)>, p: int)
    requires
        ascending(s),
        0 <= p < s.len(),
    ensures
        ascending(s.remove(p)),
        as_map(s.remove(p)) == as_map(s).remove(s[p].0@),
{
    let t = s.remove(p);
    assert forall|i: int, j: int| #![trigger t[i], t[j]] 0 <= i < j < t.len() implies key_lt(
        t[i].0@,
        t[j].0@,
    ) by {
        let a = if i < p { i } else { i + 1 };
        let b = if j < p { j } else { j + 1 };
        assert(t[i] == s[a] && t[j] == s[b]);
    }
    let m = as_map(s).remove(s[p].0@);
    assert forall|k: Seq<char>| as_map(t).contains_key(k) <==> m.contains_key(k) by {
        if has_key(t, k) {
            let i = index_of(t, k);
            let a = if i < p { i } else { i + 1 };
            assert(t[i] == s[a]);
            assert(has_key(s, k));
            lemma_entry_in_map(s, a);
            lemma_entry_in_map(s, p);
        }
        if has_key(s, k) && k != s[p].0@ {
            let a = index_of(s, k);
            let i = if a < p { a } else { a - 1 };
            assert(t[i] == s[a]);
            assert(has_key(t, k));
        }
    }
    assert forall|k: Seq<char>| as_map(t).contains_key(k) implies as_map(t)[k] == m[k] by {
        let i = index_of(t, k);
        lemma_entry_in_map(t, i);
        let a = if i < p { i } else { i + 1 };
        assert(t[i] == s[a]);
        lemma_entry_in_map(s, a);
    }
    assert(as_map(t) =~= m);
}

/// Ascending entries make a finite map with one key for each entry.
proof fn lemma_size(s: Seq<(String, Offering)>)
    requires
        ascending(s),
    ensures
        as_map(s).dom().finite(),
        as_map(s).dom().len() == s.len(),
    decreases s.len(),
{
    if s.len() == 0 {
        assert(as_map(s).dom() =~= Set::<Seq<char>>::empty());
    } else {
        let last = s.len() - 1;
        let rest = s.remove(last);
        lemma_remove(s, last);
        lemma_entry_in_map(s, last);
        lemma_size(rest);
        assert(as_map(s).dom() =~= as_map(rest).dom().insert(s[last].0@));
    }
}

/// `listing` holds exactly the entries of `m`, in strictly ascending key order.
pub open spec fn lists_in_key_order(
    m: Map<Seq<char>, OfferingView>,
    listing: Seq<(Seq<char>, OfferingView)>,
) -> bool {
    &&& forall|i: int, j: int|
        #![trigger listing[i], listing[j]]
        0 <= i < j < listing.len() ==> key_lt(listing[i].0, listing[j].0)
    &&& forall|i: int|
        #![trigger listing[i]]
        0 <= i < listing.len() ==> m.contains_key(listing[i].0) && m[listing[i].0] == listing[i].1
    &&& forall|k: Seq<char>|
        m.contains_key(k) ==> exists|i: int|
            #![trigger listing[i]]
            0 <= i < listing.len() && listing[i].0 == k
}

/// The entries of a map have one enumeration in key order, no more.
pub proof fn lemma_key_order_listing_is_unique(
    m: Map<Seq<char>, OfferingView>,
    a: Seq<(Seq<char>, OfferingView)>,
    b: Seq<(Seq<char>, OfferingView)>,
)
    requires
        lists_in_key_order(m, a),
        lists_in_key_order(m, b),
    ensures
        a == b,
    decreases a.len(),
{
    if a.len() == 0 {
        if b.len() > 0 {
            assert(m.contains_key(b[0].0));
        }
        assert(a =~= b);
    } else {
        assert(m.contains_key(a[0].0));
        let j = choose|j: int| #![trigger b[j]] 0 <= j < b.len() && b[j].0 == a[0].0;
        assert(b[j].0 == a[0].0);
        assert(m.contains_key(b[0].0));
        let k = choose|k: int| #![trigger a[k]] 0 <= k < a.len() && a[k].0 == b[0].0;
        assert(a[k].0 == b[0].0);
        if j > 0 && k > 0 {
            assert(key_lt(b[0].0, b[j].0));
            assert(key_lt(a[0].0, a[k].0));
            lemma_key_lt_asymmetric(b[0].0, b[j].0);
        } else if j > 0 {
            assert(key_lt(b[0].0, b[j].0));
            lemma_key_lt_asymmetric(b[0].0, b[j].0);
        } else if k > 0 {
            assert(key_lt(a[0].0, a[k].0));
            lemma_key_lt_asymmetric(a[0].0, a[k].0);
        }
        assert(a[0].0 == b[0].0);
        assert(a[0] == b[0]);
        let first = a[0].0;
        let rest = m.remove(first);
        let ta = a.drop_first();
        let tb = b.drop_first();
        lemma_rest_in_key_order(m, a);
        lemma_rest_in_key_order(m, b);
        lemma_key_order_listing_is_unique(rest, ta, tb);
        assert(a =~= seq![a[0]] + ta);
        assert(b =~= seq![b[0]] + tb);
    }
}

/// Without its first entry, a listing in key order lists the map without
/// that entry's key.
proof fn lemma_rest_in_key_order(
    m: Map<Seq<char>, OfferingView>,
    a: Seq<(Seq<char>, OfferingView)>,
)
    requires
        lists_in_key_order(m, a),
        a.len() > 0,
    ensures
        lists_in_key_order(m.remove(a[0].0), a.drop_first()),
{
    let rest = m.remove(a[0].0);
    let t = a.drop_first();
    assert forall|i: int, j: int| #![trigger t[i], t[j]] 0 <= i < j < t.len() implies key_lt(
        t[i].0,
        t[j].0,
    ) by {
        assert(t[i] == a[i + 1] && t[j] == a[j + 1]);
    }
    assert forall|i: int| #![trigger t[i]] 0 <= i < t.len() implies rest.contains_key(t[i].0)
        && rest[t[i].0] == t[i].1 by {
        assert(t[i] == a[i + 1]);
        assert(key_lt(a[0].0, a[i + 1].0));
        lemma_key_lt_asymmetric(a[0].0, a[i + 1].0);
    }
    assert forall|k: Seq<char>| rest.contains_key(k) implies exists|i: int|
        #![trigger t[i]]
        0 <= i < t.len() && t[i].0 == k by {
        assert(m.contains_key(k));
        let i = choose|i: int| #![trigger a[i]] 0 <= i < a.len() && a[i].0 == k;
        assert(a[i].0 == k);
        assert(i > 0);
        assert(t[i - 1] == a[i]);
    }
}

/// What a sequence of entries is to the contracts: key and offering by view.
pub open spec fn entries_view(v: Seq<(String, Offering)>) -> Seq<(Seq<char>, OfferingView)> {
    v.map_values(|e: (String, Offering)| (e.0@, e.1@))
}

/// Offerings by id. Enumeration is in ascending key order.
pub struct OfferingStore {
    entries: Vec<(String, Offering)>,
}

impl View for OfferingStore {
    type V = Map<Seq<char>, OfferingView>;

    closed spec fn view(&self) -> Map<Seq<char>, OfferingView> {
        as_map(self.entries@)
    }
}

impl OfferingStore {
    #[verifier::type_invariant]
    spec fn well_ordered(&self) -> bool {
        ascending(self.entries@)
    }

    /// The empty store.
    pub fn new() -> (store: Self)
        ensures
            store@ == Map::<Seq<char>, OfferingView>::empty(),
    {
        let store = OfferingStore { entries: Vec::new() };
        assert(store@ =~= Map::<Seq<char>, OfferingView>::empty());
        store
    }

    /// The offering under `key`, if there is one.
    pub fn get(&self, key: &str) -> (found: Option<Offering>)
        ensures
            found is Some <==> self@.contains_key(key@),
            found matches Some(offering) ==> offering@ == self@[key@],
    {
        proof {
            use_type_invariant(self);
        }
        let (i, found) = self.locate(key);
        if found {
            proof {
                lemma_entry_in_map(self.entries@, i as int);
            }
            Some(self.entries[i].1.clone())
        } else {
            proof {
                lemma_absent(self.entries@, i as int, key@);
            }
            None
        }
    }

    /// The place of `key` among the entries: where it stands, or where it
    /// would have to be put.
    fn locate(&self, key: &str) -> (at: (usize, bool))
        ensures
            at.0 <= self.entries@.len(),
            at.1 ==> at.0 < self.entries@.len() && self.entries@[at.0 as int].0@ == key@,
            forall|j: int|
                #![trigger self.entries@[j]]
                0 <= j < at.0 ==> key_lt(self.entries@[j].0@, key@),
            !at.1 ==> forall|j: int|
                #![trigger self.entries@[j]]
                at.0 <= j < self.entries@.len() ==> key_lt(key@, self.entries@[j].0@),
    {
        proof {
            use_type_invariant(self);
        }
        let mut i: usize = 0;
        while i < self.entries.len()
            invariant
                i <= self.entries.len(),
                ascending(self.entries@),
                forall|j: int|
                    #![trigger self.entries@[j]]
                    0 <= j < i ==> key_lt(self.entries@[j].0@, key@),
            decreases self.entries.len() - i,
        {
            let order = compare_keys(self.entries[i].0.as_str(), key);
            if order == KeyOrder::Same {
                return (i, true);
            }
            if order == KeyOrder::After {
                proof {
                    let s = self.entries@;
                    assert forall|j: int| #![trigger s[j]] i <= j < s.len() implies key_lt(
                        key@,
                        s[j].0@,
                    ) by {
                        if j > i {
                            assert(key_lt(s[i as int].0@, s[j].0@));
                            lemma_key_lt_transitive(key@, s[i as int].0@, s[j].0@);
                        }
                    }
                }
                return (i, false);
            }
            i = i + 1;
        }
        (i, false)
    }

    /// Stores `offering` under `key`, in place of what was there.
    pub fn put(&mut self, key: String, offering: Offering)
        ensures
            final(self)@ == old(self)@.insert(key@, offering@),
    {
        proof {
            use_type_invariant(&*self);
        }
        let (i, found) = self.locate(key.as_str());
        let mut entries: Vec<(String, Offering)> = Vec::new();
        core::mem::swap(&mut self.entries, &mut entries);
        if found {
            proof {
                lemma_update(entries@, i as int, (key, offering));
            }
            entries.set(i, (key, offering));
        } else {
            proof {
                lemma_insert(entries@, i as int, (key, offering));
            }
            entries.insert(i, (key, offering));
        }
        self.entries = entries;
    }

    /// Removes what is stored under `key`, if anything.
    pub fn delete(&mut self, key: &str)
        ensures
            final(self)@ == old(self)@.remove(key@),
    {
        proof {
            use_type_invariant(&*self);
        }
        let (i, found) = self.locate(key);
        if found {
            let mut entries: Vec<(String, Offering)> = Vec::new();
            core::mem::swap(&mut self.entries, &mut entries);
            proof {
                lemma_remove(entries@, i as int);
            }
            let _ = entries.remove(i);
            self.entries = entries;
        } else {
            proof {
                lemma_absent(self.entries@, i as int, key@);
                assert(self@ =~= old(self)@.remove(key@));
            }
        }
    }

    /// The number of offerings.
    pub fn len(&self) -> (n: usize)
        ensures
            self@.dom().finite(),
            n == self.spec_len(),
    {
        proof {
            use_type_invariant(self);
            lemma_size(self.entries@);
        }
        self.entries.len()
    }

    /// The number of offerings: the number of keys in the map.
    pub open spec fn spec_len(&self) -> nat {
        self@.dom().len()
    }

    /// Every entry, in ascending key order.
    pub fn scan(&self) -> (listing: Vec<(String, Offering)>)
        ensures
            lists_in_key_order(self@, entries_view(listing@)),
            listing@.len() == self.spec_len(),
    {
        proof {
            use_type_invariant(self);
            lemma_size(self.entries@);
        }
        let mut listing: Vec<(String, Offering)> = Vec::new();
        let mut i: usize = 0;
        while i < self.entries.len()
            invariant
                i <= self.entries.len(),
                listing@.len() == i,
                forall|j: int|
                    #![trigger listing@[j]]
                    0 <= j < i ==> listing@[j].0@ == self.entries@[j].0@ && listing@[j].1@
                        == self.entries@[j].1@,
            decreases self.entries.len() - i,
        {
            listing.push((self.entries[i].0.clone(), self.entries[i].1.clone()));
            i = i + 1;
        }
        proof {
            let s = self.entries@;
            let l = entries_view(listing@);
            assert forall|a: int, b: int| #![trigger l[a], l[b]] 0 <= a < b < l.len() implies key_lt(
                l[a].0,
                l[b].0,
            ) by {
                assert(l[a].0 == listing@[a].0@ && l[b].0 == listing@[b].0@);
                assert(key_lt(s[a].0@, s[b].0@));
            }
            assert forall|a: int| #![trigger l[a]] 0 <= a < l.len() implies self@.contains_key(
                l[a].0,
            ) && self@[l[a].0] == l[a].1 by {
                assert(l[a].0 == listing@[a].0@ && l[a].1 == listing@[a].1@);
                lemma_entry_in_map(s, a);
            }
            assert forall|k: Seq<char>| self@.contains_key(k) implies exists|a: int|
                #![trigger l[a]]
                0 <= a < l.len() && l[a].0 == k by {
                let a = index_of(s, k);
                assert(l[a].0 == listing@[a].0@);
            }
        }
        listing
    }
}

} // verus!
