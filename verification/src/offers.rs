//! The offer book: the price each bidder has standing on each token. An
//! entry stands for funds the ledger holds in reserve for the bidder, from
//! the moment the offer is made until it is accepted or withdrawn.

use vstd::prelude::*;
use vstd::std_specs::cmp::PartialEqSpecImpl;
use crate::types::{AccountId, Balance, ClassId, TokenId};

verus! {

/// A token and the account bidding on it.
pub type OfferKey = (ClassId, TokenId, AccountId);

/// One standing offer.
#[derive(Clone, Copy, Debug, PartialEq, Eq)]
struct OfferEntry {
    class: ClassId,
    token: TokenId,
    bidder: AccountId,
    price: Balance,
}

impl OfferEntry {
    /// The token the offer is on and the account that made it.
    spec fn key(self) -> OfferKey {
        (self.class, self.token, self.bidder)
    }
}

/// The standing offers, at most one for each token and bidder.
#[derive(Debug)]
pub struct OfferBook {
    entries: Vec<OfferEntry>,
}

/// No two positions of the sequence hold an offer of the same bidder on the
/// same token.
spec fn one_offer_each(entries: Seq<OfferEntry>) -> bool {
    forall|i: int, j: int|
        0 <= i < j < entries.len() ==> (#[trigger] entries[i]).key() != (#[trigger] entries[j]).key()
}

/// Position `i` holds the bidder's offer on the token.
spec fn offer_at(entries: Seq<OfferEntry>, key: OfferKey, i: int) -> bool {
    0 <= i < entries.len() && entries[i].key() == key
}

/// The offers as a map from token and bidder to price.
spec fn offers_of(entries: Seq<OfferEntry>) -> Map<OfferKey, Balance> {
    Map::new(
        |key: OfferKey| exists|i: int| offer_at(entries, key, i),
        |key: OfferKey| entries[choose|i: int| offer_at(entries, key, i)].price,
    )
}

/// Where each bidder has one offer on a token at most, the offer found at a
/// position is the one the map gives.
proof fn lemma_offer_found(entries: Seq<OfferEntry>, key: OfferKey, i: int)
    requires
        one_offer_each(entries),
        offer_at(entries, key, i),
    ensures
        offers_of(entries).contains_key(key),
        offers_of(entries)[key] == entries[i].price,
{
    let c = choose|c: int| offer_at(entries, key, c);
    assert(offer_at(entries, key, c));
    if c < i {
        assert(entries[c].key() != entries[i].key());
    } else if i < c {
        assert(entries[i].key() != entries[c].key());
    }
}

/// Writing `entry` at position `at`, where the bidder's offer stood or at the
/// end where the bidder had none, inserts into the map.
proof fn lemma_insert_map(before: Seq<OfferEntry>, after: Seq<OfferEntry>, at: int, entry: OfferEntry)
    requires
        one_offer_each(before),
        one_offer_each(after),
        0 <= at < after.len(),
        after[at] == entry,
        after.len() == before.len() || (after.len() == before.len() + 1 && at == before.len()),
        at < before.len() ==> before[at].key() == entry.key(),
        forall|k: int| 0 <= k < after.len() && k != at ==> after[k] == before[k],
        forall|k: int| 0 <= k < before.len() && k != at ==> !offer_at(before, entry.key(), k),
    ensures
        offers_of(after) == offers_of(before).insert(entry.key(), entry.price),
{
    let target = offers_of(before).insert(entry.key(), entry.price);
    assert forall|key: OfferKey| offers_of(after).contains_key(key) implies #[trigger]
        target.contains_key(key) by {
        let w = choose|i: int| offer_at(after, key, i);
        if w != at {
            assert(offer_at(before, key, w));
        }
    }
    assert forall|key: OfferKey| #[trigger] target.contains_key(key) implies offers_of(
        after,
    ).contains_key(key) by {
        if key == entry.key() {
            assert(offer_at(after, key, at));
        } else {
            let w = choose|i: int| offer_at(before, key, i);
            assert(offer_at(before, key, w));
            assert(offer_at(after, key, w));
        }
    }
    assert forall|key: OfferKey| #[trigger]
        offers_of(after).contains_key(key) implies offers_of(after)[key] == target[key] by {
        let w = choose|i: int| offer_at(after, key, i);
        lemma_offer_found(after, key, w);
        if w != at {
            assert(offer_at(before, key, w));
            lemma_offer_found(before, key, w);
        }
    }
    assert(offers_of(after) =~= target);
}

/// Taking out the entry at position `at` removes its key from the map and
/// leaves each bidder with one offer on a token at most.
proof fn lemma_remove_map(before: Seq<OfferEntry>, at: int)
    requires
        one_offer_each(before),
        0 <= at < before.len(),
    ensures
        one_offer_each(before.remove(at)),
        offers_of(before.remove(at)) == offers_of(before).remove(before[at].key()),
{
    let after = before.remove(at);
    let gone = before[at].key();
    let target = offers_of(before).remove(gone);
    // Position `k` of `after` is position `k` of `before`, or the next one
    // behind the gap.
    let origin = |k: int| if k < at { k } else { k + 1 };
    assert forall|k: int| 0 <= k < after.len() implies #[trigger] after[k] == before[origin(k)] by {}
    assert forall|i: int, j: int| 0 <= i < j < after.len() implies (#[trigger] after[i]).key() != (
    #[trigger] after[j]).key() by {
        assert(before[origin(i)].key() != before[origin(j)].key());
    }
    assert forall|key: OfferKey| offers_of(after).contains_key(key) implies #[trigger]
        target.contains_key(key) by {
        let w = choose|i: int| offer_at(after, key, i);
        assert(offer_at(before, key, origin(w)));
        if origin(w) < at {
            assert(before[origin(w)].key() != before[at].key());
        } else {
            assert(before[at].key() != before[origin(w)].key());
        }
    }
    assert forall|key: OfferKey| #[trigger] target.contains_key(key) implies offers_of(
        after,
    ).contains_key(key) by {
        let w = choose|i: int| offer_at(before, key, i);
        assert(offer_at(before, key, w));
        let v = if w < at { w } else { w - 1 };
        assert(origin(v) == w);
        assert(offer_at(after, key, v));
    }
    assert forall|key: OfferKey| #[trigger]
        offers_of(after).contains_key(key) implies offers_of(after)[key] == target[key] by {
        let w = choose|i: int| offer_at(after, key, i);
        lemma_offer_found(after, key, w);
        assert(offer_at(before, key, origin(w)));
        lemma_offer_found(before, key, origin(w));
    }
    assert(offers_of(after) =~= target);
}

/// The position that holds the bidder's offer on the token, if one does.
fn position(entries: &Vec<OfferEntry>, class: ClassId, token: TokenId, bidder: AccountId) -> (found:
    Option<usize>)
    ensures
        match found {
            Some(i) => offer_at(entries@, (class, token, bidder), i as int),
            None => forall|i: int| !offer_at(entries@, (class, token, bidder), i),
        },
{
    let mut i: usize = 0;
    while i < entries.len()
        invariant
            i <= entries@.len(),
            forall|k: int| 0 <= k < i ==> !offer_at(entries@, (class, token, bidder), k),
        decreases entries@.len() - i,
    {
        if entries[i].class == class && entries[i].token == token && entries[i].bidder == bidder {
            return Some(i);
        }
        i += 1;
    }
    None
}

/// Whether every offer of `a` stands in `b` too, at the same price.
fn covered_by(a: &Vec<OfferEntry>, b: &Vec<OfferEntry>) -> (all: bool)
    requires
        one_offer_each(a@),
        one_offer_each(b@),
    ensures
        all == offers_of(a@).submap_of(offers_of(b@)),
{
    let mut i: usize = 0;
    while i < a.len()
        invariant
            i <= a@.len(),
            one_offer_each(a@),
            one_offer_each(b@),
            forall|k: int|
                0 <= k < i ==> offers_of(b@).contains_key((#[trigger] a@[k]).key()) && offers_of(
                    b@,
                )[a@[k].key()] == a@[k].price,
        decreases a@.len() - i,
    {
        let entry = a[i];
        proof {
            lemma_offer_found(a@, entry.key(), i as int);
        }
        match position(b, entry.class, entry.token, entry.bidder) {
            Some(j) => {
                proof {
                    lemma_offer_found(b@, entry.key(), j as int);
                }
                if b[j].price != entry.price {
                    assert(offers_of(a@).dom().contains(entry.key()));
                    assert(offers_of(b@).dom().contains(entry.key()));
                    return false;
                }
            },
            None => {
                assert(offers_of(a@).dom().contains(entry.key()));
                assert(!offers_of(b@).dom().contains(entry.key()));
                return false;
            },
        }
        i += 1;
    }
    proof {
        assert forall|key: OfferKey| #[trigger] offers_of(a@).contains_key(key) implies offers_of(
            b@,
        ).contains_key(key) && offers_of(a@)[key] == offers_of(b@)[key] by {
            let w = choose|w: int| offer_at(a@, key, w);
            lemma_offer_found(a@, key, w);
            assert(a@[w].key() == key);
        }
    }
    true
}

impl View for OfferBook {
    type V = Map<OfferKey, Balance>;

    closed spec fn view(&self) -> Map<OfferKey, Balance> {
        offers_of(self.entries@)
    }
}

impl Clone for OfferBook {
    fn clone(&self) -> (copy: OfferBook)
        ensures
            copy@ == self@,
    {
        proof {
            use_type_invariant(self);
        }
        let entries = self.entries.clone();
        assert(entries@ =~= self.entries@);
        OfferBook { entries }
    }
}

impl PartialEq for OfferBook {
    /// Two books are equal when they hold the same offers, in whatever order
    /// these were made.
    fn eq(&self, other: &OfferBook) -> (same: bool) {
        proof {
            use_type_invariant(self);
            use_type_invariant(other);
        }
        let same = covered_by(&self.entries, &other.entries) && covered_by(
            &other.entries,
            &self.entries,
        );
        proof {
            let (m1, m2) = (self@, other@);
            if same {
                assert forall|key: OfferKey| m1.dom().contains(key) implies m2.dom().contains(key)
                    && m1[key] == m2[key] by {}
                assert forall|key: OfferKey| m2.dom().contains(key) implies m1.dom().contains(
                    key,
                ) by {}
                assert(m1 =~= m2);
            } else {
                assert(!m1.submap_of(m2) || !m2.submap_of(m1));
            }
        }
        same
    }
}

impl PartialEqSpecImpl for OfferBook {
    open spec fn obeys_eq_spec() -> bool {
        true
    }

    open spec fn eq_spec(&self, other: &OfferBook) -> bool {
        self@ == other@
    }
}

impl OfferBook {
    #[verifier::type_invariant]
    spec fn well_formed(self) -> bool {
        one_offer_each(self.entries@)
    }

    /// A book without offers.
    pub fn new() -> (book: OfferBook)
        ensures
            book@ == Map::<OfferKey, Balance>::empty(),
    {
        let book = OfferBook { entries: Vec::new() };
        assert(book@ =~= Map::<OfferKey, Balance>::empty());
        book
    }

    /// The price the bidder has standing on the token, `None` if the bidder
    /// has no offer on it.
    pub fn get(&self, class: ClassId, token: TokenId, bidder: AccountId) -> (price: Option<Balance>)
        ensures
            price == if self@.contains_key((class, token, bidder)) {
                Some(self@[(class, token, bidder)])
            } else {
                None
            },
    {
        proof {
            use_type_invariant(self);
        }
        match position(&self.entries, class, token, bidder) {
            Some(i) => {
                proof {
                    lemma_offer_found(self.entries@, (class, token, bidder), i as int);
                }
                Some(self.entries[i].price)
            },
            None => None,
        }
    }

    /// Records the bidder's offer on the token, in place of the one the
    /// bidder had on it if there was one. No other offer changes.
    pub fn insert(&mut self, class: ClassId, token: TokenId, bidder: AccountId, price: Balance)
        ensures
            final(self)@ == old(self)@.insert((class, token, bidder), price),
    {
        proof {
            use_type_invariant(&*self);
        }
        let entry = OfferEntry { class, token, bidder, price };
        let ghost before = self.entries@;
        let mut entries: Vec<OfferEntry> = Vec::new();
        std::mem::swap(&mut entries, &mut self.entries);
        let found = position(&entries, class, token, bidder);
        match found {
            Some(i) => {
                entries.set(i, entry);
            },
            None => {
                entries.push(entry);
            },
        }
        proof {
            let key = (class, token, bidder);
            let after = entries@;
            let at: int = match found {
                Some(i) => i as int,
                None => before.len() as int,
            };
            assert(after[at] == entry);
            assert(forall|k: int| 0 <= k < after.len() && k != at ==> after[k] == before[k]);
            assert(forall|k: int| 0 <= k < before.len() && k != at ==> !offer_at(before, key, k));
            assert(one_offer_each(after)) by {
                assert forall|i: int, j: int| 0 <= i < j < after.len() implies (#[trigger] after[i]).key()
                    != (#[trigger] after[j]).key() by {
                    if i == at {
                        assert(!offer_at(before, key, j));
                    } else if j == at {
                        assert(!offer_at(before, key, i));
                    } else {
                        assert(before[i].key() != before[j].key());
                    }
                }
            }
            lemma_insert_map(before, after, at, entry);
        }
        self.entries = entries;
    }

    /// Deletes the bidder's offer on the token and returns its price, `None`
    /// if the bidder had no offer on it. No other offer changes.
    pub fn remove(&mut self, class: ClassId, token: TokenId, bidder: AccountId) -> (price: Option<
        Balance,
    >)
        ensures
            final(self)@ == old(self)@.remove((class, token, bidder)),
            price == if old(self)@.contains_key((class, token, bidder)) {
                Some(old(self)@[(class, token, bidder)])
            } else {
                None
            },
    {
        proof {
            use_type_invariant(&*self);
        }
        let ghost before = self.entries@;
        let mut entries: Vec<OfferEntry> = Vec::new();
        std::mem::swap(&mut entries, &mut self.entries);
        let price = match position(&entries, class, token, bidder) {
            Some(i) => {
                proof {
                    lemma_offer_found(before, (class, token, bidder), i as int);
                    lemma_remove_map(before, i as int);
                }
                let entry = entries.remove(i);
                Some(entry.price)
            },
            None => {
                assert(offers_of(before) =~= offers_of(before).remove((class, token, bidder)));
                None
            },
        };
        self.entries = entries;
        price
    }
}

} // verus!
