//! The extended state store: the side record of each token, kept under the
//! token's identity. A token that was never written reads as the blank
//! record.

use vstd::prelude::*;
use vstd::std_specs::cmp::PartialEqSpecImpl;
use crate::types::{ClassId, ExtendedInfo, TokenId};

verus! {

/// One written record and the token it belongs to.
#[derive(Clone, Copy, Debug, PartialEq, Eq)]
struct InfoEntry {
    class: ClassId,
    token: TokenId,
    info: ExtendedInfo,
}

impl InfoEntry {
    /// The identity of the token the record belongs to.
    spec fn key(self) -> (ClassId, TokenId) {
        (self.class, self.token)
    }
}

/// The side records that were written so far, at most one for each token.
#[derive(Debug)]
pub struct ExtendedStore {
    entries: Vec<InfoEntry>,
}

/// No two positions of the sequence hold a record of the same token.
spec fn one_record_each(entries: Seq<InfoEntry>) -> bool {
    forall|i: int, j: int|
        0 <= i < j < entries.len() ==> (#[trigger] entries[i]).key() != (#[trigger] entries[j]).key()
}

/// Position `i` holds the record of the token.
spec fn record_at(entries: Seq<InfoEntry>, key: (ClassId, TokenId), i: int) -> bool {
    0 <= i < entries.len() && entries[i].key() == key
}

/// The records as a map from token identity to record.
spec fn records_of(entries: Seq<InfoEntry>) -> Map<(ClassId, TokenId), ExtendedInfo> {
    Map::new(
        |key: (ClassId, TokenId)| exists|i: int| record_at(entries, key, i),
        |key: (ClassId, TokenId)| entries[choose|i: int| record_at(entries, key, i)].info,
    )
}

/// Where each token has one record at most, the record found at a position
/// is the one the map gives.
proof fn lemma_record_found(entries: Seq<InfoEntry>, key: (ClassId, TokenId), i: int)
    requires
        one_record_each(entries),
        record_at(entries, key, i),
    ensures
        records_of(entries).contains_key(key),
        records_of(entries)[key] == entries[i].info,
{
    let c = choose|c: int| record_at(entries, key, c);
    assert(record_at(entries, key, c));
    if c < i {
        assert(entries[c].key() != entries[i].key());
    } else if i < c {
        assert(entries[i].key() != entries[c].key());
    }
}

/// The position that holds the token's record, if one does.
fn position(entries: &Vec<InfoEntry>, class: ClassId, token: TokenId) -> (found: Option<usize>)
    ensures
        match found {
            Some(i) => record_at(entries@, (class, token), i as int),
            None => forall|i: int| !record_at(entries@, (class, token), i),
        },
{
    let mut i: usize = 0;
    while i < entries.len()
        invariant
            i <= entries@.len(),
            forall|k: int| 0 <= k < i ==> !record_at(entries@, (class, token), k),
        decreases entries@.len() - i,
    {
        if entries[i].class == class && entries[i].token == token {
            return Some(i);
        }
        i += 1;
    }
    None
}

/// Whether every record of `a` stands in `b` too, for the same token.
fn covered_by(a: &Vec<InfoEntry>, b: &Vec<InfoEntry>) -> (all: bool)
    requires
        one_record_each(a@),
        one_record_each(b@),
    ensures
        all == records_of(a@).submap_of(records_of(b@)),
{
    let mut i: usize = 0;
    while i < a.len()
        invariant
            i <= a@.len(),
            one_record_each(a@),
            one_record_each(b@),
            forall|k: int|
                0 <= k < i ==> records_of(b@).contains_key((#[trigger] a@[k]).key()) && records_of(
                    b@,
                )[a@[k].key()] == a@[k].info,
        decreases a@.len() - i,
    {
        let entry = a[i];
        proof {
            lemma_record_found(a@, entry.key(), i as int);
        }
        match position(b, entry.class, entry.token) {
            Some(j) => {
                proof {
                    lemma_record_found(b@, entry.key(), j as int);
                }
                if b[j].info != entry.info {
                    assert(records_of(a@).dom().contains(entry.key()));
                    assert(records_of(b@).dom().contains(entry.key()));
                    return false;
                }
            },
            None => {
                assert(records_of(a@).dom().contains(entry.key()));
                assert(!records_of(b@).dom().contains(entry.key()));
                return false;
            },
        }
        i += 1;
    }
    proof {
        assert forall|key: (ClassId, TokenId)| #[trigger]
            records_of(a@).contains_key(key) implies records_of(b@).contains_key(key) && records_of(
            a@,
        )[key] == records_of(b@)[key] by {
            let w = choose|w: int| record_at(a@, key, w);
            lemma_record_found(a@, key, w);
            assert(a@[w].key() == key);
        }
    }
    true
}

impl View for ExtendedStore {
    type V = Map<(ClassId, TokenId), ExtendedInfo>;

    closed spec fn view(&self) -> Map<(ClassId, TokenId), ExtendedInfo> {
        records_of(self.entries@)
    }
}

impl Clone for ExtendedStore {
    fn clone(&self) -> (copy: ExtendedStore)
        ensures
            copy@ == self@,
    {
        proof {
            use_type_invariant(self);
        }
        let entries = self.entries.clone();
        assert(entries@ =~= self.entries@);
        ExtendedStore { entries }
    }
}

impl PartialEq for ExtendedStore {
    /// Two stores are equal when they hold the same records, in whatever
    /// order these were written.
    fn eq(&self, other: &ExtendedStore) -> (same: bool) {
        proof {
            use_type_invariant(self);
            use_type_invariant(other);
        }
        let same = covered_by(&self.entries, &other.entries) && covered_by(
            &other.entries,
            &self.entries,
        );
        proof {
            if same {
                let (m1, m2) = (self@, other@);
                assert forall|key: (ClassId, TokenId)| m1.dom().contains(key) implies m2.dom().contains(
                    key,
                ) && m1[key] == m2[key] by {}
                assert forall|key: (ClassId, TokenId)| m2.dom().contains(key) implies m1.dom().contains(
                    key,
                ) by {}
                assert(m1 =~= m2);
            } else {
                let (m1, m2) = (self@, other@);
                assert(!m1.submap_of(m2) || !m2.submap_of(m1));
            }
        }
        same
    }
}

impl PartialEqSpecImpl for ExtendedStore {
    open spec fn obeys_eq_spec() -> bool {
        true
    }

    open spec fn eq_spec(&self, other: &ExtendedStore) -> bool {
        self@ == other@
    }
}

impl ExtendedStore {
    #[verifier::type_invariant]
    spec fn well_formed(self) -> bool {
        one_record_each(self.entries@)
    }

    /// The record a token reads as: the one written last, the blank record
    /// if none was.
    pub open spec fn record(self, class: ClassId, token: TokenId) -> ExtendedInfo {
        if self@.contains_key((class, token)) {
            self@[(class, token)]
        } else {
            ExtendedInfo::blank()
        }
    }

    /// A store in which nothing was written.
    pub fn new() -> (store: ExtendedStore)
        ensures
            store@ == Map::<(ClassId, TokenId), ExtendedInfo>::empty(),
    {
        let store = ExtendedStore { entries: Vec::new() };
        assert(store@ =~= Map::<(ClassId, TokenId), ExtendedInfo>::empty());
        store
    }

    /// The record written for the token, `None` if none was.
    pub fn lookup(&self, class: ClassId, token: TokenId) -> (found: Option<ExtendedInfo>)
        ensures
            found == if self@.contains_key((class, token)) {
                Some(self@[(class, token)])
            } else {
                None
            },
    {
        proof {
            use_type_invariant(self);
        }
        match position(&self.entries, class, token) {
            Some(i) => {
                proof {
                    lemma_record_found(self.entries@, (class, token), i as int);
                }
                Some(self.entries[i].info)
            },
            None => None,
        }
    }

    /// The record the token reads as. Never fails: a token without a written
    /// record reads as the blank record.
    pub fn get(&self, class: ClassId, token: TokenId) -> (info: ExtendedInfo)
        ensures
            info == self.record(class, token),
    {
        match self.lookup(class, token) {
            Some(info) => info,
            None => ExtendedInfo::default(),
        }
    }

    /// Writes the token's record, in place of the one it had if it had one.
    /// No other token's record changes.
    pub fn put(&mut self, class: ClassId, token: TokenId, info: ExtendedInfo)
        ensures
            final(self)@ == old(self)@.insert((class, token), info),
    {
        proof {
            use_type_invariant(&*self);
        }
        let entry = InfoEntry { class, token, info };
        let ghost before = self.entries@;
        let mut entries: Vec<InfoEntry> = Vec::new();
        std::mem::swap(&mut entries, &mut self.entries);
        let found = position(&entries, class, token);
        match found {
            Some(i) => {
                entries.set(i, entry);
            },
            None => {
                entries.push(entry);
            },
        }
        proof {
            let key = (class, token);
            let after = entries@;
            let at: int = match found {
                Some(i) => i as int,
                None => before.len() as int,
            };
            assert(after[at] == entry);
            assert(forall|k: int| 0 <= k < after.len() && k != at ==> after[k] == before[k]);
            assert(forall|k: int| 0 <= k < before.len() && k != at ==> !record_at(before, key, k));
            assert(one_record_each(after)) by {
                assert forall|i: int, j: int| 0 <= i < j < after.len() implies (#[trigger] after[i]).key()
                    != (#[trigger] after[j]).key() by {
                    if i == at {
                        assert(!record_at(before, key, j));
                    } else if j == at {
                        assert(!record_at(before, key, i));
                    } else {
                        assert(before[i].key() != before[j].key());
                    }
                }
            }
            lemma_put_map(before, after, at, entry);
        }
        self.entries = entries;
    }
}

/// Writing `entry` at position `at`, where its token's record stood or at
/// the end where it had none, inserts into the map.
proof fn lemma_put_map(before: Seq<InfoEntry>, after: Seq<InfoEntry>, at: int, entry: InfoEntry)
    requires
        one_record_each(before),
        one_record_each(after),
        0 <= at < after.len(),
        after[at] == entry,
        after.len() == before.len() || (after.len() == before.len() + 1 && at == before.len()),
        at < before.len() ==> before[at].key() == entry.key(),
        forall|k: int| 0 <= k < after.len() && k != at ==> after[k] == before[k],
        forall|k: int| 0 <= k < before.len() && k != at ==> !record_at(before, entry.key(), k),
    ensures
        records_of(after) == records_of(before).insert(entry.key(), entry.info),
{
    let target = records_of(before).insert(entry.key(), entry.info);
    assert forall|key: (ClassId, TokenId)| records_of(after).contains_key(key) implies #[trigger]
        target.contains_key(key) by {
        let w = choose|i: int| record_at(after, key, i);
        if w != at {
            assert(record_at(before, key, w));
        }
    }
    assert forall|key: (ClassId, TokenId)| #[trigger] target.contains_key(key) implies records_of(
        after,
    ).contains_key(key) by {
        if key == entry.key() {
            assert(record_at(after, key, at));
        } else {
            let w = choose|i: int| record_at(before, key, i);
            assert(record_at(before, key, w));
            assert(record_at(after, key, w));
        }
    }
    assert forall|key: (ClassId, TokenId)| #[trigger]
        records_of(after).contains_key(key) implies records_of(after)[key] == target[key] by {
        let w = choose|i: int| record_at(after, key, i);
        lemma_record_found(after, key, w);
        if w != at {
            assert(record_at(before, key, w));
            lemma_record_found(before, key, w);
        }
    }
    assert(records_of(after) =~= target);
}

} // verus!
