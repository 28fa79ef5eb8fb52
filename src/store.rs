//! The contract store: commitment ids mapped to contract records, kept in
//! insertion order with no id held twice.

use crate::hashing::digest_hex;
use crate::types::{ContractView, TimeLockContract};
use crate::validation::HASHLOCK_LEN;
use vstd::prelude::*;

verus! {

/// The value of a sequence of stored entries.
pub open spec fn entries_view(v: Seq<(String, TimeLockContract)>) -> Seq<(Seq<char>, ContractView)> {
    v.map_values(|e: (String, TimeLockContract)| (e.0@, e.1@))
}

/// What every stored record satisfies.
pub open spec fn record_wf(r: ContractView) -> bool {
    &&& !(r.withdrawn && r.refunded)
    &&& r.hashlock.len() == HASHLOCK_LEN
    &&& (r.withdrawn || r.refunded) ==> !r.claim_in_flight
    &&& r.preimage is Some <==> r.withdrawn
    &&& r.preimage matches Some(p) ==> digest_hex(p) == r.hashlock
}

/// Which records a query selects.
pub enum Selection {
    All,
    BySender(String),
    ByReceiver(String),
    Active,
    ExpiredAt(u64),
}

impl Selection {
    pub open spec fn selects(&self, r: ContractView) -> bool {
        match self {
            Selection::All => true,
            Selection::BySender(s) => r.sender == s@,
            Selection::ByReceiver(s) => r.receiver == s@,
            Selection::Active => r.is_active(),
            Selection::ExpiredAt(now) => r.is_expired_at(*now),
        }
    }

    /// Whether the selection takes `rec`.
    pub fn takes(&self, rec: &TimeLockContract) -> (r: bool)
        ensures
            r == self.selects(rec@),
    {
        match self {
            Selection::All => true,
            Selection::BySender(s) => rec.sender == *s,
            Selection::ByReceiver(s) => rec.receiver == *s,
            Selection::Active => !rec.withdrawn && !rec.refunded,
            Selection::ExpiredAt(now) => *now >= rec.timelock && !rec.withdrawn && !rec.refunded,
        }
    }
}

/// The sole mutable state of the engine.
pub struct ContractStore {
    entries: Vec<(String, TimeLockContract)>,
}

impl View for ContractStore {
    type V = Seq<(Seq<char>, ContractView)>;

    closed spec fn view(&self) -> Seq<(Seq<char>, ContractView)> {
        entries_view(self.entries@)
    }
}

/// The value of a store: (id, record) pairs in insertion order.
pub type StoreView = Seq<(Seq<char>, ContractView)>;

/// Whether a record is stored under `id`.
pub open spec fn store_contains(s: StoreView, id: Seq<char>) -> bool {
    exists|i: int| 0 <= i < s.len() && #[trigger] s[i].0 == id
}

/// The position of the record stored under `id`.
pub open spec fn store_index(s: StoreView, id: Seq<char>) -> int {
    choose|i: int| 0 <= i < s.len() && #[trigger] s[i].0 == id
}

/// The record stored under `id` (meaningful when `store_contains(s, id)`).
pub open spec fn store_record(s: StoreView, id: Seq<char>) -> ContractView {
    s[store_index(s, id)].1
}

/// `s` with the record stored under `id` replaced by `r`.
pub open spec fn set_record(s: StoreView, id: Seq<char>, r: ContractView) -> StoreView {
    s.update(store_index(s, id), (id, r))
}

/// Ids are unique and every record is well formed.
pub open spec fn store_wf(s: StoreView) -> bool {
    &&& forall|i: int, j: int| 0 <= i < j < s.len() ==> #[trigger] s[i].0 != #[trigger] s[j].0
    &&& forall|i: int| 0 <= i < s.len() ==> record_wf(#[trigger] s[i].1)
}

/// In a well-formed store the record at position `i` is the one stored under
/// its id.
pub proof fn lemma_index_of(s: StoreView, i: int)
    requires
        store_wf(s),
        0 <= i < s.len(),
    ensures
        store_contains(s, s[i].0),
        store_index(s, s[i].0) == i,
        store_record(s, s[i].0) == s[i].1,
{
    let id = s[i].0;
    assert(s[i].0 == id);
    let j = store_index(s, id);
    assert(s[j].0 == id);
    if j < i {
        assert(s[j].0 != s[i].0);
    } else if i < j {
        assert(s[i].0 != s[j].0);
    }
}

/// The record stored under any id of a well-formed store is well formed.
pub proof fn lemma_record_wf(s: StoreView, id: Seq<char>)
    requires
        store_wf(s),
        store_contains(s, id),
    ensures
        record_wf(store_record(s, id)),
        0 <= store_index(s, id) < s.len(),
        s[store_index(s, id)].0 == id,
{
}

/// Replacing a record by a well-formed one keeps the store well formed.
pub proof fn lemma_set_record_wf(s: StoreView, id: Seq<char>, r: ContractView)
    requires
        store_wf(s),
        store_contains(s, id),
        record_wf(r),
    ensures
        store_wf(set_record(s, id, r)),
        set_record(s, id, r).len() == s.len(),
        store_contains(set_record(s, id, r), id),
        store_record(set_record(s, id, r), id) == r,
{
    let t = set_record(s, id, r);
    let k = store_index(s, id);
    assert forall|a: int, b: int| 0 <= a < b < t.len() implies #[trigger] t[a].0 != #[trigger] t[b].0 by {
        assert(t[a].0 == s[a].0);
        assert(t[b].0 == s[b].0);
    }
    lemma_index_of(t, k);
}

impl ContractStore {
    pub open spec fn wf(&self) -> bool {
        store_wf(self@)
    }

    /// An empty store.
    pub fn new() -> (r: ContractStore)
        ensures
            r@ == Seq::<(Seq<char>, ContractView)>::empty(),
            r.wf(),
    {
        let r = ContractStore { entries: Vec::new() };
        assert(r@ =~= Seq::<(Seq<char>, ContractView)>::empty());
        r
    }

    /// The number of stored records.
    pub fn len(&self) -> (r: usize)
        ensures
            r == self@.len(),
    {
        self.entries.len()
    }

    /// The position of the record stored under `id`, if any.
    pub fn find(&self, id: &str) -> (r: Option<usize>)
        ensures
            match r {
                Some(i) => i < self@.len() && self@[i as int].0 == id@,
                None => !store_contains(self@, id@),
            },
    {
        let key = id.to_owned();
        let mut i: usize = 0;
        while i < self.entries.len()
            invariant
                i <= self@.len(),
                self@.len() == self.entries@.len(),
                key@ == id@,
                forall|j: int| 0 <= j < i ==> #[trigger] self@[j].0 != id@,
            decreases self.entries@.len() - i,
        {
            if self.entries[i].0 == key {
                return Some(i);
            }
            i = i + 1;
        }
        None
    }

    /// The id at position `i`.
    pub fn id_at(&self, i: usize) -> (r: &String)
        requires
            i < self@.len(),
        ensures
            r@ == self@[i as int].0,
    {
        &self.entries[i].0
    }

    /// The record at position `i`.
    pub fn record_at(&self, i: usize) -> (r: &TimeLockContract)
        requires
            i < self@.len(),
        ensures
            r@ == self@[i as int].1,
    {
        &self.entries[i].1
    }

    /// Stores `rec` under a fresh `id`.
    pub fn insert_new(&mut self, id: String, rec: TimeLockContract)
        requires
            old(self).wf(),
            !store_contains(old(self)@, id@),
            record_wf(rec@),
        ensures
            final(self)@ == old(self)@.push((id@, rec@)),
            final(self).wf(),
    {
        self.entries.push((id, rec));
        assert(self@ =~= old(self)@.push((id@, rec@)));
        assert forall|i: int, j: int|
            0 <= i < j < self@.len() implies #[trigger] self@[i].0 != #[trigger] self@[j].0 by {
            if j == self@.len() - 1 {
                assert(old(self)@[i].0 == self@[i].0);
            }
        }
    }

    /// Replaces the record at position `i`, keeping its id.
    pub fn replace_at(&mut self, i: usize, rec: TimeLockContract)
        requires
            old(self).wf(),
            i < old(self)@.len(),
            record_wf(rec@),
        ensures
            final(self)@ == old(self)@.update(i as int, (old(self)@[i as int].0, rec@)),
            final(self).wf(),
    {
        let id = self.entries[i].0.clone();
        self.entries.set(i, (id, rec));
        assert(self@ =~= old(self)@.update(i as int, (old(self)@[i as int].0, rec@)));
        assert forall|a: int, b: int|
            0 <= a < b < self@.len() implies #[trigger] self@[a].0 != #[trigger] self@[b].0 by {
            assert(self@[a].0 == old(self)@[a].0);
            assert(self@[b].0 == old(self)@[b].0);
        }
    }

    /// Copies of the stored entries that `sel` takes, in store order.
    pub fn select(&self, sel: &Selection) -> (r: Vec<(String, TimeLockContract)>)
        ensures
            entries_view(r@) == self@.filter(|e: (Seq<char>, ContractView)| sel.selects(e.1)),
    {
        let ghost pred = |e: (Seq<char>, ContractView)| sel.selects(e.1);
        let mut out: Vec<(String, TimeLockContract)> = Vec::new();
        let mut i: usize = 0;
        while i < self.entries.len()
            invariant
                i <= self@.len(),
                self@.len() == self.entries@.len(),
                entries_view(out@) == self@.subrange(0, i as int).filter(pred),
                forall|e: (Seq<char>, ContractView)| #[trigger] pred(e) == sel.selects(e.1),
            decreases self.entries@.len() - i,
        {
            let ghost prev = out@;
            let entry = &self.entries[i];
            let taken = sel.takes(&entry.1);
            if taken {
                out.push((entry.0.clone(), entry.1.snapshot()));
            }
            proof {
                reveal(Seq::filter);
                let s = self@.subrange(0, i + 1);
                assert(s.drop_last() =~= self@.subrange(0, i as int));
                assert(s.last() == self@[i as int]);
                assert(self@[i as int] == (entry.0@, entry.1@));
                assert(pred(s.last()) == taken);
                if taken {
                    assert(entries_view(out@) =~= entries_view(prev).push(self@[i as int]));
                    assert(s.filter(pred) == s.drop_last().filter(pred).push(s.last()));
                } else {
                    assert(entries_view(out@) =~= entries_view(prev));
                    assert(s.filter(pred) == s.drop_last().filter(pred));
                }
            }
            i = i + 1;
        }
        assert(self@.subrange(0, i as int) =~= self@);
        out
    }
}

} // verus!
