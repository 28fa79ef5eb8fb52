//! Read-only projections over the contract store.

use crate::store::{
    entries_view, lemma_index_of, store_contains, store_record, ContractStore, Selection,
    StoreView,
};
use crate::types::{ContractView, TimeLockContract};
use vstd::prelude::*;

verus! {

/// The entries of `s` whose record satisfies `p`, in store order.
pub open spec fn entries_where(s: StoreView, p: spec_fn(ContractView) -> bool) -> StoreView {
    s.filter(|e: (Seq<char>, ContractView)| p(e.1))
}

proof fn lemma_selection_filter(s: StoreView, sel: Selection, p: spec_fn(ContractView) -> bool)
    requires
        forall|c: ContractView| #[trigger] p(c) == sel.selects(c),
    ensures
        s.filter(|e: (Seq<char>, ContractView)| sel.selects(e.1)) == entries_where(s, p),
{
    assert((|e: (Seq<char>, ContractView)| sel.selects(e.1)) =~= (|e: (Seq<char>, ContractView)|
        p(e.1)));
}

/// The contract stored under `lock_id`, if any.
pub fn get_contract(store: &ContractStore, lock_id: String) -> (r: Option<TimeLockContract>)
    requires
        store.wf(),
    ensures
        match r {
            Some(c) => store_contains(store@, lock_id@) && c@ == store_record(store@, lock_id@),
            None => !store_contains(store@, lock_id@),
        },
{
    match store.find(lock_id.as_str()) {
        Some(i) => {
            proof {
                lemma_index_of(store@, i as int);
            }
            Some(store.record_at(i).snapshot())
        },
        None => None,
    }
}

/// Every stored (id, contract) pair, in store order.
pub fn get_all_contracts(store: &ContractStore) -> (r: Vec<(String, TimeLockContract)>)
    ensures
        entries_view(r@) == entries_where(store@, |c: ContractView| true),
{
    let sel = Selection::All;
    let r = store.select(&sel);
    proof {
        lemma_selection_filter(store@, sel, |c: ContractView| true);
    }
    r
}

/// The contracts funded by `sender`.
pub fn get_contracts_by_sender(store: &ContractStore, sender: String) -> (r: Vec<
    (String, TimeLockContract),
>)
    ensures
        entries_view(r@) == entries_where(store@, |c: ContractView| c.sender == sender@),
{
    let ghost who = sender@;
    let sel = Selection::BySender(sender);
    let r = store.select(&sel);
    proof {
        lemma_selection_filter(store@, sel, |c: ContractView| c.sender == who);
    }
    r
}

/// The contracts payable to `receiver`.
pub fn get_contracts_by_receiver(store: &ContractStore, receiver: String) -> (r: Vec<
    (String, TimeLockContract),
>)
    ensures
        entries_view(r@) == entries_where(store@, |c: ContractView| c.receiver == receiver@),
{
    let ghost who = receiver@;
    let sel = Selection::ByReceiver(receiver);
    let r = store.select(&sel);
    proof {
        lemma_selection_filter(store@, sel, |c: ContractView| c.receiver == who);
    }
    r
}

/// The contracts neither withdrawn nor refunded.
pub fn get_active_contracts(store: &ContractStore) -> (r: Vec<(String, TimeLockContract)>)
    ensures
        entries_view(r@) == entries_where(store@, |c: ContractView| c.is_active()),
{
    let sel = Selection::Active;
    let r = store.select(&sel);
    proof {
        lemma_selection_filter(store@, sel, |c: ContractView| c.is_active());
    }
    r
}

/// The active contracts whose timelock has passed at `now`.
pub fn get_expired_contracts(store: &ContractStore, now: u64) -> (r: Vec<
    (String, TimeLockContract),
>)
    ensures
        entries_view(r@) == entries_where(store@, |c: ContractView| c.is_expired_at(now)),
{
    let sel = Selection::ExpiredAt(now);
    let r = store.select(&sel);
    proof {
        lemma_selection_filter(store@, sel, |c: ContractView| c.is_expired_at(now));
    }
    r
}

/// The number of stored contracts.
pub fn get_contract_count(store: &ContractStore) -> (r: u64)
    ensures
        r as int == store@.len(),
{
    store.len() as u64
}

/// The version of the engine.
pub fn get_version() -> (r: String)
    ensures
        r@ == "1.0.0"@,
{
    "1.0.0".to_owned()
}

} // verus!
