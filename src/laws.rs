//! Properties of the lifecycle that hold for every input and every order in
//! which operations are processed.

use crate::hashing::{commitment_id_of, digest_hex};
use crate::lifecycle::{
    claim_begin_step, claim_finish_step, create_step, fresh_record, refund_step,
};
use crate::store::{
    lemma_index_of, lemma_record_wf, lemma_set_record_wf, record_wf, set_record, store_contains,
    store_index, store_record, store_wf, StoreView,
};
use crate::types::{BlockIndex, ContractView, HtlcError};
use crate::validation::create_check;
use vstd::prelude::*;

verus! {

/// The commitment id is a function of the defining tuple: equal tuples give
/// equal ids.
pub proof fn lemma_commitment_id_deterministic(
    sender: Seq<char>,
    receiver: Seq<char>,
    amount: u64,
    hashlock: Seq<char>,
    timelock: u64,
    sender2: Seq<char>,
    receiver2: Seq<char>,
    amount2: u64,
    hashlock2: Seq<char>,
    timelock2: u64,
)
    requires
        sender == sender2,
        receiver == receiver2,
        amount == amount2,
        hashlock == hashlock2,
        timelock == timelock2,
    ensures
        commitment_id_of(sender, receiver, amount, hashlock, timelock) == commitment_id_of(
            sender2,
            receiver2,
            amount2,
            hashlock2,
            timelock2,
        ),
{
}

/// Creating a contract a second time with the same parameters, while the
/// timelock is still in the future, is refused as a duplicate and changes
/// nothing.
pub proof fn lemma_create_twice_is_duplicate(
    s: StoreView,
    sender: Seq<char>,
    receiver: Seq<char>,
    amount: u64,
    hashlock: Seq<char>,
    timelock: u64,
    ledger_id: Seq<char>,
    now: u64,
    later: u64,
)
    requires
        create_step(s, sender, receiver, amount, hashlock, timelock, ledger_id, now).1 is Ok,
        later < timelock,
    ensures
        ({
            let s1 = create_step(s, sender, receiver, amount, hashlock, timelock, ledger_id, now).0;
            create_step(s1, sender, receiver, amount, hashlock, timelock, ledger_id, later) == (
                s1,
                Err::<Seq<char>, HtlcError>(HtlcError::DuplicateContract),
            )
        }),
{
    let id = commitment_id_of(sender, receiver, amount, hashlock, timelock);
    let s1 = create_step(s, sender, receiver, amount, hashlock, timelock, ledger_id, now).0;
    assert(s1[s.len() as int].0 == id);
    assert(store_contains(s1, id));
}

/// Creating a contract keeps the store well formed.
pub proof fn lemma_create_preserves_wf(
    s: StoreView,
    sender: Seq<char>,
    receiver: Seq<char>,
    amount: u64,
    hashlock: Seq<char>,
    timelock: u64,
    ledger_id: Seq<char>,
    now: u64,
)
    requires
        store_wf(s),
    ensures
        store_wf(create_step(s, sender, receiver, amount, hashlock, timelock, ledger_id, now).0),
{
    let cid = commitment_id_of(sender, receiver, amount, hashlock, timelock);
    if create_check(receiver, amount, hashlock, timelock, now) is Ok && !store_contains(s, cid) {
        let t = create_step(s, sender, receiver, amount, hashlock, timelock, ledger_id, now).0;
        assert(t == s.push(
            (cid, fresh_record(sender, receiver, amount, hashlock, timelock, ledger_id)),
        ));
        assert forall|i: int, j: int| 0 <= i < j < t.len() implies #[trigger] t[i].0
            != #[trigger] t[j].0 by {
            if j == s.len() {
                assert(s[i].0 == t[i].0);
            }
        }
        assert forall|i: int| 0 <= i < t.len() implies record_wf(#[trigger] t[i].1) by {
            if i < s.len() {
                assert(t[i] == s[i]);
            }
        }
    }
}

/// Starting a claim keeps the store well formed.
pub proof fn lemma_begin_claim_preserves_wf(
    s: StoreView,
    id: Seq<char>,
    preimage: Seq<char>,
    caller: Seq<char>,
    now: u64,
)
    requires
        store_wf(s),
    ensures
        store_wf(claim_begin_step(s, id, preimage, caller, now).0),
{
    if store_contains(s, id) {
        lemma_record_wf(s, id);
        let rec = store_record(s, id);
        if !rec.withdrawn && !rec.refunded {
            lemma_set_record_wf(s, id, ContractView { claim_in_flight: true, ..rec });
        }
    }
}

/// Finishing a claim keeps the store well formed, whatever the transfer's
/// outcome.
pub proof fn lemma_finish_claim_preserves_wf(
    s: StoreView,
    id: Seq<char>,
    preimage: Seq<char>,
    receipt: Option<BlockIndex>,
)
    requires
        store_wf(s),
    ensures
        store_wf(claim_finish_step(s, id, preimage, receipt).0),
{
    if store_contains(s, id) {
        lemma_record_wf(s, id);
        let rec = store_record(s, id);
        lemma_set_record_wf(s, id, ContractView { claim_in_flight: false, ..rec });
        if !rec.withdrawn && !rec.refunded && digest_hex(preimage) == rec.hashlock {
            lemma_set_record_wf(
                s,
                id,
                ContractView {
                    withdrawn: true,
                    preimage: Some(preimage),
                    claim_in_flight: false,
                    ..rec
                },
            );
        }
    }
}

/// A refund keeps the store well formed.
pub proof fn lemma_refund_preserves_wf(s: StoreView, id: Seq<char>, caller: Seq<char>, now: u64)
    requires
        store_wf(s),
    ensures
        store_wf(refund_step(s, id, caller, now).0),
{
    if store_contains(s, id) {
        lemma_record_wf(s, id);
        let rec = store_record(s, id);
        if !rec.withdrawn && !rec.refunded {
            lemma_set_record_wf(s, id, ContractView { refunded: true, claim_in_flight: false, ..rec });
        }
    }
}

/// In a well-formed store no record is both withdrawn and refunded.
pub proof fn lemma_flags_exclusive(s: StoreView, id: Seq<char>)
    requires
        store_wf(s),
        store_contains(s, id),
    ensures
        !(store_record(s, id).withdrawn && store_record(s, id).refunded),
{
    lemma_record_wf(s, id);
}

/// Once the timelock is reached a claim fails as expired, whatever the
/// preimage and whoever the caller, and changes nothing.
pub proof fn lemma_claim_after_expiry(
    s: StoreView,
    id: Seq<char>,
    preimage: Seq<char>,
    caller: Seq<char>,
    now: u64,
)
    requires
        store_contains(s, id),
        now >= store_record(s, id).timelock,
    ensures
        claim_begin_step(s, id, preimage, caller, now) == (
            s,
            Err::<(), HtlcError>(HtlcError::TimelockExpired),
        ),
{
}

/// Before the timelock a refund fails as not expired, whoever the caller, and
/// changes nothing.
pub proof fn lemma_refund_before_expiry(s: StoreView, id: Seq<char>, caller: Seq<char>, now: u64)
    requires
        store_contains(s, id),
        now < store_record(s, id).timelock,
    ensures
        refund_step(s, id, caller, now) == (s, Err::<(), HtlcError>(HtlcError::TimelockNotExpired)),
{
}

/// While a claim's transfer is outstanding, any further claim on the same
/// record fails and changes nothing; one that would otherwise be valid is
/// refused as a claim in progress.
pub proof fn lemma_no_second_claim_in_flight(
    s: StoreView,
    id: Seq<char>,
    preimage: Seq<char>,
    caller: Seq<char>,
    now: u64,
    preimage2: Seq<char>,
    caller2: Seq<char>,
    now2: u64,
)
    requires
        store_wf(s),
        claim_begin_step(s, id, preimage, caller, now).1 is Ok,
    ensures
        ({
            let s1 = claim_begin_step(s, id, preimage, caller, now).0;
            let second = claim_begin_step(s1, id, preimage2, caller2, now2);
            &&& second.0 == s1
            &&& second.1 is Err
            &&& (now2 < store_record(s, id).timelock && caller2 == store_record(s, id).receiver
                && digest_hex(preimage2) == store_record(s, id).hashlock) ==> second.1 == Err::<
                (),
                HtlcError,
            >(HtlcError::ClaimInProgress)
        }),
{
    lemma_record_wf(s, id);
    let rec = store_record(s, id);
    lemma_set_record_wf(s, id, ContractView { claim_in_flight: true, ..rec });
}

/// A transfer that completes after the record was refunded during the
/// suspension is not applied: the claim fails as a concurrent finalization
/// and the store is left as the refund made it.
pub proof fn lemma_refund_during_transfer(
    s: StoreView,
    id: Seq<char>,
    preimage: Seq<char>,
    receiver: Seq<char>,
    sender: Seq<char>,
    now: u64,
    later: u64,
    receipt: BlockIndex,
)
    requires
        store_wf(s),
        claim_begin_step(s, id, preimage, receiver, now).1 is Ok,
        refund_step(claim_begin_step(s, id, preimage, receiver, now).0, id, sender, later).1 is Ok,
    ensures
        ({
            let s2 = refund_step(
                claim_begin_step(s, id, preimage, receiver, now).0,
                id,
                sender,
                later,
            ).0;
            claim_finish_step(s2, id, preimage, Some(receipt)) == (
                s2,
                Err::<(), HtlcError>(HtlcError::ConcurrentFinalization),
            )
        }),
{
    lemma_record_wf(s, id);
    let rec = store_record(s, id);
    let r1 = ContractView { claim_in_flight: true, ..rec };
    lemma_set_record_wf(s, id, r1);
    let s1 = claim_begin_step(s, id, preimage, receiver, now).0;
    let rr = ContractView { refunded: true, claim_in_flight: false, ..r1 };
    lemma_set_record_wf(s1, id, rr);
}


/// A claim by the receiver before the timelock whose preimage does not hash
/// to the hashlock is refused as an invalid preimage and changes nothing.
pub proof fn lemma_wrong_preimage_refused(
    s: StoreView,
    id: Seq<char>,
    preimage: Seq<char>,
    now: u64,
)
    requires
        store_contains(s, id),
        now < store_record(s, id).timelock,
        digest_hex(preimage) != store_record(s, id).hashlock,
    ensures
        claim_begin_step(s, id, preimage, store_record(s, id).receiver, now) == (
            s,
            Err::<(), HtlcError>(HtlcError::InvalidPreimage),
        ),
{
}

/// One operation on the store, as the host may schedule it; a claim appears
/// as its two halves, which other operations may separate.
pub enum Op {
    Create {
        sender: Seq<char>,
        receiver: Seq<char>,
        amount: u64,
        hashlock: Seq<char>,
        timelock: u64,
        ledger_id: Seq<char>,
        now: u64,
    },
    BeginClaim { id: Seq<char>, preimage: Seq<char>, caller: Seq<char>, now: u64 },
    FinishClaim { id: Seq<char>, preimage: Seq<char>, receipt: Option<BlockIndex> },
    Refund { id: Seq<char>, caller: Seq<char>, now: u64 },
}

/// The store after `op`.
pub open spec fn apply(s: StoreView, op: Op) -> StoreView {
    match op {
        Op::Create { sender, receiver, amount, hashlock, timelock, ledger_id, now } => create_step(
            s,
            sender,
            receiver,
            amount,
            hashlock,
            timelock,
            ledger_id,
            now,
        ).0,
        Op::BeginClaim { id, preimage, caller, now } => claim_begin_step(
            s,
            id,
            preimage,
            caller,
            now,
        ).0,
        Op::FinishClaim { id, preimage, receipt } => claim_finish_step(s, id, preimage, receipt).0,
        Op::Refund { id, caller, now } => refund_step(s, id, caller, now).0,
    }
}

/// Whether `op` is a claim on `id` that succeeds on `s`.
pub open spec fn claim_succeeds(s: StoreView, op: Op, id: Seq<char>) -> bool {
    match op {
        Op::FinishClaim { id: cid, preimage, receipt } => cid == id && claim_finish_step(
            s,
            cid,
            preimage,
            receipt,
        ).1 is Ok,
        _ => false,
    }
}

/// The store after running `ops` in order.
pub open spec fn run(s: StoreView, ops: Seq<Op>) -> StoreView
    decreases ops.len(),
{
    if ops.len() == 0 {
        s
    } else {
        apply(run(s, ops.drop_last()), ops.last())
    }
}

/// How many claims on `id` succeed while `ops` run.
pub open spec fn successful_claims(s: StoreView, ops: Seq<Op>, id: Seq<char>) -> nat
    decreases ops.len(),
{
    if ops.len() == 0 {
        0
    } else {
        successful_claims(s, ops.drop_last(), id) + if claim_succeeds(
            run(s, ops.drop_last()),
            ops.last(),
            id,
        ) {
            1nat
        } else {
            0nat
        }
    }
}

/// Whether the record under `id` has been released to its receiver.
pub open spec fn withdrawn_in(s: StoreView, id: Seq<char>) -> bool {
    store_contains(s, id) && store_record(s, id).withdrawn
}

proof fn lemma_set_other_record(s: StoreView, id2: Seq<char>, r: ContractView, id: Seq<char>)
    requires
        store_wf(s),
        store_contains(s, id2),
        store_contains(s, id),
        record_wf(r),
        id != id2,
    ensures
        store_contains(set_record(s, id2, r), id),
        store_record(set_record(s, id2, r), id) == store_record(s, id),
{
    lemma_record_wf(s, id);
    lemma_record_wf(s, id2);
    lemma_set_record_wf(s, id2, r);
    let t = set_record(s, id2, r);
    let k = store_index(s, id);
    assert(t[k] == s[k]);
    lemma_index_of(t, k);
}

/// A withdrawal is never undone, and a successful claim on `id` is one that
/// finds the record not yet withdrawn and leaves it withdrawn.
proof fn lemma_apply_withdrawn(s: StoreView, op: Op, id: Seq<char>)
    requires
        store_wf(s),
    ensures
        store_wf(apply(s, op)),
        withdrawn_in(s, id) ==> withdrawn_in(apply(s, op), id),
        claim_succeeds(s, op, id) ==> !withdrawn_in(s, id) && withdrawn_in(apply(s, op), id),
{
    match op {
        Op::Create { sender, receiver, amount, hashlock, timelock, ledger_id, now } => {
            lemma_create_preserves_wf(s, sender, receiver, amount, hashlock, timelock, ledger_id, now);
            let t = apply(s, op);
            if withdrawn_in(s, id) {
                lemma_record_wf(s, id);
                let k = store_index(s, id);
                assert(t[k] == s[k]);
                lemma_index_of(t, k);
            }
        },
        Op::BeginClaim { id: id2, preimage, caller, now } => {
            lemma_begin_claim_preserves_wf(s, id2, preimage, caller, now);
            if withdrawn_in(s, id) && store_contains(s, id2) && id != id2 {
                lemma_record_wf(s, id2);
                let rec = store_record(s, id2);
                if !rec.withdrawn && !rec.refunded {
                    lemma_set_other_record(s, id2, ContractView { claim_in_flight: true, ..rec }, id);
                }
            }
        },
        Op::FinishClaim { id: id2, preimage, receipt } => {
            lemma_finish_claim_preserves_wf(s, id2, preimage, receipt);
            if store_contains(s, id2) {
                lemma_record_wf(s, id2);
                let rec = store_record(s, id2);
                let r0 = ContractView { claim_in_flight: false, ..rec };
                let rw = ContractView {
                    withdrawn: true,
                    preimage: Some(preimage),
                    claim_in_flight: false,
                    ..rec
                };
                lemma_set_record_wf(s, id2, r0);
                if !rec.withdrawn && !rec.refunded && digest_hex(preimage) == rec.hashlock {
                    lemma_set_record_wf(s, id2, rw);
                }
                if withdrawn_in(s, id) && id != id2 {
                    lemma_set_other_record(s, id2, r0, id);
                    if !rec.withdrawn && !rec.refunded && digest_hex(preimage) == rec.hashlock {
                        lemma_set_other_record(s, id2, rw, id);
                    }
                }
            }
        },
        Op::Refund { id: id2, caller, now } => {
            lemma_refund_preserves_wf(s, id2, caller, now);
            if withdrawn_in(s, id) && store_contains(s, id2) && id != id2 {
                lemma_record_wf(s, id2);
                let rec = store_record(s, id2);
                if !rec.withdrawn && !rec.refunded {
                    lemma_set_other_record(
                        s,
                        id2,
                        ContractView { refunded: true, claim_in_flight: false, ..rec },
                        id,
                    );
                }
            }
        },
    }
}

/// Whatever operations run, in whatever order and however the halves of
/// claims interleave, at most one claim on a contract succeeds, and none
/// does once the contract has been withdrawn.
pub proof fn lemma_at_most_one_claim_succeeds(s: StoreView, ops: Seq<Op>, id: Seq<char>)
    requires
        store_wf(s),
    ensures
        store_wf(run(s, ops)),
        successful_claims(s, ops, id) + (if withdrawn_in(s, id) { 1nat } else { 0nat }) <= (
        if withdrawn_in(run(s, ops), id) {
            1nat
        } else {
            0nat
        }),
        successful_claims(s, ops, id) <= 1,
    decreases ops.len(),
{
    if ops.len() > 0 {
        lemma_at_most_one_claim_succeeds(s, ops.drop_last(), id);
        lemma_apply_withdrawn(run(s, ops.drop_last()), ops.last(), id);
    }
}

} // verus!
