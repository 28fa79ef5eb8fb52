//! The create / claim / refund lifecycle over a contract store.
//!
//! A claim is split at its ledger transfer: `claim` validates the request and
//! marks the record as having a claim in flight, and hands back what to
//! transfer; `complete_claim` takes the transfer's outcome and applies exactly
//! one terminal result. While the marker is set every other claim on the
//! record fails, so no two transfers can be issued for one contract.

use crate::hashing::{commitment_id_of, digest_hex, generate_lock_id, verify_preimage};
use crate::store::{
    lemma_index_of, lemma_set_record_wf, set_record, store_contains, store_record, ContractStore,
    StoreView,
};
use crate::types::{
    opt_view, BlockIndex, ClaimRequest, ContractResponse, ContractView, HtlcError,
    NewContractRequest, RefundRequest, TimeLockContract, TransferResult,
};
use crate::validation::{
    claim_check, create_check, refund_check, validate_claim_request,
    validate_new_contract_request, validate_refund_request,
};
use vstd::prelude::*;

verus! {

/// A freshly created record: not finalized, no preimage, no claim in flight.
pub open spec fn fresh_record(
    sender: Seq<char>,
    receiver: Seq<char>,
    amount: u64,
    hashlock: Seq<char>,
    timelock: u64,
    ledger_id: Seq<char>,
) -> ContractView {
    ContractView {
        sender,
        receiver,
        amount,
        hashlock,
        timelock,
        preimage: None,
        withdrawn: false,
        refunded: false,
        ledger_id,
        claim_in_flight: false,
    }
}

/// Creation by `sender` at `now`: the next store and the new id, or the error.
pub open spec fn create_step(
    s: StoreView,
    sender: Seq<char>,
    receiver: Seq<char>,
    amount: u64,
    hashlock: Seq<char>,
    timelock: u64,
    ledger_id: Seq<char>,
    now: u64,
) -> (StoreView, Result<Seq<char>, HtlcError>) {
    let id = commitment_id_of(sender, receiver, amount, hashlock, timelock);
    match create_check(receiver, amount, hashlock, timelock, now) {
        Err(e) => (s, Err(e)),
        Ok(_) => if store_contains(s, id) {
            (s, Err(HtlcError::DuplicateContract))
        } else {
            (
                s.push((id, fresh_record(sender, receiver, amount, hashlock, timelock, ledger_id))),
                Ok(id),
            )
        },
    }
}

/// The first half of a claim on `id` by `caller` at `now`: on success the
/// record is marked as having a claim in flight.
pub open spec fn claim_begin_step(
    s: StoreView,
    id: Seq<char>,
    preimage: Seq<char>,
    caller: Seq<char>,
    now: u64,
) -> (StoreView, Result<(), HtlcError>) {
    if !store_contains(s, id) {
        (s, Err(HtlcError::NotFound))
    } else {
        let rec = store_record(s, id);
        match claim_check(rec, caller, now, digest_hex(preimage) == rec.hashlock) {
            Err(e) => (s, Err(e)),
            Ok(_) => (set_record(s, id, ContractView { claim_in_flight: true, ..rec }), Ok(())),
        }
    }
}

/// The second half of a claim on `id`, given the transfer's receipt (`None`
/// when the transfer failed). A transfer that completed after the record was
/// finalized, or while no claim of it was in flight, is not applied.
pub open spec fn claim_finish_step(
    s: StoreView,
    id: Seq<char>,
    preimage: Seq<char>,
    receipt: Option<BlockIndex>,
) -> (StoreView, Result<(), HtlcError>) {
    if !store_contains(s, id) {
        (s, Err(HtlcError::NotFound))
    } else {
        let rec = store_record(s, id);
        match receipt {
            None => (
                set_record(s, id, ContractView { claim_in_flight: false, ..rec }),
                Err(HtlcError::TransferFailed),
            ),
            Some(_) => if rec.withdrawn || rec.refunded || !rec.claim_in_flight {
                (s, Err(HtlcError::ConcurrentFinalization))
            } else if digest_hex(preimage) != rec.hashlock {
                (
                    set_record(s, id, ContractView { claim_in_flight: false, ..rec }),
                    Err(HtlcError::InvalidPreimage),
                )
            } else {
                (
                    set_record(
                        s,
                        id,
                        ContractView {
                            withdrawn: true,
                            preimage: Some(preimage),
                            claim_in_flight: false,
                            ..rec
                        },
                    ),
                    Ok(()),
                )
            },
        }
    }
}

/// A refund of `id` by `caller` at `now`.
pub open spec fn refund_step(s: StoreView, id: Seq<char>, caller: Seq<char>, now: u64) -> (
    StoreView,
    Result<(), HtlcError>,
) {
    if !store_contains(s, id) {
        (s, Err(HtlcError::NotFound))
    } else {
        let rec = store_record(s, id);
        match refund_check(rec, caller, now) {
            Err(e) => (s, Err(e)),
            Ok(_) => (
                set_record(
                    s,
                    id,
                    ContractView { refunded: true, claim_in_flight: false, ..rec },
                ),
                Ok(()),
            ),
        }
    }
}

/// A successful response for `id` carrying `rec`, `receipt` and `message`.
pub open spec fn is_success_response(
    r: ContractResponse,
    id: Seq<char>,
    rec: ContractView,
    receipt: Option<BlockIndex>,
    message: Seq<char>,
) -> bool {
    &&& r.success
    &&& r.error is None
    &&& r.message@ == message
    &&& opt_view(r.lock_id) == Some(id)
    &&& r.contract matches Some(c) && c@ == rec
    &&& r.transfer_result == receipt
}

/// A failed response reporting `e`.
pub open spec fn is_failure_response(r: ContractResponse, e: HtlcError) -> bool {
    &&& !r.success
    &&& r.error == Some(e)
    &&& r.message@ == e.message_spec()
    &&& r.lock_id is None
    &&& r.contract is None
    &&& r.transfer_result is None
}

/// A transfer that a validated claim asks for.
#[derive(Debug)]
pub struct PendingClaim {
    pub lock_id: String,
    pub preimage: String,
    pub ledger_id: String,
    pub receiver: String,
    pub amount: u64,
}

/// What a claim asks for next: a transfer, or an answer to the caller.
#[derive(Debug)]
pub enum ClaimStep {
    Transfer(PendingClaim),
    Respond(ContractResponse),
}

fn create_success_response(
    lock_id: String,
    contract: TimeLockContract,
    message: &str,
    transfer_result: Option<BlockIndex>,
) -> (r: ContractResponse)
    ensures
        is_success_response(r, lock_id@, contract@, transfer_result, message@),
{
    ContractResponse {
        success: true,
        message: message.to_owned(),
        lock_id: Some(lock_id),
        contract: Some(contract),
        transfer_result,
        error: None,
    }
}

fn create_error_response(error: HtlcError) -> (r: ContractResponse)
    ensures
        is_failure_response(r, error),
{
    ContractResponse {
        success: false,
        message: error.message(),
        lock_id: None,
        contract: None,
        transfer_result: None,
        error: Some(error),
    }
}

fn create_contract_not_found_response() -> (r: ContractResponse)
    ensures
        is_failure_response(r, HtlcError::NotFound),
{
    create_error_response(HtlcError::NotFound)
}


/// Creates a contract funded by `caller` at clock reading `now`.
pub fn new_contract(
    store: &mut ContractStore,
    request: NewContractRequest,
    caller: &str,
    now: u64,
) -> (r: ContractResponse)
    requires
        old(store).wf(),
    ensures
        final(store).wf(),
        ({
            let step = create_step(
                old(store)@,
                caller@,
                request.receiver@,
                request.amount,
                request.hashlock@,
                request.timelock,
                request.ledger_id@,
                now,
            );
            &&& final(store)@ == step.0
            &&& match step.1 {
                Ok(id) => is_success_response(
                    r,
                    id,
                    fresh_record(
                        caller@,
                        request.receiver@,
                        request.amount,
                        request.hashlock@,
                        request.timelock,
                        request.ledger_id@,
                    ),
                    None,
                    "Contract created successfully"@,
                ),
                Err(e) => is_failure_response(r, e),
            }
        }),
{
    if let Err(error) = validate_new_contract_request(&request, now) {
        return create_error_response(error);
    }
    let lock_id = generate_lock_id(
        caller,
        request.receiver.as_str(),
        request.amount,
        request.hashlock.as_str(),
        request.timelock,
    );
    if store.find(lock_id.as_str()).is_some() {
        return create_error_response(HtlcError::DuplicateContract);
    }
    let contract = TimeLockContract {
        sender: caller.to_owned(),
        receiver: request.receiver,
        amount: request.amount,
        hashlock: request.hashlock,
        timelock: request.timelock,
        preimage: None,
        withdrawn: false,
        refunded: false,
        ledger_id: request.ledger_id,
        claim_in_flight: false,
    };
    let stored = contract.snapshot();
    store.insert_new(lock_id.clone(), stored);
    create_success_response(lock_id, contract, "Contract created successfully", None)
}


/// What `claim` hands on for a validated request on record `rec`.
pub open spec fn is_pending_for(p: PendingClaim, id: Seq<char>, preimage: Seq<char>, rec: ContractView) -> bool {
    &&& p.lock_id@ == id
    &&& p.preimage@ == preimage
    &&& p.ledger_id@ == rec.ledger_id
    &&& p.receiver@ == rec.receiver
    &&& p.amount == rec.amount
}

/// Starts a claim by `caller` at `now`. On success the record is marked as
/// having a claim in flight and the transfer to make is returned; the claim is
/// finished by `complete_claim` with that transfer's outcome.
pub fn claim(store: &mut ContractStore, request: ClaimRequest, caller: &str, now: u64) -> (r:
    ClaimStep)
    requires
        old(store).wf(),
    ensures
        final(store).wf(),
        ({
            let step = claim_begin_step(
                old(store)@,
                request.lock_id@,
                request.preimage@,
                caller@,
                now,
            );
            &&& final(store)@ == step.0
            &&& match step.1 {
                Ok(_) => r matches ClaimStep::Transfer(p) && is_pending_for(
                    p,
                    request.lock_id@,
                    request.preimage@,
                    store_record(old(store)@, request.lock_id@),
                ),
                Err(e) => r matches ClaimStep::Respond(resp) && is_failure_response(resp, e),
            }
        }),
{
    let i = match store.find(request.lock_id.as_str()) {
        Some(i) => i,
        None => return ClaimStep::Respond(create_contract_not_found_response()),
    };
    proof {
        lemma_index_of(store@, i as int);
    }
    let rec = store.record_at(i);
    if let Err(error) = validate_claim_request(&request, rec, caller, now) {
        return ClaimStep::Respond(create_error_response(error));
    }
    let mut marked = rec.snapshot();
    marked.claim_in_flight = true;
    let pending = PendingClaim {
        lock_id: request.lock_id,
        preimage: request.preimage,
        ledger_id: rec.ledger_id.clone(),
        receiver: rec.receiver.clone(),
        amount: rec.amount,
    };
    proof {
        lemma_set_record_wf(store@, pending.lock_id@, marked@);
    }
    store.replace_at(i, marked);
    ClaimStep::Transfer(pending)
}

/// The receipt that a transfer outcome carries, if it succeeded.
pub open spec fn receipt_of(outcome: TransferResult) -> Option<BlockIndex> {
    match outcome {
        TransferResult::Completed(b) => Some(b),
        TransferResult::Failed(_) => None,
    }
}

/// Finishes a claim started by `claim`, given the outcome of its transfer.
pub fn complete_claim(store: &mut ContractStore, pending: PendingClaim, outcome: TransferResult) -> (r:
    ContractResponse)
    requires
        old(store).wf(),
    ensures
        final(store).wf(),
        ({
            let step = claim_finish_step(
                old(store)@,
                pending.lock_id@,
                pending.preimage@,
                receipt_of(outcome),
            );
            &&& final(store)@ == step.0
            &&& match step.1 {
                Ok(_) => is_success_response(
                    r,
                    pending.lock_id@,
                    store_record(step.0, pending.lock_id@),
                    receipt_of(outcome),
                    "Claim successful"@,
                ),
                Err(e) => is_failure_response(r, e),
            }
        }),
{
    let i = match store.find(pending.lock_id.as_str()) {
        Some(i) => i,
        None => return create_contract_not_found_response(),
    };
    proof {
        lemma_index_of(store@, i as int);
    }
    let rec = store.record_at(i);
    let block_index = match outcome {
        TransferResult::Completed(b) => b,
        TransferResult::Failed(_) => {
            let mut cleared = rec.snapshot();
            cleared.claim_in_flight = false;
            proof {
                lemma_set_record_wf(store@, pending.lock_id@, cleared@);
            }
            store.replace_at(i, cleared);
            return create_error_response(HtlcError::TransferFailed);
        },
    };
    if rec.withdrawn || rec.refunded || !rec.claim_in_flight {
        return create_error_response(HtlcError::ConcurrentFinalization);
    }
    let mut updated = rec.snapshot();
    updated.claim_in_flight = false;
    if !verify_preimage(pending.preimage.as_str(), rec.hashlock.as_str()) {
        proof {
            lemma_set_record_wf(store@, pending.lock_id@, updated@);
        }
        store.replace_at(i, updated);
        return create_error_response(HtlcError::InvalidPreimage);
    }
    updated.withdrawn = true;
    updated.preimage = Some(pending.preimage);
    proof {
        lemma_set_record_wf(store@, pending.lock_id@, updated@);
    }
    let snapshot = updated.snapshot();
    store.replace_at(i, updated);
    create_success_response(pending.lock_id, snapshot, "Claim successful", Some(block_index))
}

/// Returns an expired contract's funds to its sender: `caller` at `now`.
pub fn refund(store: &mut ContractStore, request: RefundRequest, caller: &str, now: u64) -> (r:
    ContractResponse)
    requires
        old(store).wf(),
    ensures
        final(store).wf(),
        ({
            let step = refund_step(old(store)@, request.lock_id@, caller@, now);
            &&& final(store)@ == step.0
            &&& match step.1 {
                Ok(_) => is_success_response(
                    r,
                    request.lock_id@,
                    store_record(step.0, request.lock_id@),
                    None,
                    "Refund successful"@,
                ),
                Err(e) => is_failure_response(r, e),
            }
        }),
{
    let i = match store.find(request.lock_id.as_str()) {
        Some(i) => i,
        None => return create_contract_not_found_response(),
    };
    proof {
        lemma_index_of(store@, i as int);
    }
    let rec = store.record_at(i);
    if let Err(error) = validate_refund_request(rec, caller, now) {
        return create_error_response(error);
    }
    let mut updated = rec.snapshot();
    updated.refunded = true;
    updated.claim_in_flight = false;
    proof {
        lemma_set_record_wf(store@, request.lock_id@, updated@);
    }
    let snapshot = updated.snapshot();
    store.replace_at(i, updated);
    create_success_response(request.lock_id, snapshot, "Refund successful", None)
}

} // verus!
