use htlc_engine::{
    claim, complete_claim, get_active_contracts, get_all_contracts, get_contract,
    get_contract_count, get_contracts_by_receiver, get_contracts_by_sender,
    get_expired_contracts, get_version, hash_preimage, new_contract, refund, ClaimRequest,
    ClaimStep, ContractResponse, ContractStore, HtlcError, NewContractRequest, PendingClaim,
    RefundRequest, TransferResult, Action, HashlockFault,
};

const SENDER: &str = "sender-principal";
const RECEIVER: &str = "receiver-principal";
const LEDGER: &str = "ledger-principal";
const NOW: u64 = 1_000_000;

fn request(amount: u64, hashlock: &str, timelock: u64) -> NewContractRequest {
    NewContractRequest {
        receiver: RECEIVER.to_string(),
        amount,
        hashlock: hashlock.to_string(),
        timelock,
        ledger_id: LEDGER.to_string(),
    }
}

fn create_default(store: &mut ContractStore) -> String {
    let hashlock = hash_preimage("secret".to_string());
    let resp = new_contract(store, request(100, &hashlock, NOW + 3600), SENDER, NOW);
    assert!(resp.success, "{}", resp.message);
    resp.lock_id.unwrap()
}

fn begin(store: &mut ContractStore, id: &str, preimage: &str, caller: &str, now: u64) -> ClaimStep {
    claim(
        store,
        ClaimRequest { lock_id: id.to_string(), preimage: preimage.to_string() },
        caller,
        now,
    )
}

fn pending(step: ClaimStep) -> PendingClaim {
    match step {
        ClaimStep::Transfer(p) => p,
        ClaimStep::Respond(r) => panic!("claim refused: {}", r.message),
    }
}

fn refused(step: ClaimStep) -> ContractResponse {
    match step {
        ClaimStep::Transfer(_) => panic!("claim was not refused"),
        ClaimStep::Respond(r) => r,
    }
}

fn do_refund(store: &mut ContractStore, id: &str, caller: &str, now: u64) -> ContractResponse {
    refund(store, RefundRequest { lock_id: id.to_string() }, caller, now)
}

#[test]
fn scenario_create_claim_then_finalized() {
    let mut store = ContractStore::new();
    let hashlock = hash_preimage("secret".to_string());
    let resp = new_contract(&mut store, request(100, &hashlock, NOW + 3600), SENDER, NOW);
    assert!(resp.success);
    assert_eq!(resp.message, "Contract created successfully");
    let id = resp.lock_id.clone().unwrap();
    assert_eq!(id.len(), 64);
    let rec = get_contract(&store, id.clone()).unwrap();
    assert!(!rec.withdrawn && !rec.refunded);
    assert_eq!(rec.sender, SENDER);
    assert_eq!(rec.amount, 100);

    let p = pending(begin(&mut store, &id, "secret", RECEIVER, NOW + 10));
    assert_eq!(p.amount, 100);
    assert_eq!(p.receiver, RECEIVER);
    assert_eq!(p.ledger_id, LEDGER);
    let done = complete_claim(&mut store, p, TransferResult::Completed(42));
    assert!(done.success);
    assert_eq!(done.message, "Claim successful");
    assert_eq!(done.transfer_result, Some(42));
    let rec = get_contract(&store, id.clone()).unwrap();
    assert!(rec.withdrawn);
    assert!(!rec.refunded);
    assert_eq!(rec.preimage.as_deref(), Some("secret"));

    let again = refused(begin(&mut store, &id, "secret", RECEIVER, NOW + 20));
    assert_eq!(again.error, Some(HtlcError::AlreadyWithdrawn));
    let r = do_refund(&mut store, &id, SENDER, NOW + 7200);
    assert_eq!(r.error, Some(HtlcError::AlreadyWithdrawn));
    assert!(!r.success);
}

#[test]
fn scenario_wrong_preimage_then_refund() {
    let mut store = ContractStore::new();
    let id = create_default(&mut store);
    let r = refused(begin(&mut store, &id, "wrong", RECEIVER, NOW + 10));
    assert_eq!(r.error, Some(HtlcError::InvalidPreimage));
    assert_eq!(r.message, "Invalid preimage");
    let rec = get_contract(&store, id.clone()).unwrap();
    assert!(!rec.withdrawn && !rec.refunded && !rec.claim_in_flight);

    let r = do_refund(&mut store, &id, SENDER, NOW + 3601);
    assert!(r.success);
    assert_eq!(r.message, "Refund successful");
    assert!(r.contract.unwrap().refunded);
    let rec = get_contract(&store, id).unwrap();
    assert!(rec.refunded && !rec.withdrawn);
}

#[test]
fn scenario_creation_rejections() {
    let mut store = ContractStore::new();
    let good = hash_preimage("secret".to_string());
    let short = &good[..63];
    let r = new_contract(&mut store, request(100, short, NOW + 3600), SENDER, NOW);
    assert_eq!(r.error, Some(HtlcError::InvalidHashlock(HashlockFault::WrongLength)));
    assert_eq!(r.message, "Hashlock must be a valid SHA-256 hash (64 characters)");
    let r = new_contract(&mut store, request(100, &good, NOW), SENDER, NOW);
    assert_eq!(r.error, Some(HtlcError::TimelockInPast));
    let r = new_contract(&mut store, request(100, &good, NOW - 1), SENDER, NOW);
    assert_eq!(r.error, Some(HtlcError::TimelockInPast));
    let r = new_contract(&mut store, request(0, &good, NOW + 3600), SENDER, NOW);
    assert_eq!(r.error, Some(HtlcError::InvalidAmount));
    assert_eq!(r.message, "Amount must be greater than 0");
    assert_eq!(get_contract_count(&store), 0);
}

#[test]
fn creation_empty_receiver_and_empty_hashlock() {
    let mut store = ContractStore::new();
    let good = hash_preimage("secret".to_string());
    let mut req = request(100, &good, NOW + 3600);
    req.receiver = String::new();
    let r = new_contract(&mut store, req, SENDER, NOW);
    assert_eq!(r.error, Some(HtlcError::EmptyField));
    assert!(r.lock_id.is_none() && r.contract.is_none());
    let r = new_contract(&mut store, request(100, "", NOW + 3600), SENDER, NOW);
    assert_eq!(r.error, Some(HtlcError::InvalidHashlock(HashlockFault::Empty)));
    assert_eq!(r.message, "Hashlock cannot be empty");
    let long = format!("{}0", good);
    let r = new_contract(&mut store, request(100, &long, NOW + 3600), SENDER, NOW);
    assert_eq!(r.error, Some(HtlcError::InvalidHashlock(HashlockFault::WrongLength)));
    assert_eq!(get_contract_count(&store), 0);
}

#[test]
fn any_sixty_four_character_hashlock_is_accepted_verbatim() {
    let mut store = ContractStore::new();
    let upper = hash_preimage("secret".to_string()).to_uppercase();
    let r = new_contract(&mut store, request(100, &upper, NOW + 1), SENDER, NOW);
    assert!(r.success);
    assert_eq!(r.contract.unwrap().hashlock, upper);
    let odd = "g".repeat(64);
    let r = new_contract(&mut store, request(100, &odd, NOW + 1), SENDER, NOW);
    assert!(r.success);
    assert_eq!(get_contract_count(&store), 2);
}

#[test]
fn creating_twice_is_duplicate() {
    let mut store = ContractStore::new();
    let first = create_default(&mut store);
    let hashlock = hash_preimage("secret".to_string());
    let r = new_contract(&mut store, request(100, &hashlock, NOW + 3600), SENDER, NOW + 5);
    assert_eq!(r.error, Some(HtlcError::DuplicateContract));
    assert_eq!(r.message, "Contract already exists");
    assert_eq!(get_contract_count(&store), 1);
    let r = new_contract(&mut store, request(101, &hashlock, NOW + 3600), SENDER, NOW);
    assert!(r.success);
    assert_ne!(r.lock_id.unwrap(), first);
    assert_eq!(get_contract_count(&store), 2);
}

#[test]
fn claim_after_expiry_fails_even_with_right_preimage() {
    let mut store = ContractStore::new();
    let id = create_default(&mut store);
    let r = refused(begin(&mut store, &id, "secret", RECEIVER, NOW + 3600));
    assert_eq!(r.error, Some(HtlcError::TimelockExpired));
    let r = refused(begin(&mut store, &id, "wrong", "someone-else", NOW + 9999));
    assert_eq!(r.error, Some(HtlcError::TimelockExpired));
}

#[test]
fn refund_before_expiry_fails_for_any_caller() {
    let mut store = ContractStore::new();
    let id = create_default(&mut store);
    let r = do_refund(&mut store, &id, SENDER, NOW + 3599);
    assert_eq!(r.error, Some(HtlcError::TimelockNotExpired));
    let r = do_refund(&mut store, &id, "someone-else", NOW + 1);
    assert_eq!(r.error, Some(HtlcError::TimelockNotExpired));
    assert!(!get_contract(&store, id).unwrap().refunded);
}

#[test]
fn unauthorized_callers() {
    let mut store = ContractStore::new();
    let id = create_default(&mut store);
    let r = refused(begin(&mut store, &id, "secret", SENDER, NOW + 1));
    assert_eq!(r.error, Some(HtlcError::Unauthorized(Action::Claim)));
    assert_eq!(r.message, "Only receiver can claim");
    let r = do_refund(&mut store, &id, RECEIVER, NOW + 4000);
    assert_eq!(r.error, Some(HtlcError::Unauthorized(Action::Refund)));
    assert_eq!(r.message, "Only sender can refund");
}

#[test]
fn unknown_id_is_not_found() {
    let mut store = ContractStore::new();
    create_default(&mut store);
    let r = refused(begin(&mut store, "no-such-id", "secret", RECEIVER, NOW + 1));
    assert_eq!(r.error, Some(HtlcError::NotFound));
    assert_eq!(r.message, "Contract not found");
    let r = do_refund(&mut store, "no-such-id", SENDER, NOW + 4000);
    assert_eq!(r.error, Some(HtlcError::NotFound));
    assert!(get_contract(&store, "no-such-id".to_string()).is_none());
}

#[test]
fn second_claim_while_transfer_suspended() {
    let mut store = ContractStore::new();
    let id = create_default(&mut store);
    let p = pending(begin(&mut store, &id, "secret", RECEIVER, NOW + 1));
    assert!(get_contract(&store, id.clone()).unwrap().claim_in_flight);
    let r = refused(begin(&mut store, &id, "secret", RECEIVER, NOW + 2));
    assert_eq!(r.error, Some(HtlcError::ClaimInProgress));
    let done = complete_claim(&mut store, p, TransferResult::Completed(7));
    assert!(done.success);
    let rec = get_contract(&store, id).unwrap();
    assert!(rec.withdrawn && !rec.claim_in_flight);
}

#[test]
fn refund_during_suspended_transfer_orphans_it() {
    let mut store = ContractStore::new();
    let id = create_default(&mut store);
    let p = pending(begin(&mut store, &id, "secret", RECEIVER, NOW + 3599));
    let r = do_refund(&mut store, &id, SENDER, NOW + 3600);
    assert!(r.success);
    let done = complete_claim(&mut store, p, TransferResult::Completed(9));
    assert_eq!(done.error, Some(HtlcError::ConcurrentFinalization));
    let rec = get_contract(&store, id).unwrap();
    assert!(rec.refunded && !rec.withdrawn && rec.preimage.is_none());
}

#[test]
fn failed_transfer_leaves_contract_claimable() {
    let mut store = ContractStore::new();
    let id = create_default(&mut store);
    let p = pending(begin(&mut store, &id, "secret", RECEIVER, NOW + 1));
    let r = complete_claim(&mut store, p, TransferResult::Failed("InsufficientFunds".to_string()));
    assert_eq!(r.error, Some(HtlcError::TransferFailed));
    assert_eq!(r.message, "Transfer failed");
    let rec = get_contract(&store, id.clone()).unwrap();
    assert!(!rec.withdrawn && !rec.refunded && !rec.claim_in_flight);
    let p = pending(begin(&mut store, &id, "secret", RECEIVER, NOW + 2));
    assert!(complete_claim(&mut store, p, TransferResult::Completed(1)).success);
}

#[test]
fn refund_twice_is_already_refunded() {
    let mut store = ContractStore::new();
    let id = create_default(&mut store);
    assert!(do_refund(&mut store, &id, SENDER, NOW + 5000).success);
    let r = do_refund(&mut store, &id, SENDER, NOW + 5001);
    assert_eq!(r.error, Some(HtlcError::AlreadyRefunded));
}

#[test]
fn flags_never_both_set_over_a_run() {
    let mut store = ContractStore::new();
    let id = create_default(&mut store);
    let p = pending(begin(&mut store, &id, "secret", RECEIVER, NOW + 1));
    let _ = refused(begin(&mut store, &id, "secret", RECEIVER, NOW + 2));
    let _ = do_refund(&mut store, &id, SENDER, NOW + 3600);
    let _ = complete_claim(&mut store, p, TransferResult::Completed(3));
    let _ = do_refund(&mut store, &id, SENDER, NOW + 3601);
    for (_, rec) in get_all_contracts(&store) {
        assert!(!(rec.withdrawn && rec.refunded));
    }
}

#[test]
fn queries_select_by_party_and_status() {
    let mut store = ContractStore::new();
    let id = create_default(&mut store);
    let hashlock = hash_preimage("other".to_string());
    let other = new_contract(
        &mut store,
        NewContractRequest {
            receiver: SENDER.to_string(),
            amount: 5,
            hashlock,
            timelock: NOW + 10,
            ledger_id: LEDGER.to_string(),
        },
        RECEIVER,
        NOW,
    );
    let other_id = other.lock_id.unwrap();
    assert_eq!(get_contract_count(&store), 2);
    let all = get_all_contracts(&store);
    assert_eq!(all.len(), 2);
    assert_eq!(all[0].0, id);
    assert_eq!(all[1].0, other_id);
    let by_sender = get_contracts_by_sender(&store, SENDER.to_string());
    assert_eq!(by_sender.len(), 1);
    assert_eq!(by_sender[0].0, id);
    let by_receiver = get_contracts_by_receiver(&store, SENDER.to_string());
    assert_eq!(by_receiver.len(), 1);
    assert_eq!(by_receiver[0].0, other_id);
    assert_eq!(get_expired_contracts(&store, NOW + 10).len(), 1);
    assert_eq!(get_expired_contracts(&store, NOW + 9).len(), 0);
    assert!(do_refund(&mut store, &other_id, RECEIVER, NOW + 10).success);
    assert_eq!(get_expired_contracts(&store, NOW + 10).len(), 0);
    let active = get_active_contracts(&store);
    assert_eq!(active.len(), 1);
    assert_eq!(active[0].0, id);
}

#[test]
fn version_is_fixed() {
    assert_eq!(get_version(), "1.0.0");
}
