//! Side-effect-free rules that decide whether a create, claim or refund may
//! proceed, given the caller and the current clock reading.

use crate::hashing::{digest_hex, verify_preimage};
use crate::types::{
    Action, ClaimRequest, ContractView, HashlockFault, HtlcError, NewContractRequest,
    TimeLockContract,
};
use vstd::prelude::*;
use vstd::string::StrSliceExecFns;

verus! {

/// Length in characters of a hex-encoded SHA-256 hashlock.
pub const HASHLOCK_LEN: usize = 64;

/// The outcome of validating a creation request at time `now`.
pub open spec fn create_check(
    receiver: Seq<char>,
    amount: u64,
    hashlock: Seq<char>,
    timelock: u64,
    now: u64,
) -> Result<(), HtlcError> {
    if receiver.len() == 0 {
        Err(HtlcError::EmptyField)
    } else if amount == 0 {
        Err(HtlcError::InvalidAmount)
    } else if hashlock.len() == 0 {
        Err(HtlcError::InvalidHashlock(HashlockFault::Empty))
    } else if hashlock.len() != HASHLOCK_LEN {
        Err(HtlcError::InvalidHashlock(HashlockFault::WrongLength))
    } else if timelock <= now {
        Err(HtlcError::TimelockInPast)
    } else {
        Ok(())
    }
}

/// The outcome of validating a claim on `rec` by `caller` at `now`, where
/// `preimage_ok` tells whether the revealed preimage hashes to the hashlock.
/// Checks run in the order expiry, authorization, preimage, terminal state,
/// claim in flight.
pub open spec fn claim_check(
    rec: ContractView,
    caller: Seq<char>,
    now: u64,
    preimage_ok: bool,
) -> Result<(), HtlcError> {
    if now >= rec.timelock {
        Err(HtlcError::TimelockExpired)
    } else if caller != rec.receiver {
        Err(HtlcError::Unauthorized(Action::Claim))
    } else if !preimage_ok {
        Err(HtlcError::InvalidPreimage)
    } else if rec.withdrawn {
        Err(HtlcError::AlreadyWithdrawn)
    } else if rec.refunded {
        Err(HtlcError::AlreadyRefunded)
    } else if rec.claim_in_flight {
        Err(HtlcError::ClaimInProgress)
    } else {
        Ok(())
    }
}

/// The outcome of validating a refund of `rec` by `caller` at `now`. A claim
/// marked in flight does not hold a refund back: the marker lasts only until
/// the timelock, and a refund is possible only from then on.
pub open spec fn refund_check(rec: ContractView, caller: Seq<char>, now: u64) -> Result<
    (),
    HtlcError,
> {
    if now < rec.timelock {
        Err(HtlcError::TimelockNotExpired)
    } else if caller != rec.sender {
        Err(HtlcError::Unauthorized(Action::Refund))
    } else if rec.withdrawn {
        Err(HtlcError::AlreadyWithdrawn)
    } else if rec.refunded {
        Err(HtlcError::AlreadyRefunded)
    } else {
        Ok(())
    }
}

/// Validates the fields of a creation request against the clock reading `now`.
pub fn validate_new_contract_request(request: &NewContractRequest, now: u64) -> (r: Result<
    (),
    HtlcError,
>)
    ensures
        r == create_check(
            request.receiver@,
            request.amount,
            request.hashlock@,
            request.timelock,
            now,
        ),
{
    if request.receiver.as_str().is_empty() {
        return Err(HtlcError::EmptyField);
    }
    if request.amount == 0 {
        return Err(HtlcError::InvalidAmount);
    }
    if request.hashlock.as_str().is_empty() {
        return Err(HtlcError::InvalidHashlock(HashlockFault::Empty));
    }
    if request.hashlock.as_str().unicode_len() != HASHLOCK_LEN {
        return Err(HtlcError::InvalidHashlock(HashlockFault::WrongLength));
    }
    if request.timelock <= now {
        return Err(HtlcError::TimelockInPast);
    }
    Ok(())
}

/// Validates a claim given whether its preimage matched the hashlock.
pub fn check_claim(contract: &TimeLockContract, caller: &str, now: u64, preimage_ok: bool) -> (r:
    Result<(), HtlcError>)
    ensures
        r == claim_check(contract@, caller@, now, preimage_ok),
{
    if now >= contract.timelock {
        return Err(HtlcError::TimelockExpired);
    }
    if caller.to_owned() != contract.receiver {
        return Err(HtlcError::Unauthorized(Action::Claim));
    }
    if !preimage_ok {
        return Err(HtlcError::InvalidPreimage);
    }
    if contract.withdrawn {
        return Err(HtlcError::AlreadyWithdrawn);
    }
    if contract.refunded {
        return Err(HtlcError::AlreadyRefunded);
    }
    if contract.claim_in_flight {
        return Err(HtlcError::ClaimInProgress);
    }
    Ok(())
}

/// Validates a claim on `contract` by `caller` at `now`.
pub fn validate_claim_request(
    request: &ClaimRequest,
    contract: &TimeLockContract,
    caller: &str,
    now: u64,
) -> (r: Result<(), HtlcError>)
    ensures
        r == claim_check(
            contract@,
            caller@,
            now,
            digest_hex(request.preimage@) == contract.hashlock@,
        ),
{
    if now >= contract.timelock {
        return Err(HtlcError::TimelockExpired);
    }
    let preimage_ok = verify_preimage(request.preimage.as_str(), contract.hashlock.as_str());
    check_claim(contract, caller, now, preimage_ok)
}

/// Validates a refund of `contract` by `caller` at `now`.
pub fn validate_refund_request(contract: &TimeLockContract, caller: &str, now: u64) -> (r: Result<
    (),
    HtlcError,
>)
    ensures
        r == refund_check(contract@, caller@, now),
{
    if now < contract.timelock {
        return Err(HtlcError::TimelockNotExpired);
    }
    if caller.to_owned() != contract.sender {
        return Err(HtlcError::Unauthorized(Action::Refund));
    }
    if contract.withdrawn {
        return Err(HtlcError::AlreadyWithdrawn);
    }
    if contract.refunded {
        return Err(HtlcError::AlreadyRefunded);
    }
    Ok(())
}

} // verus!
