//! Contract records, requests, responses and the error taxonomy.

use vstd::prelude::*;

verus! {

/// The receipt of a ledger transfer: the index of the block that holds it.
pub type BlockIndex = u64;

/// A hashed timelock contract as kept in the store.
#[derive(Debug)]
pub struct TimeLockContract {
    pub sender: String,
    pub receiver: String,
    pub amount: u64,
    pub hashlock: String,
    pub timelock: u64,
    pub preimage: Option<String>,
    pub withdrawn: bool,
    pub refunded: bool,
    pub ledger_id: String,
    /// Set while a claim's transfer is outstanding; cleared when it resolves.
    pub claim_in_flight: bool,
}

/// The mathematical value of a contract record.
pub struct ContractView {
    pub sender: Seq<char>,
    pub receiver: Seq<char>,
    pub amount: u64,
    pub hashlock: Seq<char>,
    pub timelock: u64,
    pub preimage: Option<Seq<char>>,
    pub withdrawn: bool,
    pub refunded: bool,
    pub ledger_id: Seq<char>,
    pub claim_in_flight: bool,
}

pub open spec fn opt_view(s: Option<String>) -> Option<Seq<char>> {
    match s {
        Some(v) => Some(v@),
        None => None,
    }
}

impl View for TimeLockContract {
    type V = ContractView;

    open spec fn view(&self) -> ContractView {
        ContractView {
            sender: self.sender@,
            receiver: self.receiver@,
            amount: self.amount,
            hashlock: self.hashlock@,
            timelock: self.timelock,
            preimage: opt_view(self.preimage),
            withdrawn: self.withdrawn,
            refunded: self.refunded,
            ledger_id: self.ledger_id@,
            claim_in_flight: self.claim_in_flight,
        }
    }
}

impl ContractView {
    /// Neither released to the receiver nor returned to the sender.
    pub open spec fn is_active(self) -> bool {
        !self.withdrawn && !self.refunded
    }

    /// Past its deadline at `now` and still active.
    pub open spec fn is_expired_at(self, now: u64) -> bool {
        now >= self.timelock && self.is_active()
    }
}

impl TimeLockContract {
    /// A copy of the record with the same value.
    pub fn snapshot(&self) -> (r: TimeLockContract)
        ensures
            r@ == self@,
    {
        let preimage = match &self.preimage {
            Some(p) => Some(p.clone()),
            None => None,
        };
        TimeLockContract {
            sender: self.sender.clone(),
            receiver: self.receiver.clone(),
            amount: self.amount,
            hashlock: self.hashlock.clone(),
            timelock: self.timelock,
            preimage,
            withdrawn: self.withdrawn,
            refunded: self.refunded,
            ledger_id: self.ledger_id.clone(),
            claim_in_flight: self.claim_in_flight,
        }
    }
}

/// A request to lock funds for a receiver; the sender is the caller.
#[derive(Debug)]
pub struct NewContractRequest {
    pub receiver: String,
    pub amount: u64,
    pub hashlock: String,
    pub timelock: u64,
    pub ledger_id: String,
}

/// A request to release a contract's funds by revealing its preimage.
#[derive(Debug)]
pub struct ClaimRequest {
    pub lock_id: String,
    pub preimage: String,
}

/// A request to return an expired contract's funds to its sender.
#[derive(Debug)]
pub struct RefundRequest {
    pub lock_id: String,
}

/// The operation that a caller was not entitled to perform.
#[derive(Debug, Clone, Copy, PartialEq, Eq, Structural)]
pub enum Action {
    Claim,
    Refund,
}

/// What is wrong with a hashlock.
#[derive(Debug, Clone, Copy, PartialEq, Eq, Structural)]
pub enum HashlockFault {
    /// No characters at all.
    Empty,
    /// Not exactly 64 characters long.
    WrongLength,
}

/// Why an operation was refused.
#[derive(Debug, Clone, Copy, PartialEq, Eq, Structural)]
pub enum HtlcError {
    EmptyField,
    InvalidAmount,
    InvalidHashlock(HashlockFault),
    TimelockInPast,
    TimelockExpired,
    TimelockNotExpired,
    Unauthorized(Action),
    InvalidPreimage,
    AlreadyWithdrawn,
    AlreadyRefunded,
    NotFound,
    DuplicateContract,
    ClaimInProgress,
    ConcurrentFinalization,
    TransferFailed,
}

impl HtlcError {
    /// The human-readable text of the error.
    pub open spec fn message_spec(self) -> Seq<char> {
        match self {
            HtlcError::EmptyField => "Receiver cannot be empty"@,
            HtlcError::InvalidAmount => "Amount must be greater than 0"@,
            HtlcError::InvalidHashlock(HashlockFault::Empty) => "Hashlock cannot be empty"@,
            HtlcError::InvalidHashlock(HashlockFault::WrongLength) => "Hashlock must be a valid SHA-256 hash (64 characters)"@,
            HtlcError::TimelockInPast => "Timelock must be in the future"@,
            HtlcError::TimelockExpired => "Timelock has expired"@,
            HtlcError::TimelockNotExpired => "Timelock has not expired yet"@,
            HtlcError::Unauthorized(Action::Claim) => "Only receiver can claim"@,
            HtlcError::Unauthorized(Action::Refund) => "Only sender can refund"@,
            HtlcError::InvalidPreimage => "Invalid preimage"@,
            HtlcError::AlreadyWithdrawn => "Already withdrawn"@,
            HtlcError::AlreadyRefunded => "Already refunded"@,
            HtlcError::NotFound => "Contract not found"@,
            HtlcError::DuplicateContract => "Contract already exists"@,
            HtlcError::ClaimInProgress => "Claim already in progress"@,
            HtlcError::ConcurrentFinalization => "Contract was finalized during the transfer"@,
            HtlcError::TransferFailed => "Transfer failed"@,
        }
    }

    /// The human-readable text of the error.
    pub fn message(&self) -> (r: String)
        ensures
            r@ == self.message_spec(),
    {
        match self {
            HtlcError::EmptyField => "Receiver cannot be empty".to_owned(),
            HtlcError::InvalidAmount => "Amount must be greater than 0".to_owned(),
            HtlcError::InvalidHashlock(HashlockFault::Empty) => "Hashlock cannot be empty".to_owned(),
            HtlcError::InvalidHashlock(HashlockFault::WrongLength) => "Hashlock must be a valid SHA-256 hash (64 characters)".to_owned(),
            HtlcError::TimelockInPast => "Timelock must be in the future".to_owned(),
            HtlcError::TimelockExpired => "Timelock has expired".to_owned(),
            HtlcError::TimelockNotExpired => "Timelock has not expired yet".to_owned(),
            HtlcError::Unauthorized(Action::Claim) => "Only receiver can claim".to_owned(),
            HtlcError::Unauthorized(Action::Refund) => "Only sender can refund".to_owned(),
            HtlcError::InvalidPreimage => "Invalid preimage".to_owned(),
            HtlcError::AlreadyWithdrawn => "Already withdrawn".to_owned(),
            HtlcError::AlreadyRefunded => "Already refunded".to_owned(),
            HtlcError::NotFound => "Contract not found".to_owned(),
            HtlcError::DuplicateContract => "Contract already exists".to_owned(),
            HtlcError::ClaimInProgress => "Claim already in progress".to_owned(),
            HtlcError::ConcurrentFinalization => "Contract was finalized during the transfer".to_owned(),
            HtlcError::TransferFailed => "Transfer failed".to_owned(),
        }
    }
}

/// What a ledger transfer came back with: a receipt, or the ledger's error
/// rendered as text.
#[derive(Debug)]
pub enum TransferResult {
    Completed(BlockIndex),
    Failed(String),
}

/// The uniform answer of every lifecycle operation.
#[derive(Debug)]
pub struct ContractResponse {
    pub success: bool,
    pub message: String,
    pub lock_id: Option<String>,
    pub contract: Option<TimeLockContract>,
    pub transfer_result: Option<BlockIndex>,
    pub error: Option<HtlcError>,
}

} // verus!
