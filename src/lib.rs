//! A hashed timelock contract engine: commitment ids, validation rules and the
//! create / claim / refund lifecycle over an explicitly passed contract store.

pub mod convert;
pub mod hashing;
pub mod laws;
pub mod lifecycle;
pub mod queries;
pub mod store;
pub mod types;
pub mod validation;

pub use convert::to_array;
pub use hashing::{generate_lock_id, hash_preimage, sha256_hash, verify_preimage, verify_preimage_hash};
pub use lifecycle::{claim, complete_claim, new_contract, refund, ClaimStep, PendingClaim};
pub use queries::{
    get_active_contracts, get_all_contracts, get_contract, get_contract_count,
    get_contracts_by_receiver, get_contracts_by_sender, get_expired_contracts, get_version,
};
pub use store::ContractStore;
pub use types::{
    Action, BlockIndex, ClaimRequest, ContractResponse, HashlockFault, HtlcError, NewContractRequest,
    RefundRequest,
    TimeLockContract, TransferResult,
};
