use vstd::prelude::*;

verus! {

/// Why an operation failed. A failed operation changes nothing.
#[derive(Debug, Clone, PartialEq, Eq)]
pub enum ContractError {
    /// The caller is not the recorded owner, who is named here.
    Unauthorized { owner: String },
    /// The host's store could not be read or written.
    StoreFailure { msg: String },
    /// The host could not report the contract's balance.
    HostQueryFailure { msg: String },
}

/// `e` is the refusal of a caller other than `owner`.
pub open spec fn is_unauthorized(e: ContractError, owner: Seq<char>) -> bool {
    match e {
        ContractError::Unauthorized { owner: o } => o@ == owner,
        _ => false,
    }
}

} // verus!
