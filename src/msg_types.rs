use vstd::prelude::*;

verus! {

/// The lifecycle phase of a contract.
#[derive(Clone, Copy, Debug, PartialEq, Eq, Structural)]
pub enum ContractMode {
    Running,
    MigratedOut,
}

/// An error returned to a caller whose request the current mode forbids.
#[derive(Clone, Debug, PartialEq, Eq)]
pub enum ReplyError {
    OperationUnavailable { message: String },
}

/// Where a contract is to migrate to.
#[derive(Clone, Debug, PartialEq, Eq)]
pub struct MigrateTo {
    pub address: String,
    pub code_hash: String,
    pub entropy: String,
}

} // verus!
