use vstd::prelude::*;

use crate::state::{CanonicalContractInfo, MigrationState, PeerView};

verus! {

/// Which end of a migration a query asks about.
#[derive(Clone, Copy, Debug, PartialEq, Eq, Structural)]
pub enum MigrationDirection {
    /// The contract this one was migrated from.
    From,
    /// The contract this one migrated to.
    To,
}

/// The recorded contract at the asked end of the migration, if any.
pub open spec fn migrated_info(state: MigrationState, direction: MigrationDirection) -> Option<
    PeerView,
> {
    match direction {
        MigrationDirection::From => match state.migrated_from {
            Some(record) => Some(record.contract@),
            None => None,
        },
        MigrationDirection::To => match state.migrated_to {
            Some(record) => Some(record.contract@),
            None => None,
        },
    }
}

/// The contract that this one was migrated from, or migrated to, as recorded;
/// `None` when no such migration is recorded.
pub fn query_migrated_info(state: &MigrationState, direction: MigrationDirection) -> (r: Option<
    CanonicalContractInfo,
>)
    ensures
        match r {
            Some(c) => migrated_info(*state, direction) == Some(c@),
            None => migrated_info(*state, direction) is None,
        },
{
    match direction {
        MigrationDirection::From => match &state.migrated_from {
            Some(record) => Some(record.contract.copy()),
            None => None,
        },
        MigrationDirection::To => match &state.migrated_to {
            Some(record) => Some(record.contract.copy()),
            None => None,
        },
    }
}

} // verus!
