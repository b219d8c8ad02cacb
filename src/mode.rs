use vstd::prelude::*;

use crate::errors::{ErrorView, MigrationError};
use crate::msg_types::{ContractMode, ReplyError};

verus! {

/// The name of a mode as it appears in messages.
pub open spec fn mode_name(mode: ContractMode) -> Seq<char> {
    match mode {
        ContractMode::Running => "Running"@,
        ContractMode::MigratedOut => "MigratedOut"@,
    }
}

/// The default message of a rejection by the mode check.
pub open spec fn unavailable_message(mode: ContractMode) -> Seq<char> {
    "This operation is unavailable while the contract mode is "@ + mode_name(mode)
}

/// The message of a mode rejection: the override when one is given.
pub open spec fn rejection_message(mode: ContractMode, message: Option<Seq<char>>) -> Seq<char> {
    match message {
        Some(m) => m,
        None => unavailable_message(mode),
    }
}

/// The name of `mode`, as a string.
pub fn mode_name_str(mode: ContractMode) -> (r: &'static str)
    ensures
        r@ == mode_name(mode),
{
    match mode {
        ContractMode::Running => "Running",
        ContractMode::MigratedOut => "MigratedOut",
    }
}

/// The templated message naming the rejected mode.
pub fn unavailable_message_for(mode: ContractMode) -> (r: String)
    ensures
        r@ == unavailable_message(mode),
{
    let mut message = String::from_str("This operation is unavailable while the contract mode is ");
    message.append(mode_name_str(mode));
    message
}

/// The mode check: `Ok` exactly when `current` is one of `allowed`; otherwise
/// `OperationUnavailable`, with `message` if one is given and else a message
/// naming the rejected mode.
pub fn check_mode(allowed: &[ContractMode], current: ContractMode, message: Option<String>) -> (r:
    Result<(), ReplyError>)
    ensures
        r is Ok <==> allowed@.contains(current),
        r matches Err(ReplyError::OperationUnavailable { message: m }) ==> m@ == rejection_message(
            current,
            match message {
                Some(s) => Some(s@),
                None => None,
            },
        ),
{
    let mut i: usize = 0;
    while i < allowed.len()
        invariant
            0 <= i <= allowed@.len(),
            forall|j: int| 0 <= j < i ==> allowed@[j] != current,
        decreases allowed@.len() - i,
    {
        if allowed[i] == current {
            return Ok(());
        }
        i = i + 1;
    }
    let text = match message {
        Some(m) => m,
        None => unavailable_message_for(current),
    };
    Err(ReplyError::OperationUnavailable { message: text })
}

/// A mode rejection as a protocol error.
pub fn mode_error(e: ReplyError) -> (r: MigrationError)
    ensures
        e matches ReplyError::OperationUnavailable { message } && r@ == (
        ErrorView::OperationUnavailable { message: message@ }),
{
    match e {
        ReplyError::OperationUnavailable { message } => MigrationError::OperationUnavailable {
            message,
        },
    }
}

} // verus!
