use vstd::prelude::*;

use crate::state::{ContractInfo, HumanPeerView};

verus! {

/// The requests that a migratable contract accepts.
#[derive(Clone, Debug, PartialEq, Eq)]
pub enum MigratableExecuteMsg {
    /// Registers a contract to be notified when this contract completes its
    /// migration; with `reciprocal_requested`, this contract asks the new
    /// subscriber to register it in turn.
    SubscribeToMigrationCompleteEvent {
        address: String,
        code_hash: String,
        reciprocal_requested: bool,
    },
    /// Sends a migration-complete notification to each of `addresses`, once
    /// this contract has migrated out.
    BroadcastMigrationCompleteNotification {
        addresses: Vec<String>,
        code_hash: String,
        data: Option<Vec<u8>>,
    },
}

/// The requests that a contract listening for migrations accepts.
#[derive(Clone, Debug, PartialEq, Eq)]
pub enum MigrationListenerExecuteMsg {
    /// The sender has migrated to `to`.
    MigrationCompleteNotification { to: ContractInfo, data: Option<Vec<u8>> },
}

/// When the host is to report a sub-message's outcome back.
#[derive(Clone, Copy, Debug, PartialEq, Eq, Structural)]
pub enum ReplyOn {
    Always,
    Error,
    Success,
    Never,
}

/// The body of an outbound message.
#[derive(Clone, Debug, PartialEq, Eq)]
pub enum MessageBody {
    Migratable(MigratableExecuteMsg),
    Listener(MigrationListenerExecuteMsg),
}

/// A message for the host to deliver to another contract.
#[derive(Clone, Debug, PartialEq, Eq)]
pub struct OutboundMessage {
    pub contract_addr: String,
    pub code_hash: String,
    pub msg: MessageBody,
    pub id: u64,
    pub reply_on: ReplyOn,
}

pub enum BodyView {
    Subscribe { address: Seq<char>, code_hash: Seq<char>, reciprocal_requested: bool },
    Broadcast { addresses: Seq<Seq<char>>, code_hash: Seq<char>, data: Option<Seq<u8>> },
    Notify { to: HumanPeerView, data: Option<Seq<u8>> },
}

pub struct MessageView {
    pub contract_addr: Seq<char>,
    pub code_hash: Seq<char>,
    pub body: BodyView,
    pub id: u64,
    pub reply_on: ReplyOn,
}

pub open spec fn bytes_view(data: Option<Vec<u8>>) -> Option<Seq<u8>> {
    match data {
        Some(d) => Some(d@),
        None => None,
    }
}

impl View for MessageBody {
    type V = BodyView;

    open spec fn view(&self) -> BodyView {
        match self {
            MessageBody::Migratable(
                MigratableExecuteMsg::SubscribeToMigrationCompleteEvent {
                    address,
                    code_hash,
                    reciprocal_requested,
                },
            ) => BodyView::Subscribe {
                address: address@,
                code_hash: code_hash@,
                reciprocal_requested: *reciprocal_requested,
            },
            MessageBody::Migratable(
                MigratableExecuteMsg::BroadcastMigrationCompleteNotification {
                    addresses,
                    code_hash,
                    data,
                },
            ) => BodyView::Broadcast {
                addresses: addresses@.map_values(|a: String| a@),
                code_hash: code_hash@,
                data: bytes_view(*data),
            },
            MessageBody::Listener(
                MigrationListenerExecuteMsg::MigrationCompleteNotification { to, data },
            ) => BodyView::Notify { to: to@, data: bytes_view(*data) },
        }
    }
}

impl View for OutboundMessage {
    type V = MessageView;

    open spec fn view(&self) -> MessageView {
        MessageView {
            contract_addr: self.contract_addr@,
            code_hash: self.code_hash@,
            body: self.msg@,
            id: self.id,
            reply_on: self.reply_on,
        }
    }
}

pub open spec fn messages_view(s: Seq<OutboundMessage>) -> Seq<MessageView> {
    s.map_values(|m: OutboundMessage| m@)
}

} // verus!
