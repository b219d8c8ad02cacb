use vstd::prelude::*;

use crate::errors::{ErrorView, MigrationError};
use crate::mode::{check_mode, mode_error, unavailable_message};
use crate::msg::{
    bytes_view, messages_view, BodyView, MessageBody, MessageView, MigratableExecuteMsg,
    MigrationListenerExecuteMsg, OutboundMessage, ReplyOn,
};
use crate::msg_types::ContractMode;
use crate::state::{
    bytes_equal, copy_bytes, peers_view, resolution_view, CanonicalContractInfo, ConfigView,
    ContractInfo, HumanPeerView, PeerView, RegistrationConfig, RegistryView, ResolvedAddress,
    ResolvedView, SubscriberRegistry,
};

verus! {

/// The notification telling `recipient` that the sender now lives at `to`.
pub open spec fn notification_view(
    recipient: HumanPeerView,
    to: HumanPeerView,
    data: Option<Seq<u8>>,
    id: u64,
    reply_on: ReplyOn,
) -> MessageView {
    MessageView {
        contract_addr: recipient.address,
        code_hash: recipient.code_hash,
        body: BodyView::Notify { to, data },
        id,
        reply_on,
    }
}

/// Every recipient's address was accepted by the addressing capability.
pub open spec fn all_valid<T>(recipients: Seq<Result<T, String>>) -> bool {
    forall|i: int| 0 <= i < recipients.len() ==> recipients[i] is Ok
}

/// `k` is the first recipient whose address was refused.
pub open spec fn is_first_invalid<T>(recipients: Seq<Result<T, String>>, k: int) -> bool {
    &&& 0 <= k < recipients.len()
    &&& recipients[k] is Err
    &&& forall|j: int| 0 <= j < k ==> recipients[j] is Ok
}

/// The error that the first refused address gives.
pub open spec fn invalid_address_error<T>(recipients: Seq<Result<T, String>>, e: ErrorView) -> bool {
    exists|k: int|
        is_first_invalid(recipients, k) && e == (ErrorView::AddressInvalid {
            message: recipients[k]->Err_0@,
        })
}

pub fn copy_data(data: &Option<Vec<u8>>) -> (r: Option<Vec<u8>>)
    ensures
        bytes_view(r) == bytes_view(*data),
{
    match data {
        Some(d) => Some(copy_bytes(d)),
        None => None,
    }
}

/// One migration-complete notification per recipient, in the recipients'
/// order, each announcing `migrated_to` with `data`. Each recipient comes as
/// the addressing capability validated it: `Ok` with the validated address,
/// or `Err` with the capability's message. A single refused address fails
/// the whole batch with `AddressInvalid`, carrying the first refusal.
pub fn create_broadcast_migration_complete_notification_msgs(
    reply_on: ReplyOn,
    reply_id: u64,
    migrated_to: &ContractInfo,
    notification_recipients: Vec<Result<ContractInfo, String>>,
    data: Option<Vec<u8>>,
) -> (r: Result<Vec<OutboundMessage>, MigrationError>)
    ensures
        r is Ok <==> all_valid(notification_recipients@),
        r matches Ok(msgs) ==> {
            &&& msgs@.len() == notification_recipients@.len()
            &&& forall|i: int|
                0 <= i < msgs@.len() ==> #[trigger] msgs@[i]@ == notification_view(
                    notification_recipients@[i]->Ok_0@,
                    migrated_to@,
                    bytes_view(data),
                    reply_id,
                    reply_on,
                )
        },
        r matches Err(e) ==> invalid_address_error(notification_recipients@, e@),
{
    let mut msgs: Vec<OutboundMessage> = Vec::new();
    let mut i: usize = 0;
    while i < notification_recipients.len()
        invariant
            0 <= i <= notification_recipients@.len(),
            all_valid(notification_recipients@.subrange(0, i as int)),
            msgs@.len() == i,
            forall|j: int|
                0 <= j < i ==> #[trigger] msgs@[j]@ == notification_view(
                    notification_recipients@[j]->Ok_0@,
                    migrated_to@,
                    bytes_view(data),
                    reply_id,
                    reply_on,
                ),
        decreases notification_recipients@.len() - i,
    {
        match &notification_recipients[i] {
            Ok(contract) => {
                let msg = OutboundMessage {
                    contract_addr: contract.address.clone(),
                    code_hash: contract.code_hash.clone(),
                    msg: MessageBody::Listener(
                        MigrationListenerExecuteMsg::MigrationCompleteNotification {
                            to: migrated_to.copy(),
                            data: copy_data(&data),
                        },
                    ),
                    id: reply_id,
                    reply_on,
                };
                msgs.push(msg);
                assert(notification_recipients@.subrange(0, i + 1) == notification_recipients@.subrange(
                    0,
                    i as int,
                ).push(notification_recipients@[i as int]));
            },
            Err(message) => {
                let ghost k = i as int;
                assert(is_first_invalid(notification_recipients@, k)) by {
                    assert forall|j: int| 0 <= j < k implies notification_recipients@[j] is Ok by {
                        assert(notification_recipients@.subrange(0, i as int)[j]
                            == notification_recipients@[j]);
                    }
                }
                return Err(MigrationError::AddressInvalid { message: message.clone() });
            },
        }
        i = i + 1;
    }
    assert(notification_recipients@.subrange(0, i as int) == notification_recipients@);
    Ok(msgs)
}

/// The recipient list of a broadcast: each validated address with the
/// shared code hash, each refusal kept as it came.
pub fn recipients_with_code_hash(addresses: &Vec<Result<String, String>>, code_hash: &String) -> (r:
    Vec<Result<ContractInfo, String>>)
    ensures
        r@.len() == addresses@.len(),
        forall|i: int|
            0 <= i < r@.len() ==> match addresses@[i] {
                Ok(a) => #[trigger] r@[i] is Ok && r@[i]->Ok_0@ == (HumanPeerView {
                    address: a@,
                    code_hash: code_hash@,
                }),
                Err(m) => r@[i] is Err && r@[i]->Err_0@ == m@,
            },
{
    let mut r: Vec<Result<ContractInfo, String>> = Vec::new();
    let mut i: usize = 0;
    while i < addresses.len()
        invariant
            0 <= i <= addresses@.len(),
            r@.len() == i,
            forall|j: int|
                0 <= j < i ==> match addresses@[j] {
                    Ok(a) => #[trigger] r@[j] is Ok && r@[j]->Ok_0@ == (HumanPeerView {
                        address: a@,
                        code_hash: code_hash@,
                    }),
                    Err(m) => r@[j] is Err && r@[j]->Err_0@ == m@,
                },
        decreases addresses@.len() - i,
    {
        let entry = match &addresses[i] {
            Ok(a) => Ok(ContractInfo { address: a.clone(), code_hash: code_hash.clone() }),
            Err(m) => Err(m.clone()),
        };
        r.push(entry);
        i = i + 1;
    }
    r
}

/// Announces `migrated_to` to each of `addresses` (all sharing `code_hash`),
/// in order, without reply. Only a contract that has migrated out may
/// broadcast: in any other mode the call fails with `OperationUnavailable`.
/// Each address comes as the addressing capability validated it; one refusal
/// fails the batch with `AddressInvalid`, carrying the first refusal.
pub fn broadcast_migration_complete_notification(
    mode: ContractMode,
    migrated_to: &ContractInfo,
    addresses: Vec<Result<String, String>>,
    code_hash: String,
    data: Option<Vec<u8>>,
) -> (r: Result<Vec<OutboundMessage>, MigrationError>)
    ensures
        mode != ContractMode::MigratedOut ==> (r matches Err(e) && e@ == (
        ErrorView::OperationUnavailable { message: unavailable_message(mode) })),
        mode == ContractMode::MigratedOut ==> {
            &&& r is Ok <==> all_valid(addresses@)
            &&& r matches Ok(msgs) ==> {
                &&& msgs@.len() == addresses@.len()
                &&& forall|i: int|
                    0 <= i < msgs@.len() ==> #[trigger] msgs@[i]@ == notification_view(
                        HumanPeerView { address: addresses@[i]->Ok_0@, code_hash: code_hash@ },
                        migrated_to@,
                        bytes_view(data),
                        0,
                        ReplyOn::Never,
                    )
            }
            &&& r matches Err(e) ==> invalid_address_error(addresses@, e@)
        },
{
    if let Err(e) = check_mode(&[ContractMode::MigratedOut], mode, None) {
        return Err(mode_error(e));
    }
    let recipients = recipients_with_code_hash(&addresses, &code_hash);
    let r = create_broadcast_migration_complete_notification_msgs(
        ReplyOn::Never,
        0,
        migrated_to,
        recipients,
        data,
    );
    proof {
        if r is Ok {
            assert forall|i: int| 0 <= i < addresses@.len() implies addresses@[i] is Ok by {
                assert(recipients@[i] is Ok);
            }
        } else {
            let e = r->Err_0;
            let k = choose|k: int|
                is_first_invalid(recipients@, k) && e@ == (ErrorView::AddressInvalid {
                    message: recipients@[k]->Err_0@,
                });
            assert(recipients@[k] is Err);
            assert(is_first_invalid(addresses@, k)) by {
                assert forall|j: int| 0 <= j < k implies addresses@[j] is Ok by {
                    assert(recipients@[j] is Ok);
                }
            }
        }
    }
    r
}

/// The registry's sequence after `entry` is added, unless already there.
pub open spec fn with_subscriber(s: Seq<PeerView>, entry: PeerView) -> Seq<PeerView> {
    if s.contains(entry) {
        s
    } else {
        s.push(entry)
    }
}

/// The slot counter after one slot is used.
pub open spec fn decremented(slots: Option<u8>) -> Option<u8> {
    match slots {
        Some(n) => Some((n - 1) as u8),
        None => None,
    }
}

/// Whether a registration of `entry` can go ahead: a slot is left, or the
/// entry is already registered and duplicates cost no slot.
pub open spec fn admits(reg: RegistryView, entry: PeerView, consume_slot_on_duplicate: bool) -> bool {
    reg.remaining_slots != Some(0u8) || (!consume_slot_on_duplicate && reg.subscribers.contains(
        entry,
    ))
}

/// The registry after an admitted registration of `entry`. With
/// `consume_slot_on_duplicate` a slot is used whether or not the entry is new;
/// without it only a new entry uses one.
pub open spec fn after_add(reg: RegistryView, entry: PeerView, consume_slot_on_duplicate: bool) -> RegistryView {
    if !consume_slot_on_duplicate && reg.subscribers.contains(entry) {
        reg
    } else {
        RegistryView {
            subscribers: with_subscriber(reg.subscribers, entry),
            remaining_slots: decremented(reg.remaining_slots),
        }
    }
}

/// Whether `entry` is among `subscribers`.
pub fn is_registered(subscribers: &Vec<CanonicalContractInfo>, entry: &CanonicalContractInfo) -> (r:
    bool)
    ensures
        r == peers_view(subscribers@).contains(entry@),
{
    let mut i: usize = 0;
    while i < subscribers.len()
        invariant
            0 <= i <= subscribers@.len(),
            forall|j: int| 0 <= j < i ==> subscribers@[j]@ != entry@,
        decreases subscribers@.len() - i,
    {
        if subscribers[i].same_as(entry) {
            assert(peers_view(subscribers@)[i as int] == entry@);
            return true;
        }
        i = i + 1;
    }
    assert forall|j: int| 0 <= j < peers_view(subscribers@).len() implies peers_view(
        subscribers@,
    )[j] != entry@ by {
        assert(subscribers@[j]@ != entry@);
    }
    false
}

/// Adds `(address, code_hash)` to the registry unless it is already there,
/// using a slot as `admits` and `after_add` say; fails with
/// `NoSlotsAvailable`, changing nothing, when the registration is not
/// admitted. Returns whether the entry was new.
pub fn add_migration_complete_event_subscriber(
    registry: &mut SubscriberRegistry,
    address: &Vec<u8>,
    code_hash: &str,
    consume_slot_on_duplicate: bool,
) -> (r: Result<bool, MigrationError>)
    ensures
        r is Ok <==> admits(
            old(registry)@,
            PeerView { address: address@, code_hash: code_hash@ },
            consume_slot_on_duplicate,
        ),
        r matches Ok(inserted) ==> {
            &&& final(registry)@ == after_add(
                old(registry)@,
                PeerView { address: address@, code_hash: code_hash@ },
                consume_slot_on_duplicate,
            )
            &&& inserted == !old(registry)@.subscribers.contains(
                PeerView { address: address@, code_hash: code_hash@ },
            )
        },
        r matches Err(e) ==> e@ == ErrorView::NoSlotsAvailable && final(registry)@ == old(
            registry,
        )@,
{
    let entry = CanonicalContractInfo {
        address: copy_bytes(address),
        code_hash: String::from_str(code_hash),
    };
    let ghost e = entry@;
    let known = is_registered(&registry.subscribers, &entry);
    if known && !consume_slot_on_duplicate {
        return Ok(false);
    }
    if let Some(n) = registry.remaining_slots {
        if n == 0 {
            return Err(MigrationError::NoSlotsAvailable);
        }
        registry.remaining_slots = Some(n - 1);
    }
    if !known {
        registry.subscribers.push(entry);
        assert(peers_view(registry.subscribers@) =~= peers_view(old(registry).subscribers@).push(e));
    }
    Ok(!known)
}

/// Whether some entry of `s` has `address`.
pub open spec fn has_address(s: Seq<PeerView>, address: Seq<u8>) -> bool {
    exists|i: int| 0 <= i < s.len() && s[i].address == address
}

/// `i` is the first entry of `s` with `address`.
pub open spec fn first_with_address(s: Seq<PeerView>, address: Seq<u8>, i: int) -> bool {
    &&& 0 <= i < s.len()
    &&& s[i].address == address
    &&& forall|j: int| 0 <= j < i ==> s[j].address != address
}

/// `t` is `s` with its first entry at `sender` replaced by `new_peer`; `s`
/// itself when no entry is at `sender`.
pub open spec fn rewritten(s: Seq<PeerView>, sender: Seq<u8>, new_peer: PeerView, t: Seq<PeerView>) -> bool {
    if has_address(s, sender) {
        exists|i: int| first_with_address(s, sender, i) && t == s.update(i, new_peer)
    } else {
        t == s
    }
}

/// Rewrites, in place, the first registry entry whose address is
/// `raw_sender` (code hashes are not compared) to `raw_migrated_to`, keeping
/// its position; a sender that is not registered changes nothing. Returns
/// whether an entry was rewritten.
pub fn update_migrated_subscriber(
    registry: &mut SubscriberRegistry,
    raw_sender: &Vec<u8>,
    raw_migrated_to: &CanonicalContractInfo,
) -> (updated: bool)
    ensures
        updated == has_address(old(registry)@.subscribers, raw_sender@),
        rewritten(
            old(registry)@.subscribers,
            raw_sender@,
            raw_migrated_to@,
            final(registry)@.subscribers,
        ),
        final(registry)@.remaining_slots == old(registry)@.remaining_slots,
{
    let ghost s = old(registry)@.subscribers;
    let mut i: usize = 0;
    while i < registry.subscribers.len()
        invariant
            0 <= i <= registry.subscribers@.len(),
            registry@ == old(registry)@,
            s == old(registry)@.subscribers,
            forall|j: int| 0 <= j < i ==> s[j].address != raw_sender@,
        decreases registry.subscribers@.len() - i,
    {
        assert(s[i as int] == registry.subscribers@[i as int]@);
        if bytes_equal(&registry.subscribers[i].address, raw_sender) {
            registry.subscribers[i] = raw_migrated_to.copy();
            assert(first_with_address(s, raw_sender@, i as int));
            assert(peers_view(registry.subscribers@) =~= s.update(i as int, raw_migrated_to@));
            return true;
        }
        i = i + 1;
    }
    false
}

/// The messages a registration sends: with `reciprocal_requested`, one
/// request to the new subscriber to register this contract in turn, itself
/// asking for no reciprocal registration; else none.
pub open spec fn reciprocal_messages(
    peer: Seq<char>,
    code_hash: Seq<char>,
    this_contract: HumanPeerView,
    reciprocal_requested: bool,
) -> Seq<MessageView> {
    if reciprocal_requested {
        seq![
            MessageView {
                contract_addr: peer,
                code_hash,
                body: BodyView::Subscribe {
                    address: this_contract.address,
                    code_hash: this_contract.code_hash,
                    reciprocal_requested: false,
                },
                id: 0,
                reply_on: ReplyOn::Never,
            },
        ]
    } else {
        seq![]
    }
}

/// The registration protocol, step by step: the mode check (`Running` only),
/// the admin check, the slot check where duplicates use slots, the address,
/// then the insertion. Gives the registry after the call and the messages to
/// send, or the error of the first step that fails, with the registry as it was.
pub open spec fn register_model(
    mode: ContractMode,
    config: ConfigView,
    caller: Seq<u8>,
    reg: RegistryView,
    peer: Result<ResolvedView, Seq<char>>,
    code_hash: Seq<char>,
    reciprocal_requested: bool,
    this_contract: HumanPeerView,
) -> (RegistryView, Result<Seq<MessageView>, ErrorView>) {
    if mode != ContractMode::Running {
        (reg, Err(ErrorView::OperationUnavailable { message: unavailable_message(mode) }))
    } else if config.admin is Some && config.admin->0 != caller {
        (reg, Err(ErrorView::Unauthorized))
    } else if config.consume_slot_on_duplicate && reg.remaining_slots == Some(0u8) {
        (reg, Err(ErrorView::NoSlotsAvailable))
    } else {
        match peer {
            Err(m) => (reg, Err(ErrorView::AddressInvalid { message: m })),
            Ok(p) => {
                let entry = PeerView { address: p.canonical, code_hash };
                if !admits(reg, entry, config.consume_slot_on_duplicate) {
                    (reg, Err(ErrorView::NoSlotsAvailable))
                } else {
                    (
                        after_add(reg, entry, config.consume_slot_on_duplicate),
                        Ok(
                            reciprocal_messages(
                                p.human,
                                code_hash,
                                this_contract,
                                reciprocal_requested,
                            ),
                        ),
                    )
                }
            },
        }
    }
}

pub open spec fn outcome_view(r: Result<Vec<OutboundMessage>, MigrationError>) -> Result<
    Seq<MessageView>,
    ErrorView,
> {
    match r {
        Ok(msgs) => Ok(messages_view(msgs@)),
        Err(e) => Err(e@),
    }
}

/// Registers the contract at `peer` (with `code_hash`) to be notified when
/// this contract completes its migration, as `register_model` says. `caller`
/// is the canonical address of the requester; `peer` is the requested
/// address as the addressing capability resolved it, or its refusal;
/// `this_contract` is this contract, named in a reciprocal request.
pub fn register_to_notify_on_migration_complete(
    mode: ContractMode,
    registry: &mut SubscriberRegistry,
    config: &RegistrationConfig,
    caller: &Vec<u8>,
    peer: Result<ResolvedAddress, String>,
    code_hash: String,
    reciprocal_requested: bool,
    this_contract: &ContractInfo,
) -> (r: Result<Vec<OutboundMessage>, MigrationError>)
    ensures
        (final(registry)@, outcome_view(r)) == register_model(
            mode,
            config@,
            caller@,
            old(registry)@,
            resolution_view(peer),
            code_hash@,
            reciprocal_requested,
            this_contract@,
        ),
{
    if let Err(e) = check_mode(&[ContractMode::Running], mode, None) {
        return Err(mode_error(e));
    }
    if let Some(admin) = &config.admin {
        if !bytes_equal(admin, caller) {
            return Err(MigrationError::Unauthorized);
        }
    }
    if config.consume_slot_on_duplicate && registry.remaining_slots == Some(0u8) {
        return Err(MigrationError::NoSlotsAvailable);
    }
    let resolved = match peer {
        Ok(p) => p,
        Err(message) => {
            return Err(MigrationError::AddressInvalid { message });
        },
    };
    let added = add_migration_complete_event_subscriber(
        registry,
        &resolved.canonical,
        code_hash.as_str(),
        config.consume_slot_on_duplicate,
    );
    if let Err(e) = added {
        return Err(e);
    }
    let mut msgs: Vec<OutboundMessage> = Vec::new();
    if reciprocal_requested {
        msgs.push(
            OutboundMessage {
                contract_addr: resolved.human,
                code_hash,
                msg: MessageBody::Migratable(
                    MigratableExecuteMsg::SubscribeToMigrationCompleteEvent {
                        address: this_contract.address.clone(),
                        code_hash: this_contract.code_hash.clone(),
                        reciprocal_requested: false,
                    },
                ),
                id: 0,
                reply_on: ReplyOn::Never,
            },
        );
    }
    proof {
        let p = resolution_view(peer)->Ok_0;
        assert(messages_view(msgs@) =~= reciprocal_messages(
            p.human,
            code_hash@,
            this_contract@,
            reciprocal_requested,
        ));
    }
    Ok(msgs)
}

} // verus!
