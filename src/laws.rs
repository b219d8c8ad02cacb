use vstd::prelude::*;

use crate::errors::ErrorView;
use crate::execute::{
    after_add, first_with_address, has_address, register_model, rewritten, with_subscriber,
};
use crate::mode::unavailable_message;
use crate::msg::{BodyView, MessageView};
use crate::msg_types::ContractMode;
use crate::state::{
    no_duplicates, ConfigView, HumanPeerView, PeerView, RegistryView, ResolvedView,
};

verus! {

/// `entry` stands in `s` at exactly one position.
pub open spec fn exactly_once(s: Seq<PeerView>, entry: PeerView) -> bool {
    exists|i: int|
        0 <= i < s.len() && s[i] == entry && forall|j: int|
            0 <= j < s.len() && #[trigger] s[j] == entry ==> j == i
}

/// The caller passes the admin check of `config`.
pub open spec fn authorized(config: ConfigView, caller: Seq<u8>) -> bool {
    config.admin is None || config.admin == Some(caller)
}

proof fn lemma_unique_member_once(s: Seq<PeerView>, entry: PeerView)
    requires
        no_duplicates(s),
        s.contains(entry),
    ensures
        exactly_once(s, entry),
{
    let i = choose|i: int| 0 <= i < s.len() && s[i] == entry;
    assert forall|j: int| 0 <= j < s.len() && #[trigger] s[j] == entry implies j == i by {
        if j < i {
            assert(s[j] != s[i]);
        } else if i < j {
            assert(s[i] != s[j]);
        }
    }
}

proof fn lemma_with_subscriber_unique(s: Seq<PeerView>, entry: PeerView)
    requires
        no_duplicates(s),
    ensures
        no_duplicates(with_subscriber(s, entry)),
        with_subscriber(s, entry).contains(entry),
{
    if !s.contains(entry) {
        let t = s.push(entry);
        assert(t[s.len() as int] == entry);
        assert forall|i: int, j: int| 0 <= i < j < t.len() implies t[i] != t[j] by {
            if j == s.len() {
                assert(t[i] == s[i]);
            }
        }
    }
}

/// A registration keeps the registry free of duplicate entries.
pub proof fn lemma_register_keeps_registry_unique(
    mode: ContractMode,
    config: ConfigView,
    caller: Seq<u8>,
    reg: RegistryView,
    peer: Result<ResolvedView, Seq<char>>,
    code_hash: Seq<char>,
    reciprocal_requested: bool,
    this_contract: HumanPeerView,
)
    requires
        reg.wf(),
    ensures
        register_model(
            mode,
            config,
            caller,
            reg,
            peer,
            code_hash,
            reciprocal_requested,
            this_contract,
        ).0.wf(),
{
    if let Ok(p) = peer {
        lemma_with_subscriber_unique(reg.subscribers, PeerView { address: p.canonical, code_hash });
    }
}

/// Registering the same contract twice leaves exactly one entry for it, and
/// the second registration changes no entry.
pub proof fn lemma_registration_idempotent(
    mode: ContractMode,
    config: ConfigView,
    caller: Seq<u8>,
    reg: RegistryView,
    peer: ResolvedView,
    code_hash: Seq<char>,
    first_reciprocal: bool,
    second_reciprocal: bool,
    this_contract: HumanPeerView,
)
    requires
        reg.wf(),
    ensures
        ({
            let (reg1, out1) = register_model(
                mode,
                config,
                caller,
                reg,
                Ok(peer),
                code_hash,
                first_reciprocal,
                this_contract,
            );
            let (reg2, out2) = register_model(
                mode,
                config,
                caller,
                reg1,
                Ok(peer),
                code_hash,
                second_reciprocal,
                this_contract,
            );
            out1 is Ok ==> {
                &&& reg2.subscribers == reg1.subscribers
                &&& exactly_once(reg2.subscribers, PeerView { address: peer.canonical, code_hash })
            }
        }),
{
    let entry = PeerView { address: peer.canonical, code_hash };
    let (reg1, out1) = register_model(
        mode,
        config,
        caller,
        reg,
        Ok(peer),
        code_hash,
        first_reciprocal,
        this_contract,
    );
    if out1 is Ok {
        lemma_with_subscriber_unique(reg.subscribers, entry);
        assert(reg1.subscribers.contains(entry));
        assert(with_subscriber(reg1.subscribers, entry) == reg1.subscribers);
        lemma_unique_member_once(reg1.subscribers, entry);
    }
}

/// With one slot left, a registration that passes the mode check, the admin check
/// and address resolution succeeds and leaves no slot; a second registration
/// of a different contract then fails with `NoSlotsAvailable`. Where
/// duplicates cost no slot, this holds of contracts not yet registered: a
/// registered one is taken again without using a slot.
pub proof fn lemma_slot_exhaustion(
    config: ConfigView,
    caller: Seq<u8>,
    reg: RegistryView,
    first: ResolvedView,
    first_code_hash: Seq<char>,
    second: ResolvedView,
    second_code_hash: Seq<char>,
    reciprocal_requested: bool,
    this_contract: HumanPeerView,
)
    requires
        reg.remaining_slots == Some(1u8),
        authorized(config, caller),
        config.consume_slot_on_duplicate || (!reg.subscribers.contains(
            PeerView { address: first.canonical, code_hash: first_code_hash },
        ) && !reg.subscribers.contains(
            PeerView { address: second.canonical, code_hash: second_code_hash },
        )),
        (PeerView { address: first.canonical, code_hash: first_code_hash }) != (PeerView {
            address: second.canonical,
            code_hash: second_code_hash,
        }),
    ensures
        ({
            let (reg1, out1) = register_model(
                ContractMode::Running,
                config,
                caller,
                reg,
                Ok(first),
                first_code_hash,
                reciprocal_requested,
                this_contract,
            );
            let (reg2, out2) = register_model(
                ContractMode::Running,
                config,
                caller,
                reg1,
                Ok(second),
                second_code_hash,
                reciprocal_requested,
                this_contract,
            );
            &&& out1 is Ok
            &&& reg1.remaining_slots == Some(0u8)
            &&& out2 == Err::<Seq<MessageView>, ErrorView>(ErrorView::NoSlotsAvailable)
            &&& reg2 == reg1
        }),
{
    let e1 = PeerView { address: first.canonical, code_hash: first_code_hash };
    let e2 = PeerView { address: second.canonical, code_hash: second_code_hash };
    let (reg1, out1) = register_model(
        ContractMode::Running,
        config,
        caller,
        reg,
        Ok(first),
        first_code_hash,
        reciprocal_requested,
        this_contract,
    );
    assert(reg1.subscribers == with_subscriber(reg.subscribers, e1));
    if !reg.subscribers.contains(e2) {
        if reg1.subscribers.contains(e2) {
            let k = choose|k: int| 0 <= k < reg1.subscribers.len() && reg1.subscribers[k] == e2;
            if !reg.subscribers.contains(e1) {
                if k < reg.subscribers.len() {
                    assert(reg.subscribers[k] == e2);
                }
            } else {
                assert(reg.subscribers[k] == e2);
            }
        }
    }
}

/// In every mode but `Running`, registration fails with
/// `OperationUnavailable` naming the mode, and changes nothing.
pub proof fn lemma_register_needs_running(
    mode: ContractMode,
    config: ConfigView,
    caller: Seq<u8>,
    reg: RegistryView,
    peer: Result<ResolvedView, Seq<char>>,
    code_hash: Seq<char>,
    reciprocal_requested: bool,
    this_contract: HumanPeerView,
)
    requires
        mode != ContractMode::Running,
    ensures
        register_model(
            mode,
            config,
            caller,
            reg,
            peer,
            code_hash,
            reciprocal_requested,
            this_contract,
        ) == (reg, Err::<Seq<MessageView>, ErrorView>(
            ErrorView::OperationUnavailable { message: unavailable_message(mode) },
        )),
{
}

/// A successful registration that asks for a reciprocal one sends exactly
/// one message: to the new subscriber, asking it to register this contract,
/// and itself asking for no reciprocal registration.
pub proof fn lemma_reciprocal_bounded(
    mode: ContractMode,
    config: ConfigView,
    caller: Seq<u8>,
    reg: RegistryView,
    peer: ResolvedView,
    code_hash: Seq<char>,
    this_contract: HumanPeerView,
)
    ensures
        ({
            let out = register_model(
                mode,
                config,
                caller,
                reg,
                Ok(peer),
                code_hash,
                true,
                this_contract,
            ).1;
            out matches Ok(msgs) ==> {
                &&& msgs.len() == 1
                &&& msgs[0].contract_addr == peer.human
                &&& msgs[0].body == (BodyView::Subscribe {
                    address: this_contract.address,
                    code_hash: this_contract.code_hash,
                    reciprocal_requested: false,
                })
            }
        }),
{
}

/// Without a reciprocal request a registration sends nothing.
pub proof fn lemma_no_reciprocal_no_message(
    mode: ContractMode,
    config: ConfigView,
    caller: Seq<u8>,
    reg: RegistryView,
    peer: Result<ResolvedView, Seq<char>>,
    code_hash: Seq<char>,
    this_contract: HumanPeerView,
)
    ensures
        register_model(mode, config, caller, reg, peer, code_hash, false, this_contract).1 matches Ok(
            msgs,
        ) ==> msgs.len() == 0,
{
}

/// Slots never grow, and entries only come with slots: with a slot counter,
/// the number of entries plus the slots left never increases, so the
/// registry never outgrows the slots it started with.
pub proof fn lemma_register_respects_capacity(
    mode: ContractMode,
    config: ConfigView,
    caller: Seq<u8>,
    reg: RegistryView,
    peer: Result<ResolvedView, Seq<char>>,
    code_hash: Seq<char>,
    reciprocal_requested: bool,
    this_contract: HumanPeerView,
)
    requires
        reg.remaining_slots is Some,
    ensures
        ({
            let reg1 = register_model(
                mode,
                config,
                caller,
                reg,
                peer,
                code_hash,
                reciprocal_requested,
                this_contract,
            ).0;
            &&& reg1.remaining_slots is Some
            &&& reg1.remaining_slots->0 <= reg.remaining_slots->0
            &&& reg1.subscribers.len() + reg1.remaining_slots->0 <= reg.subscribers.len()
                + reg.remaining_slots->0
        }),
{
}

/// A migration notification rewrites at most one entry, the first at the
/// sender's address, in its place; every other entry and the length stay.
/// From an unregistered sender it changes nothing.
pub proof fn lemma_rewrite_is_local(
    s: Seq<PeerView>,
    sender: Seq<u8>,
    new_peer: PeerView,
    t: Seq<PeerView>,
)
    requires
        rewritten(s, sender, new_peer, t),
    ensures
        t.len() == s.len(),
        forall|j: int| 0 <= j < s.len() && t[j] != s[j] ==> first_with_address(s, sender, j),
        !has_address(s, sender) ==> t == s,
        has_address(s, sender) ==> exists|i: int|
            first_with_address(s, sender, i) && t[i] == new_peer,
{
    if has_address(s, sender) {
        let i = choose|i: int| first_with_address(s, sender, i) && t == s.update(i, new_peer);
        assert(t[i] == new_peer);
    }
}

} // verus!
