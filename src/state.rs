use vstd::prelude::*;

use crate::errors::{ErrorView, MigrationError};
use crate::mode::{check_mode, mode_error, unavailable_message};
use crate::msg_types::ContractMode;

verus! {

/// A contract reference in canonical form: the stable address bytes that
/// storage and comparisons use, and the hash of the contract's code.
#[derive(Clone, Debug, PartialEq, Eq)]
pub struct CanonicalContractInfo {
    pub address: Vec<u8>,
    pub code_hash: String,
}

/// A contract reference in human form, as outbound messages address it.
#[derive(Clone, Debug, PartialEq, Eq)]
pub struct ContractInfo {
    pub address: String,
    pub code_hash: String,
}

/// The mathematical value of a canonical contract reference.
pub struct PeerView {
    pub address: Seq<u8>,
    pub code_hash: Seq<char>,
}

/// The mathematical value of a human contract reference.
pub struct HumanPeerView {
    pub address: Seq<char>,
    pub code_hash: Seq<char>,
}

impl View for CanonicalContractInfo {
    type V = PeerView;

    open spec fn view(&self) -> PeerView {
        PeerView { address: self.address@, code_hash: self.code_hash@ }
    }
}

impl View for ContractInfo {
    type V = HumanPeerView;

    open spec fn view(&self) -> HumanPeerView {
        HumanPeerView { address: self.address@, code_hash: self.code_hash@ }
    }
}

/// Byte-wise equality of two address encodings.
pub fn bytes_equal(a: &Vec<u8>, b: &Vec<u8>) -> (r: bool)
    ensures
        r == (a@ == b@),
{
    if a.len() != b.len() {
        return false;
    }
    let mut i: usize = 0;
    while i < a.len()
        invariant
            0 <= i <= a@.len(),
            a@.len() == b@.len(),
            a@.subrange(0, i as int) == b@.subrange(0, i as int),
        decreases a@.len() - i,
    {
        if a[i] != b[i] {
            return false;
        }
        assert(a@.subrange(0, i + 1) == a@.subrange(0, i as int).push(a@[i as int]));
        assert(b@.subrange(0, i + 1) == b@.subrange(0, i as int).push(b@[i as int]));
        i = i + 1;
    }
    assert(a@ == a@.subrange(0, a@.len() as int));
    assert(b@ == b@.subrange(0, b@.len() as int));
    true
}

/// A fresh copy of a byte string.
pub fn copy_bytes(a: &Vec<u8>) -> (r: Vec<u8>)
    ensures
        r@ == a@,
{
    let mut r: Vec<u8> = Vec::with_capacity(a.len());
    let mut i: usize = 0;
    while i < a.len()
        invariant
            0 <= i <= a@.len(),
            r@ == a@.subrange(0, i as int),
        decreases a@.len() - i,
    {
        r.push(a[i]);
        i = i + 1;
    }
    assert(a@ == a@.subrange(0, a@.len() as int));
    r
}

impl CanonicalContractInfo {
    /// Structural equality: same address and same code hash.
    pub fn same_as(&self, other: &CanonicalContractInfo) -> (r: bool)
        ensures
            r == (self@ == other@),
    {
        bytes_equal(&self.address, &other.address) && self.code_hash == other.code_hash
    }

    pub fn copy(&self) -> (r: CanonicalContractInfo)
        ensures
            r@ == self@,
    {
        CanonicalContractInfo { address: copy_bytes(&self.address), code_hash: self.code_hash.clone() }
    }
}

impl ContractInfo {
    pub fn copy(&self) -> (r: ContractInfo)
        ensures
            r@ == self@,
    {
        ContractInfo { address: self.address.clone(), code_hash: self.code_hash.clone() }
    }
}

/// The views of a sequence of canonical references, in order.
pub open spec fn peers_view(s: Seq<CanonicalContractInfo>) -> Seq<PeerView> {
    s.map_values(|c: CanonicalContractInfo| c@)
}

/// The contracts to notify when this contract has migrated, and the optional
/// number of registrations still allowed (absent: unlimited).
#[derive(Clone, Debug, PartialEq, Eq)]
pub struct SubscriberRegistry {
    pub subscribers: Vec<CanonicalContractInfo>,
    pub remaining_slots: Option<u8>,
}

pub struct RegistryView {
    pub subscribers: Seq<PeerView>,
    pub remaining_slots: Option<u8>,
}

impl View for SubscriberRegistry {
    type V = RegistryView;

    open spec fn view(&self) -> RegistryView {
        RegistryView {
            subscribers: peers_view(self.subscribers@),
            remaining_slots: self.remaining_slots,
        }
    }
}

/// No two entries of `s` are the same reference.
pub open spec fn no_duplicates(s: Seq<PeerView>) -> bool {
    forall|i: int, j: int| 0 <= i < j < s.len() ==> s[i] != s[j]
}

impl RegistryView {
    pub open spec fn wf(self) -> bool {
        no_duplicates(self.subscribers)
    }
}

impl SubscriberRegistry {
    /// An empty registry; `remaining_slots` bounds the registrations it takes.
    pub fn new(remaining_slots: Option<u8>) -> (r: SubscriberRegistry)
        ensures
            r@.subscribers.len() == 0,
            r@.remaining_slots == remaining_slots,
            r@.wf(),
    {
        SubscriberRegistry { subscribers: Vec::new(), remaining_slots }
    }
}

/// How registration behaves in a deployment.
#[derive(Clone, Debug, PartialEq, Eq)]
pub struct RegistrationConfig {
    /// When present, only this canonical address may register subscribers.
    pub admin: Option<Vec<u8>>,
    /// Whether registering an already registered contract still uses a slot.
    pub consume_slot_on_duplicate: bool,
}

pub struct ConfigView {
    pub admin: Option<Seq<u8>>,
    pub consume_slot_on_duplicate: bool,
}

impl View for RegistrationConfig {
    type V = ConfigView;

    open spec fn view(&self) -> ConfigView {
        ConfigView {
            admin: match self.admin {
                Some(a) => Some(a@),
                None => None,
            },
            consume_slot_on_duplicate: self.consume_slot_on_duplicate,
        }
    }
}

/// An address as the addressing capability resolved it: the validated human
/// form and the canonical form.
#[derive(Clone, Debug, PartialEq, Eq)]
pub struct ResolvedAddress {
    pub human: String,
    pub canonical: Vec<u8>,
}

pub struct ResolvedView {
    pub human: Seq<char>,
    pub canonical: Seq<u8>,
}

impl View for ResolvedAddress {
    type V = ResolvedView;

    open spec fn view(&self) -> ResolvedView {
        ResolvedView { human: self.human@, canonical: self.canonical@ }
    }
}

/// The view of a resolution outcome: the address, or the capability's message.
pub open spec fn resolution_view(r: Result<ResolvedAddress, String>) -> Result<ResolvedView, Seq<char>> {
    match r {
        Ok(a) => Ok(a@),
        Err(m) => Err(m@),
    }
}

/// A record of the other end of a migration: its reference and the secret
/// that authenticates the migration.
#[derive(Clone, Debug, PartialEq, Eq)]
pub struct MigratedFromState {
    pub contract: CanonicalContractInfo,
    pub migration_secret: Vec<u8>,
}

#[derive(Clone, Debug, PartialEq, Eq)]
pub struct MigratedToState {
    pub contract: CanonicalContractInfo,
    pub migration_secret: Vec<u8>,
}

/// The whole per-contract state of the coordination core.
#[derive(Clone, Debug, PartialEq, Eq)]
pub struct MigrationState {
    pub mode: ContractMode,
    pub registry: SubscriberRegistry,
    pub migrated_from: Option<MigratedFromState>,
    pub migrated_to: Option<MigratedToState>,
}

impl MigrationState {
    /// A running contract with an empty registry bounded by
    /// `remaining_slots`, recording the contract it was migrated from, if any.
    pub fn new(remaining_slots: Option<u8>, migrated_from: Option<MigratedFromState>) -> (r:
        MigrationState)
        ensures
            r.mode == ContractMode::Running,
            r.registry@.subscribers.len() == 0,
            r.registry@.remaining_slots == remaining_slots,
            r.registry@.wf(),
            r.migrated_from == migrated_from,
            r.migrated_to is None,
    {
        MigrationState {
            mode: ContractMode::Running,
            registry: SubscriberRegistry::new(remaining_slots),
            migrated_from,
            migrated_to: None,
        }
    }

    /// Moves a running contract to `MigratedOut`, recording its successor.
    /// In any other mode it fails with `OperationUnavailable` and changes
    /// nothing: the mode only ever goes from `Running` to `MigratedOut`.
    pub fn migrate_out(&mut self, migrated_to: MigratedToState) -> (r: Result<(), MigrationError>)
        ensures
            r is Ok <==> old(self).mode == ContractMode::Running,
            r is Ok ==> *final(self) == (MigrationState {
                mode: ContractMode::MigratedOut,
                migrated_to: Some(migrated_to),
                ..*old(self)
            }),
            r matches Err(e) ==> e@ == (ErrorView::OperationUnavailable {
                message: unavailable_message(old(self).mode),
            }) && *final(self) == *old(self),
    {
        if let Err(e) = check_mode(&[ContractMode::Running], self.mode, None) {
            return Err(mode_error(e));
        }
        self.mode = ContractMode::MigratedOut;
        self.migrated_to = Some(migrated_to);
        Ok(())
    }
}

} // verus!
