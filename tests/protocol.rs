use migratable::errors::{
    contains_str, humanize_migration_complete_notification_error, MigratableStdError,
    MigrationError,
};
use migratable::execute::{
    add_migration_complete_event_subscriber, broadcast_migration_complete_notification,
    create_broadcast_migration_complete_notification_msgs,
    register_to_notify_on_migration_complete, update_migrated_subscriber,
};
use migratable::mode::check_mode;
use migratable::msg::{
    MessageBody, MigratableExecuteMsg, MigrationListenerExecuteMsg, OutboundMessage, ReplyOn,
};
use migratable::msg_types::{ContractMode, ReplyError};
use migratable::state::{
    CanonicalContractInfo, ContractInfo, MigratedToState, MigrationState, RegistrationConfig,
    ResolvedAddress, SubscriberRegistry,
};

fn peer(address: &str, code_hash: &str) -> CanonicalContractInfo {
    CanonicalContractInfo {
        address: address.as_bytes().to_vec(),
        code_hash: code_hash.to_string(),
    }
}

fn resolved(address: &str) -> Result<ResolvedAddress, String> {
    Ok(ResolvedAddress {
        human: address.to_string(),
        canonical: address.as_bytes().to_vec(),
    })
}

fn config(consume_slot_on_duplicate: bool) -> RegistrationConfig {
    RegistrationConfig {
        admin: None,
        consume_slot_on_duplicate,
    }
}

fn this_contract() -> ContractInfo {
    ContractInfo {
        address: "v1".to_string(),
        code_hash: "h1".to_string(),
    }
}

fn register_with(
    mode: ContractMode,
    registry: &mut SubscriberRegistry,
    config: &RegistrationConfig,
    address: &str,
    code_hash: &str,
    reciprocal_requested: bool,
) -> Result<Vec<OutboundMessage>, MigrationError> {
    register_to_notify_on_migration_complete(
        mode,
        registry,
        config,
        &b"caller".to_vec(),
        resolved(address),
        code_hash.to_string(),
        reciprocal_requested,
        &this_contract(),
    )
}

#[test]
fn registering_twice_keeps_one_entry() {
    let mut registry = SubscriberRegistry::new(None);
    let cfg = config(true);
    register_with(ContractMode::Running, &mut registry, &cfg, "addr1", "hash1", false).unwrap();
    register_with(ContractMode::Running, &mut registry, &cfg, "addr1", "hash1", false).unwrap();
    assert_eq!(vec![peer("addr1", "hash1")], registry.subscribers);
}

#[test]
fn one_slot_is_used_up_by_one_registration() {
    let mut registry = SubscriberRegistry::new(Some(1));
    let cfg = config(false);
    let first = register_with(ContractMode::Running, &mut registry, &cfg, "addr1", "hash1", false);
    assert!(first.is_ok());
    assert_eq!(Some(0), registry.remaining_slots);
    let second = register_with(ContractMode::Running, &mut registry, &cfg, "addr2", "hash2", false);
    assert_eq!(Err(MigrationError::NoSlotsAvailable), second);
    assert_eq!(vec![peer("addr1", "hash1")], registry.subscribers);
}

#[test]
fn duplicate_costs_no_slot_when_so_configured() {
    let mut registry = SubscriberRegistry::new(Some(1));
    let cfg = config(false);
    register_with(ContractMode::Running, &mut registry, &cfg, "addr1", "hash1", false).unwrap();
    let again = register_with(ContractMode::Running, &mut registry, &cfg, "addr1", "hash1", false);
    assert!(again.is_ok());
    assert_eq!(Some(0), registry.remaining_slots);
    assert_eq!(vec![peer("addr1", "hash1")], registry.subscribers);
}

#[test]
fn register_is_unavailable_once_migrated_out() {
    let mut registry = SubscriberRegistry::new(Some(5));
    let res = register_with(ContractMode::MigratedOut, &mut registry, &config(true), "addr1", "hash1", true);
    assert_eq!(
        Err(MigrationError::OperationUnavailable {
            message: "This operation is unavailable while the contract mode is MigratedOut"
                .to_string()
        }),
        res
    );
    assert_eq!(SubscriberRegistry::new(Some(5)), registry);
}

#[test]
fn broadcast_is_unavailable_while_running() {
    let res = broadcast_migration_complete_notification(
        ContractMode::Running,
        &this_contract(),
        vec![Ok("listener_a".to_string())],
        "listener_hash".to_string(),
        None,
    );
    assert_eq!(
        Err(MigrationError::OperationUnavailable {
            message: "This operation is unavailable while the contract mode is Running".to_string()
        }),
        res
    );
}

#[test]
fn rewrite_targets_first_entry_at_sender() {
    let mut registry = SubscriberRegistry {
        subscribers: vec![peer("a", "ha"), peer("b", "hb")],
        remaining_slots: Some(3),
    };
    let updated = update_migrated_subscriber(&mut registry, &b"a".to_vec(), &peer("c", "hc"));
    assert!(updated);
    assert_eq!(vec![peer("c", "hc"), peer("b", "hb")], registry.subscribers);
    assert_eq!(Some(3), registry.remaining_slots);
}

#[test]
fn rewrite_matches_address_only() {
    let mut registry = SubscriberRegistry {
        subscribers: vec![peer("a", "old_hash"), peer("a", "other")],
        remaining_slots: None,
    };
    let updated = update_migrated_subscriber(&mut registry, &b"a".to_vec(), &peer("c", "hc"));
    assert!(updated);
    assert_eq!(vec![peer("c", "hc"), peer("a", "other")], registry.subscribers);
}

#[test]
fn rewrite_ignores_unknown_sender() {
    let mut registry = SubscriberRegistry {
        subscribers: vec![peer("a", "ha")],
        remaining_slots: None,
    };
    let updated = update_migrated_subscriber(&mut registry, &b"z".to_vec(), &peer("c", "hc"));
    assert!(!updated);
    assert_eq!(vec![peer("a", "ha")], registry.subscribers);
}

#[test]
fn rewrite_of_empty_registry_is_no_op() {
    let mut registry = SubscriberRegistry::new(None);
    assert!(!update_migrated_subscriber(&mut registry, &b"a".to_vec(), &peer("c", "hc")));
    assert!(registry.subscribers.is_empty());
}

#[test]
fn reciprocal_request_sends_one_non_reciprocal_register() {
    let mut registry = SubscriberRegistry::new(None);
    let msgs = register_with(ContractMode::Running, &mut registry, &config(true), "peer_p", "hash_p", true)
        .unwrap();
    assert_eq!(
        vec![OutboundMessage {
            contract_addr: "peer_p".to_string(),
            code_hash: "hash_p".to_string(),
            msg: MessageBody::Migratable(MigratableExecuteMsg::SubscribeToMigrationCompleteEvent {
                address: "v1".to_string(),
                code_hash: "h1".to_string(),
                reciprocal_requested: false,
            }),
            id: 0,
            reply_on: ReplyOn::Never,
        }],
        msgs
    );
}

#[test]
fn no_reciprocal_request_sends_nothing() {
    let mut registry = SubscriberRegistry::new(None);
    let msgs = register_with(ContractMode::Running, &mut registry, &config(true), "peer_p", "hash_p", false)
        .unwrap();
    assert!(msgs.is_empty());
}

#[test]
fn register_flow_with_two_slots() {
    let mut registry = SubscriberRegistry::new(Some(2));
    let cfg = config(true);
    register_with(ContractMode::Running, &mut registry, &cfg, "addr1", "hash1", false).unwrap();
    assert_eq!(vec![peer("addr1", "hash1")], registry.subscribers);
    assert_eq!(Some(1), registry.remaining_slots);
    register_with(ContractMode::Running, &mut registry, &cfg, "addr1", "hash1", false).unwrap();
    assert_eq!(vec![peer("addr1", "hash1")], registry.subscribers);
    assert_eq!(Some(0), registry.remaining_slots);
    let third = register_with(ContractMode::Running, &mut registry, &cfg, "addr2", "hash2", false);
    assert_eq!(Err(MigrationError::NoSlotsAvailable), third);
    assert_eq!(vec![peer("addr1", "hash1")], registry.subscribers);
}

#[test]
fn broadcast_flow_after_migration() {
    let mut state = MigrationState::new(None, None);
    state
        .migrate_out(MigratedToState {
            contract: peer("v2", "h2"),
            migration_secret: b"secret".to_vec(),
        })
        .unwrap();
    assert_eq!(ContractMode::MigratedOut, state.mode);
    let migrated_to = ContractInfo {
        address: "v2".to_string(),
        code_hash: "h2".to_string(),
    };
    let msgs = broadcast_migration_complete_notification(
        state.mode,
        &migrated_to,
        vec![Ok("listener_a".to_string()), Ok("listener_b".to_string())],
        "listener_hash".to_string(),
        Some(b"x".to_vec()),
    )
    .unwrap();
    let expected: Vec<OutboundMessage> = ["listener_a", "listener_b"]
        .iter()
        .map(|a| OutboundMessage {
            contract_addr: a.to_string(),
            code_hash: "listener_hash".to_string(),
            msg: MessageBody::Listener(MigrationListenerExecuteMsg::MigrationCompleteNotification {
                to: migrated_to.clone(),
                data: Some(b"x".to_vec()),
            }),
            id: 0,
            reply_on: ReplyOn::Never,
        })
        .collect();
    assert_eq!(expected, msgs);
}

#[test]
fn broadcast_fails_whole_batch_on_first_bad_address() {
    let res = broadcast_migration_complete_notification(
        ContractMode::MigratedOut,
        &this_contract(),
        vec![
            Ok("listener_a".to_string()),
            Err("bad one".to_string()),
            Err("bad two".to_string()),
        ],
        "listener_hash".to_string(),
        None,
    );
    assert_eq!(
        Err(MigrationError::AddressInvalid {
            message: "bad one".to_string()
        }),
        res
    );
}

#[test]
fn create_msgs_keeps_reply_settings() {
    let recipient = ContractInfo {
        address: "listener".to_string(),
        code_hash: "lh".to_string(),
    };
    let msgs = create_broadcast_migration_complete_notification_msgs(
        ReplyOn::Error,
        7,
        &this_contract(),
        vec![Ok(recipient)],
        None,
    )
    .unwrap();
    assert_eq!(1, msgs.len());
    assert_eq!(7, msgs[0].id);
    assert_eq!(ReplyOn::Error, msgs[0].reply_on);
    assert_eq!("listener", msgs[0].contract_addr);
    assert_eq!("lh", msgs[0].code_hash);
}

#[test]
fn create_msgs_of_no_recipients_is_empty() {
    let msgs = create_broadcast_migration_complete_notification_msgs(
        ReplyOn::Never,
        0,
        &this_contract(),
        vec![],
        Some(b"x".to_vec()),
    )
    .unwrap();
    assert!(msgs.is_empty());
}

#[test]
fn register_requires_admin_when_configured() {
    let mut registry = SubscriberRegistry::new(None);
    let cfg = RegistrationConfig {
        admin: Some(b"admin".to_vec()),
        consume_slot_on_duplicate: true,
    };
    let res = register_to_notify_on_migration_complete(
        ContractMode::Running,
        &mut registry,
        &cfg,
        &b"intruder".to_vec(),
        resolved("addr1"),
        "hash1".to_string(),
        false,
        &this_contract(),
    );
    assert_eq!(Err(MigrationError::Unauthorized), res);
    assert!(registry.subscribers.is_empty());
    let ok = register_to_notify_on_migration_complete(
        ContractMode::Running,
        &mut registry,
        &cfg,
        &b"admin".to_vec(),
        resolved("addr1"),
        "hash1".to_string(),
        false,
        &this_contract(),
    );
    assert!(ok.is_ok());
    assert_eq!(vec![peer("addr1", "hash1")], registry.subscribers);
}

#[test]
fn register_rejects_invalid_address_without_change() {
    let mut registry = SubscriberRegistry::new(Some(2));
    let res = register_to_notify_on_migration_complete(
        ContractMode::Running,
        &mut registry,
        &config(true),
        &b"caller".to_vec(),
        Err("Invalid input: human address too short".to_string()),
        "hash1".to_string(),
        false,
        &this_contract(),
    );
    assert_eq!(
        Err(MigrationError::AddressInvalid {
            message: "Invalid input: human address too short".to_string()
        }),
        res
    );
    assert_eq!(SubscriberRegistry::new(Some(2)), registry);
}

#[test]
fn slot_check_precedes_address_check_when_duplicates_use_slots() {
    let mut registry = SubscriberRegistry::new(Some(0));
    let res = register_to_notify_on_migration_complete(
        ContractMode::Running,
        &mut registry,
        &config(true),
        &b"caller".to_vec(),
        Err("bad".to_string()),
        "hash1".to_string(),
        false,
        &this_contract(),
    );
    assert_eq!(Err(MigrationError::NoSlotsAvailable), res);
}

#[test]
fn add_subscriber_reports_new_entries() {
    let mut registry = SubscriberRegistry::new(None);
    assert_eq!(
        Ok(true),
        add_migration_complete_event_subscriber(&mut registry, &b"a".to_vec(), "ha", true)
    );
    assert_eq!(
        Ok(false),
        add_migration_complete_event_subscriber(&mut registry, &b"a".to_vec(), "ha", true)
    );
    assert_eq!(
        Ok(true),
        add_migration_complete_event_subscriber(&mut registry, &b"a".to_vec(), "other", true)
    );
    assert_eq!(vec![peer("a", "ha"), peer("a", "other")], registry.subscribers);
    assert_eq!(None, registry.remaining_slots);
}

#[test]
fn mode_check_default_and_override_messages() {
    assert_eq!(
        Ok(()),
        check_mode(&[ContractMode::Running, ContractMode::MigratedOut], ContractMode::MigratedOut, None)
    );
    assert_eq!(
        Err(ReplyError::OperationUnavailable {
            message: "This operation is unavailable while the contract mode is Running".to_string()
        }),
        check_mode(&[ContractMode::MigratedOut], ContractMode::Running, None)
    );
    assert_eq!(
        Err(ReplyError::OperationUnavailable {
            message: "closed".to_string()
        }),
        check_mode(&[], ContractMode::Running, Some("closed".to_string()))
    );
}

#[test]
fn migrate_out_happens_once() {
    let mut state = MigrationState::new(Some(1), None);
    let to = MigratedToState {
        contract: peer("v2", "h2"),
        migration_secret: b"s".to_vec(),
    };
    assert!(state.migrate_out(to.clone()).is_ok());
    assert_eq!(Some(to.clone()), state.migrated_to);
    let again = state.migrate_out(MigratedToState {
        contract: peer("v3", "h3"),
        migration_secret: b"t".to_vec(),
    });
    assert_eq!(
        Err(MigrationError::OperationUnavailable {
            message: "This operation is unavailable while the contract mode is MigratedOut"
                .to_string()
        }),
        again
    );
    assert_eq!(Some(to), state.migrated_to);
}

#[test]
fn error_messages() {
    assert_eq!(
        "No migration complete notification slots available",
        MigrationError::NoSlotsAvailable.message()
    );
    assert_eq!("Unauthorized", MigrationError::Unauthorized.message());
    assert_eq!(
        "bad",
        MigrationError::AddressInvalid {
            message: "bad".to_string()
        }
        .message()
    );
}

#[test]
fn notification_outcomes_are_humanized() {
    assert_eq!(Ok(()), humanize_migration_complete_notification_error(Ok(())));
    assert_eq!(
        Err(MigratableStdError::MigrationCompleteNotificationFailed(
            "someaddress".to_string(),
            "execute wasm contract failed: failed to validate transaction".to_string()
        )),
        humanize_migration_complete_notification_error(Err(
            "execute wasm contract failed: failed to validate transaction".to_string()
        ))
    );
    assert_eq!(
        Err(MigratableStdError::Std("out of gas".to_string())),
        humanize_migration_complete_notification_error(Err("out of gas".to_string()))
    );
}

#[test]
fn substring_search() {
    assert!(contains_str("abc failed to validate", "failed to validate"));
    assert!(contains_str("abc", ""));
    assert!(contains_str("abc", "abc"));
    assert!(!contains_str("ab", "abc"));
    assert!(!contains_str("failed to valid", "failed to validate"));
}
