use pay_dcp::account_flow::{
    create_account, CreationAction, CreationContext, CreationEvent, CreationState,
};
use pay_dcp::accounts::{AccountError, AccountRecord, KeystoreKind};
use pay_dcp::backend::{pick_backend_start, KeystoreBackend, PickBackendStart, SyncMode, TargetOs};

fn config(message: &str) -> AccountError {
    AccountError::Config(message.to_string())
}

fn context(backend: Option<&str>, vault: Option<&str>, force: bool, os: TargetOs) -> CreationContext {
    CreationContext {
        name: "work".to_string(),
        backend: backend.map(str::to_string),
        vault: vault.map(str::to_string),
        force,
        os,
        network: "mainnet".to_string(),
        dcp_url: None,
        pay_dcp_url: Some("http://127.0.0.1:9000/".to_string()),
    }
}

#[test]
fn missing_backend_asks_the_picker_and_a_failed_picker_ends_creation() {
    let ctx = context(None, None, false, TargetOs::Linux);
    let (state, action) = create_account(CreationState::Start, CreationEvent::Begin, &ctx);
    assert!(matches!(action, CreationAction::PickBackend));
    let (state, action) = create_account(
        state,
        CreationEvent::BackendPicked(Err(config("Selection cancelled: interrupted"))),
        &ctx,
    );
    assert!(matches!(&action, CreationAction::Finish(Err(e)) if *e == config("Selection cancelled: interrupted")));
    let (state, action) = create_account(state, CreationEvent::Saved(Ok(())), &ctx);
    assert!(matches!(state, CreationState::Done));
    assert!(matches!(action, CreationAction::Ignore));
}

#[test]
fn picked_backend_is_routed_like_a_given_one() {
    let ctx = context(None, None, false, TargetOs::Linux);
    let (state, _) = create_account(CreationState::Start, CreationEvent::Begin, &ctx);
    let (state, action) = create_account(state, CreationEvent::BackendPicked(Ok("gnome-keyring".to_string())), &ctx);
    assert!(matches!(state, CreationState::CheckingAvailability(KeystoreBackend::GnomeKeyring)));
    assert!(matches!(action, CreationAction::CheckAvailable(KeystoreBackend::GnomeKeyring)));
}

#[test]
fn given_backend_skips_the_picker() {
    let dcp = context(Some("dcp"), None, false, TargetOs::MacOs);
    let (state, action) = create_account(CreationState::Start, CreationEvent::Begin, &dcp);
    assert!(matches!(state, CreationState::ReadingRegistered));
    assert!(matches!(action, CreationAction::ReadRegistered));
    let foreign = context(Some("keychain"), None, false, TargetOs::Linux);
    let (_, action) = create_account(CreationState::Start, CreationEvent::Begin, &foreign);
    assert!(matches!(&action, CreationAction::Finish(Err(e)) if *e == config("Keychain is only available on macOS")));
    let unknown = context(Some("vault"), None, false, TargetOs::Windows);
    let (_, action) = create_account(CreationState::Start, CreationEvent::Begin, &unknown);
    assert!(matches!(&action, CreationAction::Finish(Err(e)) if *e == config("Unknown backend: vault. Use 'windows-hello', 'dcp'.")));
}

#[test]
fn stored_key_is_kept_and_recorded_in_base58() {
    let ctx = context(Some("gnome-keyring"), None, false, TargetOs::Linux);
    let (state, _) = create_account(CreationState::Start, CreationEvent::Begin, &ctx);
    let (state, action) = create_account(state, CreationEvent::Availability(true), &ctx);
    assert!(matches!(action, CreationAction::SetUpGnomeKeyring));
    let (state, action) = create_account(state, CreationEvent::GnomeKeyringSetUp(Ok(())), &ctx);
    assert!(matches!(&action, CreationAction::CheckStored(t) if t.backend == KeystoreBackend::GnomeKeyring && t.op.is_none()));
    let (state, action) = create_account(state, CreationEvent::StoredChecked(true), &ctx);
    assert!(matches!(action, CreationAction::ReadStoredKey(_)));
    let stored = vec![1u8; 32];
    let expected = bs58::encode(&stored).into_string();
    let (state, action) = create_account(state, CreationEvent::StoredKeyRead(Ok(stored)), &ctx);
    match action {
        CreationAction::Save { notice, mut upserts } => {
            assert_eq!(upserts.len(), 1);
            let upsert = upserts.remove(0);
            assert_eq!(notice.as_deref(), Some("`work` is already stored in GNOME Keyring.\nUse --force to replace it."));
            assert_eq!(upsert.network, "mainnet");
            assert_eq!(upsert.name, "work");
            assert_eq!(upsert.account.keystore, KeystoreKind::GnomeKeyring);
            assert_eq!(upsert.account.pubkey.as_deref(), Some(expected.as_str()));
            assert_eq!(upsert.account.auth_required, Some(true));
        }
        other => panic!("expected a save, got {:?}", other),
    }
    let (state, action) = create_account(state, CreationEvent::Saved(Ok(())), &ctx);
    assert!(matches!(state, CreationState::Done));
    assert!(matches!(&action, CreationAction::Finish(Ok((pk, "GNOME Keyring"))) if *pk == expected));
}

#[test]
fn unreadable_stored_key_ends_creation() {
    let ctx = context(Some("gnome-keyring"), None, false, TargetOs::Linux);
    let (state, _) = create_account(CreationState::Start, CreationEvent::Begin, &ctx);
    let (state, _) = create_account(state, CreationEvent::Availability(true), &ctx);
    let (state, _) = create_account(state, CreationEvent::GnomeKeyringSetUp(Ok(())), &ctx);
    let (state, _) = create_account(state, CreationEvent::StoredChecked(true), &ctx);
    let (state, action) = create_account(state, CreationEvent::StoredKeyRead(Err(config("locked"))), &ctx);
    assert!(matches!(state, CreationState::Done));
    assert!(matches!(&action, CreationAction::Finish(Err(e)) if *e == config("locked")));
}

#[test]
fn failed_import_saves_nothing() {
    let ctx = context(Some("windows-hello"), None, true, TargetOs::Windows);
    let (state, _) = create_account(CreationState::Start, CreationEvent::Begin, &ctx);
    let (state, action) = create_account(state, CreationEvent::Availability(true), &ctx);
    assert!(matches!(&action, CreationAction::CheckStored(t) if t.backend == KeystoreBackend::WindowsHello && t.op.is_none()));
    let (state, action) = create_account(state, CreationEvent::StoredChecked(true), &ctx);
    match &action {
        CreationAction::Import { target, keypair, sync } => {
            assert_eq!(target.backend, KeystoreBackend::WindowsHello);
            assert_eq!(keypair.len(), 64);
            assert_eq!(*sync, SyncMode::ThisDeviceOnly);
        }
        other => panic!("expected an import, got {:?}", other),
    }
    let (state, action) = create_account(state, CreationEvent::Imported(Err(config("cancelled"))), &ctx);
    assert!(matches!(state, CreationState::Done));
    assert!(matches!(&action, CreationAction::Finish(Err(e)) if *e == config("cancelled")));
}

#[test]
fn new_key_is_saved_after_its_import() {
    let ctx = context(Some("1password"), Some("Private"), false, TargetOs::Linux);
    let (state, action) = create_account(CreationState::Start, CreationEvent::Begin, &ctx);
    assert!(matches!(action, CreationAction::CheckAvailable(KeystoreBackend::OnePassword)));
    let (state, action) = create_account(state, CreationEvent::Availability(true), &ctx);
    assert!(matches!(action, CreationAction::ResolveOpAccount));
    let (state, action) = create_account(state, CreationEvent::OpAccountResolved(Ok(Some("UUID-1".to_string()))), &ctx);
    match &action {
        CreationAction::CheckStored(t) => {
            assert_eq!(t.backend, KeystoreBackend::OnePassword);
            let op = t.op.as_ref().unwrap();
            assert_eq!(op.vault.as_deref(), Some("Private"));
            assert_eq!(op.account.as_deref(), Some("UUID-1"));
        }
        other => panic!("expected a stored check, got {:?}", other),
    }
    let (state, action) = create_account(state, CreationEvent::StoredChecked(false), &ctx);
    let public_b58 = match &action {
        CreationAction::Import { keypair, sync, .. } => {
            assert_eq!(*sync, SyncMode::CloudSync);
            let secret: [u8; 32] = keypair[..32].try_into().unwrap();
            let derived = ed25519_dalek::SigningKey::from_bytes(&secret).verifying_key().to_bytes();
            assert_eq!(&keypair[32..], &derived[..]);
            bs58::encode(&derived).into_string()
        }
        other => panic!("expected an import, got {:?}", other),
    };
    let (state, action) = create_account(state, CreationEvent::Imported(Ok(())), &ctx);
    match action {
        CreationAction::Save { notice, mut upserts } => {
            assert_eq!(upserts.len(), 1);
            let upsert = upserts.remove(0);
            assert!(notice.is_none());
            assert_eq!(upsert.account.keystore, KeystoreKind::OnePassword);
            assert_eq!(upsert.account.pubkey.as_deref(), Some(public_b58.as_str()));
            assert_eq!(upsert.account.vault.as_deref(), Some("Private"));
            assert_eq!(upsert.account.account.as_deref(), Some("UUID-1"));
        }
        other => panic!("expected a save, got {:?}", other),
    }
    let (_, action) = create_account(state, CreationEvent::Saved(Err(config("disk full"))), &ctx);
    assert!(matches!(&action, CreationAction::Finish(Err(e)) if *e == config("disk full")));
}

#[test]
fn events_of_another_state_are_ignored() {
    let ctx = context(None, None, false, TargetOs::MacOs);
    let (state, action) = create_account(CreationState::PickingBackend, CreationEvent::StoredChecked(true), &ctx);
    assert!(matches!(state, CreationState::PickingBackend));
    assert!(matches!(action, CreationAction::Ignore));
}

#[test]
fn picker_without_terminal_probes_nothing() {
    match pick_backend_start(false, TargetOs::Linux) {
        PickBackendStart::NoTerminal(e) => assert_eq!(
            e,
            config("No --backend specified and no interactive terminal available.\n  Pass --backend=<one of 'gnome-keyring', 'dcp'>.")
        ),
        other => panic!("expected no terminal, got {:?}", other),
    }
    assert!(matches!(pick_backend_start(true, TargetOs::Linux), PickBackendStart::ProbeNative(KeystoreBackend::GnomeKeyring)));
    assert!(matches!(pick_backend_start(true, TargetOs::Windows), PickBackendStart::ProbeNative(KeystoreBackend::WindowsHello)));
    match pick_backend_start(true, TargetOs::MacOs) {
        PickBackendStart::Offer(options) => {
            assert_eq!(options.len(), 1);
            assert_eq!(options[0].id, "keychain");
        }
        other => panic!("expected an offer, got {:?}", other),
    }
    assert!(matches!(pick_backend_start(true, TargetOs::Other), PickBackendStart::Offer(options) if options.is_empty()));
}

#[test]
fn unusable_keystore_is_refused_before_any_setup() {
    let gnome = context(Some("gnome-keyring"), None, false, TargetOs::Linux);
    let (state, _) = create_account(CreationState::Start, CreationEvent::Begin, &gnome);
    let (state, action) = create_account(state, CreationEvent::Availability(false), &gnome);
    assert!(matches!(state, CreationState::Done));
    assert!(matches!(&action, CreationAction::Finish(Err(e)) if *e == config("GNOME Keyring is not available.")));
    let op = context(Some("1password"), None, false, TargetOs::MacOs);
    let (state, _) = create_account(CreationState::Start, CreationEvent::Begin, &op);
    let (_, action) = create_account(state, CreationEvent::Availability(false), &op);
    assert!(matches!(&action, CreationAction::Finish(Err(e)) if *e == config("1Password CLI (`op`) is not installed or not signed in.")));
    let hello = context(Some("windows-hello"), None, false, TargetOs::Windows);
    let (state, _) = create_account(CreationState::Start, CreationEvent::Begin, &hello);
    let (_, action) = create_account(state, CreationEvent::Availability(false), &hello);
    assert!(matches!(&action, CreationAction::Finish(Err(e)) if *e == config("Windows Hello is not configured.")));
}

#[test]
fn keychain_needs_no_probe_and_no_setup() {
    let ctx = context(Some("keychain"), Some("Ignored"), false, TargetOs::MacOs);
    let (_, action) = create_account(CreationState::Start, CreationEvent::Begin, &ctx);
    assert!(matches!(&action, CreationAction::CheckStored(t) if t.backend == KeystoreBackend::AppleKeychain && t.op.is_none()));
}

#[test]
fn setup_and_resolve_errors_end_creation() {
    let gnome = context(Some("gnome-keyring"), None, false, TargetOs::Linux);
    let (state, _) = create_account(CreationState::Start, CreationEvent::Begin, &gnome);
    let (state, _) = create_account(state, CreationEvent::Availability(true), &gnome);
    let (_, action) = create_account(state, CreationEvent::GnomeKeyringSetUp(Err(config("polkit"))), &gnome);
    assert!(matches!(&action, CreationAction::Finish(Err(e)) if *e == config("polkit")));
    let op = context(Some("1password"), None, false, TargetOs::Linux);
    let (state, _) = create_account(CreationState::Start, CreationEvent::Begin, &op);
    let (state, _) = create_account(state, CreationEvent::Availability(true), &op);
    let (_, action) = create_account(state, CreationEvent::OpAccountResolved(Err(config("op account list: gone"))), &op);
    assert!(matches!(&action, CreationAction::Finish(Err(e)) if *e == config("op account list: gone")));
}

fn registered(pubkey: Option<&str>) -> AccountRecord {
    AccountRecord {
        keystore: KeystoreKind::Dcp,
        active: false,
        auth_required: Some(false),
        pubkey: pubkey.map(str::to_string),
        vault: None,
        account: None,
        path: None,
        dcp_url: Some("http://127.0.0.1:8421".to_string()),
        secret_key_b58: None,
        created_at: None,
    }
}

#[test]
fn registered_dcp_account_is_kept() {
    let ctx = context(Some("dcp"), None, false, TargetOs::Linux);
    let (state, _) = create_account(CreationState::Start, CreationEvent::Begin, &ctx);
    let (state, action) = create_account(state, CreationEvent::RegisteredRead(Ok(Some(registered(Some("AbC"))))), &ctx);
    assert!(matches!(state, CreationState::Done));
    match action {
        CreationAction::KeepRegistered { message, outcome } => {
            assert_eq!(message, "`work` is already registered for `mainnet`.\nUse --force to replace it.");
            assert_eq!(outcome, Ok(("AbC".to_string(), "DCP")));
        }
        other => panic!("expected the registered account, got {:?}", other),
    }
    let (_, action) = create_account(CreationState::ReadingRegistered, CreationEvent::RegisteredRead(Ok(Some(registered(None)))), &ctx);
    assert!(matches!(&action, CreationAction::KeepRegistered { outcome: Err(e), .. }
        if *e == config("Account `work` is registered for `mainnet` but has no public key")));
}

#[test]
fn new_dcp_account_is_saved_after_the_lookup_and_reported_as_dcp() {
    let ctx = context(Some("dcp"), None, true, TargetOs::Linux);
    let (state, _) = create_account(CreationState::Start, CreationEvent::Begin, &ctx);
    let (state, action) = create_account(state, CreationEvent::RegisteredRead(Ok(Some(registered(Some("old"))))), &ctx);
    assert!(matches!(&action, CreationAction::LookUpDcpAddress { dcp_url } if dcp_url == "http://127.0.0.1:9000"));
    let address = bs58::encode([7u8; 32]).into_string();
    let (state, action) = create_account(state, CreationEvent::DcpAddressFound(Ok(address.clone())), &ctx);
    match action {
        CreationAction::Save { notice, upserts } => {
            assert!(notice.is_none());
            let networks: Vec<&str> = upserts.iter().map(|u| u.network.as_str()).collect();
            assert_eq!(networks, vec!["mainnet", "localnet", "devnet"]);
            for upsert in &upserts {
                assert_eq!(upsert.name, "work");
                assert_eq!(upsert.account.keystore, KeystoreKind::Dcp);
                assert_eq!(upsert.account.pubkey.as_deref(), Some(address.as_str()));
                assert_eq!(upsert.account.dcp_url.as_deref(), Some("http://127.0.0.1:9000"));
                assert_eq!(upsert.account.secret_key_b58, None);
            }
        }
        other => panic!("expected a save, got {:?}", other),
    }
    let (_, action) = create_account(state, CreationEvent::Saved(Ok(())), &ctx);
    assert!(matches!(&action, CreationAction::Finish(Ok((pk, "DCP"))) if *pk == address));
}

#[test]
fn failed_or_invalid_dcp_lookup_saves_nothing() {
    let ctx = context(Some("dcp"), None, false, TargetOs::Linux);
    let (state, _) = create_account(CreationState::ReadingRegistered, CreationEvent::RegisteredRead(Ok(None)), &ctx);
    let (_, action) = create_account(state, CreationEvent::DcpAddressFound(Err(config("DCP address lookup failed: refused"))), &ctx);
    assert!(matches!(&action, CreationAction::Finish(Err(e)) if *e == config("DCP address lookup failed: refused")));
    let (state, _) = create_account(CreationState::ReadingRegistered, CreationEvent::RegisteredRead(Ok(None)), &ctx);
    let (state, action) = create_account(state, CreationEvent::DcpAddressFound(Ok("not-an-address".to_string())), &ctx);
    assert!(matches!(state, CreationState::Done));
    assert!(matches!(&action, CreationAction::Finish(Err(e)) if *e == config("DCP returned an invalid Solana address: Invalid Base58 string")));
}
