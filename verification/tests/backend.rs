use pay_dcp::backend::{keystore_preparation, native_keystore, KeystorePreparation};
use pay_dcp::accounts::{AccountError, KeystoreKind};
use pay_dcp::backend::{
    available_backends_hint, backend_options, backend_prompt_labels, build_keystore,
    check_keystore_available, route_backend_id, keystore_account_record, keystore_account_step,
    keystore_display_name, keystore_kind, no_terminal_error, onepassword_info,
    op_account_selection, op_list_failed, op_prompt_failed, pick_backend,
    requires_availability_check, resolve_op_account, selection_cancelled, target_os_from_name,
    CreateAccountRoute, KeystoreAccountStep, KeystoreBackend, OpAccount, OpAccountStep,
    SyncMode, TargetOs,
};

fn config(message: &str) -> AccountError {
    AccountError::Config(message.to_string())
}

#[test]
fn os_names_map_to_targets() {
    assert_eq!(target_os_from_name("macos"), TargetOs::MacOs);
    assert_eq!(target_os_from_name("linux"), TargetOs::Linux);
    assert_eq!(target_os_from_name("windows"), TargetOs::Windows);
    assert_eq!(target_os_from_name("freebsd"), TargetOs::Other);
}

#[test]
fn hint_suggests_only_backends_of_this_platform() {
    assert_eq!(available_backends_hint(TargetOs::MacOs), "'keychain', 'dcp'");
    assert_eq!(available_backends_hint(TargetOs::Linux), "'gnome-keyring', 'dcp'");
    assert_eq!(available_backends_hint(TargetOs::Windows), "'windows-hello', 'dcp'");
    assert_eq!(available_backends_hint(TargetOs::Other), "'dcp'");
}

#[test]
fn platform_backends_are_accepted_only_at_home() {
    assert_eq!(build_keystore("keychain", TargetOs::MacOs), Ok(KeystoreBackend::AppleKeychain));
    assert_eq!(
        build_keystore("keychain", TargetOs::Linux),
        Err(config("Keychain is only available on macOS"))
    );
    assert_eq!(build_keystore("gnome-keyring", TargetOs::Linux), Ok(KeystoreBackend::GnomeKeyring));
    assert_eq!(
        build_keystore("gnome-keyring", TargetOs::Windows),
        Err(config("GNOME Keyring is only available on Linux"))
    );
    assert_eq!(build_keystore("windows-hello", TargetOs::Windows), Ok(KeystoreBackend::WindowsHello));
    assert_eq!(
        build_keystore("windows-hello", TargetOs::MacOs),
        Err(config("Windows Hello is only available on Windows"))
    );
    assert_eq!(build_keystore("1password", TargetOs::Other), Ok(KeystoreBackend::OnePassword));
}

#[test]
fn unknown_backend_is_refused_with_a_hint() {
    assert_eq!(
        build_keystore("vault", TargetOs::Linux),
        Err(config("Unknown backend: vault. Use 'gnome-keyring', 'dcp'."))
    );
    assert_eq!(
        build_keystore("dcp", TargetOs::MacOs),
        Err(config("Unknown backend: dcp. Use 'keychain', 'dcp'."))
    );
}

#[test]
fn create_account_routes_dcp_apart() {
    assert!(matches!(route_backend_id("dcp", TargetOs::Linux), Ok(CreateAccountRoute::Dcp)));
    assert!(matches!(
        route_backend_id("1password", TargetOs::Linux),
        Ok(CreateAccountRoute::Keystore(KeystoreBackend::OnePassword))
    ));
    assert!(matches!(route_backend_id("keychain", TargetOs::Linux), Err(_)));
}

#[test]
fn availability_is_checked_for_all_but_the_keychain() {
    assert!(!requires_availability_check(KeystoreBackend::AppleKeychain));
    assert!(requires_availability_check(KeystoreBackend::GnomeKeyring));
    assert_eq!(check_keystore_available(KeystoreBackend::GnomeKeyring, true), Ok(()));
    assert_eq!(
        check_keystore_available(KeystoreBackend::GnomeKeyring, false),
        Err(config("GNOME Keyring is not available."))
    );
    assert_eq!(
        check_keystore_available(KeystoreBackend::WindowsHello, false),
        Err(config("Windows Hello is not configured."))
    );
    assert_eq!(
        check_keystore_available(KeystoreBackend::OnePassword, false),
        Err(config("1Password CLI (`op`) is not installed or not signed in."))
    );
}

#[test]
fn backends_have_kinds_and_names() {
    assert_eq!(keystore_kind(KeystoreBackend::AppleKeychain), KeystoreKind::AppleKeychain);
    assert_eq!(keystore_kind(KeystoreBackend::OnePassword), KeystoreKind::OnePassword);
    assert_eq!(keystore_display_name(KeystoreBackend::AppleKeychain), "Apple Keychain");
    assert_eq!(keystore_display_name(KeystoreBackend::GnomeKeyring), "GNOME Keyring");
    assert_eq!(keystore_display_name(KeystoreBackend::WindowsHello), "Windows Hello");
    assert_eq!(keystore_display_name(KeystoreBackend::OnePassword), "1Password");
}

#[test]
fn picker_offers_the_native_backend_only() {
    let mac = backend_options(TargetOs::MacOs, false);
    assert_eq!(mac.len(), 1);
    assert_eq!(mac[0].id, "keychain");
    assert_eq!(mac[0].label, "macOS Keychain (requires Touch ID)");
    let linux = backend_options(TargetOs::Linux, true);
    assert_eq!(linux[0].id, "gnome-keyring");
    assert_eq!(linux[0].label, "GNOME Keyring (password prompt)");
    assert!(backend_options(TargetOs::Linux, false).is_empty());
    let windows = backend_options(TargetOs::Windows, true);
    assert_eq!(windows[0].label, "Windows Hello (fingerprint / face / PIN)");
    assert!(backend_options(TargetOs::Other, true).is_empty());
}

#[test]
fn picker_needs_a_terminal_and_an_option() {
    assert_eq!(
        no_terminal_error(TargetOs::Linux),
        config("No --backend specified and no interactive terminal available.\n  Pass --backend=<one of 'gnome-keyring', 'dcp'>.")
    );
    assert_eq!(
        backend_prompt_labels(&vec![]),
        Err(config("No supported keystore backend is available on this system."))
    );
    let options = backend_options(TargetOs::Windows, true);
    assert_eq!(
        backend_prompt_labels(&options),
        Ok(vec!["Windows Hello (fingerprint / face / PIN)".to_string()])
    );
    assert_eq!(pick_backend(&options, 0), "windows-hello");
    assert_eq!(selection_cancelled("interrupted"), config("Selection cancelled: interrupted"));
}

fn op(uuid: &str, email: &str, url: &str) -> OpAccount {
    OpAccount { account_uuid: uuid.to_string(), email: email.to_string(), url: url.to_string() }
}

#[test]
fn op_account_is_resolved_or_prompted_for() {
    let one = vec![op("U1", "a@x.com", "my.1password.com")];
    let two = vec![op("U1", "a@x.com", "my.1password.com"), op("U2", "b@y.com", "team.1password.com")];
    assert!(matches!(resolve_op_account(false, &two), OpAccountStep::Resolved(None)));
    assert!(matches!(resolve_op_account(true, &vec![]), OpAccountStep::Resolved(None)));
    match resolve_op_account(true, &one) {
        OpAccountStep::Resolved(Some(u)) => assert_eq!(u, "U1"),
        other => panic!("unexpected {:?}", other),
    }
    match resolve_op_account(true, &two) {
        OpAccountStep::Prompt(labels) => assert_eq!(
            labels,
            vec!["a@x.com (my.1password.com)".to_string(), "b@y.com (team.1password.com)".to_string()]
        ),
        other => panic!("unexpected {:?}", other),
    }
    assert_eq!(op_account_selection(&two, 1), Some("U2".to_string()));
    assert_eq!(op_list_failed("not found"), config("op account list: not found"));
    assert_eq!(op_prompt_failed("eof"), config("Prompt error: eof"));
}

#[test]
fn stored_key_is_kept_unless_forced() {
    match keystore_account_step("main", KeystoreBackend::AppleKeychain, true, false) {
        KeystoreAccountStep::KeepStored { notice } => assert_eq!(
            notice,
            "`main` is already stored in Apple Keychain.\nUse --force to replace it."
        ),
        other => panic!("unexpected {:?}", other),
    }
    assert!(matches!(
        keystore_account_step("main", KeystoreBackend::OnePassword, true, true),
        KeystoreAccountStep::GenerateNew { sync: SyncMode::CloudSync }
    ));
    assert!(matches!(
        keystore_account_step("main", KeystoreBackend::GnomeKeyring, false, false),
        KeystoreAccountStep::GenerateNew { sync: SyncMode::ThisDeviceOnly }
    ));
}

#[test]
fn recorded_vault_falls_back_to_the_requested_one_for_new_keys() {
    let resolved = Some(onepassword_info(None, Some("acct".to_string())));
    let new_key = keystore_account_record("main", KeystoreBackend::OnePassword, "Pk", &resolved, Some("Ops"), false, "mainnet");
    assert_eq!(new_key.account.vault.as_deref(), Some("Ops"));
    assert_eq!(new_key.account.account.as_deref(), Some("acct"));
    assert_eq!(new_key.account.keystore, KeystoreKind::OnePassword);
    assert_eq!(new_key.account.auth_required, Some(true));
    let kept = keystore_account_record("main", KeystoreBackend::OnePassword, "Pk", &resolved, Some("Ops"), true, "mainnet");
    assert_eq!(kept.account.vault, None);
    let with_vault = Some(onepassword_info(Some("Team"), None));
    let kept_team = keystore_account_record("main", KeystoreBackend::OnePassword, "Pk", &with_vault, Some("Ops"), true, "devnet");
    assert_eq!(kept_team.account.vault.as_deref(), Some("Team"));
    assert_eq!(kept_team.network, "devnet");
    let keychain = keystore_account_record("main", KeystoreBackend::AppleKeychain, "Pk", &None, Some("V"), false, "mainnet");
    assert_eq!(keychain.account.vault.as_deref(), Some("V"));
    assert_eq!(keychain.account.account, None);
}

#[test]
fn offered_backends_are_buildable() {
    for os in [TargetOs::MacOs, TargetOs::Linux, TargetOs::Windows] {
        for option in backend_options(os, true) {
            assert!(build_keystore(&option.id, os).is_ok());
        }
    }
}

#[test]
fn native_keystores_and_their_preparation() {
    assert_eq!(native_keystore(TargetOs::MacOs), Some(KeystoreBackend::AppleKeychain));
    assert_eq!(native_keystore(TargetOs::Linux), Some(KeystoreBackend::GnomeKeyring));
    assert_eq!(native_keystore(TargetOs::Windows), Some(KeystoreBackend::WindowsHello));
    assert_eq!(native_keystore(TargetOs::Other), None);
    assert_eq!(keystore_preparation(KeystoreBackend::GnomeKeyring), KeystorePreparation::GnomeKeyringSetup);
    assert_eq!(keystore_preparation(KeystoreBackend::OnePassword), KeystorePreparation::ResolveOnePasswordAccount);
    assert_eq!(keystore_preparation(KeystoreBackend::AppleKeychain), KeystorePreparation::Nothing);
    assert_eq!(keystore_preparation(KeystoreBackend::WindowsHello), KeystorePreparation::Nothing);
}
