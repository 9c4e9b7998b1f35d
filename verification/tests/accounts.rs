use pay_dcp::accounts::dcp_address_outcome;
use pay_dcp::accounts::{
    account_network, check_dcp_address, configured_dcp_url, create_dcp_account,
    dcp_lookup_error, save_account, save_dcp_account, AccountError, AccountRecord,
    DcpAccountStep, DcpLookupFailure, KeystoreKind, MAINNET_NETWORK,
};
use pay_dcp::text::trim_trailing_slashes;

fn config(message: &str) -> AccountError {
    AccountError::Config(message.to_string())
}

#[test]
fn trailing_slashes_are_all_removed() {
    assert_eq!(trim_trailing_slashes("http://127.0.0.1:8421///"), "http://127.0.0.1:8421");
    assert_eq!(trim_trailing_slashes("http://host/a/"), "http://host/a");
    assert_eq!(trim_trailing_slashes("///"), "");
    assert_eq!(trim_trailing_slashes("no-slash"), "no-slash");
}

#[test]
fn dcp_url_prefers_dcp_url_then_pay_dcp_url_then_default() {
    assert_eq!(configured_dcp_url(None, None), "http://127.0.0.1:8421");
    assert_eq!(configured_dcp_url(None, Some("http://b:1/")), "http://b:1");
    assert_eq!(configured_dcp_url(Some("http://a:2//"), Some("http://b:1")), "http://a:2");
    assert_eq!(configured_dcp_url(Some(""), Some("http://b:1")), "");
}

#[test]
fn network_defaults_to_mainnet_when_unset_or_blank() {
    assert_eq!(MAINNET_NETWORK, "mainnet");
    assert_eq!(account_network(None), "mainnet");
    assert_eq!(account_network(Some("")), "mainnet");
    assert_eq!(account_network(Some(" \t\n")), "mainnet");
    assert_eq!(account_network(Some("devnet")), "devnet");
    assert_eq!(account_network(Some(" devnet ")), " devnet ");
}

#[test]
fn save_account_requires_auth_and_stores_no_secret() {
    let upsert = save_account(
        "main",
        KeystoreKind::OnePassword,
        "Pub111",
        Some("Private".to_string()),
        None,
        None,
        Some("acct".to_string()),
        "devnet",
    );
    assert_eq!(upsert.network, "devnet");
    assert_eq!(upsert.name, "main");
    let a = upsert.account;
    assert_eq!(a.keystore, KeystoreKind::OnePassword);
    assert!(!a.active);
    assert_eq!(a.auth_required, Some(true));
    assert_eq!(a.pubkey.as_deref(), Some("Pub111"));
    assert_eq!(a.vault.as_deref(), Some("Private"));
    assert_eq!(a.account.as_deref(), Some("acct"));
    assert_eq!(a.path, None);
    assert_eq!(a.dcp_url, None);
    assert_eq!(a.secret_key_b58, None);
    assert_eq!(a.created_at, None);
}

#[test]
fn dcp_account_is_registered_on_three_networks() {
    let upserts = save_dcp_account("dcp", "Wallet", "http://127.0.0.1:8421");
    let networks: Vec<&str> = upserts.iter().map(|u| u.network.as_str()).collect();
    assert_eq!(networks, vec!["mainnet", "localnet", "devnet"]);
    for u in &upserts {
        assert_eq!(u.name, "dcp");
        assert_eq!(u.account.keystore, KeystoreKind::Dcp);
        assert!(!u.account.active);
        assert_eq!(u.account.auth_required, Some(false));
        assert_eq!(u.account.pubkey.as_deref(), Some("Wallet"));
        assert_eq!(u.account.dcp_url.as_deref(), Some("http://127.0.0.1:8421"));
        assert_eq!(u.account.secret_key_b58, None);
        assert_eq!(u.account.vault, None);
        assert_eq!(u.account.path, None);
    }
}

fn registered(pubkey: Option<&str>) -> AccountRecord {
    AccountRecord {
        keystore: KeystoreKind::Dcp,
        active: false,
        auth_required: Some(false),
        pubkey: pubkey.map(|p| p.to_string()),
        vault: None,
        account: None,
        path: None,
        dcp_url: None,
        secret_key_b58: None,
        created_at: None,
    }
}

#[test]
fn registered_dcp_account_is_kept_without_force() {
    let account = registered(Some("Wallet"));
    match create_dcp_account("dcp", "mainnet", Some(&account), false) {
        DcpAccountStep::KeepRegistered { notice, outcome } => {
            assert_eq!(notice, "`dcp` is already registered for `mainnet`.\nUse --force to replace it.");
            assert_eq!(outcome, Ok(("Wallet".to_string(), "DCP")));
        }
        DcpAccountStep::Register => panic!("expected the registered account to be kept"),
    }
}

#[test]
fn registered_dcp_account_without_pubkey_is_an_error() {
    let account = registered(None);
    match create_dcp_account("dcp", "devnet", Some(&account), false) {
        DcpAccountStep::KeepRegistered { outcome, .. } => assert_eq!(
            outcome,
            Err(config("Account `dcp` is registered for `devnet` but has no public key"))
        ),
        DcpAccountStep::Register => panic!("expected an error"),
    }
}

#[test]
fn dcp_account_is_registered_when_forced_or_new() {
    let account = registered(Some("Wallet"));
    assert!(matches!(create_dcp_account("dcp", "mainnet", Some(&account), true), DcpAccountStep::Register));
    assert!(matches!(create_dcp_account("dcp", "mainnet", None, false), DcpAccountStep::Register));
}

#[test]
fn dcp_lookup_errors_name_what_failed() {
    let url = "http://127.0.0.1:8421";
    let cases = vec![
        (DcpLookupFailure::ClientBuild("e1".to_string()), "Failed to create HTTP client: e1"),
        (
            DcpLookupFailure::HealthUnreachable("refused".to_string()),
            "DCP is not reachable at http://127.0.0.1:8421: refused",
        ),
        (
            DcpLookupFailure::HealthStatus("503 Service Unavailable".to_string()),
            "DCP health check failed at http://127.0.0.1:8421: 503 Service Unavailable",
        ),
        (DcpLookupFailure::AddressRequest("e2".to_string()), "DCP address lookup failed: e2"),
        (
            DcpLookupFailure::AddressStatus("423 Locked".to_string()),
            "DCP address lookup returned 423 Locked. Open and unlock DCP first.",
        ),
        (DcpLookupFailure::AddressBody("e3".to_string()), "DCP address response invalid: e3"),
    ];
    for (failure, message) in cases {
        assert_eq!(dcp_lookup_error(&failure, url), config(message));
    }
}

#[test]
fn dcp_address_must_be_a_solana_pubkey() {
    let system = "11111111111111111111111111111111";
    assert_eq!(check_dcp_address(system.to_string()), Ok(system.to_string()));
    assert_eq!(
        check_dcp_address("not-a-key".to_string()),
        Err(config("DCP returned an invalid Solana address: Invalid Base58 string"))
    );
    assert_eq!(
        check_dcp_address("abc".to_string()),
        Err(config("DCP returned an invalid Solana address: String is the wrong size"))
    );
}

#[test]
fn dcp_address_outcome_keeps_the_text() {
    assert_eq!(dcp_address_outcome("Addr".to_string(), Ok([0u8; 32])), Ok("Addr".to_string()));
    assert_eq!(
        dcp_address_outcome("Addr".to_string(), Err("why".to_string())),
        Err(config("DCP returned an invalid Solana address: why"))
    );
}

#[test]
fn blank_enforced_network_counts_unicode_white_space() {
    assert_eq!(account_network(Some(" \u{3000}\t\u{85}\u{2029}")), "mainnet");
    assert_eq!(account_network(Some("\u{200b}")), "\u{200b}");
    assert_eq!(account_network(Some(" devnet ")), " devnet ");
}
