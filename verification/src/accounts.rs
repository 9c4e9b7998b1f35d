//! Account records: what is stored for an account, under which network, and where DCP lives.

use vstd::prelude::*;
use crate::codec::{parse_pubkey_bytes, pubkey_from_str};
use crate::dcp_signer::DEFAULT_DCP_URL;
use crate::text::{
    concat2, concat3, concat5, is_blank, opt_str_view, opt_view,
    str_is_blank, strip_trailing_slashes, trim_trailing_slashes,
};

verus! {

/// The network an account belongs to unless the environment enforces another one.
pub const MAINNET_NETWORK: &'static str = "mainnet";

/// The name of the main network.
pub open spec fn mainnet() -> Seq<char> {
    "mainnet"@
}

/// The networks for which a DCP account is registered, in order.
pub open spec fn dcp_networks() -> Seq<Seq<char>> {
    seq![mainnet(), "localnet"@, "devnet"@]
}

/// Where an account's key is kept.
#[derive(Debug, Clone, Copy, PartialEq, Eq, Structural)]
pub enum KeystoreKind {
    AppleKeychain,
    GnomeKeyring,
    WindowsHello,
    OnePassword,
    Dcp,
}

/// Errors of account management, each with its message.
#[derive(Debug, Clone, PartialEq, Eq)]
pub enum AccountError {
    Config(String),
}

impl View for AccountError {
    type V = Seq<char>;

    open spec fn view(&self) -> Seq<char> {
        match self {
            AccountError::Config(m) => m@,
        }
    }
}

impl AccountError {
    /// The message of this error.
    pub fn message(&self) -> (res: &String)
        ensures
            res@ == self@,
    {
        match self {
            AccountError::Config(m) => m,
        }
    }
}

/// What is stored for one account.
#[derive(Debug, Clone)]
pub struct AccountRecord {
    pub keystore: KeystoreKind,
    pub active: bool,
    pub auth_required: Option<bool>,
    pub pubkey: Option<String>,
    pub vault: Option<String>,
    pub account: Option<String>,
    pub path: Option<String>,
    pub dcp_url: Option<String>,
    pub secret_key_b58: Option<String>,
    pub created_at: Option<String>,
}

/// The abstract content of an `AccountRecord`.
pub struct AccountRecordView {
    pub keystore: KeystoreKind,
    pub active: bool,
    pub auth_required: Option<bool>,
    pub pubkey: Option<Seq<char>>,
    pub vault: Option<Seq<char>>,
    pub account: Option<Seq<char>>,
    pub path: Option<Seq<char>>,
    pub dcp_url: Option<Seq<char>>,
    pub secret_key_b58: Option<Seq<char>>,
    pub created_at: Option<Seq<char>>,
}

impl View for AccountRecord {
    type V = AccountRecordView;

    open spec fn view(&self) -> AccountRecordView {
        AccountRecordView {
            keystore: self.keystore,
            active: self.active,
            auth_required: self.auth_required,
            pubkey: opt_view(self.pubkey),
            vault: opt_view(self.vault),
            account: opt_view(self.account),
            path: opt_view(self.path),
            dcp_url: opt_view(self.dcp_url),
            secret_key_b58: opt_view(self.secret_key_b58),
            created_at: opt_view(self.created_at),
        }
    }
}

/// An account record to insert or replace under `network` and `name`.
#[derive(Debug, Clone)]
pub struct AccountUpsert {
    pub network: String,
    pub name: String,
    pub account: AccountRecord,
}

/// The abstract content of an `AccountUpsert`.
pub struct AccountUpsertView {
    pub network: Seq<char>,
    pub name: Seq<char>,
    pub account: AccountRecordView,
}

impl View for AccountUpsert {
    type V = AccountUpsertView;

    open spec fn view(&self) -> AccountUpsertView {
        AccountUpsertView { network: self.network@, name: self.name@, account: self.account@ }
    }
}

/// The network for new accounts: the enforced one unless it is unset or blank, else mainnet.
pub open spec fn network_for(enforced: Option<Seq<char>>) -> Seq<char> {
    match enforced {
        Some(n) => if is_blank(n) {
            mainnet()
        } else {
            n
        },
        None => mainnet(),
    }
}

/// The network for new accounts, given the value of `PAY_NETWORK_ENFORCED` (when it is set and
/// valid Unicode).
pub fn account_network(enforced: Option<&str>) -> (res: String)
    ensures
        res@ == network_for(opt_str_view(enforced)),
{
    match enforced {
        Some(n) => if str_is_blank(n) {
            String::from_str(MAINNET_NETWORK)
        } else {
            String::from_str(n)
        },
        None => String::from_str(MAINNET_NETWORK),
    }
}

/// The DCP URL: `DCP_URL` if set, else `PAY_DCP_URL` if set, else the default, without
/// trailing slashes.
pub open spec fn dcp_url_for(dcp_url: Option<Seq<char>>, pay_dcp_url: Option<Seq<char>>) -> Seq<char> {
    strip_trailing_slashes(
        match dcp_url {
            Some(u) => u,
            None => match pay_dcp_url {
                Some(u) => u,
                None => "http://127.0.0.1:8421"@,
            },
        },
    )
}

/// The DCP URL, given the values of `DCP_URL` and `PAY_DCP_URL` (when set and valid Unicode).
pub fn configured_dcp_url(dcp_url: Option<&str>, pay_dcp_url: Option<&str>) -> (res: String)
    ensures
        res@ == dcp_url_for(opt_str_view(dcp_url), opt_str_view(pay_dcp_url)),
{
    let chosen: &str = match dcp_url {
        Some(u) => u,
        None => match pay_dcp_url {
            Some(u) => u,
            None => DEFAULT_DCP_URL,
        },
    };
    trim_trailing_slashes(chosen)
}

/// The record of an account whose key is in a keystore on this machine.
pub open spec fn keystore_record(
    keystore: KeystoreKind,
    pubkey: Seq<char>,
    vault: Option<Seq<char>>,
    path: Option<Seq<char>>,
    dcp_url: Option<Seq<char>>,
    account: Option<Seq<char>>,
) -> AccountRecordView {
    AccountRecordView {
        keystore,
        active: false,
        auth_required: Some(true),
        pubkey: Some(pubkey),
        vault,
        account,
        path,
        dcp_url,
        secret_key_b58: None,
        created_at: None,
    }
}

/// The record that `save_account` stores for `name` under `network`.
pub fn save_account(
    name: &str,
    keystore: KeystoreKind,
    pubkey: &str,
    vault: Option<String>,
    path: Option<String>,
    dcp_url: Option<String>,
    account: Option<String>,
    network: &str,
) -> (res: AccountUpsert)
    ensures
        res@.network == network@,
        res@.name == name@,
        res@.account == keystore_record(
            keystore,
            pubkey@,
            opt_view(vault),
            opt_view(path),
            opt_view(dcp_url),
            opt_view(account),
        ),
{
    AccountUpsert {
        network: String::from_str(network),
        name: String::from_str(name),
        account: AccountRecord {
            keystore,
            active: false,
            auth_required: Some(true),
            pubkey: Some(String::from_str(pubkey)),
            vault,
            account,
            path,
            dcp_url,
            secret_key_b58: None,
            created_at: None,
        },
    }
}

/// The record of a DCP account: DCP keeps the key, so no key material, vault or path is stored,
/// and no local authentication is asked for.
pub open spec fn dcp_record(pubkey: Seq<char>, dcp_url: Seq<char>) -> AccountRecordView {
    AccountRecordView {
        keystore: KeystoreKind::Dcp,
        active: false,
        auth_required: Some(false),
        pubkey: Some(pubkey),
        vault: None,
        account: None,
        path: None,
        dcp_url: Some(dcp_url),
        secret_key_b58: None,
        created_at: None,
    }
}

fn dcp_upsert(network: &str, name: &str, pubkey: &str, dcp_url: &str) -> (res: AccountUpsert)
    ensures
        res@ == (AccountUpsertView { network: network@, name: name@, account: dcp_record(pubkey@, dcp_url@) }),
{
    AccountUpsert {
        network: String::from_str(network),
        name: String::from_str(name),
        account: AccountRecord {
            keystore: KeystoreKind::Dcp,
            active: false,
            auth_required: Some(false),
            pubkey: Some(String::from_str(pubkey)),
            vault: None,
            account: None,
            path: None,
            dcp_url: Some(String::from_str(dcp_url)),
            secret_key_b58: None,
            created_at: None,
        },
    }
}

/// The records that register `name` as a DCP account on mainnet, localnet and devnet.
pub fn save_dcp_account(name: &str, pubkey: &str, dcp_url: &str) -> (res: Vec<AccountUpsert>)
    ensures
        res@.len() == dcp_networks().len(),
        forall|i: int|
            0 <= i < res@.len() ==> #[trigger] res@[i]@ == (AccountUpsertView {
                network: dcp_networks()[i],
                name: name@,
                account: dcp_record(pubkey@, dcp_url@),
            }),
{
    let mut res: Vec<AccountUpsert> = Vec::new();
    res.push(dcp_upsert(MAINNET_NETWORK, name, pubkey, dcp_url));
    res.push(dcp_upsert("localnet", name, pubkey, dcp_url));
    res.push(dcp_upsert("devnet", name, pubkey, dcp_url));
    res
}

/// What to do once it is known whether `name` is already registered for the network.
#[derive(Debug)]
pub enum DcpAccountStep {
    /// Keep the registered account: show `notice`, then finish with `outcome` (its public key
    /// and the backend's display name, or the error when it has no public key).
    KeepRegistered { notice: String, outcome: Result<(String, &'static str), AccountError> },
    /// Look the wallet up in DCP and register it.
    Register,
}

/// The notice shown when a DCP account is already registered.
pub open spec fn registered_notice(name: Seq<char>, network: Seq<char>) -> Seq<char> {
    "`"@ + name + "` is already registered for `"@ + network + "`.\nUse --force to replace it."@
}

/// The error for a registered DCP account without a public key.
pub open spec fn registered_without_pubkey(name: Seq<char>, network: Seq<char>) -> Seq<char> {
    "Account `"@ + name + "` is registered for `"@ + network + "` but has no public key"@
}

/// Decides `create_dcp_account` once the registered account (if any) is known: an account that
/// is already registered is kept unless `force` is given.
pub fn create_dcp_account(name: &str, network: &str, registered: Option<&AccountRecord>, force: bool) -> (res: DcpAccountStep)
    ensures
        match registered {
            Some(account) if !force => match res {
                DcpAccountStep::KeepRegistered { notice, outcome } => notice@ == registered_notice(name@, network@)
                    && match account.pubkey {
                        Some(p) => outcome matches Ok(r) && r.0@ == p@ && r.1@ == "DCP"@,
                        None => outcome matches Err(e) && e@ == registered_without_pubkey(name@, network@),
                    },
                DcpAccountStep::Register => false,
            },
            _ => res is Register,
        },
{
    match registered {
        Some(account) => {
            if force {
                return DcpAccountStep::Register;
            }
            let notice = concat5(
                "`",
                name,
                "` is already registered for `",
                network,
                "`.\nUse --force to replace it.",
            );
            let outcome = match &account.pubkey {
                Some(p) => Ok((p.clone(), "DCP")),
                None => Err(AccountError::Config(concat5(
                    "Account `",
                    name,
                    "` is registered for `",
                    network,
                    "` but has no public key",
                ))),
            };
            DcpAccountStep::KeepRegistered { notice, outcome }
        },
        None => DcpAccountStep::Register,
    }
}

/// The failures of the HTTP exchanges that look up the DCP wallet address, each with the text
/// of what went wrong (the transport or decoding error, or the HTTP status as displayed).
pub enum DcpLookupFailure {
    ClientBuild(String),
    HealthUnreachable(String),
    HealthStatus(String),
    AddressRequest(String),
    AddressStatus(String),
    AddressBody(String),
}

/// The message that reports a failed lookup of the DCP wallet at `dcp_url`.
pub open spec fn lookup_failure_text(failure: DcpLookupFailure, dcp_url: Seq<char>) -> Seq<char> {
    match failure {
        DcpLookupFailure::ClientBuild(e) => "Failed to create HTTP client: "@ + e@,
        DcpLookupFailure::HealthUnreachable(e) => "DCP is not reachable at "@ + dcp_url + ": "@ + e@,
        DcpLookupFailure::HealthStatus(s) => "DCP health check failed at "@ + dcp_url + ": "@ + s@,
        DcpLookupFailure::AddressRequest(e) => "DCP address lookup failed: "@ + e@,
        DcpLookupFailure::AddressStatus(s) => "DCP address lookup returned "@ + s@
            + ". Open and unlock DCP first."@,
        DcpLookupFailure::AddressBody(e) => "DCP address response invalid: "@ + e@,
    }
}

/// The error that reports a failed lookup of the DCP wallet at `dcp_url`.
pub fn dcp_lookup_error(failure: &DcpLookupFailure, dcp_url: &str) -> (res: AccountError)
    ensures
        res@ == lookup_failure_text(*failure, dcp_url@),
{
    let message = match failure {
        DcpLookupFailure::ClientBuild(e) => concat2("Failed to create HTTP client: ", e.as_str()),
        DcpLookupFailure::HealthUnreachable(e) => {
            let m = concat3("DCP is not reachable at ", dcp_url, ": ");
            m.concat(e.as_str())
        },
        DcpLookupFailure::HealthStatus(s) => {
            let m = concat3("DCP health check failed at ", dcp_url, ": ");
            m.concat(s.as_str())
        },
        DcpLookupFailure::AddressRequest(e) => concat2("DCP address lookup failed: ", e.as_str()),
        DcpLookupFailure::AddressStatus(s) => concat3(
            "DCP address lookup returned ",
            s.as_str(),
            ". Open and unlock DCP first.",
        ),
        DcpLookupFailure::AddressBody(e) => concat2("DCP address response invalid: ", e.as_str()),
    };
    AccountError::Config(message)
}

/// The wallet address that DCP reported, kept as text when its parse as a Solana public key
/// (`parsed`) succeeded.
pub fn dcp_address_outcome(address: String, parsed: Result<[u8; 32], String>) -> (res: Result<String, AccountError>)
    ensures
        match parsed {
            Ok(_) => res matches Ok(a) && a@ == address@,
            Err(e) => res matches Err(err) && err@ == "DCP returned an invalid Solana address: "@ + e@,
        },
{
    match parsed {
        Ok(_) => Ok(address),
        Err(e) => Err(AccountError::Config(concat2("DCP returned an invalid Solana address: ", e.as_str()))),
    }
}

/// The wallet address that DCP reported, kept as text once it is known to name a Solana
/// public key.
pub fn check_dcp_address(address: String) -> (res: Result<String, AccountError>)
    ensures
        match pubkey_from_str(address@) {
            Ok(_) => res matches Ok(a) && a@ == address@,
            Err(e) => res matches Err(err) && err@ == "DCP returned an invalid Solana address: "@ + e,
        },
{
    let parsed = parse_pubkey_bytes(address.as_str());
    dcp_address_outcome(address, parsed)
}

/// The network of new accounts is never blank: it is the enforced network when that has a
/// character other than white space, and mainnet otherwise.
pub proof fn lemma_network_never_blank(enforced: Option<Seq<char>>)
    ensures
        !is_blank(network_for(enforced)),
        network_for(enforced) == mainnet() || enforced == Some(network_for(enforced)),
        enforced matches Some(n) ==> (!is_blank(n) ==> network_for(enforced) == n),
{
    reveal_strlit("mainnet");
    assert(!crate::text::unicode_white_space("mainnet"@[0]));
}

} // verus!
