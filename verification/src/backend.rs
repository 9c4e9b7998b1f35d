//! Choosing where a new account's key is kept: the keystore backends of each platform, the
//! interactive backend picker, and the 1Password account to use.

use vstd::prelude::*;
use crate::accounts::{save_account, keystore_record, AccountError, AccountUpsert, KeystoreKind};
use crate::text::{concat2, concat3, concat5, opt_clone, opt_str_view, opt_to_owned, opt_view, str_eq};

verus! {

/// The operating system the program runs on, as far as the backends care.
#[derive(Debug, Clone, Copy, PartialEq, Eq, Structural)]
pub enum TargetOs {
    MacOs,
    Linux,
    Windows,
    Other,
}

/// The operating system named as `std::env::consts::OS` names it.
pub open spec fn target_os_named(name: Seq<char>) -> TargetOs {
    if name == "macos"@ {
        TargetOs::MacOs
    } else if name == "linux"@ {
        TargetOs::Linux
    } else if name == "windows"@ {
        TargetOs::Windows
    } else {
        TargetOs::Other
    }
}

/// The operating system named as `std::env::consts::OS` names it.
pub fn target_os_from_name(name: &str) -> (res: TargetOs)
    ensures
        res == target_os_named(name@),
{
    if str_eq(name, "macos") {
        TargetOs::MacOs
    } else if str_eq(name, "linux") {
        TargetOs::Linux
    } else if str_eq(name, "windows") {
        TargetOs::Windows
    } else {
        TargetOs::Other
    }
}

/// The backends that work on `os`, as a comma-separated list of quoted ids, as error messages
/// suggest them.
pub open spec fn backends_hint(os: TargetOs) -> Seq<char> {
    match os {
        TargetOs::MacOs => "'keychain', 'dcp'"@,
        TargetOs::Linux => "'gnome-keyring', 'dcp'"@,
        TargetOs::Windows => "'windows-hello', 'dcp'"@,
        TargetOs::Other => "'dcp'"@,
    }
}

/// The comma-separated list of the backends that work on `os`, for error messages, so that no
/// backend of another platform is suggested.
pub fn available_backends_hint(os: TargetOs) -> (res: &'static str)
    ensures
        res@ == backends_hint(os),
{
    match os {
        TargetOs::MacOs => "'keychain', 'dcp'",
        TargetOs::Linux => "'gnome-keyring', 'dcp'",
        TargetOs::Windows => "'windows-hello', 'dcp'",
        TargetOs::Other => "'dcp'",
    }
}

/// The keystores on this machine that can hold a new account's key.
#[derive(Debug, Clone, Copy, PartialEq, Eq, Structural)]
pub enum KeystoreBackend {
    AppleKeychain,
    GnomeKeyring,
    WindowsHello,
    OnePassword,
}

/// The kind of keystore recorded for accounts in a backend.
pub open spec fn kind_of(backend: KeystoreBackend) -> KeystoreKind {
    match backend {
        KeystoreBackend::AppleKeychain => KeystoreKind::AppleKeychain,
        KeystoreBackend::GnomeKeyring => KeystoreKind::GnomeKeyring,
        KeystoreBackend::WindowsHello => KeystoreKind::WindowsHello,
        KeystoreBackend::OnePassword => KeystoreKind::OnePassword,
    }
}

/// The kind of keystore recorded for accounts in a backend.
pub fn keystore_kind(backend: KeystoreBackend) -> (res: KeystoreKind)
    ensures
        res == kind_of(backend),
{
    match backend {
        KeystoreBackend::AppleKeychain => KeystoreKind::AppleKeychain,
        KeystoreBackend::GnomeKeyring => KeystoreKind::GnomeKeyring,
        KeystoreBackend::WindowsHello => KeystoreKind::WindowsHello,
        KeystoreBackend::OnePassword => KeystoreKind::OnePassword,
    }
}

/// The name under which a backend is shown to the user.
pub open spec fn display_name_of(backend: KeystoreBackend) -> Seq<char> {
    match backend {
        KeystoreBackend::AppleKeychain => "Apple Keychain"@,
        KeystoreBackend::GnomeKeyring => "GNOME Keyring"@,
        KeystoreBackend::WindowsHello => "Windows Hello"@,
        KeystoreBackend::OnePassword => "1Password"@,
    }
}

/// The name under which a backend is shown to the user.
pub fn keystore_display_name(backend: KeystoreBackend) -> (res: &'static str)
    ensures
        res@ == display_name_of(backend),
{
    match backend {
        KeystoreBackend::AppleKeychain => "Apple Keychain",
        KeystoreBackend::GnomeKeyring => "GNOME Keyring",
        KeystoreBackend::WindowsHello => "Windows Hello",
        KeystoreBackend::OnePassword => "1Password",
    }
}

/// The keystore that a backend id names on `os`, or the message that refuses it.
pub open spec fn keystore_for(backend_id: Seq<char>, os: TargetOs) -> Result<KeystoreBackend, Seq<char>> {
    if backend_id == "keychain"@ {
        if os == TargetOs::MacOs {
            Ok(KeystoreBackend::AppleKeychain)
        } else {
            Err("Keychain is only available on macOS"@)
        }
    } else if backend_id == "gnome-keyring"@ {
        if os == TargetOs::Linux {
            Ok(KeystoreBackend::GnomeKeyring)
        } else {
            Err("GNOME Keyring is only available on Linux"@)
        }
    } else if backend_id == "windows-hello"@ {
        if os == TargetOs::Windows {
            Ok(KeystoreBackend::WindowsHello)
        } else {
            Err("Windows Hello is only available on Windows"@)
        }
    } else if backend_id == "1password"@ {
        Ok(KeystoreBackend::OnePassword)
    } else {
        Err("Unknown backend: "@ + backend_id + ". Use "@ + backends_hint(os) + "."@)
    }
}

/// The keystore that a backend id names on `os` (the first step of building it). A backend
/// of another platform, and an unknown one, are refused with a message that suggests the
/// backends of `os`.
pub fn build_keystore(backend_id: &str, os: TargetOs) -> (res: Result<KeystoreBackend, AccountError>)
    ensures
        match keystore_for(backend_id@, os) {
            Ok(b) => res == Ok::<KeystoreBackend, AccountError>(b),
            Err(m) => res matches Err(e) && e@ == m,
        },
{
    if str_eq(backend_id, "keychain") {
        if os == TargetOs::MacOs {
            Ok(KeystoreBackend::AppleKeychain)
        } else {
            Err(AccountError::Config(String::from_str("Keychain is only available on macOS")))
        }
    } else if str_eq(backend_id, "gnome-keyring") {
        if os == TargetOs::Linux {
            Ok(KeystoreBackend::GnomeKeyring)
        } else {
            Err(AccountError::Config(String::from_str("GNOME Keyring is only available on Linux")))
        }
    } else if str_eq(backend_id, "windows-hello") {
        if os == TargetOs::Windows {
            Ok(KeystoreBackend::WindowsHello)
        } else {
            Err(AccountError::Config(String::from_str("Windows Hello is only available on Windows")))
        }
    } else if str_eq(backend_id, "1password") {
        Ok(KeystoreBackend::OnePassword)
    } else {
        Err(AccountError::Config(concat5(
            "Unknown backend: ",
            backend_id,
            ". Use ",
            available_backends_hint(os),
            ".",
        )))
    }
}

/// The keystore native to an operating system, if it has one.
pub open spec fn native_keystore_of(os: TargetOs) -> Option<KeystoreBackend> {
    match os {
        TargetOs::MacOs => Some(KeystoreBackend::AppleKeychain),
        TargetOs::Linux => Some(KeystoreBackend::GnomeKeyring),
        TargetOs::Windows => Some(KeystoreBackend::WindowsHello),
        TargetOs::Other => None,
    }
}

/// The keystore native to an operating system, if it has one.
pub fn native_keystore(os: TargetOs) -> (res: Option<KeystoreBackend>)
    ensures
        res == native_keystore_of(os),
{
    match os {
        TargetOs::MacOs => Some(KeystoreBackend::AppleKeychain),
        TargetOs::Linux => Some(KeystoreBackend::GnomeKeyring),
        TargetOs::Windows => Some(KeystoreBackend::WindowsHello),
        TargetOs::Other => None,
    }
}

/// What must be done on this machine before a keystore backend is used.
#[derive(Debug, Clone, Copy, PartialEq, Eq, Structural)]
pub enum KeystorePreparation {
    Nothing,
    /// Install what the GNOME keyring needs, when it is missing.
    GnomeKeyringSetup,
    /// Resolve which 1Password account to use.
    ResolveOnePasswordAccount,
}

/// What must be done before a keystore backend is used.
pub fn keystore_preparation(backend: KeystoreBackend) -> (res: KeystorePreparation)
    ensures
        res == match backend {
            KeystoreBackend::GnomeKeyring => KeystorePreparation::GnomeKeyringSetup,
            KeystoreBackend::OnePassword => KeystorePreparation::ResolveOnePasswordAccount,
            _ => KeystorePreparation::Nothing,
        },
{
    match backend {
        KeystoreBackend::GnomeKeyring => KeystorePreparation::GnomeKeyringSetup,
        KeystoreBackend::OnePassword => KeystorePreparation::ResolveOnePasswordAccount,
        _ => KeystorePreparation::Nothing,
    }
}

/// Whether a backend must be found usable on this machine before it is used.
pub open spec fn needs_availability_check(backend: KeystoreBackend) -> bool {
    backend != KeystoreBackend::AppleKeychain
}

/// The message when a backend is not usable on this machine.
pub open spec fn unavailable_text(backend: KeystoreBackend) -> Seq<char> {
    match backend {
        KeystoreBackend::AppleKeychain => Seq::empty(),
        KeystoreBackend::GnomeKeyring => "GNOME Keyring is not available."@,
        KeystoreBackend::WindowsHello => "Windows Hello is not configured."@,
        KeystoreBackend::OnePassword => "1Password CLI (`op`) is not installed or not signed in."@,
    }
}

/// Whether a backend must be found usable on this machine before it is used.
pub fn requires_availability_check(backend: KeystoreBackend) -> (res: bool)
    ensures
        res == needs_availability_check(backend),
{
    backend != KeystoreBackend::AppleKeychain
}

/// Accepts a backend found usable, refuses one that is not.
pub fn check_keystore_available(backend: KeystoreBackend, available: bool) -> (res: Result<(), AccountError>)
    requires
        needs_availability_check(backend),
    ensures
        available ==> res is Ok,
        !available ==> (res matches Err(e) && e@ == unavailable_text(backend)),
{
    if available {
        Ok(())
    } else {
        let message = match backend {
            KeystoreBackend::AppleKeychain => String::new(),
            KeystoreBackend::GnomeKeyring => String::from_str("GNOME Keyring is not available."),
            KeystoreBackend::WindowsHello => String::from_str("Windows Hello is not configured."),
            KeystoreBackend::OnePassword => String::from_str(
                "1Password CLI (`op`) is not installed or not signed in.",
            ),
        };
        Err(AccountError::Config(message))
    }
}

/// The 1Password vault and account that an account is stored in.
#[derive(Debug, Clone)]
pub struct OpAccountInfo {
    pub vault: Option<String>,
    pub account: Option<String>,
}

/// The 1Password location of a new account: the vault asked for and the account resolved.
pub fn onepassword_info(vault: Option<&str>, op_account: Option<String>) -> (res: OpAccountInfo)
    ensures
        opt_view(res.vault) == opt_str_view(vault),
        opt_view(res.account) == opt_view(op_account),
{
    OpAccountInfo { vault: opt_to_owned(vault), account: op_account }
}

/// The arguments of `pay account new`.
#[derive(Debug, Clone)]
pub struct NewCommand {
    /// Account name.
    pub name: String,
    /// Storage backend: "keychain", "gnome-keyring", "windows-hello", "1password" or "dcp".
    pub backend: Option<String>,
    /// Legacy vault name.
    pub vault: Option<String>,
    /// Replace an existing account.
    pub force: bool,
}

/// How a keystore keeps a new key.
#[derive(Debug, Clone, Copy, PartialEq, Eq, Structural)]
pub enum SyncMode {
    CloudSync,
    ThisDeviceOnly,
}

/// How a new key is kept: synchronised through the cloud in 1Password, on this device elsewhere.
pub open spec fn sync_mode_of(backend: KeystoreBackend) -> SyncMode {
    if backend == KeystoreBackend::OnePassword {
        SyncMode::CloudSync
    } else {
        SyncMode::ThisDeviceOnly
    }
}

/// Where account creation goes once the backend id is known.
#[derive(Debug)]
pub enum CreateAccountRoute {
    /// The account lives in DCP.
    Dcp,
    /// The account's key goes into this keystore on this machine.
    Keystore(KeystoreBackend),
}

/// Routes account creation: "dcp" registers a DCP account, any other id names a keystore.
pub fn route_backend_id(backend_id: &str, os: TargetOs) -> (res: Result<CreateAccountRoute, AccountError>)
    ensures
        backend_id@ == "dcp"@ ==> (res matches Ok(CreateAccountRoute::Dcp)),
        backend_id@ != "dcp"@ ==> match keystore_for(backend_id@, os) {
            Ok(b) => res matches Ok(CreateAccountRoute::Keystore(r)) && r == b,
            Err(m) => res matches Err(e) && e@ == m,
        },
{
    if str_eq(backend_id, "dcp") {
        return Ok(CreateAccountRoute::Dcp);
    }
    match build_keystore(backend_id, os) {
        Ok(b) => Ok(CreateAccountRoute::Keystore(b)),
        Err(e) => Err(e),
    }
}

/// What to do with a keystore once it is known whether it already holds the account.
#[derive(Debug)]
pub enum KeystoreAccountStep {
    /// Keep the stored key: show `notice` and register the stored public key.
    KeepStored { notice: String },
    /// Generate a keypair and import it, kept as `sync` says.
    GenerateNew { sync: SyncMode },
}

/// The notice shown when the keystore already holds the account.
pub open spec fn stored_notice(name: Seq<char>, display_name: Seq<char>) -> Seq<char> {
    "`"@ + name + "` is already stored in "@ + display_name + ".\nUse --force to replace it."@
}

/// Decides whether to keep the key already stored for `name` (only when not forced) or to
/// generate a new one.
pub fn keystore_account_step(name: &str, backend: KeystoreBackend, stored: bool, force: bool) -> (res: KeystoreAccountStep)
    ensures
        stored && !force ==> (res matches KeystoreAccountStep::KeepStored { notice } && notice@
            == stored_notice(name@, display_name_of(backend))),
        !(stored && !force) ==> (res matches KeystoreAccountStep::GenerateNew { sync } && sync
            == sync_mode_of(backend)),
{
    if stored && !force {
        let notice = concat5(
            "`",
            name,
            "` is already stored in ",
            keystore_display_name(backend),
            ".\nUse --force to replace it.",
        );
        KeystoreAccountStep::KeepStored { notice }
    } else {
        let sync = if backend == KeystoreBackend::OnePassword {
            SyncMode::CloudSync
        } else {
            SyncMode::ThisDeviceOnly
        };
        KeystoreAccountStep::GenerateNew { sync }
    }
}

/// The 1Password vault recorded for an account: the resolved one, and for a new key the vault
/// asked for when none was resolved.
pub open spec fn recorded_vault(op_info: Option<OpAccountInfo>, vault: Option<Seq<char>>, kept_stored: bool) -> Option<Seq<char>> {
    let resolved = match op_info {
        Some(i) => opt_view(i.vault),
        None => None,
    };
    if kept_stored {
        resolved
    } else {
        match resolved {
            Some(v) => Some(v),
            None => vault,
        }
    }
}

/// The 1Password account recorded for an account.
pub open spec fn recorded_op_account(op_info: Option<OpAccountInfo>) -> Option<Seq<char>> {
    match op_info {
        Some(i) => opt_view(i.account),
        None => None,
    }
}

/// The record that registers a keystore account (a kept or a new key) under `network`.
pub fn keystore_account_record(
    name: &str,
    backend: KeystoreBackend,
    pubkey: &str,
    op_info: &Option<OpAccountInfo>,
    vault: Option<&str>,
    kept_stored: bool,
    network: &str,
) -> (res: AccountUpsert)
    ensures
        res@.network == network@,
        res@.name == name@,
        res@.account == keystore_record(
            kind_of(backend),
            pubkey@,
            recorded_vault(*op_info, opt_str_view(vault), kept_stored),
            None,
            None,
            recorded_op_account(*op_info),
        ),
{
    let resolved_vault = match op_info {
        Some(i) => opt_clone(&i.vault),
        None => None,
    };
    let recorded_vault = if kept_stored {
        resolved_vault
    } else {
        match resolved_vault {
            Some(v) => Some(v),
            None => opt_to_owned(vault),
        }
    };
    let recorded_account = match op_info {
        Some(i) => opt_clone(&i.account),
        None => None,
    };
    save_account(
        name,
        keystore_kind(backend),
        pubkey,
        recorded_vault,
        None,
        None,
        recorded_account,
        network,
    )
}

/// A backend offered by the interactive picker.
#[derive(Debug, Clone)]
pub struct BackendOption {
    pub id: String,
    pub label: String,
}

/// The backend native to `os` as the picker offers it (id and label), if there is one.
pub open spec fn native_backend_option(os: TargetOs) -> Option<(Seq<char>, Seq<char>)> {
    match os {
        TargetOs::MacOs => Some(("keychain"@, "macOS Keychain (requires Touch ID)"@)),
        TargetOs::Linux => Some(("gnome-keyring"@, "GNOME Keyring (password prompt)"@)),
        TargetOs::Windows => Some(("windows-hello"@, "Windows Hello (fingerprint / face / PIN)"@)),
        TargetOs::Other => None,
    }
}

/// Whether the picker offers the native backend of `os`: the macOS keychain always, GNOME
/// Keyring and Windows Hello only when found usable.
pub open spec fn offers_native(os: TargetOs, native_available: bool) -> bool {
    match os {
        TargetOs::MacOs => true,
        TargetOs::Linux | TargetOs::Windows => native_available,
        TargetOs::Other => false,
    }
}

/// The backends that the picker offers: only the one native to `os`.
pub fn backend_options(os: TargetOs, native_available: bool) -> (res: Vec<BackendOption>)
    ensures
        offers_native(os, native_available) ==> res@.len() == 1 && native_backend_option(os)
            == Some((res@[0].id@, res@[0].label@)),
        !offers_native(os, native_available) ==> res@.len() == 0,
{
    let mut res: Vec<BackendOption> = Vec::new();
    match os {
        TargetOs::MacOs => {
            res.push(BackendOption {
                id: String::from_str("keychain"),
                label: String::from_str("macOS Keychain (requires Touch ID)"),
            });
        },
        TargetOs::Linux => {
            if native_available {
                res.push(BackendOption {
                    id: String::from_str("gnome-keyring"),
                    label: String::from_str("GNOME Keyring (password prompt)"),
                });
            }
        },
        TargetOs::Windows => {
            if native_available {
                res.push(BackendOption {
                    id: String::from_str("windows-hello"),
                    label: String::from_str("Windows Hello (fingerprint / face / PIN)"),
                });
            }
        },
        TargetOs::Other => {},
    }
    res
}

/// The message when no backend was given and there is no terminal to ask on.
pub open spec fn no_terminal_text(os: TargetOs) -> Seq<char> {
    "No --backend specified and no interactive terminal available.\n  Pass --backend=<one of "@
        + backends_hint(os) + ">."@
}

/// The error when no backend was given and there is no terminal to ask on.
pub fn no_terminal_error(os: TargetOs) -> (res: AccountError)
    ensures
        res@ == no_terminal_text(os),
{
    AccountError::Config(concat3(
        "No --backend specified and no interactive terminal available.\n  Pass --backend=<one of ",
        available_backends_hint(os),
        ">.",
    ))
}

/// How the interactive picker starts.
#[derive(Debug)]
pub enum PickBackendStart {
    /// There is no terminal to ask on: fail at once, probing nothing.
    NoTerminal(AccountError),
    /// Find out whether this native keystore is usable, then offer what `backend_options` gives.
    ProbeNative(KeystoreBackend),
    /// Offer these backends.
    Offer(Vec<BackendOption>),
}

/// Starts the interactive picker: without a terminal it fails before any keystore is probed;
/// the macOS keychain is offered without a probe; GNOME Keyring and Windows Hello are probed
/// first; other systems have nothing to offer.
pub fn pick_backend_start(has_tty: bool, os: TargetOs) -> (res: PickBackendStart)
    ensures
        !has_tty ==> (res matches PickBackendStart::NoTerminal(e) && e@ == no_terminal_text(os)),
        has_tty && (os == TargetOs::Linux || os == TargetOs::Windows) ==> (res matches PickBackendStart::ProbeNative(b)
            && native_keystore_of(os) == Some(b)),
        has_tty && os == TargetOs::MacOs ==> (res matches PickBackendStart::Offer(options) && options@.len() == 1
            && native_backend_option(os) == Some((options@[0].id@, options@[0].label@))),
        has_tty && os == TargetOs::Other ==> (res matches PickBackendStart::Offer(options) && options@.len() == 0),
{
    if !has_tty {
        return PickBackendStart::NoTerminal(no_terminal_error(os));
    }
    match os {
        TargetOs::Linux => PickBackendStart::ProbeNative(KeystoreBackend::GnomeKeyring),
        TargetOs::Windows => PickBackendStart::ProbeNative(KeystoreBackend::WindowsHello),
        _ => PickBackendStart::Offer(backend_options(os, false)),
    }
}

/// The labels that the picker shows, or the error when there is nothing to offer.
pub fn backend_prompt_labels(options: &Vec<BackendOption>) -> (res: Result<Vec<String>, AccountError>)
    ensures
        options@.len() == 0 ==> (res matches Err(e) && e@
            == "No supported keystore backend is available on this system."@),
        options@.len() > 0 ==> (res matches Ok(labels) && labels@.len() == options@.len() && forall|i: int|
            0 <= i < options@.len() ==> #[trigger] labels@[i]@ == options@[i].label@),
{
    if options.len() == 0 {
        return Err(AccountError::Config(String::from_str(
            "No supported keystore backend is available on this system.",
        )));
    }
    let mut labels: Vec<String> = Vec::new();
    let mut i: usize = 0;
    while i < options.len()
        invariant
            i <= options@.len(),
            labels@.len() == i,
            forall|j: int| 0 <= j < i ==> #[trigger] labels@[j]@ == options@[j].label@,
        decreases options@.len() - i,
    {
        labels.push(options[i].label.clone());
        i = i + 1;
    }
    Ok(labels)
}

/// The backend id that the user picked.
pub fn pick_backend(options: &Vec<BackendOption>, selection: usize) -> (res: String)
    requires
        selection < options@.len(),
    ensures
        res@ == options@[selection as int].id@,
{
    options[selection].id.clone()
}

/// The error when the user cancels the picker.
pub fn selection_cancelled(detail: &str) -> (res: AccountError)
    ensures
        res@ == "Selection cancelled: "@ + detail@,
{
    AccountError::Config(concat2("Selection cancelled: ", detail))
}

/// An account of the 1Password CLI, as `op account list` reports it.
#[derive(Debug, Clone)]
pub struct OpAccount {
    pub account_uuid: String,
    pub email: String,
    pub url: String,
}

/// How an account of the 1Password CLI is shown in the prompt.
pub open spec fn op_account_label(account: OpAccount) -> Seq<char> {
    account.email@ + " ("@ + account.url@ + ")"@
}

/// What to do once `op account list` has answered.
#[derive(Debug)]
pub enum OpAccountStep {
    /// The account to use is known (or there is none).
    Resolved(Option<String>),
    /// Ask the user, showing these labels.
    Prompt(Vec<String>),
}

/// Resolves the 1Password account: none when the listing failed or is empty, the only one when
/// there is one, and otherwise a prompt over all of them. (`listed` is whether `op` exited
/// successfully; `accounts` is what its output decoded to, empty when it did not decode.)
pub fn resolve_op_account(listed: bool, accounts: &Vec<OpAccount>) -> (res: OpAccountStep)
    ensures
        !listed || accounts@.len() == 0 ==> (res matches OpAccountStep::Resolved(r) && r is None),
        listed && accounts@.len() == 1 ==> (res matches OpAccountStep::Resolved(r) && r matches Some(u)
            && u@ == accounts@[0].account_uuid@),
        listed && accounts@.len() > 1 ==> (res matches OpAccountStep::Prompt(labels) && labels@.len()
            == accounts@.len() && forall|i: int|
            0 <= i < accounts@.len() ==> #[trigger] labels@[i]@ == op_account_label(accounts@[i])),
{
    if !listed || accounts.len() == 0 {
        return OpAccountStep::Resolved(None);
    }
    if accounts.len() == 1 {
        return OpAccountStep::Resolved(Some(accounts[0].account_uuid.clone()));
    }
    let mut labels: Vec<String> = Vec::new();
    let mut i: usize = 0;
    while i < accounts.len()
        invariant
            i <= accounts@.len(),
            labels@.len() == i,
            forall|j: int| 0 <= j < i ==> #[trigger] labels@[j]@ == op_account_label(accounts@[j]),
        decreases accounts@.len() - i,
    {
        let a = &accounts[i];
        labels.push(concat4_owned(&a.email, &a.url));
        i = i + 1;
    }
    OpAccountStep::Prompt(labels)
}

fn concat4_owned(email: &String, url: &String) -> (res: String)
    ensures
        res@ == email@ + " ("@ + url@ + ")"@,
{
    String::from_str(email.as_str()).concat(" (").concat(url.as_str()).concat(")")
}

/// The 1Password account that the user picked.
pub fn op_account_selection(accounts: &Vec<OpAccount>, selection: usize) -> (res: Option<String>)
    requires
        selection < accounts@.len(),
    ensures
        res matches Some(u) && u@ == accounts@[selection as int].account_uuid@,
{
    Some(accounts[selection].account_uuid.clone())
}

/// The error when `op account list` could not be run.
pub fn op_list_failed(detail: &str) -> (res: AccountError)
    ensures
        res@ == "op account list: "@ + detail@,
{
    AccountError::Config(concat2("op account list: ", detail))
}

/// The error when the 1Password account prompt fails.
pub fn op_prompt_failed(detail: &str) -> (res: AccountError)
    ensures
        res@ == "Prompt error: "@ + detail@,
{
    AccountError::Config(concat2("Prompt error: ", detail))
}

/// The backend ids are different texts.
proof fn lemma_backend_ids_distinct()
    ensures
        "keychain"@ != "gnome-keyring"@,
        "keychain"@ != "windows-hello"@,
        "keychain"@ != "1password"@,
        "gnome-keyring"@ != "windows-hello"@,
        "gnome-keyring"@ != "1password"@,
        "windows-hello"@ != "1password"@,
{
    reveal_strlit("keychain");
    reveal_strlit("gnome-keyring");
    reveal_strlit("windows-hello");
    reveal_strlit("1password");
    assert("keychain"@.len() != "gnome-keyring"@.len());
    assert("keychain"@.len() != "windows-hello"@.len());
    assert("keychain"@.len() != "1password"@.len());
    assert("gnome-keyring"@[0] != "windows-hello"@[0]);
    assert("gnome-keyring"@.len() != "1password"@.len());
    assert("windows-hello"@.len() != "1password"@.len());
}

/// Every backend that the picker offers on `os` is one that `build_keystore` accepts on `os`,
/// and it is kept on this device.
pub proof fn lemma_picker_offers_buildable_backend(os: TargetOs)
    requires
        native_backend_option(os) is Some,
    ensures
        keystore_for(native_backend_option(os)->Some_0.0, os) is Ok,
        sync_mode_of(keystore_for(native_backend_option(os)->Some_0.0, os)->Ok_0) == SyncMode::ThisDeviceOnly,
{
    lemma_backend_ids_distinct();
}

/// A backend of another platform is refused: each platform backend is accepted only on its own
/// operating system.
pub proof fn lemma_platform_backends_stay_home(backend_id: Seq<char>, os: TargetOs)
    requires
        keystore_for(backend_id, os) matches Ok(b) && b != KeystoreBackend::OnePassword,
    ensures
        native_backend_option(os) matches Some(o) && o.0 == backend_id,
{
    lemma_backend_ids_distinct();
}

/// Each keystore backend is recorded under its own kind of keystore: distinct backends get
/// distinct kinds, and none is recorded as a DCP account.
pub proof fn lemma_each_backend_recorded_under_its_own_kind(a: KeystoreBackend, b: KeystoreBackend)
    ensures
        kind_of(KeystoreBackend::AppleKeychain) == KeystoreKind::AppleKeychain,
        kind_of(KeystoreBackend::GnomeKeyring) == KeystoreKind::GnomeKeyring,
        kind_of(KeystoreBackend::WindowsHello) == KeystoreKind::WindowsHello,
        kind_of(KeystoreBackend::OnePassword) == KeystoreKind::OnePassword,
        kind_of(a) == kind_of(b) ==> a == b,
        kind_of(a) != KeystoreKind::Dcp,
{
}

/// The picker offers the native keystore of `os` only when that keystore can be used: the macOS
/// keychain always, GNOME Keyring and Windows Hello only when found usable, and nothing on
/// other systems; what it offers is always the native backend of `os`.
pub proof fn lemma_picker_offers_only_usable_native(os: TargetOs, native_available: bool)
    ensures
        offers_native(os, native_available) <==> (os == TargetOs::MacOs || (native_available && (os
            == TargetOs::Linux || os == TargetOs::Windows))),
        os != TargetOs::MacOs ==> !offers_native(os, false),
        offers_native(os, native_available) ==> native_backend_option(os) is Some,
{
}

/// Distinct backends are shown under distinct names.
pub proof fn lemma_display_names_distinct(a: KeystoreBackend, b: KeystoreBackend)
    ensures
        display_name_of(a) == display_name_of(b) ==> a == b,
{
    reveal_strlit("Apple Keychain");
    reveal_strlit("GNOME Keyring");
    reveal_strlit("Windows Hello");
    reveal_strlit("1Password");
    assert("Apple Keychain"@[0] != "GNOME Keyring"@[0]);
    assert("Apple Keychain"@[0] != "Windows Hello"@[0]);
    assert("Apple Keychain"@[0] != "1Password"@[0]);
    assert("GNOME Keyring"@[0] != "Windows Hello"@[0]);
    assert("GNOME Keyring"@[0] != "1Password"@[0]);
    assert("Windows Hello"@[0] != "1Password"@[0]);
}

/// Only 1Password keeps a new key synchronised through the cloud; every other keystore keeps it
/// on this device.
pub proof fn lemma_only_onepassword_syncs(b: KeystoreBackend)
    ensures
        (sync_mode_of(b) == SyncMode::CloudSync) <==> b == KeystoreBackend::OnePassword,
        b != KeystoreBackend::OnePassword ==> sync_mode_of(b) == SyncMode::ThisDeviceOnly,
{
}

/// The id that the picker offers on `os` names the keystore native to `os`, and 1Password is
/// accepted on every system.
pub proof fn lemma_picker_id_names_native_keystore(os: TargetOs)
    ensures
        native_backend_option(os) matches Some(o) ==> keystore_for(o.0, os) == Ok::<KeystoreBackend, Seq<char>>(
            native_keystore_of(os)->Some_0,
        ) && native_keystore_of(os) is Some,
        native_backend_option(os) is None <==> native_keystore_of(os) is None,
        keystore_for("1password"@, os) == Ok::<KeystoreBackend, Seq<char>>(KeystoreBackend::OnePassword),
{
    lemma_backend_ids_distinct();
}

/// The backends suggested in messages are those that work on `os`: the id the picker offers
/// there, when there is one, then DCP.
pub proof fn lemma_hint_names_usable_backends(os: TargetOs)
    ensures
        native_backend_option(os) matches Some(o) ==> backends_hint(os) == "'"@ + o.0 + "', 'dcp'"@,
        native_backend_option(os) is None ==> backends_hint(os) == "'dcp'"@,
{
    reveal_strlit("'");
    reveal_strlit("', 'dcp'");
    reveal_strlit("keychain");
    reveal_strlit("gnome-keyring");
    reveal_strlit("windows-hello");
    reveal_strlit("'keychain', 'dcp'");
    reveal_strlit("'gnome-keyring', 'dcp'");
    reveal_strlit("'windows-hello', 'dcp'");
    match os {
        TargetOs::MacOs => assert("'"@ + "keychain"@ + "', 'dcp'"@ =~= "'keychain', 'dcp'"@),
        TargetOs::Linux => assert("'"@ + "gnome-keyring"@ + "', 'dcp'"@ =~= "'gnome-keyring', 'dcp'"@),
        TargetOs::Windows => assert("'"@ + "windows-hello"@ + "', 'dcp'"@ =~= "'windows-hello', 'dcp'"@),
        TargetOs::Other => {},
    }
}

} // verus!
