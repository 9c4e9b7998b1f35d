//! The decisions of `pay account new`, as a state machine: from the state and what the last
//! action produced, the next state and the next action. The caller performs each action (the
//! picker prompt, the keystore and its setup, the 1Password CLI, the DCP lookup, the account
//! file) and hands back what came of it.

use vstd::prelude::*;
use crate::accounts::{
    check_dcp_address, configured_dcp_url, create_dcp_account, dcp_networks, dcp_record, dcp_url_for,
    keystore_record, registered_notice, registered_without_pubkey, save_dcp_account, AccountError,
    AccountRecord, AccountRecordView, AccountUpsert, AccountUpsertView, DcpAccountStep, KeystoreKind,
};
use crate::backend::{
    check_keystore_available, display_name_of, keystore_account_record, keystore_account_step,
    keystore_display_name, keystore_for, keystore_preparation, kind_of, needs_availability_check,
    onepassword_info, recorded_op_account, recorded_vault, requires_availability_check,
    route_backend_id, stored_notice, sync_mode_of, unavailable_text, CreateAccountRoute,
    KeystoreAccountStep, KeystoreBackend, KeystorePreparation, OpAccountInfo, SyncMode, TargetOs,
};
use crate::codec::{base58_encode, bs58_encode, pubkey_from_str};
use crate::keys::{ed25519_public_key, generate_keypair};
use crate::text::{lemma_strip_trailing_slashes_shape, opt_clone, opt_str_view, opt_view};

verus! {

/// What `pay account new` was asked for, and the settings it reads.
#[derive(Debug, Clone)]
pub struct CreationContext {
    /// The account name.
    pub name: String,
    /// The backend id given on the command line, if any.
    pub backend: Option<String>,
    /// The 1Password vault given on the command line, if any.
    pub vault: Option<String>,
    /// Whether an account already stored may be replaced.
    pub force: bool,
    /// The operating system the program runs on.
    pub os: TargetOs,
    /// The network the account is registered under.
    pub network: String,
    /// The `DCP_URL` setting, if set.
    pub dcp_url: Option<String>,
    /// The `PAY_DCP_URL` setting, if set.
    pub pay_dcp_url: Option<String>,
}

/// A keystore on this machine, with the 1Password vault and account it uses (for 1Password).
#[derive(Debug)]
pub struct KeystoreTarget {
    pub backend: KeystoreBackend,
    pub op: Option<OpAccountInfo>,
}

/// The abstract content of optional 1Password details: the vault and the account.
pub open spec fn op_view(op: Option<OpAccountInfo>) -> Option<(Option<Seq<char>>, Option<Seq<char>>)> {
    match op {
        Some(i) => Some((opt_view(i.vault), opt_view(i.account))),
        None => None,
    }
}

impl View for KeystoreTarget {
    type V = (KeystoreBackend, Option<(Option<Seq<char>>, Option<Seq<char>>)>);

    open spec fn view(&self) -> Self::V {
        (self.backend, op_view(self.op))
    }
}

/// 1Password details belong to the 1Password keystore alone.
pub open spec fn target_wf(target: KeystoreTarget) -> bool {
    target.op is Some <==> target.backend == KeystoreBackend::OnePassword
}

/// A copy of a keystore target.
fn copy_target(target: &KeystoreTarget) -> (res: KeystoreTarget)
    ensures
        res@ == target@,
        res.op is Some <==> target.op is Some,
{
    let op = match &target.op {
        Some(i) => Some(OpAccountInfo { vault: opt_clone(&i.vault), account: opt_clone(&i.account) }),
        None => None,
    };
    KeystoreTarget { backend: target.backend, op }
}

/// Where account creation stands.
#[derive(Debug)]
pub enum CreationState {
    /// Nothing done yet.
    Start,
    /// Waiting for the user to pick a backend.
    PickingBackend,
    /// Waiting to learn whether this keystore is usable on this machine.
    CheckingAvailability(KeystoreBackend),
    /// Waiting for what the GNOME keyring needs to be installed.
    SettingUpGnomeKeyring,
    /// Waiting for the 1Password account to use.
    ResolvingOpAccount,
    /// Waiting to learn whether the keystore holds the account.
    CheckingStored(KeystoreTarget),
    /// Waiting for the public key stored for the account; `notice` says it is kept.
    ReadingStoredKey { target: KeystoreTarget, notice: String },
    /// Waiting for the new keypair, whose public key is `pubkey`, to be imported.
    Importing { target: KeystoreTarget, pubkey: String },
    /// Waiting for the DCP account registered under the name, if any.
    ReadingRegistered,
    /// Waiting for the wallet address that DCP at `dcp_url` reports.
    LookingUpDcpAddress { dcp_url: String },
    /// Waiting for the account file to be saved.
    Saving { pubkey: String, display: &'static str },
    /// Finished: the last action carried the outcome.
    Done,
}

/// What the caller reports back.
#[derive(Debug)]
pub enum CreationEvent {
    /// Account creation begins.
    Begin,
    /// The backend id picked by the user, or why none was.
    BackendPicked(Result<String, AccountError>),
    /// Whether the keystore is usable on this machine.
    Availability(bool),
    /// Whether what the GNOME keyring needs is installed.
    GnomeKeyringSetUp(Result<(), AccountError>),
    /// The 1Password account to use (none when it could not be told), or why resolving failed.
    OpAccountResolved(Result<Option<String>, AccountError>),
    /// Whether the keystore holds the account.
    StoredChecked(bool),
    /// The public key stored for the account, or why it could not be read.
    StoredKeyRead(Result<Vec<u8>, AccountError>),
    /// Whether the new keypair was imported.
    Imported(Result<(), AccountError>),
    /// The DCP account registered under the name for the network (if any), or why the account
    /// file could not be read.
    RegisteredRead(Result<Option<AccountRecord>, AccountError>),
    /// The wallet address as DCP reported it, or why the lookup failed.
    DcpAddressFound(Result<String, AccountError>),
    /// Whether the account file was saved.
    Saved(Result<(), AccountError>),
}

/// What the caller does next.
#[derive(Debug)]
pub enum CreationAction {
    /// Ask the user for a backend.
    PickBackend,
    /// Find out whether this keystore is usable on this machine.
    CheckAvailable(KeystoreBackend),
    /// Install what the GNOME keyring needs, when it is missing.
    SetUpGnomeKeyring,
    /// Resolve which 1Password account to use.
    ResolveOpAccount,
    /// Find out whether this keystore holds the account.
    CheckStored(KeystoreTarget),
    /// Read the public key stored for the account in this keystore.
    ReadStoredKey(KeystoreTarget),
    /// Import this keypair for the account into this keystore, kept as `sync` says.
    Import { target: KeystoreTarget, keypair: Vec<u8>, sync: SyncMode },
    /// Read the DCP account registered under the name for the network.
    ReadRegistered,
    /// Ask DCP at `dcp_url` for its wallet address.
    LookUpDcpAddress { dcp_url: String },
    /// Show `notice` (that the account already exists), if any, then save these records.
    Save { notice: Option<String>, upserts: Vec<AccountUpsert> },
    /// Show `message` (that the DCP account is already registered), then end with `outcome`.
    KeepRegistered { message: String, outcome: Result<(String, &'static str), AccountError> },
    /// Account creation ends with this outcome: the public key and the backend's name.
    Finish(Result<(String, &'static str), AccountError>),
    /// The operating system's random source failed with this error.
    RandomSourceFailed(String),
    /// The event does not belong to this state; nothing to do.
    Ignore,
}

/// Whether the keystore holds the account is asked next, of `backend` with these 1Password
/// details.
pub open spec fn checks_stored(
    backend: KeystoreBackend,
    op: Option<(Option<Seq<char>>, Option<Seq<char>>)>,
    next: CreationState,
    action: CreationAction,
) -> bool {
    &&& next matches CreationState::CheckingStored(t) && t@ == (backend, op) && target_wf(t)
    &&& action matches CreationAction::CheckStored(a) && a@ == (backend, op)
}

/// Once a keystore is usable: the GNOME keyring is set up, the 1Password account resolved,
/// and any other keystore is asked at once whether it holds the account.
pub open spec fn prepares(k: KeystoreBackend, next: CreationState, action: CreationAction) -> bool {
    match k {
        KeystoreBackend::GnomeKeyring => next is SettingUpGnomeKeyring && action is SetUpGnomeKeyring,
        KeystoreBackend::OnePassword => next is ResolvingOpAccount && action is ResolveOpAccount,
        _ => checks_stored(k, None, next, action),
    }
}

/// The step after the backend id is known: "dcp" reads the registered DCP account; a keystore
/// id has the keystore checked for usability first (all but the macOS keychain), then
/// prepared; any other id ends with the error that refuses it.
pub open spec fn routed(backend_id: Seq<char>, os: TargetOs, next: CreationState, action: CreationAction) -> bool {
    if backend_id == "dcp"@ {
        next is ReadingRegistered && action is ReadRegistered
    } else {
        match keystore_for(backend_id, os) {
            Ok(k) => if needs_availability_check(k) {
                next == CreationState::CheckingAvailability(k) && action == CreationAction::CheckAvailable(k)
            } else {
                prepares(k, next, action)
            },
            Err(m) => next is Done && (action matches CreationAction::Finish(Err(e)) && e@ == m),
        }
    }
}

/// The one record saved for a keystore account: under the context's network and name, the
/// keystore's kind, `pubkey`, and the 1Password vault and account of `target`.
pub open spec fn saved_record(ctx: CreationContext, target: KeystoreTarget, pubkey: Seq<char>, kept_stored: bool, upserts: Seq<AccountUpsert>) -> bool {
    &&& upserts.len() == 1
    &&& upserts[0]@.network == ctx.network@
    &&& upserts[0]@.name == ctx.name@
    &&& upserts[0]@.account == keystore_record(
        kind_of(target.backend),
        pubkey,
        recorded_vault(target.op, opt_view(ctx.vault), kept_stored),
        None,
        None,
        recorded_op_account(target.op),
    )
}

/// The records saved for a DCP account: one per DCP network, each with the wallet address and
/// the DCP URL.
pub open spec fn saved_dcp_records(name: Seq<char>, pubkey: Seq<char>, dcp_url: Seq<char>, upserts: Seq<AccountUpsert>) -> bool {
    &&& upserts.len() == dcp_networks().len()
    &&& forall|i: int| 0 <= i < upserts.len() ==> #[trigger] upserts[i]@ == (AccountUpsertView {
        network: dcp_networks()[i],
        name: name,
        account: dcp_record(pubkey, dcp_url),
    })
}

/// One step of account creation, from `state` and `event` to `next` and `action`.
pub open spec fn creation_step(
    state: CreationState,
    event: CreationEvent,
    ctx: CreationContext,
    next: CreationState,
    action: CreationAction,
) -> bool {
    match (state, event) {
        (CreationState::Start, CreationEvent::Begin) => match ctx.backend {
            None => next is PickingBackend && action is PickBackend,
            Some(b) => routed(b@, ctx.os, next, action),
        },
        (CreationState::PickingBackend, CreationEvent::BackendPicked(picked)) => match picked {
            Ok(id) => routed(id@, ctx.os, next, action),
            Err(e) => next is Done && action == CreationAction::Finish(Err(e)),
        },
        (CreationState::CheckingAvailability(k), CreationEvent::Availability(available)) => if available {
            prepares(k, next, action)
        } else {
            next is Done && (action matches CreationAction::Finish(Err(e)) && e@ == unavailable_text(k))
        },
        (CreationState::SettingUpGnomeKeyring, CreationEvent::GnomeKeyringSetUp(set_up)) => match set_up {
            Ok(()) => checks_stored(KeystoreBackend::GnomeKeyring, None, next, action),
            Err(e) => next is Done && action == CreationAction::Finish(Err(e)),
        },
        (CreationState::ResolvingOpAccount, CreationEvent::OpAccountResolved(resolved)) => match resolved {
            Ok(account) => checks_stored(
                KeystoreBackend::OnePassword,
                Some((opt_view(ctx.vault), opt_view(account))),
                next,
                action,
            ),
            Err(e) => next is Done && action == CreationAction::Finish(Err(e)),
        },
        (CreationState::CheckingStored(t), CreationEvent::StoredChecked(stored)) => if stored && !ctx.force {
            &&& next matches CreationState::ReadingStoredKey { target, notice } && target@ == t@
                && target.op == t.op && notice@ == stored_notice(ctx.name@, display_name_of(t.backend))
            &&& action matches CreationAction::ReadStoredKey(a) && a@ == t@
        } else {
            ||| {
                &&& next matches CreationState::Importing { target, pubkey } && target@ == t@ && target.op == t.op
                    && (action matches CreationAction::Import { target: a, keypair, sync } && a@ == t@
                    && sync == sync_mode_of(t.backend) && keypair@.len() == 64
                    && keypair@.subrange(32, 64) == ed25519_public_key(keypair@.subrange(0, 32))
                    && pubkey@ == base58_encode(keypair@.subrange(32, 64)))
            }
            ||| next is Done && action is RandomSourceFailed
        },
        (CreationState::ReadingStoredKey { target, notice }, CreationEvent::StoredKeyRead(read)) => match read {
            Ok(bytes) => {
                &&& next matches CreationState::Saving { pubkey, display } && pubkey@ == base58_encode(bytes@)
                    && display@ == display_name_of(target.backend)
                &&& action matches CreationAction::Save { notice: shown, upserts } && shown == Some(notice)
                    && saved_record(ctx, target, base58_encode(bytes@), true, upserts@)
            },
            Err(e) => next is Done && action == CreationAction::Finish(Err(e)),
        },
        (CreationState::Importing { target, pubkey }, CreationEvent::Imported(imported)) => match imported {
            Ok(()) => {
                &&& next matches CreationState::Saving { pubkey: p, display } && p@ == pubkey@
                    && display@ == display_name_of(target.backend)
                &&& action matches CreationAction::Save { notice: shown, upserts } && shown is None
                    && saved_record(ctx, target, pubkey@, false, upserts@)
            },
            Err(e) => next is Done && action == CreationAction::Finish(Err(e)),
        },
        (CreationState::ReadingRegistered, CreationEvent::RegisteredRead(read)) => match read {
            Err(e) => next is Done && action == CreationAction::Finish(Err(e)),
            Ok(registered) => match registered {
                Some(account) if !ctx.force => next is Done && (action matches CreationAction::KeepRegistered {
                    message,
                    outcome,
                } && message@ == registered_notice(ctx.name@, ctx.network@) && match account.pubkey {
                    Some(p) => outcome matches Ok(r) && r.0@ == p@ && r.1@ == "DCP"@,
                    None => outcome matches Err(e) && e@ == registered_without_pubkey(ctx.name@, ctx.network@),
                }),
                _ => {
                    &&& next matches CreationState::LookingUpDcpAddress { dcp_url }
                        && dcp_url@ == dcp_url_for(opt_view(ctx.dcp_url), opt_view(ctx.pay_dcp_url))
                    &&& action matches CreationAction::LookUpDcpAddress { dcp_url }
                        && dcp_url@ == dcp_url_for(opt_view(ctx.dcp_url), opt_view(ctx.pay_dcp_url))
                },
            },
        },
        (CreationState::LookingUpDcpAddress { dcp_url }, CreationEvent::DcpAddressFound(found)) => match found {
            Err(e) => next is Done && action == CreationAction::Finish(Err(e)),
            Ok(address) => match pubkey_from_str(address@) {
                Ok(_) => {
                    &&& next matches CreationState::Saving { pubkey, display } && pubkey@ == address@
                        && display@ == "DCP"@
                    &&& action matches CreationAction::Save { notice: shown, upserts } && shown is None
                        && saved_dcp_records(ctx.name@, address@, dcp_url@, upserts@)
                },
                Err(m) => next is Done && (action matches CreationAction::Finish(Err(e))
                    && e@ == "DCP returned an invalid Solana address: "@ + m),
            },
        },
        (CreationState::Saving { pubkey, display }, CreationEvent::Saved(saved)) => next is Done && match saved {
            Ok(()) => action matches CreationAction::Finish(Ok(outcome)) && outcome.0@ == pubkey@
                && outcome.1 == display,
            Err(e) => action == CreationAction::Finish(Err(e)),
        },
        _ => next == state && action is Ignore,
    }
}

/// Every keystore target that a state holds carries 1Password details exactly when it is the
/// 1Password keystore, and only a keystore that must be found usable waits for that answer.
pub open spec fn state_wf(state: CreationState) -> bool {
    match state {
        CreationState::CheckingAvailability(k) => needs_availability_check(k),
        CreationState::CheckingStored(t) => target_wf(t),
        CreationState::ReadingStoredKey { target, .. } => target_wf(target),
        CreationState::Importing { target, .. } => target_wf(target),
        _ => true,
    }
}

fn check_stored(target: KeystoreTarget) -> (res: (CreationState, CreationAction))
    requires
        target_wf(target),
    ensures
        checks_stored(target.backend, op_view(target.op), res.0, res.1),
{
    let shown = copy_target(&target);
    (CreationState::CheckingStored(target), CreationAction::CheckStored(shown))
}

fn prepare(k: KeystoreBackend) -> (res: (CreationState, CreationAction))
    ensures
        prepares(k, res.0, res.1),
{
    match keystore_preparation(k) {
        KeystorePreparation::GnomeKeyringSetup => (CreationState::SettingUpGnomeKeyring, CreationAction::SetUpGnomeKeyring),
        KeystorePreparation::ResolveOnePasswordAccount => (CreationState::ResolvingOpAccount, CreationAction::ResolveOpAccount),
        KeystorePreparation::Nothing => check_stored(KeystoreTarget { backend: k, op: None }),
    }
}

fn route(backend_id: &str, os: TargetOs) -> (res: (CreationState, CreationAction))
    ensures
        routed(backend_id@, os, res.0, res.1),
{
    match route_backend_id(backend_id, os) {
        Ok(CreateAccountRoute::Dcp) => (CreationState::ReadingRegistered, CreationAction::ReadRegistered),
        Ok(CreateAccountRoute::Keystore(k)) => {
            if requires_availability_check(k) {
                (CreationState::CheckingAvailability(k), CreationAction::CheckAvailable(k))
            } else {
                prepare(k)
            }
        },
        Err(e) => (CreationState::Done, CreationAction::Finish(Err(e))),
    }
}

fn opt_as_str(o: &Option<String>) -> (res: Option<&str>)
    ensures
        opt_str_view(res) == opt_view(*o),
{
    match o {
        Some(s) => Some(s.as_str()),
        None => None,
    }
}

fn one_upsert(upsert: AccountUpsert) -> (res: Vec<AccountUpsert>)
    ensures
        res@ == seq![upsert],
{
    let mut res: Vec<AccountUpsert> = Vec::new();
    res.push(upsert);
    res
}

/// Takes one step of `pay account new`. The backend picker is asked only when no backend was
/// given, and a failed picker ends creation with its error. A keystore is checked for
/// usability before it is set up (GNOME keyring) or its 1Password account is resolved, and
/// 1Password details go with the 1Password keystore alone. A key already stored is kept
/// unless `force` is set, and recorded under the base58 text of its stored public key;
/// otherwise a fresh keypair is generated and imported, and the account file is saved only
/// once the import succeeded. A DCP account already registered is kept unless `force` is set;
/// otherwise DCP is asked for its wallet address, and the records are saved only once that
/// address is known to be a Solana public key; the account is then reported as "DCP".
pub fn create_account(state: CreationState, event: CreationEvent, ctx: &CreationContext) -> (res: (
    CreationState,
    CreationAction,
))
    requires
        state_wf(state),
    ensures
        creation_step(state, event, *ctx, res.0, res.1),
        state_wf(res.0),
{
    match state {
        CreationState::Start => match event {
            CreationEvent::Begin => match &ctx.backend {
                None => (CreationState::PickingBackend, CreationAction::PickBackend),
                Some(b) => route(b.as_str(), ctx.os),
            },
            _ => (CreationState::Start, CreationAction::Ignore),
        },
        CreationState::PickingBackend => match event {
            CreationEvent::BackendPicked(picked) => match picked {
                Ok(id) => route(id.as_str(), ctx.os),
                Err(e) => (CreationState::Done, CreationAction::Finish(Err(e))),
            },
            _ => (CreationState::PickingBackend, CreationAction::Ignore),
        },
        CreationState::CheckingAvailability(k) => match event {
            CreationEvent::Availability(available) => match check_keystore_available(k, available) {
                Ok(()) => prepare(k),
                Err(e) => (CreationState::Done, CreationAction::Finish(Err(e))),
            },
            _ => (CreationState::CheckingAvailability(k), CreationAction::Ignore),
        },
        CreationState::SettingUpGnomeKeyring => match event {
            CreationEvent::GnomeKeyringSetUp(set_up) => match set_up {
                Ok(()) => check_stored(KeystoreTarget { backend: KeystoreBackend::GnomeKeyring, op: None }),
                Err(e) => (CreationState::Done, CreationAction::Finish(Err(e))),
            },
            _ => (CreationState::SettingUpGnomeKeyring, CreationAction::Ignore),
        },
        CreationState::ResolvingOpAccount => match event {
            CreationEvent::OpAccountResolved(resolved) => match resolved {
                Ok(account) => {
                    let op = onepassword_info(opt_as_str(&ctx.vault), account);
                    check_stored(KeystoreTarget { backend: KeystoreBackend::OnePassword, op: Some(op) })
                },
                Err(e) => (CreationState::Done, CreationAction::Finish(Err(e))),
            },
            _ => (CreationState::ResolvingOpAccount, CreationAction::Ignore),
        },
        CreationState::CheckingStored(t) => match event {
            CreationEvent::StoredChecked(stored) => match keystore_account_step(
                ctx.name.as_str(),
                t.backend,
                stored,
                ctx.force,
            ) {
                KeystoreAccountStep::KeepStored { notice } => {
                    let shown = copy_target(&t);
                    (CreationState::ReadingStoredKey { target: t, notice }, CreationAction::ReadStoredKey(shown))
                },
                KeystoreAccountStep::GenerateNew { sync } => match generate_keypair() {
                    Ok(pair) => {
                        let (keypair, pubkey) = pair;
                        let shown = copy_target(&t);
                        (
                            CreationState::Importing { target: t, pubkey },
                            CreationAction::Import { target: shown, keypair, sync },
                        )
                    },
                    Err(e) => (CreationState::Done, CreationAction::RandomSourceFailed(e)),
                },
            },
            _ => (CreationState::CheckingStored(t), CreationAction::Ignore),
        },
        CreationState::ReadingStoredKey { target, notice } => match event {
            CreationEvent::StoredKeyRead(read) => match read {
                Ok(bytes) => {
                    let pubkey = bs58_encode(bytes.as_slice());
                    let upsert = keystore_account_record(
                        ctx.name.as_str(),
                        target.backend,
                        pubkey.as_str(),
                        &target.op,
                        opt_as_str(&ctx.vault),
                        true,
                        ctx.network.as_str(),
                    );
                    let display = keystore_display_name(target.backend);
                    (
                        CreationState::Saving { pubkey, display },
                        CreationAction::Save { notice: Some(notice), upserts: one_upsert(upsert) },
                    )
                },
                Err(e) => (CreationState::Done, CreationAction::Finish(Err(e))),
            },
            _ => (CreationState::ReadingStoredKey { target, notice }, CreationAction::Ignore),
        },
        CreationState::Importing { target, pubkey } => match event {
            CreationEvent::Imported(imported) => match imported {
                Ok(()) => {
                    let upsert = keystore_account_record(
                        ctx.name.as_str(),
                        target.backend,
                        pubkey.as_str(),
                        &target.op,
                        opt_as_str(&ctx.vault),
                        false,
                        ctx.network.as_str(),
                    );
                    let display = keystore_display_name(target.backend);
                    (
                        CreationState::Saving { pubkey, display },
                        CreationAction::Save { notice: None, upserts: one_upsert(upsert) },
                    )
                },
                Err(e) => (CreationState::Done, CreationAction::Finish(Err(e))),
            },
            _ => (CreationState::Importing { target, pubkey }, CreationAction::Ignore),
        },
        CreationState::ReadingRegistered => match event {
            CreationEvent::RegisteredRead(read) => match read {
                Err(e) => (CreationState::Done, CreationAction::Finish(Err(e))),
                Ok(registered) => match create_dcp_account(
                    ctx.name.as_str(),
                    ctx.network.as_str(),
                    registered.as_ref(),
                    ctx.force,
                ) {
                    DcpAccountStep::KeepRegistered { notice, outcome } => (
                        CreationState::Done,
                        CreationAction::KeepRegistered { message: notice, outcome },
                    ),
                    DcpAccountStep::Register => {
                        let dcp_url = configured_dcp_url(opt_as_str(&ctx.dcp_url), opt_as_str(&ctx.pay_dcp_url));
                        let asked = String::from_str(dcp_url.as_str());
                        (
                            CreationState::LookingUpDcpAddress { dcp_url },
                            CreationAction::LookUpDcpAddress { dcp_url: asked },
                        )
                    },
                },
            },
            _ => (CreationState::ReadingRegistered, CreationAction::Ignore),
        },
        CreationState::LookingUpDcpAddress { dcp_url } => match event {
            CreationEvent::DcpAddressFound(found) => match found {
                Err(e) => (CreationState::Done, CreationAction::Finish(Err(e))),
                Ok(address) => match check_dcp_address(address) {
                    Ok(pubkey) => {
                        let upserts = save_dcp_account(ctx.name.as_str(), pubkey.as_str(), dcp_url.as_str());
                        (
                            CreationState::Saving { pubkey, display: "DCP" },
                            CreationAction::Save { notice: None, upserts },
                        )
                    },
                    Err(e) => (CreationState::Done, CreationAction::Finish(Err(e))),
                },
            },
            _ => (CreationState::LookingUpDcpAddress { dcp_url }, CreationAction::Ignore),
        },
        CreationState::Saving { pubkey, display } => match event {
            CreationEvent::Saved(saved) => match saved {
                Ok(()) => (CreationState::Done, CreationAction::Finish(Ok((pubkey, display)))),
                Err(e) => (CreationState::Done, CreationAction::Finish(Err(e))),
            },
            _ => (CreationState::Saving { pubkey, display }, CreationAction::Ignore),
        },
        CreationState::Done => (CreationState::Done, CreationAction::Ignore),
    }
}

/// The backend picker is asked for only at the start, and only when no backend id was given.
pub proof fn lemma_picker_only_without_backend(
    state: CreationState,
    event: CreationEvent,
    ctx: CreationContext,
    next: CreationState,
    action: CreationAction,
)
    requires
        creation_step(state, event, ctx, next, action),
        action is PickBackend,
    ensures
        state is Start,
        ctx.backend is None,
{
}

/// A failed picker ends account creation with its error, and nothing follows: once done,
/// every event is ignored.
pub proof fn lemma_failed_picker_ends_creation(
    e: AccountError,
    ctx: CreationContext,
    next: CreationState,
    action: CreationAction,
    later: CreationEvent,
    after: CreationState,
    after_action: CreationAction,
)
    requires
        creation_step(CreationState::PickingBackend, CreationEvent::BackendPicked(Err(e)), ctx, next, action),
        creation_step(next, later, ctx, after, after_action),
    ensures
        action == CreationAction::Finish(Err(e)),
        after is Done,
        after_action is Ignore,
{
}

/// A keystore that must be found usable is set up, or has its 1Password account resolved,
/// only once it was found usable; one found unusable ends creation with the message that says
/// so.
pub proof fn lemma_preparation_follows_availability(
    state: CreationState,
    event: CreationEvent,
    ctx: CreationContext,
    next: CreationState,
    action: CreationAction,
)
    requires
        creation_step(state, event, ctx, next, action),
    ensures
        action is SetUpGnomeKeyring || action is ResolveOpAccount ==> state is CheckingAvailability
            && event == CreationEvent::Availability(true),
        match (state, event) {
            (CreationState::CheckingAvailability(k), CreationEvent::Availability(false)) => next is Done
                && (action matches CreationAction::Finish(Err(e)) && e@ == unavailable_text(k)),
            _ => true,
        },
{
}

/// 1Password details go with the 1Password keystore alone: every step keeps the states
/// well formed, and every keystore it hands to the caller carries 1Password details exactly
/// when it is the 1Password keystore.
pub proof fn lemma_op_details_only_for_onepassword(
    state: CreationState,
    event: CreationEvent,
    ctx: CreationContext,
    next: CreationState,
    action: CreationAction,
)
    requires
        state_wf(state),
        creation_step(state, event, ctx, next, action),
    ensures
        state_wf(next),
        action matches CreationAction::CheckStored(t) ==> (t@.1 is Some <==> t@.0 == KeystoreBackend::OnePassword),
        action matches CreationAction::ReadStoredKey(t) ==> (t@.1 is Some <==> t@.0 == KeystoreBackend::OnePassword),
        action matches CreationAction::Import { target, .. } ==> (target@.1 is Some <==> target@.0
            == KeystoreBackend::OnePassword),
{
}

/// The account file is saved only after a stored public key was read, after a new keypair was
/// imported successfully, or after DCP reported its wallet address.
pub proof fn lemma_save_follows_import_stored_key_or_lookup(
    state: CreationState,
    event: CreationEvent,
    ctx: CreationContext,
    next: CreationState,
    action: CreationAction,
)
    requires
        creation_step(state, event, ctx, next, action),
        action is Save,
    ensures
        (state is ReadingStoredKey && event matches CreationEvent::StoredKeyRead(Ok(_)))
            || (state is Importing && event matches CreationEvent::Imported(Ok(())))
            || (state is LookingUpDcpAddress && event matches CreationEvent::DcpAddressFound(Ok(_))),
{
}

/// The state that waits for an import is entered only by the step that hands out the keypair
/// to import; other events leave it unchanged.
pub proof fn lemma_importing_follows_import_action(
    state: CreationState,
    event: CreationEvent,
    ctx: CreationContext,
    next: CreationState,
    action: CreationAction,
)
    requires
        creation_step(state, event, ctx, next, action),
        next is Importing,
    ensures
        (state is CheckingStored && action is Import) || (state is Importing && action is Ignore),
{
}

/// A key already stored is recorded under the base58 text of its stored public key bytes, and
/// the notice that it is kept is shown.
pub proof fn lemma_kept_key_recorded_in_base58(
    target: KeystoreTarget,
    notice: String,
    bytes: Vec<u8>,
    ctx: CreationContext,
    next: CreationState,
    action: CreationAction,
)
    requires
        creation_step(
            CreationState::ReadingStoredKey { target, notice },
            CreationEvent::StoredKeyRead(Ok(bytes)),
            ctx,
            next,
            action,
        ),
    ensures
        action matches CreationAction::Save { notice: shown, upserts } && shown == Some(notice)
            && upserts@.len() == 1 && upserts@[0]@.account.pubkey == Some(base58_encode(bytes@)),
        next matches CreationState::Saving { pubkey, display } && pubkey@ == base58_encode(bytes@),
{
}

/// A new DCP account is registered under the wallet address that DCP reported, once that
/// address is a Solana public key, and once saved it is reported as "DCP" with that address.
pub proof fn lemma_dcp_account_reported_as_dcp(
    dcp_url: String,
    address: String,
    ctx: CreationContext,
    next: CreationState,
    action: CreationAction,
    after: CreationState,
    after_action: CreationAction,
)
    requires
        pubkey_from_str(address@) is Ok,
        creation_step(
            CreationState::LookingUpDcpAddress { dcp_url },
            CreationEvent::DcpAddressFound(Ok(address)),
            ctx,
            next,
            action,
        ),
        creation_step(next, CreationEvent::Saved(Ok(())), ctx, after, after_action),
    ensures
        action matches CreationAction::Save { upserts, .. } && saved_dcp_records(ctx.name@, address@, dcp_url@, upserts@),
        after_action matches CreationAction::Finish(Ok(outcome)) && outcome.0@ == address@ && outcome.1@ == "DCP"@,
{
}

/// The DCP URL as set: `DCP_URL` if set, else `PAY_DCP_URL` if set, else the local default.
pub open spec fn dcp_url_as_set(ctx: CreationContext) -> Seq<char> {
    match ctx.dcp_url {
        Some(u) => u@,
        None => match ctx.pay_dcp_url {
            Some(u) => u@,
            None => "http://127.0.0.1:8421"@,
        },
    }
}

/// `url` is `raw` with its trailing slashes removed: a prefix of `raw`, followed in `raw` by
/// slashes only, and not itself ending in a slash.
pub open spec fn trailing_slashes_removed(raw: Seq<char>, url: Seq<char>) -> bool {
    &&& url.len() <= raw.len()
    &&& raw.subrange(0, url.len() as int) == url
    &&& forall|i: int| url.len() <= i < raw.len() ==> raw[i] == '/'
    &&& (url.len() == 0 || url.last() != '/')
}

/// A DCP account that must be registered (none is registered, or `force` is set) is looked up
/// at the configured DCP URL: `DCP_URL`, else `PAY_DCP_URL`, else the default, with trailing
/// slashes removed; the lookup and the state that will save the records carry that same URL.
pub proof fn lemma_dcp_lookup_at_configured_url(
    registered: Option<AccountRecord>,
    ctx: CreationContext,
    next: CreationState,
    action: CreationAction,
)
    requires
        registered is None || ctx.force,
        creation_step(
            CreationState::ReadingRegistered,
            CreationEvent::RegisteredRead(Ok(registered)),
            ctx,
            next,
            action,
        ),
    ensures
        next matches CreationState::LookingUpDcpAddress { dcp_url } && trailing_slashes_removed(
            dcp_url_as_set(ctx),
            dcp_url@,
        ),
        action matches CreationAction::LookUpDcpAddress { dcp_url } && trailing_slashes_removed(
            dcp_url_as_set(ctx),
            dcp_url@,
        ),
{
    lemma_strip_trailing_slashes_shape(dcp_url_as_set(ctx));
}

/// A record of an account whose key is in a keystore on this machine: the keystore's kind, the
/// public key, the 1Password vault and account; inactive, asking for local authentication, and
/// holding no key material, path or DCP URL.
pub open spec fn is_keystore_account(
    rec: AccountRecordView,
    kind: KeystoreKind,
    pubkey: Seq<char>,
    vault: Option<Seq<char>>,
    account: Option<Seq<char>>,
) -> bool {
    &&& rec.keystore == kind
    &&& rec.pubkey == Some(pubkey)
    &&& rec.vault == vault
    &&& rec.account == account
    &&& !rec.active
    &&& rec.auth_required == Some(true)
    &&& rec.secret_key_b58 is None
    &&& rec.path is None
    &&& rec.dcp_url is None
    &&& rec.created_at is None
}

/// A newly imported key is saved as one record under the context's network and name, with the
/// keystore's kind and the new public key; its 1Password vault is the resolved one, else the
/// vault asked for; its 1Password account is the resolved one. A kept key is saved the same
/// way with the stored public key, except that its vault is only the resolved one.
pub proof fn lemma_keystore_records_saved(
    target: KeystoreTarget,
    pubkey: String,
    notice: String,
    bytes: Vec<u8>,
    ctx: CreationContext,
    next: CreationState,
    action: CreationAction,
    kept_next: CreationState,
    kept_action: CreationAction,
)
    requires
        creation_step(CreationState::Importing { target, pubkey }, CreationEvent::Imported(Ok(())), ctx, next, action),
        creation_step(
            CreationState::ReadingStoredKey { target, notice },
            CreationEvent::StoredKeyRead(Ok(bytes)),
            ctx,
            kept_next,
            kept_action,
        ),
    ensures
        action matches CreationAction::Save { upserts, .. } && upserts@.len() == 1 && upserts@[0]@.network
            == ctx.network@ && upserts@[0]@.name == ctx.name@ && is_keystore_account(
            upserts@[0]@.account,
            kind_of(target.backend),
            pubkey@,
            match target.op {
                Some(i) if i.vault is Some => opt_view(i.vault),
                _ => opt_view(ctx.vault),
            },
            match target.op {
                Some(i) => opt_view(i.account),
                None => None,
            },
        ),
        kept_action matches CreationAction::Save { upserts, .. } && upserts@.len() == 1 && upserts@[0]@.network
            == ctx.network@ && upserts@[0]@.name == ctx.name@ && is_keystore_account(
            upserts@[0]@.account,
            kind_of(target.backend),
            base58_encode(bytes@),
            match target.op {
                Some(i) => opt_view(i.vault),
                None => None,
            },
            match target.op {
                Some(i) => opt_view(i.account),
                None => None,
            },
        ),
{
}

/// A new DCP account is saved on mainnet, localnet and devnet, in that order, each record of
/// kind DCP with the wallet address and the DCP URL, inactive, asking for no local
/// authentication, and holding no key material, vault, 1Password account or path.
pub proof fn lemma_dcp_records_saved(name: Seq<char>, pubkey: Seq<char>, dcp_url: Seq<char>, upserts: Seq<AccountUpsert>)
    requires
        saved_dcp_records(name, pubkey, dcp_url, upserts),
    ensures
        upserts.len() == 3,
        upserts[0]@.network == "mainnet"@,
        upserts[1]@.network == "localnet"@,
        upserts[2]@.network == "devnet"@,
        forall|i: int| 0 <= i < 3 ==> {
            let rec = #[trigger] upserts[i]@.account;
            &&& upserts[i]@.name == name
            &&& rec.keystore == KeystoreKind::Dcp
            &&& rec.pubkey == Some(pubkey)
            &&& rec.dcp_url == Some(dcp_url)
            &&& !rec.active
            &&& rec.auth_required == Some(false)
            &&& rec.secret_key_b58 is None
            &&& rec.vault is None
            &&& rec.account is None
            &&& rec.path is None
        },
{
    assert(upserts[0]@.network == dcp_networks()[0]);
    assert(upserts[1]@.network == dcp_networks()[1]);
    assert(upserts[2]@.network == dcp_networks()[2]);
}

/// A stored key is kept only when the keystore holds the account and `force` is not set; when
/// the keystore does not hold it, or `force` is set, no stored key is read.
pub proof fn lemma_stored_key_kept_only_without_force(
    state: CreationState,
    event: CreationEvent,
    ctx: CreationContext,
    next: CreationState,
    action: CreationAction,
)
    requires
        creation_step(state, event, ctx, next, action),
    ensures
        action is ReadStoredKey ==> state is CheckingStored && event == CreationEvent::StoredChecked(true) && !ctx.force,
        state is CheckingStored && (event == CreationEvent::StoredChecked(false) || (event is StoredChecked
            && ctx.force)) ==> action is Import || action is RandomSourceFailed,
{
}

} // verus!
