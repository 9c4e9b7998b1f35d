//! The DCP signer: a wallet that lives in DCP Desktop and signs payment messages on request,
//! asking its user for consent where its policy says so. The wallet's keys never leave DCP.
//!
//! The network exchanges (address lookup, signing request, consent polling) are made by the
//! caller; this module decides what is sent and what every reply means.

use vstd::prelude::*;
use crate::codec::{
    parse_pubkey_bytes, parse_signature_bytes, pubkey_base58, pubkey_from_str, pubkey_to_base58,
    signature_from_str,
};
use crate::codec::{base64_encode, base64_standard_encode};
use crate::text::{concat2, concat4, opt_clone, opt_view, str_eq, strip_trailing_slashes, trim_trailing_slashes};

verus! {

/// The signer URL used when none is configured.
pub const DEFAULT_DCP_URL: &'static str = "http://127.0.0.1:8421";

/// Timeout of every HTTP request to DCP, in seconds.
pub const DCP_HTTP_TIMEOUT_SECS: u64 = 10;

/// Pause between two polls of a consent request, in seconds.
pub const DCP_CONSENT_POLL_INTERVAL_SECS: u64 = 2;

/// How long to wait for consent when DCP announces no usable expiry, in seconds.
pub const DCP_DEFAULT_CONSENT_TIMEOUT_SECS: u64 = 120;

/// The kinds of signer error.
#[derive(Debug, Clone, Copy, PartialEq, Eq, Structural)]
pub enum SignerErrorKind {
    RemoteApiError,
    InvalidPublicKey,
    SigningFailed,
    SerializationError,
}

/// Errors of the DCP signer, each with its message.
#[derive(Debug, Clone, PartialEq, Eq)]
pub enum SignerError {
    RemoteApiError(String),
    InvalidPublicKey(String),
    SigningFailed(String),
    SerializationError(String),
}

impl View for SignerError {
    type V = (SignerErrorKind, Seq<char>);

    open spec fn view(&self) -> (SignerErrorKind, Seq<char>) {
        match self {
            SignerError::RemoteApiError(m) => (SignerErrorKind::RemoteApiError, m@),
            SignerError::InvalidPublicKey(m) => (SignerErrorKind::InvalidPublicKey, m@),
            SignerError::SigningFailed(m) => (SignerErrorKind::SigningFailed, m@),
            SignerError::SerializationError(m) => (SignerErrorKind::SerializationError, m@),
        }
    }
}

impl SignerError {
    /// The kind of this error.
    pub fn kind(&self) -> (res: SignerErrorKind)
        ensures
            res == self@.0,
    {
        match self {
            SignerError::RemoteApiError(_) => SignerErrorKind::RemoteApiError,
            SignerError::InvalidPublicKey(_) => SignerErrorKind::InvalidPublicKey,
            SignerError::SigningFailed(_) => SignerErrorKind::SigningFailed,
            SignerError::SerializationError(_) => SignerErrorKind::SerializationError,
        }
    }

    /// The message of this error.
    pub fn message(&self) -> (res: &String)
        ensures
            res@ == self@.1,
    {
        match self {
            SignerError::RemoteApiError(m) => m,
            SignerError::InvalidPublicKey(m) => m,
            SignerError::SigningFailed(m) => m,
            SignerError::SerializationError(m) => m,
        }
    }
}

/// What a payment is for, as shown to the user who approves it in DCP.
#[derive(Debug, Clone)]
pub struct DcpPaymentContext {
    pub protocol: String,
    pub amount: String,
    pub currency: String,
    pub recipient: Option<String>,
    pub resource: Option<String>,
    pub purpose: Option<String>,
}

/// The abstract state of a signer.
pub struct DcpSignerView {
    pub dcp_url: Seq<char>,
    pub pubkey: Seq<u8>,
    pub agent_name: Seq<char>,
    pub context: Option<DcpPaymentContext>,
}

/// A signer bound to one DCP wallet, whose public key it knows.
#[derive(Debug, Clone)]
pub struct DcpSigner {
    dcp_url: String,
    pubkey: [u8; 32],
    agent_name: String,
    context: Option<DcpPaymentContext>,
}

impl View for DcpSigner {
    type V = DcpSignerView;

    closed spec fn view(&self) -> DcpSignerView {
        DcpSignerView {
            dcp_url: self.dcp_url@,
            pubkey: self.pubkey@,
            agent_name: self.agent_name@,
            context: self.context,
        }
    }
}

/// The message of an address that is not a Solana public key.
pub open spec fn invalid_address_text(parse_error: Seq<char>) -> Seq<char> {
    "Invalid DCP Solana address: "@ + parse_error
}

/// The message when the configured account key is not the DCP wallet's key.
pub open spec fn pubkey_mismatch_text(configured: Seq<u8>, dcp: Seq<u8>) -> Seq<char> {
    "Configured DCP account pubkey "@ + pubkey_base58(configured) + " does not match DCP wallet "@
        + pubkey_base58(dcp)
}

/// The public key that a string names, or the signer error for a string that names none.
pub open spec fn parse_pubkey_outcome(value: Seq<char>) -> Result<Seq<u8>, (SignerErrorKind, Seq<char>)> {
    match pubkey_from_str(value) {
        Ok(bytes) => Ok(bytes),
        Err(e) => Err((SignerErrorKind::InvalidPublicKey, invalid_address_text(e))),
    }
}

/// The signer error for an address that `solana_pubkey` could not parse, given the parse result.
pub fn pubkey_parse_outcome(parsed: Result<[u8; 32], String>) -> (res: Result<[u8; 32], SignerError>)
    ensures
        match parsed {
            Ok(bytes) => res == Ok::<[u8; 32], SignerError>(bytes),
            Err(e) => res matches Err(err) && err@ == (SignerErrorKind::InvalidPublicKey, invalid_address_text(e@)),
        },
{
    match parsed {
        Ok(bytes) => Ok(bytes),
        Err(e) => Err(SignerError::InvalidPublicKey(concat2("Invalid DCP Solana address: ", e.as_str()))),
    }
}

/// Parses a Solana address as DCP reports it or as the account configures it.
pub fn parse_pubkey(value: &str) -> (res: Result<[u8; 32], SignerError>)
    ensures
        match res {
            Ok(bytes) => parse_pubkey_outcome(value@) == Ok::<Seq<u8>, (SignerErrorKind, Seq<char>)>(bytes@),
            Err(e) => parse_pubkey_outcome(value@) == Err::<Seq<u8>, (SignerErrorKind, Seq<char>)>(e@),
        },
{
    pubkey_parse_outcome(parse_pubkey_bytes(value))
}

/// The signature that a string names, or the signer error for a string that names none.
pub open spec fn parse_signature_outcome(value: Seq<char>) -> Result<Seq<u8>, (SignerErrorKind, Seq<char>)> {
    match signature_from_str(value) {
        Ok(bytes) => Ok(bytes),
        Err(e) => Err((SignerErrorKind::SigningFailed, "Invalid DCP signature: "@ + e)),
    }
}

/// The signer error for a signature that `solana_signature` could not parse, given the parse
/// result.
pub fn signature_parse_outcome(parsed: Result<[u8; 64], String>) -> (res: Result<[u8; 64], SignerError>)
    ensures
        match parsed {
            Ok(bytes) => res == Ok::<[u8; 64], SignerError>(bytes),
            Err(e) => res matches Err(err) && err@ == (SignerErrorKind::SigningFailed, "Invalid DCP signature: "@ + e@),
        },
{
    match parsed {
        Ok(bytes) => Ok(bytes),
        Err(e) => Err(SignerError::SigningFailed(concat2("Invalid DCP signature: ", e.as_str()))),
    }
}

/// Parses the base58 signature that DCP returns.
pub fn parse_signature(value: &str) -> (res: Result<[u8; 64], SignerError>)
    ensures
        match res {
            Ok(bytes) => parse_signature_outcome(value@) == Ok::<Seq<u8>, (SignerErrorKind, Seq<char>)>(bytes@),
            Err(e) => parse_signature_outcome(value@) == Err::<Seq<u8>, (SignerErrorKind, Seq<char>)>(e@),
        },
{
    signature_parse_outcome(parse_signature_bytes(value))
}

fn bytes32_eq(a: &[u8; 32], b: &[u8; 32]) -> (res: bool)
    ensures
        res == (a@ == b@),
{
    let mut i: usize = 0;
    assert(a@.len() == 32 && b@.len() == 32);
    while i < 32
        invariant
            i <= 32,
            a@.len() == 32,
            b@.len() == 32,
            forall|j: int| 0 <= j < i ==> a@[j] == b@[j],
        decreases 32 - i,
    {
        if a[i] != b[i] {
            return false;
        }
        i = i + 1;
    }
    assert(a@ =~= b@);
    true
}

/// What `connect` gives once DCP has reported its wallet address: the signer, or the error.
/// The configured key, when there is one, must name the same wallet.
pub open spec fn connect_outcome(
    dcp_url: Seq<char>,
    configured: Option<Seq<char>>,
    agent_name: Seq<char>,
    dcp_address: Seq<char>,
) -> Result<DcpSignerView, (SignerErrorKind, Seq<char>)> {
    match parse_pubkey_outcome(dcp_address) {
        Err(e) => Err(e),
        Ok(dcp_key) => {
            let signer = DcpSignerView {
                dcp_url: strip_trailing_slashes(dcp_url),
                pubkey: dcp_key,
                agent_name,
                context: None,
            };
            match configured {
                None => Ok(signer),
                Some(value) => match parse_pubkey_outcome(value) {
                    Err(e) => Err(e),
                    Ok(key) => if key == dcp_key {
                        Ok(signer)
                    } else {
                        Err((SignerErrorKind::InvalidPublicKey, pubkey_mismatch_text(key, dcp_key)))
                    },
                },
            }
        },
    }
}

/// The view of a signer result.
pub open spec fn signer_result_view(res: Result<DcpSigner, SignerError>) -> Result<DcpSignerView, (SignerErrorKind, Seq<char>)> {
    match res {
        Ok(s) => Ok(s@),
        Err(e) => Err(e@),
    }
}

/// The failures of the HTTP exchanges with DCP, each with the text of what went wrong
/// (the transport or decoding error, or the HTTP status as displayed).
pub enum DcpRequestFailure {
    ClientBuild(String),
    AddressRequest(String),
    AddressStatus(String),
    AddressBody(String),
    SignRequest(String),
    SignStatus(String),
    SignBody(String),
}

/// The signer error that reports a failed HTTP exchange with DCP.
pub open spec fn request_failure_error(failure: DcpRequestFailure) -> (SignerErrorKind, Seq<char>) {
    match failure {
        DcpRequestFailure::ClientBuild(e) => (SignerErrorKind::RemoteApiError, "Failed to create DCP HTTP client: "@ + e@),
        DcpRequestFailure::AddressRequest(e) => (SignerErrorKind::RemoteApiError, "DCP address request failed: "@ + e@),
        DcpRequestFailure::AddressStatus(s) => (SignerErrorKind::RemoteApiError, "DCP address request returned "@ + s@),
        DcpRequestFailure::AddressBody(e) => (SignerErrorKind::SerializationError, "DCP address response invalid: "@ + e@),
        DcpRequestFailure::SignRequest(e) => (SignerErrorKind::RemoteApiError, "DCP signing request failed: "@ + e@),
        DcpRequestFailure::SignStatus(s) => (SignerErrorKind::RemoteApiError, "DCP signing request returned "@ + s@),
        DcpRequestFailure::SignBody(e) => (SignerErrorKind::SerializationError, "DCP signing response invalid: "@ + e@),
    }
}

/// The signer error that reports a failed HTTP exchange with DCP.
pub fn request_failure(failure: &DcpRequestFailure) -> (res: SignerError)
    ensures
        res@ == request_failure_error(*failure),
{
    match failure {
        DcpRequestFailure::ClientBuild(e) => SignerError::RemoteApiError(concat2("Failed to create DCP HTTP client: ", e.as_str())),
        DcpRequestFailure::AddressRequest(e) => SignerError::RemoteApiError(concat2("DCP address request failed: ", e.as_str())),
        DcpRequestFailure::AddressStatus(s) => SignerError::RemoteApiError(concat2("DCP address request returned ", s.as_str())),
        DcpRequestFailure::AddressBody(e) => SignerError::SerializationError(concat2("DCP address response invalid: ", e.as_str())),
        DcpRequestFailure::SignRequest(e) => SignerError::RemoteApiError(concat2("DCP signing request failed: ", e.as_str())),
        DcpRequestFailure::SignStatus(s) => SignerError::RemoteApiError(concat2("DCP signing request returned ", s.as_str())),
        DcpRequestFailure::SignBody(e) => SignerError::SerializationError(concat2("DCP signing response invalid: ", e.as_str())),
    }
}


/// The body of a signing request to DCP.
#[derive(Debug, Clone)]
pub struct DcpSignRequest {
    pub chain: String,
    pub protocol: String,
    pub payload: String,
    pub amount: Option<String>,
    pub currency: Option<String>,
    pub recipient: Option<String>,
    pub resource: Option<String>,
    pub purpose: Option<String>,
    pub agent_name: String,
}

/// The abstract content of a signing request.
pub struct DcpSignRequestView {
    pub chain: Seq<char>,
    pub protocol: Seq<char>,
    pub payload: Seq<char>,
    pub amount: Option<Seq<char>>,
    pub currency: Option<Seq<char>>,
    pub recipient: Option<Seq<char>>,
    pub resource: Option<Seq<char>>,
    pub purpose: Option<Seq<char>>,
    pub agent_name: Seq<char>,
}

impl View for DcpSignRequest {
    type V = DcpSignRequestView;

    open spec fn view(&self) -> DcpSignRequestView {
        DcpSignRequestView {
            chain: self.chain@,
            protocol: self.protocol@,
            payload: self.payload@,
            amount: opt_view(self.amount),
            currency: opt_view(self.currency),
            recipient: opt_view(self.recipient),
            resource: opt_view(self.resource),
            purpose: opt_view(self.purpose),
            agent_name: self.agent_name@,
        }
    }
}

/// A text, or nothing when it is empty.
pub open spec fn non_empty(s: Seq<char>) -> Option<Seq<char>> {
    if s.len() == 0 {
        None
    } else {
        Some(s)
    }
}

/// The request that asks DCP to sign `message` for `signer`. Without a payment context the
/// request is a generic one whose purpose names Pay.sh.
pub open spec fn sign_request_for(signer: DcpSignerView, message: Seq<u8>) -> DcpSignRequestView {
    match signer.context {
        Some(c) => DcpSignRequestView {
            chain: "solana"@,
            protocol: c.protocol@,
            payload: base64_standard_encode(message),
            amount: non_empty(c.amount@),
            currency: non_empty(c.currency@),
            recipient: opt_view(c.recipient),
            resource: opt_view(c.resource),
            purpose: opt_view(c.purpose),
            agent_name: signer.agent_name,
        },
        None => DcpSignRequestView {
            chain: "solana"@,
            protocol: "generic"@,
            payload: base64_standard_encode(message),
            amount: None,
            currency: None,
            recipient: None,
            resource: None,
            purpose: Some("Pay.sh signing request"@),
            agent_name: signer.agent_name,
        },
    }
}

fn non_empty_owned(s: &String) -> (res: Option<String>)
    ensures
        opt_view(res) == non_empty(s@),
{
    if s.as_str().is_empty() {
        None
    } else {
        Some(s.clone())
    }
}

/// A reply of DCP to a signing request.
#[derive(Debug, Clone)]
pub struct DcpSignResponse {
    pub signature: Option<String>,
    pub requires_consent: Option<bool>,
    pub consent_id: Option<String>,
    pub expires_at: Option<String>,
}

/// Which signing request a reply answers: the first one, or the one sent after consent.
#[derive(Debug, Clone, Copy, PartialEq, Eq, Structural)]
pub enum SignAttempt {
    Initial,
    AfterConsent,
}

/// What to do after a reply to a signing request.
#[derive(Debug)]
pub enum SignStep {
    /// Wait until the user decides on this consent request, then ask again.
    AwaitConsent { consent_id: String, expires_at: Option<String> },
    /// The signing is over: the 64 signature bytes, or why there are none.
    Finished(Result<[u8; 64], SignerError>),
}

/// The abstract content of a `SignStep`.
pub enum SignStepView {
    AwaitConsent { consent_id: Seq<char>, expires_at: Option<Seq<char>> },
    Finished(Result<Seq<u8>, (SignerErrorKind, Seq<char>)>),
}

impl View for SignStep {
    type V = SignStepView;

    open spec fn view(&self) -> SignStepView {
        match self {
            SignStep::AwaitConsent { consent_id, expires_at } => SignStepView::AwaitConsent {
                consent_id: consent_id@,
                expires_at: opt_view(*expires_at),
            },
            SignStep::Finished(Ok(bytes)) => SignStepView::Finished(Ok(bytes@)),
            SignStep::Finished(Err(e)) => SignStepView::Finished(Err(e@)),
        }
    }
}

/// The signature that a reply carries, or the error when it carries none that parses.
pub open spec fn signature_outcome(signature: Option<String>) -> Result<Seq<u8>, (SignerErrorKind, Seq<char>)> {
    match signature {
        None => Err((SignerErrorKind::RemoteApiError, "DCP response did not include signature"@)),
        Some(s) => parse_signature_outcome(s@),
    }
}

/// What a reply means. Only the reply to the first request may ask for consent, and it must
/// then name the consent request; the reply after consent must carry the signature.
pub open spec fn sign_step_outcome(attempt: SignAttempt, response: DcpSignResponse) -> SignStepView {
    if attempt == SignAttempt::Initial && response.requires_consent == Some(true) {
        match response.consent_id {
            None => SignStepView::Finished(
                Err((SignerErrorKind::RemoteApiError, "DCP requested consent without consent_id"@)),
            ),
            Some(id) => SignStepView::AwaitConsent {
                consent_id: id@,
                expires_at: opt_view(response.expires_at),
            },
        }
    } else {
        SignStepView::Finished(signature_outcome(response.signature))
    }
}

/// Decides what a reply of DCP to a signing request means (see `sign_step_outcome`).
pub fn sign_with_retry_step(attempt: SignAttempt, response: &DcpSignResponse) -> (res: SignStep)
    ensures
        res@ == sign_step_outcome(attempt, *response),
{
    if attempt == SignAttempt::Initial && response.requires_consent == Some(true) {
        match &response.consent_id {
            None => SignStep::Finished(
                Err(SignerError::RemoteApiError(String::from_str("DCP requested consent without consent_id"))),
            ),
            Some(id) => SignStep::AwaitConsent {
                consent_id: id.clone(),
                expires_at: opt_clone(&response.expires_at),
            },
        }
    } else {
        match &response.signature {
            None => SignStep::Finished(
                Err(SignerError::RemoteApiError(String::from_str("DCP response did not include signature"))),
            ),
            Some(s) => SignStep::Finished(parse_signature(s.as_str())),
        }
    }
}

/// What happened while waiting for consent.
pub enum ConsentEvent {
    /// The consent deadline has passed before the next poll.
    DeadlinePassed,
    /// A poll could not be sent or was answered with an unsuccessful HTTP status.
    PollFailed,
    /// A poll was answered with this consent status.
    StatusReceived(String),
    /// A poll was answered with a body that is not a consent status (the decoding error).
    StatusUnreadable(String),
}

/// What to do next while waiting for consent.
#[derive(Debug)]
pub enum ConsentStep {
    PollAgain,
    Approved,
    Failed(SignerError),
}

/// The abstract content of a `ConsentStep`.
pub enum ConsentStepView {
    PollAgain,
    Approved,
    Failed((SignerErrorKind, Seq<char>)),
}

impl View for ConsentStep {
    type V = ConsentStepView;

    open spec fn view(&self) -> ConsentStepView {
        match self {
            ConsentStep::PollAgain => ConsentStepView::PollAgain,
            ConsentStep::Approved => ConsentStepView::Approved,
            ConsentStep::Failed(e) => ConsentStepView::Failed(e@),
        }
    }
}

/// What an event while waiting for consent means. Polls that fail and statuses that are not
/// final keep the wait going; "approved" ends it; "denied", "expired" and "not_found" end it
/// with an error, as does the deadline.
pub open spec fn consent_outcome(event: ConsentEvent) -> ConsentStepView {
    match event {
        ConsentEvent::DeadlinePassed => ConsentStepView::Failed(
            (SignerErrorKind::SigningFailed, "DCP consent timed out"@),
        ),
        ConsentEvent::PollFailed => ConsentStepView::PollAgain,
        ConsentEvent::StatusUnreadable(e) => ConsentStepView::Failed(
            (SignerErrorKind::SerializationError, "DCP consent response invalid: "@ + e@),
        ),
        ConsentEvent::StatusReceived(status) => if status@ == "approved"@ {
            ConsentStepView::Approved
        } else if status@ == "denied"@ {
            ConsentStepView::Failed((SignerErrorKind::SigningFailed, "DCP consent denied"@))
        } else if status@ == "expired"@ || status@ == "not_found"@ {
            ConsentStepView::Failed((SignerErrorKind::SigningFailed, "DCP consent "@ + status@))
        } else {
            ConsentStepView::PollAgain
        },
    }
}

/// Decides what an event while waiting for consent means (see `consent_outcome`).
pub fn wait_for_consent_step(event: &ConsentEvent) -> (res: ConsentStep)
    ensures
        res@ == consent_outcome(*event),
{
    match event {
        ConsentEvent::DeadlinePassed => ConsentStep::Failed(
            SignerError::SigningFailed(String::from_str("DCP consent timed out")),
        ),
        ConsentEvent::PollFailed => ConsentStep::PollAgain,
        ConsentEvent::StatusUnreadable(e) => ConsentStep::Failed(
            SignerError::SerializationError(concat2("DCP consent response invalid: ", e.as_str())),
        ),
        ConsentEvent::StatusReceived(status) => {
            if str_eq(status.as_str(), "approved") {
                ConsentStep::Approved
            } else if str_eq(status.as_str(), "denied") {
                ConsentStep::Failed(SignerError::SigningFailed(String::from_str("DCP consent denied")))
            } else if str_eq(status.as_str(), "expired") || str_eq(status.as_str(), "not_found") {
                ConsentStep::Failed(SignerError::SigningFailed(concat2("DCP consent ", status.as_str())))
            } else {
                ConsentStep::PollAgain
            }
        },
    }
}

impl DcpSigner {
    /// Binds a signer to the DCP wallet with key `dcp_key` at `dcp_url` (trailing slashes
    /// removed). A configured key must be that same key.
    pub fn bind(dcp_url: &str, configured: Option<[u8; 32]>, agent_name: &str, dcp_key: [u8; 32]) -> (res: Result<DcpSigner, SignerError>)
        ensures
            match configured {
                Some(key) if key@ != dcp_key@ => res matches Err(e) && e@ == (
                    SignerErrorKind::InvalidPublicKey,
                    pubkey_mismatch_text(key@, dcp_key@),
                ),
                _ => res matches Ok(signer) && signer@ == (DcpSignerView {
                    dcp_url: strip_trailing_slashes(dcp_url@),
                    pubkey: dcp_key@,
                    agent_name: agent_name@,
                    context: None,
                }),
            },
    {
        if let Some(key) = configured {
            if !bytes32_eq(&key, &dcp_key) {
                let shown_configured = pubkey_to_base58(&key);
                let shown_dcp = pubkey_to_base58(&dcp_key);
                return Err(SignerError::InvalidPublicKey(concat4(
                    "Configured DCP account pubkey ",
                    shown_configured.as_str(),
                    " does not match DCP wallet ",
                    shown_dcp.as_str(),
                )));
            }
        }
        let signer = DcpSigner {
            dcp_url: trim_trailing_slashes(dcp_url),
            pubkey: dcp_key,
            agent_name: String::from_str(agent_name),
            context: None,
        };
        Ok(signer)
    }

    /// Binds a signer to the DCP wallet at `dcp_url` (trailing slashes removed) whose address
    /// DCP reported as `dcp_address`. A configured `pubkey` must name that same wallet.
    pub fn connect(dcp_url: &str, pubkey: Option<String>, agent_name: &str, dcp_address: &str) -> (res: Result<DcpSigner, SignerError>)
        ensures
            signer_result_view(res) == connect_outcome(dcp_url@, opt_view(pubkey), agent_name@, dcp_address@),
    {
        let dcp_key = match parse_pubkey(dcp_address) {
            Ok(k) => k,
            Err(e) => return Err(e),
        };
        let configured = match pubkey {
            Some(value) => match parse_pubkey(value.as_str()) {
                Ok(k) => Some(k),
                Err(e) => return Err(e),
            },
            None => None,
        };
        DcpSigner::bind(dcp_url, configured, agent_name, dcp_key)
    }

    /// The same signer, describing its payments with `context`.
    pub fn with_context(self, context: DcpPaymentContext) -> (res: DcpSigner)
        ensures
            res@ == (DcpSignerView { context: Some(context), ..self@ }),
    {
        let mut signer = self;
        signer.context = Some(context);
        signer
    }

    /// The request that asks DCP to sign a message whose base64 text is `payload`, described by
    /// this signer's payment context, or as a generic Pay.sh request when it has none. An empty
    /// amount or currency is left out.
    pub fn sign_request_with_payload(&self, payload: String) -> (res: DcpSignRequest)
        ensures
            res@ == (DcpSignRequestView { payload: payload@, ..sign_request_for(self@, Seq::empty()) }),
    {
        match &self.context {
            Some(c) => DcpSignRequest {
                chain: String::from_str("solana"),
                protocol: c.protocol.clone(),
                payload,
                amount: non_empty_owned(&c.amount),
                currency: non_empty_owned(&c.currency),
                recipient: opt_clone(&c.recipient),
                resource: opt_clone(&c.resource),
                purpose: opt_clone(&c.purpose),
                agent_name: self.agent_name.clone(),
            },
            None => DcpSignRequest {
                chain: String::from_str("solana"),
                protocol: String::from_str("generic"),
                payload,
                amount: None,
                currency: None,
                recipient: None,
                resource: None,
                purpose: Some(String::from_str("Pay.sh signing request")),
                agent_name: self.agent_name.clone(),
            },
        }
    }

    /// The request that asks DCP to sign `message` (base64 in the payload); see
    /// `sign_request_with_payload`.
    pub fn sign_request(&self, message: &[u8]) -> (res: DcpSignRequest)
        requires
            message@.len() <= usize::MAX / 2,
        ensures
            res@ == sign_request_for(self@, message@),
    {
        let payload = base64_encode(message);
        self.sign_request_with_payload(payload)
    }

    /// The wallet's public key.
    pub fn pubkey(&self) -> (res: [u8; 32])
        ensures
            res@ == self@.pubkey,
    {
        self.pubkey
    }

    /// The DCP URL, without trailing slashes.
    pub fn dcp_url(&self) -> (res: &String)
        ensures
            res@ == self@.dcp_url,
    {
        &self.dcp_url
    }

    /// The name under which this signer asks DCP for signatures.
    pub fn agent_name(&self) -> (res: &String)
        ensures
            res@ == self@.agent_name,
    {
        &self.agent_name
    }

    /// The payment context, if one was given.
    pub fn context(&self) -> (res: &Option<DcpPaymentContext>)
        ensures
            *res == self@.context,
    {
        &self.context
    }
}

/// A connected signer holds the key of the wallet that DCP reported, at a URL without trailing
/// slashes, and starts without a payment context.
pub proof fn lemma_connected_signer_holds_dcp_key(
    dcp_url: Seq<char>,
    configured: Option<Seq<char>>,
    agent_name: Seq<char>,
    dcp_address: Seq<char>,
)
    requires
        connect_outcome(dcp_url, configured, agent_name, dcp_address) is Ok,
    ensures
        ({
            let signer = connect_outcome(dcp_url, configured, agent_name, dcp_address)->Ok_0;
            &&& pubkey_from_str(dcp_address) == Ok::<Seq<u8>, Seq<char>>(signer.pubkey)
            &&& signer.dcp_url.len() == 0 || signer.dcp_url.last() != '/'
            &&& signer.agent_name == agent_name
            &&& signer.context is None
        }),
{
    crate::text::lemma_strip_trailing_slashes_shape(dcp_url);
}

/// Configuring the very address that DCP reports is the same as configuring no key, and
/// succeeds whenever that address names a public key.
pub proof fn lemma_connect_accepts_dcp_address(
    dcp_url: Seq<char>,
    agent_name: Seq<char>,
    dcp_address: Seq<char>,
)
    requires
        pubkey_from_str(dcp_address) is Ok,
    ensures
        connect_outcome(dcp_url, Some(dcp_address), agent_name, dcp_address) == connect_outcome(
            dcp_url,
            None,
            agent_name,
            dcp_address,
        ),
        connect_outcome(dcp_url, None, agent_name, dcp_address) is Ok,
{
}

/// A configured key that names another wallet than DCP's is refused as an invalid public key.
pub proof fn lemma_connect_refuses_other_wallet(
    dcp_url: Seq<char>,
    configured: Seq<char>,
    agent_name: Seq<char>,
    dcp_address: Seq<char>,
)
    requires
        pubkey_from_str(dcp_address) is Ok,
        pubkey_from_str(configured) is Ok,
        pubkey_from_str(configured) != pubkey_from_str(dcp_address),
    ensures
        connect_outcome(dcp_url, Some(configured), agent_name, dcp_address) matches Err(e)
            && e.0 == SignerErrorKind::InvalidPublicKey,
{
}

/// The signing request of a signer given a payment context describes the payment as that
/// context does, under the signer's agent name; the payload is the message, whatever the
/// context.
pub proof fn lemma_sign_request_follows_context(
    signer: DcpSignerView,
    context: DcpPaymentContext,
    message: Seq<u8>,
)
    ensures
        ({
            let request = sign_request_for(DcpSignerView { context: Some(context), ..signer }, message);
            &&& request.protocol == context.protocol@
            &&& request.amount == non_empty(context.amount@)
            &&& request.currency == non_empty(context.currency@)
            &&& request.recipient == opt_view(context.recipient)
            &&& request.resource == opt_view(context.resource)
            &&& request.purpose == opt_view(context.purpose)
            &&& request.agent_name == signer.agent_name
            &&& request.payload == sign_request_for(signer, message).payload
            &&& request.chain == sign_request_for(signer, message).chain
        }),
{
}

/// Consent is asked for at most once: the reply to the request sent after consent always ends
/// the signing, and it ends in success only with a signature that parses.
pub proof fn lemma_consent_asked_at_most_once(response: DcpSignResponse)
    ensures
        sign_step_outcome(SignAttempt::AfterConsent, response) matches SignStepView::Finished(r)
            && (r is Ok ==> (response.signature matches Some(s) && signature_from_str(s@) == Ok::<Seq<u8>, Seq<char>>(r->Ok_0))),
{
}

/// A reply that does not ask for consent ends the signing at once, whichever request it
/// answers.
pub proof fn lemma_no_consent_no_wait(attempt: SignAttempt, response: DcpSignResponse)
    requires
        response.requires_consent != Some(true),
    ensures
        sign_step_outcome(attempt, response) == SignStepView::Finished(signature_outcome(response.signature)),
{
}

/// Waiting for consent ends in approval only on the status "approved"; every other end is a
/// signing error, except an unreadable status, which is a serialization error.
pub proof fn lemma_only_approval_approves(event: ConsentEvent)
    ensures
        (consent_outcome(event) is Approved) <==> (event matches ConsentEvent::StatusReceived(s)
            && s@ == "approved"@),
        consent_outcome(event) matches ConsentStepView::Failed(e) ==> (e.0
            == SignerErrorKind::SigningFailed || event is StatusUnreadable),
{
}

} // verus!
