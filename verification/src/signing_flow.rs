//! The whole exchange that signs one payment message: the signing request, the consent wait
//! when DCP asks for one, and the single retry once the user approved.

use vstd::prelude::*;
use crate::dcp_signer::{
    consent_outcome, sign_step_outcome, sign_with_retry_step, wait_for_consent_step,
    ConsentEvent, ConsentStep, ConsentStepView, DcpSignResponse, SignAttempt, SignStep,
    SignStepView, SignerError, SignerErrorKind,
};
use crate::codec::signature_from_str;
use crate::text::opt_view;

verus! {

/// Where the signing exchange stands.
#[derive(Debug, Clone, Copy, PartialEq, Eq, Structural)]
pub enum SigningState {
    /// A signing request is out; its reply is awaited.
    Sending(SignAttempt),
    /// DCP asked for consent; the user's decision is awaited.
    WaitingForConsent,
    /// The exchange is over.
    Done,
}

/// What the caller observed.
pub enum SigningEvent {
    /// DCP replied to the signing request.
    Reply(DcpSignResponse),
    /// Something happened while waiting for consent.
    Consent(ConsentEvent),
}

/// What the caller does next.
#[derive(Debug)]
pub enum SigningAction {
    /// Send the signing request (again, after consent).
    SendRequest,
    /// Start waiting for the user's decision on this consent request.
    StartConsentWait { consent_id: String, expires_at: Option<String> },
    /// Poll the consent request again, unless its deadline has passed.
    PollConsent,
    /// The exchange is over: the signature, or why there is none.
    Finish(Result<[u8; 64], SignerError>),
    /// The event does not belong to this state; nothing to do.
    Ignore,
}

/// The abstract content of a `SigningAction`.
pub enum SigningActionView {
    SendRequest,
    StartConsentWait { consent_id: Seq<char>, expires_at: Option<Seq<char>> },
    PollConsent,
    Finish(Result<Seq<u8>, (SignerErrorKind, Seq<char>)>),
    Ignore,
}

impl View for SigningAction {
    type V = SigningActionView;

    open spec fn view(&self) -> SigningActionView {
        match self {
            SigningAction::SendRequest => SigningActionView::SendRequest,
            SigningAction::StartConsentWait { consent_id, expires_at } => SigningActionView::StartConsentWait {
                consent_id: consent_id@,
                expires_at: opt_view(*expires_at),
            },
            SigningAction::PollConsent => SigningActionView::PollConsent,
            SigningAction::Finish(Ok(bytes)) => SigningActionView::Finish(Ok(bytes@)),
            SigningAction::Finish(Err(e)) => SigningActionView::Finish(Err(e@)),
            SigningAction::Ignore => SigningActionView::Ignore,
        }
    }
}

/// The exchange starts by sending the signing request.
pub open spec fn signing_start() -> (SigningState, SigningActionView) {
    (SigningState::Sending(SignAttempt::Initial), SigningActionView::SendRequest)
}

/// One step of the exchange: a reply is judged as `sign_step_outcome` says, a consent event as
/// `consent_outcome` says, and approval sends the request once more.
pub open spec fn signing_transition(state: SigningState, event: SigningEvent) -> (SigningState, SigningActionView) {
    match (state, event) {
        (SigningState::Sending(attempt), SigningEvent::Reply(response)) => match sign_step_outcome(
            attempt,
            response,
        ) {
            SignStepView::AwaitConsent { consent_id, expires_at } => (
                SigningState::WaitingForConsent,
                SigningActionView::StartConsentWait { consent_id, expires_at },
            ),
            SignStepView::Finished(r) => (SigningState::Done, SigningActionView::Finish(r)),
        },
        (SigningState::WaitingForConsent, SigningEvent::Consent(e)) => match consent_outcome(e) {
            ConsentStepView::PollAgain => (SigningState::WaitingForConsent, SigningActionView::PollConsent),
            ConsentStepView::Approved => (
                SigningState::Sending(SignAttempt::AfterConsent),
                SigningActionView::SendRequest,
            ),
            ConsentStepView::Failed(err) => (SigningState::Done, SigningActionView::Finish(Err(err))),
        },
        _ => (state, SigningActionView::Ignore),
    }
}

/// The exchange starts by sending the signing request.
pub fn signing_begin() -> (res: (SigningState, SigningAction))
    ensures
        (res.0, res.1@) == signing_start(),
{
    (SigningState::Sending(SignAttempt::Initial), SigningAction::SendRequest)
}

/// One step of the exchange (see `signing_transition`).
pub fn signing_next(state: SigningState, event: &SigningEvent) -> (res: (SigningState, SigningAction))
    ensures
        (res.0, res.1@) == signing_transition(state, *event),
{
    match (state, event) {
        (SigningState::Sending(attempt), SigningEvent::Reply(response)) => {
            match sign_with_retry_step(attempt, response) {
                SignStep::AwaitConsent { consent_id, expires_at } => (
                    SigningState::WaitingForConsent,
                    SigningAction::StartConsentWait { consent_id, expires_at },
                ),
                SignStep::Finished(r) => (SigningState::Done, SigningAction::Finish(r)),
            }
        },
        (SigningState::WaitingForConsent, SigningEvent::Consent(e)) => {
            match wait_for_consent_step(e) {
                ConsentStep::PollAgain => (SigningState::WaitingForConsent, SigningAction::PollConsent),
                ConsentStep::Approved => (
                    SigningState::Sending(SignAttempt::AfterConsent),
                    SigningAction::SendRequest,
                ),
                ConsentStep::Failed(err) => (SigningState::Done, SigningAction::Finish(Err(err))),
            }
        },
        _ => (state, SigningAction::Ignore),
    }
}

/// The state after a run of events.
pub open spec fn state_after(state: SigningState, events: Seq<SigningEvent>) -> SigningState
    decreases events.len(),
{
    if events.len() == 0 {
        state
    } else {
        state_after(signing_transition(state, events[0]).0, events.drop_first())
    }
}

/// How many signing requests a run of events makes the caller send.
pub open spec fn requests_sent(state: SigningState, events: Seq<SigningEvent>) -> nat
    decreases events.len(),
{
    if events.len() == 0 {
        0
    } else {
        let (next, action) = signing_transition(state, events[0]);
        (if action is SendRequest {
            1nat
        } else {
            0nat
        }) + requests_sent(next, events.drop_first())
    }
}

/// How many more signing requests the exchange may still send from a state.
pub open spec fn sends_left(state: SigningState) -> nat {
    match state {
        SigningState::Sending(SignAttempt::Initial) => 1,
        SigningState::WaitingForConsent => 1,
        _ => 0,
    }
}

/// No step lets more requests be sent than the state allows.
proof fn lemma_step_respects_sends_left(state: SigningState, event: SigningEvent)
    ensures
        (if signing_transition(state, event).1 is SendRequest {
            1nat
        } else {
            0nat
        }) + sends_left(signing_transition(state, event).0) <= sends_left(state),
{
    if let (SigningState::Sending(SignAttempt::AfterConsent), SigningEvent::Reply(r)) = (state, event) {
        crate::dcp_signer::lemma_consent_asked_at_most_once(r);
    }
}

/// From any state, a run of events sends no more requests than the state allows.
proof fn lemma_sends_bounded(state: SigningState, events: Seq<SigningEvent>)
    ensures
        requests_sent(state, events) <= sends_left(state),
    decreases events.len(),
{
    if events.len() > 0 {
        lemma_step_respects_sends_left(state, events[0]);
        lemma_sends_bounded(signing_transition(state, events[0]).0, events.drop_first());
    }
}

/// Whatever DCP replies and whatever happens while waiting for consent, one payment message is
/// sent for signing at most twice: once, and once more after the user approved.
pub proof fn lemma_at_most_one_retry(state: SigningState, events: Seq<SigningEvent>)
    ensures
        requests_sent(state, events) <= sends_left(state),
        requests_sent(signing_start().0, events) + 1 <= 2,
{
    lemma_sends_bounded(state, events);
    lemma_sends_bounded(signing_start().0, events);
}

/// Approval of a pending consent request sends the signing request again, and the reply to that
/// request ends the exchange.
pub proof fn lemma_approval_retries_once(consent_status: String, response: DcpSignResponse)
    requires
        consent_status@ == "approved"@,
    ensures
        signing_transition(SigningState::WaitingForConsent, SigningEvent::Consent(ConsentEvent::StatusReceived(consent_status)))
            == (SigningState::Sending(SignAttempt::AfterConsent), SigningActionView::SendRequest),
        signing_transition(SigningState::Sending(SignAttempt::AfterConsent), SigningEvent::Reply(response)).0
            == SigningState::Done,
{
}

/// Once over, the exchange stays over and asks for nothing more.
pub proof fn lemma_done_is_final(events: Seq<SigningEvent>)
    ensures
        state_after(SigningState::Done, events) == SigningState::Done,
        requests_sent(SigningState::Done, events) == 0,
    decreases events.len(),
{
    if events.len() > 0 {
        lemma_done_is_final(events.drop_first());
    }
}

/// While waiting for consent, the wait goes on only after a failed poll or a status that is not
/// final; every event that the consent rules judge a failure ends the exchange with that error;
/// and once the deadline has passed the exchange ends with the timeout error.
pub proof fn lemma_consent_wait_ends_unless_pending(e: ConsentEvent)
    ensures
        (signing_transition(SigningState::WaitingForConsent, SigningEvent::Consent(e)).0
            == SigningState::WaitingForConsent) <==> (e is PollFailed || (e matches ConsentEvent::StatusReceived(s)
            && s@ != "approved"@ && s@ != "denied"@ && s@ != "expired"@ && s@ != "not_found"@)),
        consent_outcome(e) matches ConsentStepView::Failed(err) ==> signing_transition(
            SigningState::WaitingForConsent,
            SigningEvent::Consent(e),
        ) == (SigningState::Done, SigningActionView::Finish(Err(err))),
        e is DeadlinePassed ==> signing_transition(SigningState::WaitingForConsent, SigningEvent::Consent(e)) == (
            SigningState::Done,
            SigningActionView::Finish(Err((SignerErrorKind::SigningFailed, "DCP consent timed out"@))),
        ),
{
}

/// A first reply that asks for consent and names the consent request starts the wait for that
/// request, until the expiry the reply announced (none when it announced none).
pub proof fn lemma_consent_wait_keeps_reply_expiry(attempt: SignAttempt, response: DcpSignResponse)
    ensures
        attempt == SignAttempt::Initial && response.requires_consent == Some(true) && response.consent_id is Some
            ==> signing_transition(SigningState::Sending(attempt), SigningEvent::Reply(response)) == (
            SigningState::WaitingForConsent,
            SigningActionView::StartConsentWait {
                consent_id: response.consent_id->Some_0@,
                expires_at: opt_view(response.expires_at),
            },
        ),
        sign_step_outcome(attempt, response) matches SignStepView::AwaitConsent { consent_id, expires_at }
            ==> expires_at == opt_view(response.expires_at) && signing_transition(
            SigningState::Sending(attempt),
            SigningEvent::Reply(response),
        ) == (SigningState::WaitingForConsent, SigningActionView::StartConsentWait { consent_id, expires_at }),
{
}

/// A reply ends the exchange in success only with the signature it carries, parsed as a Solana
/// signature; a reply that must carry a signature and carries none ends it with the error
/// that says so; and a first reply that asks for consent without naming the request ends it
/// with the error that says so.
pub proof fn lemma_reply_outcomes(attempt: SignAttempt, response: DcpSignResponse)
    ensures
        signing_transition(SigningState::Sending(attempt), SigningEvent::Reply(response)) matches (
            next,
            SigningActionView::Finish(Ok(bytes)),
        ) ==> next == SigningState::Done && (response.signature matches Some(s) && signature_from_str(s@) == Ok::<
            Seq<u8>,
            Seq<char>,
        >(bytes)),
        !(attempt == SignAttempt::Initial && response.requires_consent == Some(true)) && response.signature is None
            ==> signing_transition(SigningState::Sending(attempt), SigningEvent::Reply(response)) == (
            SigningState::Done,
            SigningActionView::Finish(Err((SignerErrorKind::RemoteApiError, "DCP response did not include signature"@))),
        ),
        attempt == SignAttempt::Initial && response.requires_consent == Some(true) && response.consent_id is None
            ==> signing_transition(SigningState::Sending(attempt), SigningEvent::Reply(response)) == (
            SigningState::Done,
            SigningActionView::Finish(Err((SignerErrorKind::RemoteApiError, "DCP requested consent without consent_id"@))),
        ),
{
}

} // verus!
