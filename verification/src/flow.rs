//! The mint orchestrator, as an explicit state machine: encode, fetch a
//! freshness token, build and sign, submit, poll to a terminal status. The
//! driver performs each network call and feeds the observed result back as an
//! event; every decision between calls is made, and verified, here.
use vstd::prelude::*;
use vstd::string::StringSliceAdditionalSpecFns;
use crate::errors::{MintError, MintErrorV};
use crate::jsonb;
use crate::memo::MemoRecord;
use crate::poll::{spec_poll_step, StatusReply, StatusReplyV, MAX_POLL_ATTEMPTS};

verus! {

/// What one mint call returns on success: the transaction signature, the
/// record as written, and a human-navigable reference.
pub struct MintResponse {
    pub signature: Vec<u8>,
    pub memo_content: MemoRecord,
    pub explorer_url: Vec<u8>,
}

/// The terminal outcome of the network flow of one mint call.
#[derive(Debug, PartialEq, Eq, Clone)]
pub enum MintOutcome {
    Confirmed { signature: Vec<u8> },
    TransportFailed { detail: Vec<u8> },
    ProtocolFailed,
    RemoteRejected { detail: Vec<u8> },
    ConfirmationFailed { detail: Vec<u8> },
    ConfirmationTimedOut,
}

/// The mathematical value of a `MintOutcome`.
pub enum MintOutcomeV {
    Confirmed { signature: Seq<u8> },
    TransportFailed { detail: Seq<u8> },
    ProtocolFailed,
    RemoteRejected { detail: Seq<u8> },
    ConfirmationFailed { detail: Seq<u8> },
    ConfirmationTimedOut,
}

impl View for MintOutcome {
    type V = MintOutcomeV;

    open spec fn view(&self) -> MintOutcomeV {
        match self {
            MintOutcome::Confirmed { signature } => MintOutcomeV::Confirmed {
                signature: signature@,
            },
            MintOutcome::TransportFailed { detail } => MintOutcomeV::TransportFailed {
                detail: detail@,
            },
            MintOutcome::ProtocolFailed => MintOutcomeV::ProtocolFailed,
            MintOutcome::RemoteRejected { detail } => MintOutcomeV::RemoteRejected {
                detail: detail@,
            },
            MintOutcome::ConfirmationFailed { detail } => MintOutcomeV::ConfirmationFailed {
                detail: detail@,
            },
            MintOutcome::ConfirmationTimedOut => MintOutcomeV::ConfirmationTimedOut,
        }
    }
}

/// Where one mint call stands between network round trips.
#[derive(Debug, PartialEq, Eq, Clone)]
pub enum MintPhase {
    AwaitingToken,
    AwaitingSubmit { token: Vec<u8> },
    Polling { signature: Vec<u8>, attempts: u32 },
    Done { outcome: MintOutcome },
}

/// The mathematical value of a `MintPhase`.
pub enum MintPhaseV {
    AwaitingToken,
    AwaitingSubmit { token: Seq<u8> },
    Polling { signature: Seq<u8>, attempts: nat },
    Done { outcome: MintOutcomeV },
}

impl View for MintPhase {
    type V = MintPhaseV;

    open spec fn view(&self) -> MintPhaseV {
        match self {
            MintPhase::AwaitingToken => MintPhaseV::AwaitingToken,
            MintPhase::AwaitingSubmit { token } => MintPhaseV::AwaitingSubmit { token: token@ },
            MintPhase::Polling { signature, attempts } => MintPhaseV::Polling {
                signature: signature@,
                attempts: *attempts as nat,
            },
            MintPhase::Done { outcome } => MintPhaseV::Done { outcome: outcome@ },
        }
    }
}

impl MintPhaseV {
    /// The attempt counter never runs past the polling budget.
    pub open spec fn wf(&self) -> bool {
        self matches MintPhaseV::Polling { attempts, .. } ==> attempts <= MAX_POLL_ATTEMPTS
    }
}

/// What the driver observed from one network round trip.
#[derive(Debug, PartialEq, Eq, Clone)]
pub enum MintEvent {
    TokenFetched { token: Vec<u8> },
    TokenMissing,
    TokenTransportError { detail: Vec<u8> },
    Submitted { signature: Vec<u8> },
    SubmitRejected { detail: Vec<u8> },
    SubmitMalformed,
    SubmitTransportError { detail: Vec<u8> },
    StatusChecked { reply: StatusReply },
    StatusTransportError { detail: Vec<u8> },
}

/// The mathematical value of a `MintEvent`.
pub enum MintEventV {
    TokenFetched { token: Seq<u8> },
    TokenMissing,
    TokenTransportError { detail: Seq<u8> },
    Submitted { signature: Seq<u8> },
    SubmitRejected { detail: Seq<u8> },
    SubmitMalformed,
    SubmitTransportError { detail: Seq<u8> },
    StatusChecked { reply: StatusReplyV },
    StatusTransportError { detail: Seq<u8> },
}

impl View for MintEvent {
    type V = MintEventV;

    open spec fn view(&self) -> MintEventV {
        match self {
            MintEvent::TokenFetched { token } => MintEventV::TokenFetched { token: token@ },
            MintEvent::TokenMissing => MintEventV::TokenMissing,
            MintEvent::TokenTransportError { detail } => MintEventV::TokenTransportError {
                detail: detail@,
            },
            MintEvent::Submitted { signature } => MintEventV::Submitted { signature: signature@ },
            MintEvent::SubmitRejected { detail } => MintEventV::SubmitRejected {
                detail: detail@,
            },
            MintEvent::SubmitMalformed => MintEventV::SubmitMalformed,
            MintEvent::SubmitTransportError { detail } => MintEventV::SubmitTransportError {
                detail: detail@,
            },
            MintEvent::StatusChecked { reply } => MintEventV::StatusChecked { reply: reply@ },
            MintEvent::StatusTransportError { detail } => MintEventV::StatusTransportError {
                detail: detail@,
            },
        }
    }
}

/// The transition relation of the mint flow. A token failure ends the call
/// before anything is built or submitted; a remote rejection at submission
/// ends it before any polling; each status reply advances the poller; `Done`
/// is absorbing; an event that does not belong to the current phase changes
/// nothing.
pub open spec fn spec_mint_step(phase: MintPhaseV, ev: MintEventV) -> MintPhaseV {
    match phase {
        MintPhaseV::AwaitingToken => match ev {
            MintEventV::TokenFetched { token } => MintPhaseV::AwaitingSubmit { token },
            MintEventV::TokenMissing => MintPhaseV::Done {
                outcome: MintOutcomeV::ProtocolFailed,
            },
            MintEventV::TokenTransportError { detail } => MintPhaseV::Done {
                outcome: MintOutcomeV::TransportFailed { detail },
            },
            _ => phase,
        },
        MintPhaseV::AwaitingSubmit { token } => match ev {
            MintEventV::Submitted { signature } => MintPhaseV::Polling {
                signature,
                attempts: 0,
            },
            MintEventV::SubmitRejected { detail } => MintPhaseV::Done {
                outcome: MintOutcomeV::RemoteRejected { detail },
            },
            MintEventV::SubmitMalformed => MintPhaseV::Done {
                outcome: MintOutcomeV::ProtocolFailed,
            },
            MintEventV::SubmitTransportError { detail } => MintPhaseV::Done {
                outcome: MintOutcomeV::TransportFailed { detail },
            },
            _ => phase,
        },
        MintPhaseV::Polling { signature, attempts } => match ev {
            MintEventV::StatusChecked { reply } => match spec_poll_step(
                attempts as u32,
                reply,
            ) {
                crate::poll::ConfirmationStatusV::Pending => MintPhaseV::Polling {
                    signature,
                    attempts: attempts + 1,
                },
                crate::poll::ConfirmationStatusV::Confirmed => MintPhaseV::Done {
                    outcome: MintOutcomeV::Confirmed { signature },
                },
                crate::poll::ConfirmationStatusV::Failed { detail } => MintPhaseV::Done {
                    outcome: MintOutcomeV::ConfirmationFailed { detail },
                },
                crate::poll::ConfirmationStatusV::TimedOut => MintPhaseV::Done {
                    outcome: MintOutcomeV::ConfirmationTimedOut,
                },
            },
            MintEventV::StatusTransportError { detail } => MintPhaseV::Done {
                outcome: MintOutcomeV::TransportFailed { detail },
            },
            _ => phase,
        },
        MintPhaseV::Done { .. } => phase,
    }
}

/// Runs the flow through a sequence of events.
pub open spec fn spec_mint_run(phase: MintPhaseV, evs: Seq<MintEventV>) -> MintPhaseV
    decreases evs.len(),
{
    if evs.len() == 0 {
        phase
    } else {
        spec_mint_run(spec_mint_step(phase, evs.first()), evs.drop_first())
    }
}

/// Advances the flow by one observed event.
pub fn mint_step(phase: MintPhase, ev: MintEvent) -> (r: MintPhase)
    requires
        phase@.wf(),
    ensures
        r@ == spec_mint_step(phase@, ev@),
        r@.wf(),
{
    match phase {
        MintPhase::AwaitingToken => match ev {
            MintEvent::TokenFetched { token } => MintPhase::AwaitingSubmit { token },
            MintEvent::TokenMissing => MintPhase::Done {
                outcome: MintOutcome::ProtocolFailed,
            },
            MintEvent::TokenTransportError { detail } => MintPhase::Done {
                outcome: MintOutcome::TransportFailed { detail },
            },
            _ => MintPhase::AwaitingToken,
        },
        MintPhase::AwaitingSubmit { token } => match ev {
            MintEvent::Submitted { signature } => MintPhase::Polling {
                signature,
                attempts: 0,
            },
            MintEvent::SubmitRejected { detail } => MintPhase::Done {
                outcome: MintOutcome::RemoteRejected { detail },
            },
            MintEvent::SubmitMalformed => MintPhase::Done {
                outcome: MintOutcome::ProtocolFailed,
            },
            MintEvent::SubmitTransportError { detail } => MintPhase::Done {
                outcome: MintOutcome::TransportFailed { detail },
            },
            _ => MintPhase::AwaitingSubmit { token },
        },
        MintPhase::Polling { signature, attempts } => match ev {
            MintEvent::StatusChecked { reply } => match reply {
                StatusReply::Present { error: Option::Some(d) } => MintPhase::Done {
                    outcome: MintOutcome::ConfirmationFailed { detail: d },
                },
                StatusReply::Present { error: Option::None } => MintPhase::Done {
                    outcome: MintOutcome::Confirmed { signature },
                },
                StatusReply::Absent => {
                    if attempts + 1 >= MAX_POLL_ATTEMPTS {
                        MintPhase::Done {
                            outcome: MintOutcome::ConfirmationTimedOut,
                        }
                    } else {
                        MintPhase::Polling {
                            signature,
                            attempts: attempts + 1,
                        }
                    }
                },
            },
            MintEvent::StatusTransportError { detail } => MintPhase::Done {
                outcome: MintOutcome::TransportFailed { detail },
            },
            _ => MintPhase::Polling { signature, attempts },
        },
        MintPhase::Done { outcome } => MintPhase::Done { outcome },
    }
}

/// What the driver observed when fetching the freshness token: the token's
/// text, no token in the response, or a transport failure.
pub fn token_event(fetch: Result<Option<Vec<u8>>, Vec<u8>>) -> (r: MintEvent)
    ensures
        fetch matches Ok(t) ==> (t matches Some(token) ==> r@ == (MintEventV::TokenFetched {
            token: token@,
        })),
        fetch matches Ok(t) ==> (t is None ==> r@ == MintEventV::TokenMissing),
        fetch matches Err(detail) ==> r@ == (MintEventV::TokenTransportError {
            detail: detail@,
        }),
{
    match fetch {
        Ok(Option::Some(token)) => MintEvent::TokenFetched { token },
        Ok(Option::None) => MintEvent::TokenMissing,
        Err(detail) => MintEvent::TokenTransportError { detail },
    }
}

/// What the remote node answered to a submission: an explicit error object,
/// a signature, or neither.
#[derive(Debug, PartialEq, Eq, Clone)]
pub struct SubmitReply {
    pub error: Option<Vec<u8>>,
    pub signature: Option<Vec<u8>>,
}

/// What the driver observed when submitting: an error object is an explicit
/// remote rejection, even beside a signature; otherwise the signature is the
/// submission's receipt; a response with neither has the wrong shape.
pub fn submit_event(send: Result<SubmitReply, Vec<u8>>) -> (r: MintEvent)
    ensures
        send matches Ok(reply) ==> (reply.error matches Some(detail) ==> r@
            == (MintEventV::SubmitRejected { detail: detail@ })),
        send matches Ok(reply) ==> (reply.error is None ==> (reply.signature matches Some(
            signature,
        ) ==> r@ == (MintEventV::Submitted { signature: signature@ }))),
        send matches Ok(reply) ==> (reply.error is None ==> (reply.signature is None ==> r@
            == MintEventV::SubmitMalformed)),
        send matches Err(detail) ==> r@ == (MintEventV::SubmitTransportError {
            detail: detail@,
        }),
{
    match send {
        Ok(SubmitReply { error: Option::Some(detail), .. }) => MintEvent::SubmitRejected {
            detail,
        },
        Ok(SubmitReply { error: Option::None, signature: Option::Some(signature) }) =>
            MintEvent::Submitted { signature },
        Ok(SubmitReply { error: Option::None, signature: Option::None }) =>
            MintEvent::SubmitMalformed,
        Err(detail) => MintEvent::SubmitTransportError { detail },
    }
}

/// What the driver observed when polling: a status reply, or a transport
/// failure for that poll.
pub fn status_event(poll: Result<StatusReply, Vec<u8>>) -> (r: MintEvent)
    ensures
        poll matches Ok(reply) ==> r@ == (MintEventV::StatusChecked { reply: reply@ }),
        poll matches Err(detail) ==> r@ == (MintEventV::StatusTransportError {
            detail: detail@,
        }),
{
    match poll {
        Ok(reply) => MintEvent::StatusChecked { reply },
        Err(detail) => MintEvent::StatusTransportError { detail },
    }
}

/// Turns a terminal outcome into the mint call's result: the signature on
/// confirmation, and on anything else the matching error, each failure
/// category kept distinct.
pub fn outcome_result(outcome: MintOutcome) -> (r: Result<Vec<u8>, MintError>)
    ensures
        outcome@ matches MintOutcomeV::Confirmed { signature } ==> (r matches Ok(s) && s@
            == signature),
        outcome@ matches MintOutcomeV::TransportFailed { detail } ==> (r matches Err(e) && e@
            == (MintErrorV::Transport { detail })),
        outcome@ is ProtocolFailed ==> (r matches Err(e) && e@ == MintErrorV::Protocol),
        outcome@ matches MintOutcomeV::RemoteRejected { detail } ==> (r matches Err(e) && e@
            == (MintErrorV::RemoteRejected { detail })),
        outcome@ matches MintOutcomeV::ConfirmationFailed { detail } ==> (r matches Err(e) && e@
            == (MintErrorV::ConfirmationFailed { detail })),
        outcome@ is ConfirmationTimedOut ==> (r matches Err(e) && e@
            == MintErrorV::ConfirmationTimedOut),
{
    match outcome {
        MintOutcome::Confirmed { signature } => Ok(signature),
        MintOutcome::TransportFailed { detail } => Err(MintError::Transport { detail }),
        MintOutcome::ProtocolFailed => Err(MintError::Protocol),
        MintOutcome::RemoteRejected { detail } => Err(MintError::RemoteRejected { detail }),
        MintOutcome::ConfirmationFailed { detail } => Err(MintError::ConfirmationFailed {
            detail,
        }),
        MintOutcome::ConfirmationTimedOut => Err(MintError::ConfirmationTimedOut),
    }
}

/// Assembles the successful response: the signature, the record as written,
/// and the explorer reference embedding the signature.
pub fn mint_response(signature: Vec<u8>, memo_content: MemoRecord) -> (r: MintResponse)
    ensures
        r.signature@ == signature@,
        r.memo_content == memo_content,
        r.explorer_url@ == ("https://explorer.solana.com/tx/").spec_bytes() + signature@ + (
        "?cluster=devnet").spec_bytes(),
{
    let mut url: Vec<u8> = Vec::new();
    jsonb::push_lit(&mut url, "https://explorer.solana.com/tx/");
    let mut sig_copy = jsonb::copy_bytes(&signature);
    url.append(&mut sig_copy);
    jsonb::push_lit(&mut url, "?cluster=devnet");
    MintResponse { signature, memo_content, explorer_url: url }
}

/// Once the flow is done it stays done: no later event moves it anywhere,
/// in particular never back to building, submitting or polling.
pub proof fn lemma_done_absorbing(outcome: MintOutcomeV, evs: Seq<MintEventV>)
    ensures
        spec_mint_run(MintPhaseV::Done { outcome }, evs) == (MintPhaseV::Done { outcome }),
    decreases evs.len(),
{
    if evs.len() > 0 {
        lemma_done_absorbing(outcome, evs.drop_first());
    }
}

/// Submission answered by a remote rejection yields `RemoteRejected`, and the
/// flow never reaches the polling stage afterwards, whatever else is observed.
pub proof fn lemma_rejection_never_polls(token: Seq<u8>, detail: Seq<u8>, evs: Seq<MintEventV>)
    ensures
        spec_mint_step(
            MintPhaseV::AwaitingSubmit { token },
            MintEventV::SubmitRejected { detail },
        ) == (MintPhaseV::Done { outcome: MintOutcomeV::RemoteRejected { detail } }),
        spec_mint_run(
            spec_mint_step(
                MintPhaseV::AwaitingSubmit { token },
                MintEventV::SubmitRejected { detail },
            ),
            evs,
        ) == (MintPhaseV::Done { outcome: MintOutcomeV::RemoteRejected { detail } }),
{
    lemma_done_absorbing(MintOutcomeV::RemoteRejected { detail }, evs);
}

/// A transport failure while fetching the freshness token yields
/// `TransportFailed`, and the flow never reaches the submission or polling
/// stages afterwards: nothing is built or submitted.
pub proof fn lemma_token_failure_stops_flow(detail: Seq<u8>, evs: Seq<MintEventV>)
    ensures
        spec_mint_step(MintPhaseV::AwaitingToken, MintEventV::TokenTransportError { detail })
            == (MintPhaseV::Done { outcome: MintOutcomeV::TransportFailed { detail } }),
        spec_mint_run(
            spec_mint_step(MintPhaseV::AwaitingToken, MintEventV::TokenTransportError { detail }),
            evs,
        ) == (MintPhaseV::Done { outcome: MintOutcomeV::TransportFailed { detail } }),
{
    lemma_done_absorbing(MintOutcomeV::TransportFailed { detail }, evs);
}

/// If polling never sees a status record, the flow ends in
/// `ConfirmationTimedOut` - the ambiguous outcome, distinct from
/// `ConfirmationFailed` - once the attempt budget is spent.
pub proof fn lemma_silent_polling_times_out(
    signature: Seq<u8>,
    attempts: nat,
    evs: Seq<MintEventV>,
)
    requires
        attempts < MAX_POLL_ATTEMPTS,
        evs.len() + attempts >= MAX_POLL_ATTEMPTS,
        forall|i: int|
            0 <= i < evs.len() ==> evs[i] == (MintEventV::StatusChecked {
                reply: StatusReplyV::Absent,
            }),
    ensures
        spec_mint_run(MintPhaseV::Polling { signature, attempts }, evs) == (MintPhaseV::Done {
            outcome: MintOutcomeV::ConfirmationTimedOut,
        }),
    decreases evs.len(),
{
    let next = spec_mint_step(MintPhaseV::Polling { signature, attempts }, evs.first());
    if attempts + 1 >= MAX_POLL_ATTEMPTS {
        assert(next == (MintPhaseV::Done { outcome: MintOutcomeV::ConfirmationTimedOut }));
        lemma_done_absorbing(MintOutcomeV::ConfirmationTimedOut, evs.drop_first());
    } else {
        assert(next == (MintPhaseV::Polling { signature, attempts: attempts + 1 }));
        lemma_silent_polling_times_out(signature, attempts + 1, evs.drop_first());
    }
}

} // verus!
