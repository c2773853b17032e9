use memo_mint::errors::MintError;
use memo_mint::flow::{
    mint_response, mint_step, outcome_result, status_event, submit_event, token_event, MintEvent,
    MintOutcome, MintPhase, SubmitReply,
};
use memo_mint::memo::{build_memo, MintRequest};
use memo_mint::poll::{resolve_replies, ConfirmationStatus, Poller, StatusReply, MAX_POLL_ATTEMPTS};

#[test]
fn poller_confirms_on_clean_status() {
    let mut poller = Poller::new();
    assert_eq!(
        poller.observe(&StatusReply::Absent),
        ConfirmationStatus::Pending
    );
    assert_eq!(
        poller.observe(&StatusReply::Present { error: None }),
        ConfirmationStatus::Confirmed
    );
}

#[test]
fn poller_fails_on_error_status() {
    // a non-null error field always yields Failed, never Confirmed
    let mut poller = Poller::new();
    let status = poller.observe(&StatusReply::Present {
        error: Some(b"InstructionError".to_vec()),
    });
    assert_eq!(
        status,
        ConfirmationStatus::Failed {
            detail: b"InstructionError".to_vec()
        }
    );
    assert_ne!(status, ConfirmationStatus::Confirmed);
}

#[test]
fn polling_times_out_within_budget() {
    let replies = vec![StatusReply::Absent; 40];
    let (status, polls) = resolve_replies(&replies);
    assert_eq!(status, ConfirmationStatus::TimedOut);
    assert_eq!(polls, MAX_POLL_ATTEMPTS as usize);
}

#[test]
fn polling_stops_at_first_decisive_reply() {
    let replies = vec![
        StatusReply::Absent,
        StatusReply::Absent,
        StatusReply::Present { error: None },
        StatusReply::Absent,
    ];
    let (status, polls) = resolve_replies(&replies);
    assert_eq!(status, ConfirmationStatus::Confirmed);
    assert_eq!(polls, 3);
}

#[test]
fn rejection_never_reaches_polling() {
    let phase = MintPhase::AwaitingToken;
    let phase = mint_step(phase, token_event(Ok(Some(b"FreshTokenText".to_vec()))));
    assert_eq!(
        phase,
        MintPhase::AwaitingSubmit {
            token: b"FreshTokenText".to_vec()
        }
    );
    let rejection = submit_event(Ok(SubmitReply {
        error: Some(b"Blockhash not found".to_vec()),
        signature: None,
    }));
    let phase = mint_step(phase, rejection);
    let expected = MintPhase::Done {
        outcome: MintOutcome::RemoteRejected {
            detail: b"Blockhash not found".to_vec(),
        },
    };
    assert_eq!(phase, expected);
    // done is absorbing: a stray later event moves the flow nowhere
    let phase = mint_step(
        phase,
        MintEvent::StatusChecked {
            reply: StatusReply::Absent,
        },
    );
    assert_eq!(phase, expected);
    match phase {
        MintPhase::Done { outcome } => match outcome_result(outcome) {
            Err(MintError::RemoteRejected { detail }) => {
                assert_eq!(detail, b"Blockhash not found".to_vec())
            }
            other => panic!("expected RemoteRejected, got ok={}", other.is_ok()),
        },
        _ => unreachable!(),
    }
}

#[test]
fn token_transport_failure_stops_flow() {
    let phase = MintPhase::AwaitingToken;
    let phase = mint_step(phase, token_event(Err(b"connection refused".to_vec())));
    assert_eq!(
        phase,
        MintPhase::Done {
            outcome: MintOutcome::TransportFailed {
                detail: b"connection refused".to_vec()
            }
        }
    );
    match phase {
        MintPhase::Done { outcome } => {
            assert_eq!(
                outcome_result(outcome),
                Err(MintError::Transport {
                    detail: b"connection refused".to_vec()
                })
            );
        }
        _ => unreachable!(),
    }
}

#[test]
fn missing_token_is_a_protocol_error() {
    let phase = mint_step(MintPhase::AwaitingToken, token_event(Ok(None)));
    assert_eq!(
        phase,
        MintPhase::Done {
            outcome: MintOutcome::ProtocolFailed
        }
    );
}

#[test]
fn silent_polling_ends_in_timeout() {
    let phase = MintPhase::AwaitingSubmit {
        token: b"token".to_vec(),
    };
    let mut phase = mint_step(
        phase,
        submit_event(Ok(SubmitReply {
            error: None,
            signature: Some(b"sig".to_vec()),
        })),
    );
    assert_eq!(
        phase,
        MintPhase::Polling {
            signature: b"sig".to_vec(),
            attempts: 0
        }
    );
    for _ in 0..MAX_POLL_ATTEMPTS {
        phase = mint_step(phase, status_event(Ok(StatusReply::Absent)));
    }
    // the ambiguous outcome, distinct from ConfirmationFailed
    assert_eq!(
        phase,
        MintPhase::Done {
            outcome: MintOutcome::ConfirmationTimedOut
        }
    );
    match phase {
        MintPhase::Done { outcome } => {
            assert_eq!(outcome_result(outcome), Err(MintError::ConfirmationTimedOut));
        }
        _ => unreachable!(),
    }
}

#[test]
fn confirmed_flow_returns_signature() {
    let phase = MintPhase::Polling {
        signature: b"5igna7ure".to_vec(),
        attempts: 3,
    };
    let phase = mint_step(phase, status_event(Ok(StatusReply::Present { error: None })));
    match phase {
        MintPhase::Done { outcome } => {
            assert_eq!(outcome_result(outcome), Ok(b"5igna7ure".to_vec()));
        }
        other => panic!("expected Done, got {:?}", other),
    }
}

#[test]
fn ledger_failure_during_polling_is_terminal() {
    let phase = MintPhase::Polling {
        signature: b"sig".to_vec(),
        attempts: 0,
    };
    let phase = mint_step(
        phase,
        status_event(Ok(StatusReply::Present {
            error: Some(b"InstructionError".to_vec()),
        })),
    );
    assert_eq!(
        phase,
        MintPhase::Done {
            outcome: MintOutcome::ConfirmationFailed {
                detail: b"InstructionError".to_vec()
            }
        }
    );
}

#[test]
fn mint_response_embeds_signature_in_reference() {
    let record = build_memo(&MintRequest {
        location_id: b"test".to_vec(),
        name: None,
        capacity_mw: None,
        grade: None,
        report_hash: None,
    });
    let response = mint_response(b"abc123".to_vec(), record);
    assert_eq!(response.signature, b"abc123".to_vec());
    assert_eq!(
        response.explorer_url,
        b"https://explorer.solana.com/tx/abc123?cluster=devnet".to_vec()
    );
}
