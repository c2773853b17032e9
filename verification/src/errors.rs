//! The error taxonomy of a mint call. Every failure is reported as a typed
//! value; verified code never panics.
use vstd::prelude::*;
use vstd::string::StringSliceAdditionalSpecFns;
use crate::jsonb;

verus! {

/// Why a mint call failed.
///
/// - `PayloadTooLarge`: the record's canonical serialization exceeds the memo
///   capacity; the caller's fault, raised before any network call.
/// - `InvalidProgramReference`: the fixed memo-program identifier failed to
///   parse (defensive; should never occur).
/// - `SigningFailed`: the identity could not sign the transaction.
/// - `SerializationError`: the transaction could not be wire-encoded.
/// - `Transport`: a network or connection failure; the whole call may be retried.
/// - `Protocol`: the remote response lacked an expected field.
/// - `RemoteRejected`: the remote node explicitly refused the transaction.
/// - `ConfirmationFailed`: the ledger processed the transaction and it failed.
/// - `ConfirmationTimedOut`: the transaction's fate is unknown after the
///   polling budget; distinct from `ConfirmationFailed`.
#[derive(Debug, PartialEq, Eq, Clone)]
pub enum MintError {
    PayloadTooLarge { size: usize },
    InvalidProgramReference,
    SigningFailed,
    SerializationError,
    Transport { detail: Vec<u8> },
    Protocol,
    RemoteRejected { detail: Vec<u8> },
    ConfirmationFailed { detail: Vec<u8> },
    ConfirmationTimedOut,
}

/// The mathematical value of a `MintError`.
pub enum MintErrorV {
    PayloadTooLarge { size: nat },
    InvalidProgramReference,
    SigningFailed,
    SerializationError,
    Transport { detail: Seq<u8> },
    Protocol,
    RemoteRejected { detail: Seq<u8> },
    ConfirmationFailed { detail: Seq<u8> },
    ConfirmationTimedOut,
}

impl View for MintError {
    type V = MintErrorV;

    open spec fn view(&self) -> MintErrorV {
        match self {
            MintError::PayloadTooLarge { size } => MintErrorV::PayloadTooLarge {
                size: *size as nat,
            },
            MintError::InvalidProgramReference => MintErrorV::InvalidProgramReference,
            MintError::SigningFailed => MintErrorV::SigningFailed,
            MintError::SerializationError => MintErrorV::SerializationError,
            MintError::Transport { detail } => MintErrorV::Transport { detail: detail@ },
            MintError::Protocol => MintErrorV::Protocol,
            MintError::RemoteRejected { detail } => MintErrorV::RemoteRejected {
                detail: detail@,
            },
            MintError::ConfirmationFailed { detail } => MintErrorV::ConfirmationFailed {
                detail: detail@,
            },
            MintError::ConfirmationTimedOut => MintErrorV::ConfirmationTimedOut,
        }
    }
}

impl MintError {
    /// A human-readable description, as UTF-8 bytes: a fixed phrase for the
    /// category followed by the remote detail where one was carried.
    pub fn describe(&self) -> (r: Vec<u8>)
        ensures
            r@ == self.spec_describe(),
    {
        let mut out: Vec<u8> = Vec::new();
        match self {
            MintError::PayloadTooLarge { size } => {
                jsonb::push_lit(&mut out, "memo too large: ");
                jsonb::push_dec(&mut out, *size as u64);
                jsonb::push_lit(&mut out, " bytes, max 566");
            },
            MintError::InvalidProgramReference => {
                jsonb::push_lit(&mut out, "invalid memo program id");
            },
            MintError::SigningFailed => {
                jsonb::push_lit(&mut out, "failed to sign transaction");
            },
            MintError::SerializationError => {
                jsonb::push_lit(&mut out, "failed to serialize transaction");
            },
            MintError::Transport { detail } => {
                jsonb::push_lit(&mut out, "rpc request failed: ");
                let mut d = jsonb::copy_bytes(detail);
                out.append(&mut d);
            },
            MintError::Protocol => {
                jsonb::push_lit(&mut out, "unexpected rpc response shape");
            },
            MintError::RemoteRejected { detail } => {
                jsonb::push_lit(&mut out, "rpc error: ");
                let mut d = jsonb::copy_bytes(detail);
                out.append(&mut d);
            },
            MintError::ConfirmationFailed { detail } => {
                jsonb::push_lit(&mut out, "transaction error: ");
                let mut d = jsonb::copy_bytes(detail);
                out.append(&mut d);
            },
            MintError::ConfirmationTimedOut => {
                jsonb::push_lit(&mut out, "transaction confirmation timeout");
            },
        }
        proof {
            assert(out@ =~= self.spec_describe());
        }
        out
    }

    /// The description `describe` returns.
    pub open spec fn spec_describe(&self) -> Seq<u8> {
        match self {
            MintError::PayloadTooLarge { size } => ("memo too large: ").spec_bytes()
                + jsonb::dec_of(*size as nat) + (" bytes, max 566").spec_bytes(),
            MintError::InvalidProgramReference => ("invalid memo program id").spec_bytes(),
            MintError::SigningFailed => ("failed to sign transaction").spec_bytes(),
            MintError::SerializationError => ("failed to serialize transaction").spec_bytes(),
            MintError::Transport { detail } => ("rpc request failed: ").spec_bytes() + detail@,
            MintError::Protocol => ("unexpected rpc response shape").spec_bytes(),
            MintError::RemoteRejected { detail } => ("rpc error: ").spec_bytes() + detail@,
            MintError::ConfirmationFailed { detail } => ("transaction error: ").spec_bytes()
                + detail@,
            MintError::ConfirmationTimedOut => ("transaction confirmation timeout").spec_bytes(),
        }
    }
}

} // verus!
