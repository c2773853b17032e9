//! The transaction builder: one memo-write instruction addressed to the fixed
//! memo program, wrapped in a transaction anchored to a freshness token and
//! signed by the service identity. The ledger-native types are opaque here;
//! each step stands behind a small trusted wrapper around the ledger SDK.
use vstd::prelude::*;
use std::str::FromStr;
use solana_instruction::{AccountMeta, Instruction};
use solana_keypair::Keypair;
use solana_pubkey::Pubkey;
use solana_signer::Signer;
use solana_transaction::Transaction;
use crate::errors::MintError;

verus! {

/// The fixed on-chain memo program the instruction is addressed to.
pub const MEMO_PROGRAM_ID: &'static str = "MemoSq4gqABAXKb96qnH8TysNcWxMyWCqXgDLGmfcHr";

#[verifier::external_type_specification]
#[verifier::external_body]
pub struct ExPubkey(Pubkey);

#[verifier::external_type_specification]
#[verifier::external_body]
pub struct ExKeypair(Keypair);

#[verifier::external_type_specification]
#[verifier::external_body]
pub struct ExHash(solana_hash::Hash);

#[verifier::external_type_specification]
#[verifier::external_body]
pub struct ExInstruction(Instruction);

#[verifier::external_type_specification]
#[verifier::external_body]
pub struct ExTransaction(Transaction);

/// Whether a character sequence is the base58 text of an account identifier:
/// exactly the texts solana_pubkey::Pubkey::from_str accepts, a pure
/// predicate of the text alone.
pub uninterp spec fn is_pubkey_text(s: Seq<char>) -> bool;

/// Whether a byte sequence is the base58 text of a ledger hash: exactly the
/// UTF-8 texts solana_hash::Hash::from_str accepts, a pure predicate of the
/// bytes alone.
pub uninterp spec fn is_hash_text(s: Seq<u8>) -> bool;

/// Relies on solana_pubkey::Pubkey::from_str: parses a base58 account
/// identifier; succeeds exactly on valid identifier text.
#[verifier::external_body]
fn parse_pubkey(s: &str) -> (r: Option<Pubkey>)
    ensures
        r is Some <==> is_pubkey_text(s@),
{
    Pubkey::from_str(s).ok()
}

/// Relies on solana_signer::Signer::pubkey (solana_keypair::Keypair): the
/// public half of the identity.
#[verifier::external_body]
fn keypair_pubkey(kp: &Keypair) -> Pubkey {
    kp.pubkey()
}

/// Relies on solana_hash::Hash::from_str: parses the base58 text of a
/// freshness token; succeeds exactly on valid token text (bytes that are no
/// UTF-8 are no token).
#[verifier::external_body]
fn parse_hash(text: &Vec<u8>) -> (r: Option<solana_hash::Hash>)
    ensures
        r is Some <==> is_hash_text(text@),
{
    match std::str::from_utf8(text.as_slice()) {
        Ok(s) => solana_hash::Hash::from_str(s).ok(),
        Err(_) => None,
    }
}

/// Relies on solana_instruction::AccountMeta::new_readonly: builds the one
/// memo-write instruction, whose data is the payload and whose only account
/// reference is the signer, read-only and signing.
#[verifier::external_body]
fn memo_instruction(program_id: &Pubkey, signer: &Pubkey, payload: &Vec<u8>) -> Instruction {
    Instruction {
        program_id: *program_id,
        accounts: vec![AccountMeta::new_readonly(*signer, true)],
        data: payload.clone(),
    }
}

/// Relies on solana_transaction::Transaction::new_with_payer: an unsigned
/// transaction holding the given instructions, paid by the given account.
/// Message compilation panics past 256 distinct account keys; the one
/// instruction handed in references one account and one program.
#[verifier::external_body]
fn tx_with_payer(instruction: Instruction, payer: &Pubkey) -> Transaction {
    Transaction::new_with_payer(&[instruction], Some(payer))
}

/// Relies on solana_transaction::Transaction::try_sign: signs with the
/// identity's key, anchored to the freshness token; false when signing fails.
#[verifier::external_body]
fn try_sign_tx(tx: &mut Transaction, payer: &Keypair, token: &solana_hash::Hash) -> bool {
    tx.try_sign(&[payer], *token).is_ok()
}

/// Relies on bincode::serialize: the ledger-native wire encoding of the
/// signed transaction; None when it cannot be encoded.
#[verifier::external_body]
fn serialize_tx(tx: &Transaction) -> Option<Vec<u8>> {
    bincode::serialize(tx).ok()
}

/// Builds and signs the one memo-write transaction for a payload, anchored to
/// the freshness token whose base58 text is given. The protocol error comes
/// exactly when the token text is no valid hash text, and the program
/// reference error exactly when the fixed program identifier is malformed
/// (defensive; it never is); signing and wire encoding are the ledger SDK's,
/// so of them only the error category is claimed, and of the wire bytes
/// nothing. This function performs no network call.
pub fn build_and_sign(payload: &Vec<u8>, payer: &Keypair, token_text: &Vec<u8>) -> (r: Result<
    Vec<u8>,
    MintError,
>)
    ensures
        r matches Err(e) ==> {
            ||| e@ is Protocol
            ||| e@ is InvalidProgramReference
            ||| e@ is SigningFailed
            ||| e@ is SerializationError
        },
        (r matches Err(e) && e@ is Protocol) <==> !is_hash_text(token_text@),
        (r matches Err(e) && e@ is InvalidProgramReference) <==> (is_hash_text(token_text@)
            && !is_pubkey_text(MEMO_PROGRAM_ID@)),
{
    let token = match parse_hash(token_text) {
        Option::Some(t) => t,
        Option::None => {
            return Err(MintError::Protocol);
        },
    };
    let program_id = match parse_pubkey(MEMO_PROGRAM_ID) {
        Option::Some(p) => p,
        Option::None => {
            return Err(MintError::InvalidProgramReference);
        },
    };
    let signer = keypair_pubkey(payer);
    let instruction = memo_instruction(&program_id, &signer, payload);
    let mut tx = tx_with_payer(instruction, &signer);
    if !try_sign_tx(&mut tx, payer, &token) {
        return Err(MintError::SigningFailed);
    }
    match serialize_tx(&tx) {
        Option::Some(wire) => Ok(wire),
        Option::None => Err(MintError::SerializationError),
    }
}

} // verus!
