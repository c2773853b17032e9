//! The RPC envelopes: the exact JSON-RPC request body for each of the four
//! remote methods, built and proved byte for byte. The driver only posts
//! these bytes and hands the parsed reply back as plain values.
use vstd::prelude::*;
use vstd::string::StringSliceAdditionalSpecFns;
use base64::Engine;
use crate::errors::MintError;
use crate::jsonb;
use crate::jsonb::esc;

verus! {

/// The base64 digit for a six-bit value: the standard alphabet
/// `A-Z a-z 0-9 + /`.
pub open spec fn b64_digit(v: nat) -> u8 {
    if v < 26 {
        (0x41 + v) as u8
    } else if v < 52 {
        (0x61 + (v - 26)) as u8
    } else if v < 62 {
        (0x30 + (v - 52)) as u8
    } else if v == 62 {
        0x2b
    } else {
        0x2f
    }
}

/// The standard, padded base64 encoding of a byte sequence: each three-byte
/// chunk becomes four digits; a trailing chunk of one or two bytes is padded
/// with `=` to four.
pub open spec fn base64_of(data: Seq<u8>) -> Seq<u8>
    decreases data.len(),
{
    if data.len() == 0 {
        Seq::empty()
    } else if data.len() == 1 {
        let b0 = data[0] as nat;
        seq![b64_digit(b0 / 4), b64_digit((b0 % 4) * 16), 0x3du8, 0x3du8]
    } else if data.len() == 2 {
        let b0 = data[0] as nat;
        let b1 = data[1] as nat;
        seq![
            b64_digit(b0 / 4),
            b64_digit((b0 % 4) * 16 + b1 / 16),
            b64_digit((b1 % 16) * 4),
            0x3du8,
        ]
    } else {
        let b0 = data[0] as nat;
        let b1 = data[1] as nat;
        let b2 = data[2] as nat;
        seq![
            b64_digit(b0 / 4),
            b64_digit((b0 % 4) * 16 + b1 / 16),
            b64_digit((b1 % 16) * 4 + b2 / 64),
            b64_digit(b2 % 64),
        ] + base64_of(data.skip(3))
    }
}

/// Relies on base64's STANDARD engine: the padded encoding of the input
/// bytes, exactly `base64_of`.
#[verifier::external_body]
fn base64_encode(data: &Vec<u8>) -> (r: Vec<u8>)
    ensures
        r@ == base64_of(data@),
{
    base64::engine::general_purpose::STANDARD.encode(data.as_slice()).into_bytes()
}

/// The request body that asks for a fresh blockhash at confirmed commitment.
pub open spec fn blockhash_body() -> Seq<u8> {
    (
    "{\"jsonrpc\":\"2.0\",\"id\":1,\"method\":\"getLatestBlockhash\",\"params\":[{\"commitment\":\"confirmed\"}]}"
    ).spec_bytes()
}

/// Builds the freshness-token request body.
pub fn blockhash_request_body() -> (r: Vec<u8>)
    ensures
        r@ == blockhash_body(),
{
    jsonb::lit_vec(
        "{\"jsonrpc\":\"2.0\",\"id\":1,\"method\":\"getLatestBlockhash\",\"params\":[{\"commitment\":\"confirmed\"}]}",
    )
}

/// The request body that submits a transaction: its wire bytes in base64,
/// as a JSON string, at confirmed preflight commitment.
pub open spec fn submit_body(tx_wire: Seq<u8>) -> Seq<u8> {
    ("{\"jsonrpc\":\"2.0\",\"id\":1,\"method\":\"sendTransaction\",\"params\":[\"").spec_bytes()
        + esc(base64_of(tx_wire))
        + ("\",{\"encoding\":\"base64\",\"preflightCommitment\":\"confirmed\"}]}").spec_bytes()
}

/// Builds the submission request body for a transaction's wire bytes.
pub fn submit_request_body(tx_wire: &Vec<u8>) -> (r: Vec<u8>)
    ensures
        r@ == submit_body(tx_wire@),
{
    let b64 = base64_encode(tx_wire);
    let mut out: Vec<u8> = Vec::new();
    jsonb::push_lit(
        &mut out,
        "{\"jsonrpc\":\"2.0\",\"id\":1,\"method\":\"sendTransaction\",\"params\":[\"",
    );
    jsonb::push_escaped(&mut out, &b64);
    jsonb::push_lit(
        &mut out,
        "\",{\"encoding\":\"base64\",\"preflightCommitment\":\"confirmed\"}]}",
    );
    proof {
        assert(out@ =~= submit_body(tx_wire@));
    }
    out
}

/// The request body that asks for the status of one signature.
pub open spec fn status_body(signature: Seq<u8>) -> Seq<u8> {
    ("{\"jsonrpc\":\"2.0\",\"id\":1,\"method\":\"getSignatureStatuses\",\"params\":[[\"").spec_bytes()
        + esc(signature) + ("\"]]}").spec_bytes()
}

/// Builds the status-poll request body for a signature.
pub fn status_request_body(signature: &Vec<u8>) -> (r: Vec<u8>)
    ensures
        r@ == status_body(signature@),
{
    let mut out: Vec<u8> = Vec::new();
    jsonb::push_lit(
        &mut out,
        "{\"jsonrpc\":\"2.0\",\"id\":1,\"method\":\"getSignatureStatuses\",\"params\":[[\"",
    );
    jsonb::push_escaped(&mut out, signature);
    jsonb::push_lit(&mut out, "\"]]}");
    proof {
        assert(out@ =~= status_body(signature@));
    }
    out
}

/// The request body that asks for an account's balance at confirmed
/// commitment, the account given by its base58 text.
pub open spec fn balance_body(address: Seq<u8>) -> Seq<u8> {
    ("{\"jsonrpc\":\"2.0\",\"id\":1,\"method\":\"getBalance\",\"params\":[\"").spec_bytes()
        + esc(address) + ("\",{\"commitment\":\"confirmed\"}]}").spec_bytes()
}

/// Builds the balance request body for an account's base58 text.
pub fn balance_request_body(address: &Vec<u8>) -> (r: Vec<u8>)
    ensures
        r@ == balance_body(address@),
{
    let mut out: Vec<u8> = Vec::new();
    jsonb::push_lit(
        &mut out,
        "{\"jsonrpc\":\"2.0\",\"id\":1,\"method\":\"getBalance\",\"params\":[\"",
    );
    jsonb::push_escaped(&mut out, address);
    jsonb::push_lit(&mut out, "\",{\"commitment\":\"confirmed\"}]}");
    proof {
        assert(out@ =~= balance_body(address@));
    }
    out
}

/// Reads a balance reply: the numeric result value, or a protocol error when
/// the response lacked it.
pub fn balance_from_reply(value: Option<u64>) -> (r: Result<u64, MintError>)
    ensures
        value matches Some(n) ==> r matches Ok(m) && m == n,
        value is None ==> (r matches Err(e) && e@ == crate::errors::MintErrorV::Protocol),
{
    match value {
        Option::Some(n) => Ok(n),
        Option::None => Err(MintError::Protocol),
    }
}

} // verus!
