use memo_mint::errors::MintError;
use memo_mint::rpc::{
    balance_from_reply, balance_request_body, blockhash_request_body, status_request_body,
    submit_request_body,
};
use memo_mint::tx::{build_and_sign, MEMO_PROGRAM_ID};
use solana_keypair::Keypair;

#[test]
fn blockhash_body_is_fixed() {
    let expected: &[u8] = b"{\"jsonrpc\":\"2.0\",\"id\":1,\"method\":\"getLatestBlockhash\",\"params\":[{\"commitment\":\"confirmed\"}]}";
    assert_eq!(blockhash_request_body(), expected.to_vec());
}

#[test]
fn submit_body_encodes_transaction_in_base64() {
    // base64 of "abc" is "YWJj"; the wrapper must not hand the bytes back raw
    let body = submit_request_body(&b"abc".to_vec());
    let expected: &[u8] = b"{\"jsonrpc\":\"2.0\",\"id\":1,\"method\":\"sendTransaction\",\"params\":[\"YWJj\",{\"encoding\":\"base64\",\"preflightCommitment\":\"confirmed\"}]}";
    assert_eq!(body, expected.to_vec());
}

#[test]
fn submit_body_pads_short_tails() {
    // base64 of "a" is "YQ==", of "ab" is "YWI="
    let one = submit_request_body(&b"a".to_vec());
    let expected_one: &[u8] = b"{\"jsonrpc\":\"2.0\",\"id\":1,\"method\":\"sendTransaction\",\"params\":[\"YQ==\",{\"encoding\":\"base64\",\"preflightCommitment\":\"confirmed\"}]}";
    assert_eq!(one, expected_one.to_vec());
    let two = submit_request_body(&b"ab".to_vec());
    let expected_two: &[u8] = b"{\"jsonrpc\":\"2.0\",\"id\":1,\"method\":\"sendTransaction\",\"params\":[\"YWI=\",{\"encoding\":\"base64\",\"preflightCommitment\":\"confirmed\"}]}";
    assert_eq!(two, expected_two.to_vec());
}

#[test]
fn build_and_sign_rejects_non_utf8_token() {
    let payer = Keypair::new();
    let token = vec![0xff, 0xfe, 0xfd];
    assert_eq!(
        build_and_sign(&b"payload".to_vec(), &payer, &token),
        Err(MintError::Protocol)
    );
}

#[test]
fn status_body_quotes_signature() {
    let body = status_request_body(&b"mySig".to_vec());
    let expected: &[u8] =
        b"{\"jsonrpc\":\"2.0\",\"id\":1,\"method\":\"getSignatureStatuses\",\"params\":[[\"mySig\"]]}";
    assert_eq!(body, expected.to_vec());
}

#[test]
fn balance_body_quotes_address() {
    let body = balance_request_body(&b"SomeAddress".to_vec());
    let expected: &[u8] = b"{\"jsonrpc\":\"2.0\",\"id\":1,\"method\":\"getBalance\",\"params\":[\"SomeAddress\",{\"commitment\":\"confirmed\"}]}";
    assert_eq!(body, expected.to_vec());
}

#[test]
fn balance_reply_needs_a_value() {
    assert_eq!(balance_from_reply(Some(12345)), Ok(12345));
    assert_eq!(balance_from_reply(None), Err(MintError::Protocol));
}

#[test]
fn build_and_sign_produces_wire_bytes() {
    let payer = Keypair::new();
    // base58 text of the all-zero 32-byte hash: a recognizable fresh token
    let token = b"11111111111111111111111111111111".to_vec();
    let wire = build_and_sign(&b"{\"type\":\"x\"}".to_vec(), &payer, &token).expect("signs");
    assert!(!wire.is_empty());
}

#[test]
fn build_and_sign_rejects_malformed_token() {
    let payer = Keypair::new();
    let token = b"not a blockhash!".to_vec();
    assert_eq!(
        build_and_sign(&b"payload".to_vec(), &payer, &token),
        Err(MintError::Protocol)
    );
}

#[test]
fn memo_program_id_is_well_formed() {
    assert_eq!(MEMO_PROGRAM_ID.len(), 43);
    let payer = Keypair::new();
    let token = b"11111111111111111111111111111111".to_vec();
    // were the fixed program id malformed, this would be
    // InvalidProgramReference instead of a signed transaction
    assert!(build_and_sign(&b"m".to_vec(), &payer, &token).is_ok());
}
