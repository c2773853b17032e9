use memo_mint::errors::MintError;
use memo_mint::memo::{
    build_memo, encode_memo, hash_request, memo_json_bytes, request_json_bytes, MintRequest,
};
use memo_mint::MEMO_MAX_BYTES;

fn sample_request() -> MintRequest {
    MintRequest {
        location_id: b"iceland-reykjavik".to_vec(),
        name: Some(b"Test DC".to_vec()),
        capacity_mw: Some(50),
        grade: Some(b"A".to_vec()),
        report_hash: None,
    }
}

#[test]
fn test_build_memo_structure() {
    let req = sample_request();
    let memo = build_memo(&req);
    assert_eq!(memo.record_type, b"orbital-atlas-dc-record".to_vec());
    assert_eq!(memo.version, 1);
    assert_eq!(memo.location_id, b"iceland-reykjavik".to_vec());
    assert_eq!(memo.report_hash.len(), 16);
}

#[test]
fn test_memo_size_within_limit() {
    let req = MintRequest {
        location_id: b"iceland-reykjavik".to_vec(),
        name: Some(b"AcmeCorp Green-1".to_vec()),
        capacity_mw: Some(50),
        grade: Some(b"A".to_vec()),
        report_hash: Some(b"abcdef1234567890".to_vec()),
    };
    let memo = build_memo(&req);
    let json = memo_json_bytes(&memo);
    assert!(
        json.len() <= MEMO_MAX_BYTES,
        "Memo {} bytes exceeds {} limit",
        json.len(),
        MEMO_MAX_BYTES
    );
}

#[test]
fn test_hash_deterministic() {
    let req = MintRequest {
        location_id: b"test".to_vec(),
        name: None,
        capacity_mw: None,
        grade: None,
        report_hash: None,
    };
    let h1 = hash_request(&req);
    let h2 = hash_request(&req);
    assert_eq!(h1, h2);
    assert_eq!(h1.len(), 16);
}

#[test]
fn request_json_is_canonical() {
    let req = MintRequest {
        location_id: b"a".to_vec(),
        name: None,
        capacity_mw: None,
        grade: None,
        report_hash: None,
    };
    let expected: &[u8] =
        b"{\"location_id\":\"a\",\"name\":null,\"capacity_mw\":null,\"grade\":null,\"report_hash\":null}";
    assert_eq!(request_json_bytes(&req), expected.to_vec());
}

#[test]
fn request_json_escapes_special_bytes() {
    let req = MintRequest {
        location_id: b"a\"b\\c\nd\x01e".to_vec(),
        name: None,
        capacity_mw: None,
        grade: None,
        report_hash: None,
    };
    let expected: &[u8] = b"{\"location_id\":\"a\\\"b\\\\c\\nd\\u0001e\",\"name\":null,\"capacity_mw\":null,\"grade\":null,\"report_hash\":null}";
    assert_eq!(request_json_bytes(&req), expected.to_vec());
}

#[test]
fn derived_hash_matches_known_digest() {
    // sha-256 of the canonical serialization of `sample_request`, first 8
    // bytes, lowercase hex
    let memo = build_memo(&sample_request());
    assert_eq!(memo.report_hash, b"c4fbe959668e0a98".to_vec());

    let req = MintRequest {
        location_id: b"test".to_vec(),
        name: None,
        capacity_mw: None,
        grade: None,
        report_hash: None,
    };
    assert_eq!(hash_request(&req), b"36f76b5a2a2a2c09".to_vec());
}

#[test]
fn caller_hash_is_kept_verbatim() {
    let mut req = sample_request();
    req.report_hash = Some(b"abcdef1234567890".to_vec());
    let memo = build_memo(&req);
    assert_eq!(memo.report_hash, b"abcdef1234567890".to_vec());
}

#[test]
fn encode_memo_accepts_fitting_record() {
    let encoded = encode_memo(&sample_request()).expect("fits");
    assert!(encoded.payload.len() <= MEMO_MAX_BYTES);
    assert_eq!(encoded.payload, memo_json_bytes(&encoded.record));
    assert_eq!(encoded.record.version, 1);
    assert_eq!(encoded.record.feasibility_grade, Some(b"A".to_vec()));
    assert_eq!(encoded.record.capacity_mw, Some(50));
}

#[test]
fn encode_memo_rejects_oversized_record() {
    let mut req = sample_request();
    req.name = Some(vec![b'x'; 600]);
    match encode_memo(&req) {
        Err(MintError::PayloadTooLarge { size }) => assert!(size > MEMO_MAX_BYTES),
        other => panic!("expected PayloadTooLarge, got {:?}", other.is_ok()),
    }
}

#[test]
fn error_descriptions_are_fixed() {
    assert_eq!(
        MintError::ConfirmationTimedOut.describe(),
        b"transaction confirmation timeout".to_vec()
    );
    assert_eq!(
        MintError::PayloadTooLarge { size: 600 }.describe(),
        b"memo too large: 600 bytes, max 566".to_vec()
    );
    assert_eq!(
        MintError::RemoteRejected { detail: b"stale blockhash".to_vec() }.describe(),
        b"rpc error: stale blockhash".to_vec()
    );
}
