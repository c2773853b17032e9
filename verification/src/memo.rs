//! The memo encoder: canonicalizes a structured record into a deterministic,
//! size-bounded byte payload, deriving a short content hash when the caller
//! supplies none.
//!
//! Text is carried as UTF-8 bytes; the numeric attribute is a whole number of
//! megawatts. The boundary layer converts to and from its own richer types.
use vstd::prelude::*;
use vstd::string::StringSliceAdditionalSpecFns;
use sha2::{Digest, Sha256};
use crate::jsonb;
use crate::jsonb::{dec_of, hex_bytes, json_string};
use crate::errors::{MintError, MintErrorV};
use crate::MEMO_MAX_BYTES;

verus! {

/// Schema version written into every record.
pub const MEMO_SCHEMA_VERSION: u8 = 1;

/// A caller-supplied request to write one record.
#[derive(Debug, PartialEq, Eq, Clone)]
pub struct MintRequest {
    pub location_id: Vec<u8>,
    pub name: Option<Vec<u8>>,
    pub capacity_mw: Option<u64>,
    pub grade: Option<Vec<u8>>,
    pub report_hash: Option<Vec<u8>>,
}

/// The mathematical value of a `MintRequest`.
pub struct MintRequestV {
    pub location_id: Seq<u8>,
    pub name: Option<Seq<u8>>,
    pub capacity_mw: Option<u64>,
    pub grade: Option<Seq<u8>>,
    pub report_hash: Option<Seq<u8>>,
}

impl View for MintRequest {
    type V = MintRequestV;

    open spec fn view(&self) -> MintRequestV {
        MintRequestV {
            location_id: self.location_id@,
            name: opt_bytes(self.name),
            capacity_mw: self.capacity_mw,
            grade: opt_bytes(self.grade),
            report_hash: opt_bytes(self.report_hash),
        }
    }
}

/// The canonical, versioned record written on-chain.
#[derive(Debug, PartialEq, Eq, Clone)]
pub struct MemoRecord {
    pub record_type: Vec<u8>,
    pub version: u8,
    pub location_id: Vec<u8>,
    pub name: Option<Vec<u8>>,
    pub capacity_mw: Option<u64>,
    pub feasibility_grade: Option<Vec<u8>>,
    pub timestamp: Vec<u8>,
    pub report_hash: Vec<u8>,
}

/// The mathematical value of a `MemoRecord`.
pub struct MemoRecordV {
    pub record_type: Seq<u8>,
    pub version: u8,
    pub location_id: Seq<u8>,
    pub name: Option<Seq<u8>>,
    pub capacity_mw: Option<u64>,
    pub feasibility_grade: Option<Seq<u8>>,
    pub timestamp: Seq<u8>,
    pub report_hash: Seq<u8>,
}

impl View for MemoRecord {
    type V = MemoRecordV;

    open spec fn view(&self) -> MemoRecordV {
        MemoRecordV {
            record_type: self.record_type@,
            version: self.version,
            location_id: self.location_id@,
            name: opt_bytes(self.name),
            capacity_mw: self.capacity_mw,
            feasibility_grade: opt_bytes(self.feasibility_grade),
            timestamp: self.timestamp@,
            report_hash: self.report_hash@,
        }
    }
}

/// A record together with its canonical serialization.
pub struct EncodedMemo {
    pub record: MemoRecord,
    pub payload: Vec<u8>,
}

/// The view of an optional byte vector.
pub open spec fn opt_bytes(o: Option<Vec<u8>>) -> Option<Seq<u8>> {
    match o {
        Option::Some(v) => Option::Some(v@),
        Option::None => Option::None,
    }
}

/// The fixed record-type tag.
pub open spec fn record_type_bytes() -> Seq<u8> {
    ("orbital-atlas-dc-record").spec_bytes()
}

/// The bytes of an optional text field: a JSON string, or `null`.
pub open spec fn json_opt_string(o: Option<Seq<u8>>) -> Seq<u8> {
    match o {
        Option::Some(v) => json_string(v),
        Option::None => ("null").spec_bytes(),
    }
}

/// The bytes of an optional numeric field: decimal digits, or `null`.
pub open spec fn json_opt_dec(o: Option<u64>) -> Seq<u8> {
    match o {
        Option::Some(n) => dec_of(n as nat),
        Option::None => ("null").spec_bytes(),
    }
}

/// Canonical serialization of a request: one JSON object with a stable field
/// order. The timestamp is no part of it, so the derived hash is
/// timestamp-independent.
pub open spec fn request_json(req: MintRequestV) -> Seq<u8> {
    ("{\"location_id\":").spec_bytes() + json_string(req.location_id)
        + (",\"name\":").spec_bytes() + json_opt_string(req.name)
        + (",\"capacity_mw\":").spec_bytes() + json_opt_dec(req.capacity_mw)
        + (",\"grade\":").spec_bytes() + json_opt_string(req.grade)
        + (",\"report_hash\":").spec_bytes() + json_opt_string(req.report_hash)
        + ("}").spec_bytes()
}

/// Canonical serialization of a record: one JSON object with a stable field
/// order.
pub open spec fn memo_json(r: MemoRecordV) -> Seq<u8> {
    ("{\"type\":").spec_bytes() + json_string(r.record_type)
        + (",\"version\":").spec_bytes() + dec_of(r.version as nat)
        + (",\"location_id\":").spec_bytes() + json_string(r.location_id)
        + (",\"name\":").spec_bytes() + json_opt_string(r.name)
        + (",\"capacity_mw\":").spec_bytes() + json_opt_dec(r.capacity_mw)
        + (",\"feasibility_grade\":").spec_bytes() + json_opt_string(r.feasibility_grade)
        + (",\"timestamp\":").spec_bytes() + json_string(r.timestamp)
        + (",\"report_hash\":").spec_bytes() + json_string(r.report_hash)
        + ("}").spec_bytes()
}

/// The SHA-256 digest of a byte sequence.
pub uninterp spec fn sha256_of(data: Seq<u8>) -> Seq<u8>;

/// Relies on sha2::Sha256: the digest is a pure function of the input bytes
/// alone and is exactly 32 bytes long.
#[verifier::external_body]
fn sha256(data: &Vec<u8>) -> (r: Vec<u8>)
    ensures
        r@ == sha256_of(data@),
        r@.len() == 32,
{
    let mut hasher = Sha256::new();
    hasher.update(data.as_slice());
    hasher.finalize().to_vec()
}

/// Relies on hex::encode: lowercase hexadecimal, two digits per input byte,
/// in input order.
#[verifier::external_body]
fn hex_encode(data: &Vec<u8>) -> (r: Vec<u8>)
    ensures
        r@ == hex_bytes(data@),
{
    hex::encode(data.as_slice()).into_bytes()
}

/// Relies on chrono::Utc::now / to_rfc3339: the current UTC time in RFC 3339
/// form. The result depends on the clock, so nothing further is assumed of it.
#[verifier::external_body]
fn now_rfc3339() -> Vec<u8>
{
    chrono::Utc::now().to_rfc3339().into_bytes()
}

/// The derived content hash of a request: the first 8 digest bytes of its
/// canonical serialization, in lowercase hexadecimal.
pub open spec fn spec_hash_request(req: MintRequestV) -> Seq<u8> {
    hex_bytes(sha256_of(request_json(req)).take(8))
}

/// The content hash a record carries: the caller's, or the derived one.
pub open spec fn spec_report_hash(req: MintRequestV) -> Seq<u8> {
    match req.report_hash {
        Option::Some(h) => h,
        Option::None => spec_hash_request(req),
    }
}

/// The record built for a request at a given timestamp: fixed tag and
/// version, the request's fields verbatim, and its content hash.
pub open spec fn spec_build_memo(req: MintRequestV, timestamp: Seq<u8>) -> MemoRecordV {
    MemoRecordV {
        record_type: record_type_bytes(),
        version: MEMO_SCHEMA_VERSION,
        location_id: req.location_id,
        name: req.name,
        capacity_mw: req.capacity_mw,
        feasibility_grade: req.grade,
        timestamp,
        report_hash: spec_report_hash(req),
    }
}

/// Serializes a request canonically.
pub fn request_json_bytes(req: &MintRequest) -> (r: Vec<u8>)
    ensures
        r@ == request_json(req@),
{
    let mut out: Vec<u8> = Vec::new();
    jsonb::push_lit(&mut out, "{\"location_id\":");
    jsonb::push_json_string(&mut out, &req.location_id);
    jsonb::push_lit(&mut out, ",\"name\":");
    push_opt_string(&mut out, &req.name);
    jsonb::push_lit(&mut out, ",\"capacity_mw\":");
    push_opt_dec(&mut out, &req.capacity_mw);
    jsonb::push_lit(&mut out, ",\"grade\":");
    push_opt_string(&mut out, &req.grade);
    jsonb::push_lit(&mut out, ",\"report_hash\":");
    push_opt_string(&mut out, &req.report_hash);
    jsonb::push_lit(&mut out, "}");
    proof {
        assert(out@ =~= request_json(req@));
    }
    out
}

/// Serializes a record canonically.
pub fn memo_json_bytes(r: &MemoRecord) -> (out: Vec<u8>)
    ensures
        out@ == memo_json(r@),
{
    let mut out: Vec<u8> = Vec::new();
    jsonb::push_lit(&mut out, "{\"type\":");
    jsonb::push_json_string(&mut out, &r.record_type);
    jsonb::push_lit(&mut out, ",\"version\":");
    jsonb::push_dec(&mut out, r.version as u64);
    jsonb::push_lit(&mut out, ",\"location_id\":");
    jsonb::push_json_string(&mut out, &r.location_id);
    jsonb::push_lit(&mut out, ",\"name\":");
    push_opt_string(&mut out, &r.name);
    jsonb::push_lit(&mut out, ",\"capacity_mw\":");
    push_opt_dec(&mut out, &r.capacity_mw);
    jsonb::push_lit(&mut out, ",\"feasibility_grade\":");
    push_opt_string(&mut out, &r.feasibility_grade);
    jsonb::push_lit(&mut out, ",\"timestamp\":");
    jsonb::push_json_string(&mut out, &r.timestamp);
    jsonb::push_lit(&mut out, ",\"report_hash\":");
    jsonb::push_json_string(&mut out, &r.report_hash);
    jsonb::push_lit(&mut out, "}");
    proof {
        assert(out@ =~= memo_json(r@));
    }
    out
}

fn push_opt_string(out: &mut Vec<u8>, o: &Option<Vec<u8>>)
    ensures
        final(out)@ == old(out)@ + json_opt_string(opt_bytes(*o)),
{
    match o {
        Option::Some(v) => jsonb::push_json_string(out, v),
        Option::None => jsonb::push_lit(out, "null"),
    }
}

fn push_opt_dec(out: &mut Vec<u8>, o: &Option<u64>)
    ensures
        final(out)@ == old(out)@ + json_opt_dec(*o),
{
    match o {
        Option::Some(n) => jsonb::push_dec(out, *n),
        Option::None => jsonb::push_lit(out, "null"),
    }
}

fn copy_opt_bytes(o: &Option<Vec<u8>>) -> (r: Option<Vec<u8>>)
    ensures
        opt_bytes(r) == opt_bytes(*o),
{
    match o {
        Option::Some(v) => Option::Some(jsonb::copy_bytes(v)),
        Option::None => Option::None,
    }
}

/// Derives the 16-character content hash of a request.
pub fn hash_request(req: &MintRequest) -> (r: Vec<u8>)
    ensures
        r@ == spec_hash_request(req@),
        r@.len() == 16,
{
    let json = request_json_bytes(req);
    let digest = sha256(&json);
    let mut head: Vec<u8> = Vec::new();
    let mut i: usize = 0;
    while i < 8
        invariant
            i <= 8,
            digest@.len() == 32,
            digest@ == sha256_of(request_json(req@)),
            head@ == digest@.take(i as int),
        decreases 8 - i,
    {
        head.push(digest[i]);
        proof {
            assert(head@ =~= digest@.take(i as int + 1));
        }
        i += 1;
    }
    let r = hex_encode(&head);
    proof {
        jsonb::lemma_hex_bytes_len(head@);
    }
    r
}

/// Builds the canonical record for a request at the given timestamp.
pub fn build_memo_at(req: &MintRequest, timestamp: Vec<u8>) -> (r: MemoRecord)
    ensures
        r@ == spec_build_memo(req@, timestamp@),
{
    let report_hash = match &req.report_hash {
        Option::Some(h) => jsonb::copy_bytes(h),
        Option::None => hash_request(req),
    };
    MemoRecord {
        record_type: jsonb::lit_vec("orbital-atlas-dc-record"),
        version: MEMO_SCHEMA_VERSION,
        location_id: jsonb::copy_bytes(&req.location_id),
        name: copy_opt_bytes(&req.name),
        capacity_mw: req.capacity_mw,
        feasibility_grade: copy_opt_bytes(&req.grade),
        timestamp,
        report_hash,
    }
}

/// Builds the canonical record for a request, timestamped with the current
/// UTC time. The clock decides the timestamp; every other field is pinned.
pub fn build_memo(req: &MintRequest) -> (r: MemoRecord)
    ensures
        r@ == spec_build_memo(req@, r@.timestamp),
{
    let timestamp = now_rfc3339();
    build_memo_at(req, timestamp)
}

/// Encodes a request into a record carrying the given timestamp, and the
/// record's canonical payload. Succeeds if and only if the payload fits the
/// memo capacity; an oversized record is refused with the caller-input error,
/// before any network call could be made.
pub fn encode_memo_at(req: &MintRequest, timestamp: Vec<u8>) -> (r: Result<EncodedMemo, MintError>)
    ensures
        r is Ok <==> memo_json(spec_build_memo(req@, timestamp@)).len() <= MEMO_MAX_BYTES,
        r matches Ok(em) ==> {
            &&& em.record@ == spec_build_memo(req@, timestamp@)
            &&& em.payload@ == memo_json(em.record@)
            &&& em.payload@.len() <= MEMO_MAX_BYTES
        },
        r matches Err(e) ==> e@ == (MintErrorV::PayloadTooLarge {
            size: memo_json(spec_build_memo(req@, timestamp@)).len(),
        }),
{
    let record = build_memo_at(req, timestamp);
    let payload = memo_json_bytes(&record);
    if payload.len() > MEMO_MAX_BYTES {
        Err(MintError::PayloadTooLarge { size: payload.len() })
    } else {
        Ok(EncodedMemo { record, payload })
    }
}

/// Encodes a request into a record and its canonical payload, timestamped
/// with the current UTC time. The clock decides the timestamp; for any value
/// of it, `encode_memo_at` says exactly what comes back.
pub fn encode_memo(req: &MintRequest) -> (r: Result<EncodedMemo, MintError>)
    ensures
        r matches Ok(em) ==> {
            &&& em.record@ == spec_build_memo(req@, em.record@.timestamp)
            &&& em.payload@ == memo_json(em.record@)
            &&& em.payload@.len() <= MEMO_MAX_BYTES
        },
        r matches Err(e) ==> (e@ matches MintErrorV::PayloadTooLarge { size }
            && size > MEMO_MAX_BYTES),
{
    let timestamp = now_rfc3339();
    encode_memo_at(req, timestamp)
}

/// Hash derivation is deterministic: two requests whose fields hold the same
/// values derive the same content hash, timestamps playing no part.
pub proof fn lemma_hash_deterministic(r1: MintRequestV, r2: MintRequestV)
    requires
        r1.location_id == r2.location_id,
        r1.name == r2.name,
        r1.capacity_mw == r2.capacity_mw,
        r1.grade == r2.grade,
        r1.report_hash == r2.report_hash,
    ensures
        spec_hash_request(r1) == spec_hash_request(r2),
{
    assert(request_json(r1) == request_json(r2));
}

} // verus!
