//! A client for attaching size-bounded memo records to a remote ledger:
//! canonical record encoding with a derived content hash, transaction
//! building and signing, exact JSON-RPC request envelopes, and a bounded
//! confirmation state machine, each step carrying a proved contract. The
//! network itself is driven by a thin boundary layer that performs the round
//! trips the flow machine asks for.
use vstd::prelude::*;

pub mod errors;
pub mod flow;
pub mod jsonb;
pub mod memo;
pub mod poll;
pub mod rpc;
pub mod tx;

verus! {

/// Maximum length, in bytes, of a memo record's canonical serialization:
/// the on-chain memo capacity.
pub const MEMO_MAX_BYTES: usize = 566;

} // verus!
