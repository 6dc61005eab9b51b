//! The check that stands between a defender's answer and the board: an
//! answer is recorded only when its proof is accepted.

use crate::host::{proof_bytes, proof_differs, proof_from_array};
use crate::types::PendingShot;
use vstd::prelude::*;

verus! {

/// Number of bytes in a proof.
pub const PROOF_LEN: usize = 256;

/// Which proofs are accepted: every proof but the all-zero one. This stands
/// in for the verification of a zero-knowledge proof that the answer agrees
/// with the committed fleet; it binds nothing and gives no security.
pub open spec fn proof_accepted(proof: Seq<u8>) -> bool {
    proof != Seq::new(256, |i: int| 0u8)
}

/// Decides whether `proof` is accepted as showing that the defender's
/// committed fleet holds `response` at the cell targeted by `pending`.
pub fn verify_zk_proof(
    env: &soroban_sdk::Env,
    proof: &soroban_sdk::BytesN<256>,
    pending: &PendingShot,
    response: u32,
) -> (ok: bool)
    ensures
        ok == proof_accepted(proof_bytes(*proof)),
{
    let zeros: [u8; 256] = [0u8; 256];
    let zero_proof = proof_from_array(env, &zeros);
    proof {
        assert(zeros@ =~= Seq::new(256, |i: int| 0u8));
    }
    proof_differs(proof, &zero_proof)
}

} // verus!
