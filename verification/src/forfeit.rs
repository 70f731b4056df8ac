//! Forfeit planning: for every off-chain output consumed by a round, the
//! wallet owes the coordinator one forfeit transaction paying that output,
//! less the fee, to the coordinator's forfeit address.
//!
//! The plans are drawn up for the whole consumed set at once: either every
//! consumed output gets a plan, or planning fails and none is signed.
//! A forfeit output below the server's dust threshold is disallowed and
//! fails planning rather than being rounded away.

use vstd::prelude::*;

use crate::types::{OutPoint, VtxoInput};
use crate::RoundError;

verus! {

/// The shape of one forfeit transaction: which consumed output it spends
/// and the value it pays to the coordinator's forfeit address. Building
/// and signing the actual transaction is the signing collaborator's job.
#[derive(Clone, Copy, Debug, PartialEq, Eq, Structural)]
pub struct ForfeitPlan {
    pub outpoint: OutPoint,
    /// Value in satoshis paid to the forfeit address: the consumed
    /// output's amount less the fee.
    pub value: u64,
}

/// Every consumed output can pay the fee and still leave a forfeit output
/// at or above the dust threshold.
pub open spec fn forfeits_plannable(inputs: Seq<VtxoInput>, fee_per_tx: u64, dust: u64) -> bool {
    forall|i: int| 0 <= i < inputs.len() ==> inputs[i].amount >= fee_per_tx + dust
}

/// Plans the forfeit transactions for the whole consumed set.
///
/// Succeeds with one plan per consumed output, in order, if and only if
/// every consumed output covers the fee plus the dust threshold; otherwise
/// nothing is planned and the round must abort.
pub fn plan_forfeits(inputs: &Vec<VtxoInput>, fee_per_tx: u64, dust: u64) -> (r: Result<
    Vec<ForfeitPlan>,
    RoundError,
>)
    ensures
        r is Ok <==> forfeits_plannable(inputs@, fee_per_tx, dust),
        r matches Ok(plans) ==> {
            &&& plans@.len() == inputs@.len()
            &&& forall|i: int| 0 <= i < inputs@.len() ==> {
                &&& (#[trigger] plans@[i]).outpoint == inputs@[i].outpoint
                &&& plans@[i].value == inputs@[i].amount - fee_per_tx
                &&& plans@[i].value >= dust
            }
        },
        r is Err ==> r->Err_0 == RoundError::BelowDustThreshold,
{
    let mut plans: Vec<ForfeitPlan> = Vec::new();
    let n = inputs.len();
    for i in 0..n
        invariant
            n == inputs@.len(),
            plans@.len() == i,
            forall|k: int| 0 <= k < i ==> {
                &&& (#[trigger] plans@[k]).outpoint == inputs@[k].outpoint
                &&& plans@[k].value == inputs@[k].amount - fee_per_tx
                &&& plans@[k].value >= dust
            },
            forall|k: int| 0 <= k < i ==> inputs@[k].amount >= fee_per_tx + dust,
    {
        let input = inputs[i];
        if input.amount < fee_per_tx {
            return Err(RoundError::BelowDustThreshold);
        }
        let value = input.amount - fee_per_tx;
        if value < dust {
            return Err(RoundError::BelowDustThreshold);
        }
        plans.push(ForfeitPlan { outpoint: input.outpoint, value });
    }
    Ok(plans)
}

} // verus!
