//! The compute core of an off-chain transfer: turning the wallet's
//! spendable snapshot into selector candidates, resolving a selection back
//! into the outputs to spend, and splitting the spent value between the
//! destination and the change — conserving value exactly.
//!
//! Building and signing the actual redeem transaction is the signing
//! collaborator's job; it receives the plan drawn up here.

use vstd::prelude::*;

use crate::coin_select::CoinCandidate;
use crate::types::{OutPoint, VirtualOutput, VtxoInput};
use crate::RoundError;

verus! {

/// The selector candidate standing for one spendable off-chain output.
pub open spec fn to_candidate(v: VirtualOutput) -> CoinCandidate {
    CoinCandidate { outpoint: v.outpoint, amount: v.amount, expire_at: v.expire_at }
}

/// The round input standing for one spendable off-chain output.
pub open spec fn to_vtxo_input(v: VirtualOutput) -> VtxoInput {
    VtxoInput { outpoint: v.outpoint, amount: v.amount }
}

/// Whether some candidate in `s` spends `op`.
pub open spec fn contains_outpoint(s: Seq<CoinCandidate>, op: OutPoint) -> bool {
    exists|i: int| 0 <= i < s.len() && s[i].outpoint == op
}

/// Turns the spendable snapshot into selector candidates, in order.
pub fn coin_candidates(spendable: &Vec<VirtualOutput>) -> (r: Vec<CoinCandidate>)
    ensures
        r@ == spendable@.map_values(|v: VirtualOutput| to_candidate(v)),
{
    let mut r: Vec<CoinCandidate> = Vec::new();
    let n = spendable.len();
    for i in 0..n
        invariant
            n == spendable@.len(),
            r@ == spendable@.take(i as int).map_values(|v: VirtualOutput| to_candidate(v)),
    {
        let v = spendable[i];
        r.push(CoinCandidate { outpoint: v.outpoint, amount: v.amount, expire_at: v.expire_at });
        proof {
            assert(r@ =~= spendable@.take(i + 1).map_values(
                |v: VirtualOutput| to_candidate(v),
            ));
        }
    }
    proof {
        assert(spendable@.take(n as int) =~= spendable@);
    }
    r
}

/// Whether the selection spends `op`.
fn is_selected(selected: &Vec<CoinCandidate>, op: OutPoint) -> (r: bool)
    ensures
        r == contains_outpoint(selected@, op),
{
    let n = selected.len();
    for j in 0..n
        invariant
            n == selected@.len(),
            forall|k: int| 0 <= k < j ==> selected@[k].outpoint != op,
    {
        if selected[j].outpoint == op {
            return true;
        }
    }
    false
}

/// Resolves a selection back into the outputs to spend: exactly those
/// spendable outputs whose outpoint the selection picked, in snapshot
/// order.
pub fn selected_vtxo_inputs(spendable: &Vec<VirtualOutput>, selected: &Vec<CoinCandidate>) -> (r:
    Vec<VtxoInput>)
    ensures
        r@ == spendable@.filter(
            |v: VirtualOutput| contains_outpoint(selected@, v.outpoint),
        ).map_values(|v: VirtualOutput| to_vtxo_input(v)),
{
    let mut r: Vec<VtxoInput> = Vec::new();
    let n = spendable.len();
    for i in 0..n
        invariant
            n == spendable@.len(),
            r@ == spendable@.take(i as int).filter(
                |v: VirtualOutput| contains_outpoint(selected@, v.outpoint),
            ).map_values(|v: VirtualOutput| to_vtxo_input(v)),
    {
        let v = spendable[i];
        let hit = is_selected(selected, v.outpoint);
        proof {
            reveal(Seq::filter);
            assert(spendable@.take(i + 1).drop_last() =~= spendable@.take(i as int));
            assert(spendable@.take(i + 1).last() == spendable@[i as int]);
        }
        if hit {
            r.push(VtxoInput { outpoint: v.outpoint, amount: v.amount });
            proof {
                let p = |v: VirtualOutput| contains_outpoint(selected@, v.outpoint);
                assert(spendable@.take(i + 1).filter(p) == spendable@.take(i as int).filter(
                    p,
                ).push(spendable@[i as int]));
                assert(r@ =~= spendable@.take(i + 1).filter(p).map_values(
                    |v: VirtualOutput| to_vtxo_input(v),
                ));
            }
        } else {
            proof {
                let p = |v: VirtualOutput| contains_outpoint(selected@, v.outpoint);
                assert(spendable@.take(i + 1).filter(p) == spendable@.take(i as int).filter(p));
            }
        }
    }
    proof {
        assert(spendable@.take(n as int) =~= spendable@);
    }
    r
}

/// How one off-chain transfer splits the spent value.
#[derive(Clone, Copy, Debug, PartialEq, Eq, Structural)]
pub struct RedeemPlan {
    /// Satoshis paid to the destination address.
    pub to_amount: u64,
    /// Satoshis returned to the wallet's own change address; a zero here
    /// means no change output is created.
    pub change_amount: u64,
}

/// Splits the selected inputs' total between the destination and the
/// change. No value is created or destroyed: the two outputs always add
/// up to exactly the spent total. Fails with `InsufficientFunds` when the
/// inputs cannot pay the requested amount.
pub fn plan_redeem(inputs_total: u64, amount: u64) -> (r: Result<RedeemPlan, RoundError>)
    ensures
        r is Ok <==> amount <= inputs_total,
        r matches Ok(plan) ==> {
            &&& plan.to_amount == amount
            &&& plan.change_amount == inputs_total - amount
            &&& plan.to_amount + plan.change_amount == inputs_total
        },
        r is Err ==> r->Err_0 == RoundError::InsufficientFunds,
{
    if amount > inputs_total {
        Err(RoundError::InsufficientFunds)
    } else {
        Ok(RedeemPlan { to_amount: amount, change_amount: inputs_total - amount })
    }
}

} // verus!
