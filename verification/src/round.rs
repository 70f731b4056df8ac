//! The round settlement orchestrator: a state machine that drives one
//! settlement round against the coordinator.
//!
//! The machine is pure: it maps the current session and one observed event
//! to the next session and at most one RPC action to perform. The
//! surrounding driver performs the action (a blocking coordinator call, a
//! signing job) and feeds the outcome back as the next event. One session
//! corresponds to one logical round; its sequence is strictly linear.
//!
//! Any event that does not match the state being awaited, or that carries
//! a round id other than the one this session locked onto, aborts the
//! round with `ProtocolViolation`: there is no recovery mid-round. Once a
//! session is terminal it never emits another action.

use vstd::prelude::*;

use crate::forfeit::{forfeits_plannable, plan_forfeits, ForfeitPlan};
use crate::types::{BoardingInput, OutPoint, Txid, VtxoInput};
use crate::RoundError;

verus! {

/// Coordinator-assigned handle correlating this wallet's registrations to
/// one round.
#[derive(Clone, Copy, Debug, PartialEq, Eq, Structural)]
pub struct PaymentId {
    pub id: u64,
}

/// Coordinator-assigned identifier for the round instance; it must stay
/// the same across a round's whole event sequence.
#[derive(Clone, Copy, Debug, PartialEq, Eq, Structural)]
pub struct RoundId {
    pub id: u64,
}

/// A registration record for one input contributed to the round. The
/// transport collaborator attaches the input's tapscript alternatives.
#[derive(Clone, Copy, Debug, PartialEq, Eq, Structural)]
pub struct RoundInput {
    pub outpoint: OutPoint,
    /// Whether this is an on-chain boarding input (as opposed to an
    /// off-chain one).
    pub boarding: bool,
}

/// Where a session stands in its round.
#[derive(Clone, Copy, Debug, PartialEq, Eq, Structural)]
pub enum RoundState {
    /// Input registration has been requested; the payment id is pending.
    Idle,
    /// Inputs are registered under the held payment id; output
    /// registration has been requested.
    InputsRegistered { payment_id: PaymentId },
    /// Outputs are registered; the keep-alive ping and the event stream
    /// are being opened.
    OutputsRegistered { payment_id: PaymentId },
    /// Waiting for the coordinator to start the signing phase.
    AwaitingSigning,
    /// Nonces are submitted; waiting for the aggregated nonce tree.
    AwaitingNoncesAggregated { round_id: RoundId, node_count: usize },
    /// Tree signatures are submitted; waiting for the finalization data.
    AwaitingFinalization { round_id: RoundId },
    /// Forfeits (and the round transaction, if owed) are submitted;
    /// waiting for the final round transaction id.
    AwaitingFinalized { round_id: RoundId },
    /// The round completed with this on-chain transaction id.
    Finalized { round_txid: Txid },
    /// There was nothing to settle; the coordinator was never contacted.
    NoOp,
    /// The round aborted; no further RPC is ever issued.
    Failed { error: RoundError },
}

/// What the driver observes: the outcome of the last requested RPC, or
/// the next event of the coordinator's stream.
#[derive(Clone, Copy, Debug, PartialEq, Eq, Structural)]
pub enum RoundEvent {
    /// The coordinator acknowledged the input registrations.
    PaymentIdAssigned { payment_id: PaymentId },
    /// The coordinator acknowledged the output registrations.
    OutputsAcked,
    /// The keep-alive ping went through and the event stream is open.
    SessionOpened,
    /// The coordinator published the unsigned output tree; one nonce pair
    /// is owed per tree node.
    RoundSigning { round_id: RoundId, node_count: usize },
    /// The coordinator aggregated all participants' nonces, node by node.
    RoundSigningNoncesGenerated { round_id: RoundId, nonce_count: usize },
    /// The coordinator published the finalization parameters; the fee
    /// each forfeit transaction owes follows its minimum relay fee rate.
    RoundFinalization { round_id: RoundId, forfeit_fee: u64 },
    /// The coordinator broadcast the round transaction.
    RoundFinalized { round_id: RoundId, round_txid: Txid },
    /// The event stream ended or failed before the round completed.
    StreamClosed,
}

/// An RPC for the driver to perform against the coordinator.
#[derive(Clone, Debug)]
pub enum RoundAction {
    /// Register these inputs for the next round.
    RegisterInputs { inputs: Vec<RoundInput> },
    /// Register one virtual output paying the whole spendable amount to
    /// the session's destination, with a fresh ephemeral cosigner key
    /// attached.
    RegisterOutputs { payment_id: PaymentId, output_amount: u64 },
    /// Send the keep-alive ping and open the event stream.
    OpenSession { payment_id: PaymentId },
    /// Generate one nonce pair per node of the unsigned tree and submit
    /// the public nonce tree.
    SubmitTreeNonces { round_id: RoundId, node_count: usize },
    /// Compute one partial signature per node under the cosigner key and
    /// submit the partial signature tree.
    SubmitTreeSignatures { round_id: RoundId, node_count: usize },
    /// Build and sign every planned forfeit transaction, sign the round
    /// transaction if boarding inputs were registered, and submit them.
    SubmitForfeits { forfeits: Vec<ForfeitPlan>, sign_round_psbt: bool },
}

/// The RPC kinds, for stating in which order a session may issue them.
#[derive(Clone, Copy, Debug, PartialEq, Eq, Structural)]
pub enum RpcKind {
    RegisterInputs,
    RegisterOutputs,
    OpenSession,
    SubmitTreeNonces,
    SubmitTreeSignatures,
    SubmitForfeits,
}

/// One wallet's run at one round.
#[derive(Debug)]
pub struct RoundSession {
    pub state: RoundState,
    /// The off-chain outputs consumed by this round, owed as forfeits.
    pub vtxo_inputs: Vec<VtxoInput>,
    /// The on-chain boarding outputs contributed to this round.
    pub boarding_inputs: Vec<BoardingInput>,
    /// The amount registered as the round's output: exactly the total of
    /// the registered inputs, so the round conserves value.
    pub output_amount: u64,
    /// The server's dust threshold, which every forfeit output must meet.
    pub dust: u64,
}

/// Total amount over off-chain round inputs.
pub open spec fn vtxo_inputs_total(s: Seq<VtxoInput>) -> int
    decreases s.len(),
{
    if s.len() == 0 {
        0
    } else {
        vtxo_inputs_total(s.drop_last()) + s.last().amount
    }
}

/// Total amount over boarding round inputs.
pub open spec fn boarding_inputs_total(s: Seq<BoardingInput>) -> int
    decreases s.len(),
{
    if s.len() == 0 {
        0
    } else {
        boarding_inputs_total(s.drop_last()) + s.last().amount
    }
}

proof fn lemma_vtxo_inputs_total_take_le(s: Seq<VtxoInput>, j: int)
    requires
        0 <= j <= s.len(),
    ensures
        vtxo_inputs_total(s.take(j)) <= vtxo_inputs_total(s),
        vtxo_inputs_total(s) >= 0,
    decreases s.len() - j,
{
    if j < s.len() {
        lemma_vtxo_inputs_total_take_le(s, j + 1);
        assert(s.take(j + 1).drop_last() =~= s.take(j));
    } else {
        assert(s.take(j) =~= s);
        lemma_vtxo_inputs_total_nonneg(s);
    }
}

proof fn lemma_vtxo_inputs_total_nonneg(s: Seq<VtxoInput>)
    ensures
        vtxo_inputs_total(s) >= 0,
    decreases s.len(),
{
    if s.len() > 0 {
        lemma_vtxo_inputs_total_nonneg(s.drop_last());
    }
}

proof fn lemma_boarding_inputs_total_take_le(s: Seq<BoardingInput>, j: int)
    requires
        0 <= j <= s.len(),
    ensures
        boarding_inputs_total(s.take(j)) <= boarding_inputs_total(s),
        boarding_inputs_total(s) >= 0,
    decreases s.len() - j,
{
    if j < s.len() {
        lemma_boarding_inputs_total_take_le(s, j + 1);
        assert(s.take(j + 1).drop_last() =~= s.take(j));
    } else {
        assert(s.take(j) =~= s);
        lemma_boarding_inputs_total_nonneg(s);
    }
}

proof fn lemma_boarding_inputs_total_nonneg(s: Seq<BoardingInput>)
    ensures
        boarding_inputs_total(s) >= 0,
    decreases s.len(),
{
    if s.len() > 0 {
        lemma_boarding_inputs_total_nonneg(s.drop_last());
    }
}

/// The state a session moves to on observing `ev`.
pub open spec fn next_state(sess: RoundSession, ev: RoundEvent) -> RoundState {
    match (sess.state, ev) {
        (RoundState::Finalized { .. }, _) => sess.state,
        (RoundState::NoOp, _) => sess.state,
        (RoundState::Failed { .. }, _) => sess.state,
        (RoundState::Idle, RoundEvent::PaymentIdAssigned { payment_id }) => (
        RoundState::InputsRegistered { payment_id }),
        (RoundState::InputsRegistered { payment_id }, RoundEvent::OutputsAcked) => (
        RoundState::OutputsRegistered { payment_id }),
        (RoundState::OutputsRegistered { .. }, RoundEvent::SessionOpened) => RoundState::AwaitingSigning,
        (
            RoundState::AwaitingSigning,
            RoundEvent::RoundSigning { round_id, node_count },
        ) => (RoundState::AwaitingNoncesAggregated { round_id, node_count }),
        (
            RoundState::AwaitingNoncesAggregated { round_id, node_count },
            RoundEvent::RoundSigningNoncesGenerated { round_id: rid, nonce_count },
        ) => if rid != round_id {
            (RoundState::Failed { error: RoundError::ProtocolViolation })
        } else if nonce_count != node_count {
            (RoundState::Failed { error: RoundError::ConversionError })
        } else {
            (RoundState::AwaitingFinalization { round_id })
        },
        (
            RoundState::AwaitingFinalization { round_id },
            RoundEvent::RoundFinalization { round_id: rid, forfeit_fee },
        ) => if rid != round_id {
            (RoundState::Failed { error: RoundError::ProtocolViolation })
        } else if !forfeits_plannable(sess.vtxo_inputs@, forfeit_fee, sess.dust) {
            (RoundState::Failed { error: RoundError::BelowDustThreshold })
        } else {
            (RoundState::AwaitingFinalized { round_id })
        },
        (
            RoundState::AwaitingFinalized { round_id },
            RoundEvent::RoundFinalized { round_id: rid, round_txid },
        ) => if rid != round_id {
            (RoundState::Failed { error: RoundError::ProtocolViolation })
        } else {
            (RoundState::Finalized { round_txid })
        },
        (_, RoundEvent::StreamClosed) => (RoundState::Failed { error: RoundError::NetworkError }),
        _ => (RoundState::Failed { error: RoundError::ProtocolViolation }),
    }
}

/// The kind of RPC a session issues on observing `ev`, if any.
pub open spec fn emitted_rpc(sess: RoundSession, ev: RoundEvent) -> Option<RpcKind> {
    match (sess.state, ev) {
        (RoundState::Finalized { .. }, _) => None,
        (RoundState::NoOp, _) => None,
        (RoundState::Failed { .. }, _) => None,
        (RoundState::Idle, RoundEvent::PaymentIdAssigned { .. }) => Some(RpcKind::RegisterOutputs),
        (RoundState::InputsRegistered { .. }, RoundEvent::OutputsAcked) => Some(RpcKind::OpenSession),
        (RoundState::OutputsRegistered { .. }, RoundEvent::SessionOpened) => None,
        (RoundState::AwaitingSigning, RoundEvent::RoundSigning { .. }) => Some(
            RpcKind::SubmitTreeNonces,
        ),
        (
            RoundState::AwaitingNoncesAggregated { round_id, node_count },
            RoundEvent::RoundSigningNoncesGenerated { round_id: rid, nonce_count },
        ) => if rid == round_id && nonce_count == node_count {
            Some(RpcKind::SubmitTreeSignatures)
        } else {
            None
        },
        (
            RoundState::AwaitingFinalization { round_id },
            RoundEvent::RoundFinalization { round_id: rid, forfeit_fee },
        ) => if rid == round_id && forfeits_plannable(sess.vtxo_inputs@, forfeit_fee, sess.dust) {
            Some(RpcKind::SubmitForfeits)
        } else {
            None
        },
        _ => None,
    }
}

/// The kind of an emitted action.
pub open spec fn rpc_kind(a: Option<RoundAction>) -> Option<RpcKind> {
    match a {
        None => None,
        Some(act) => Some(
            match act {
                RoundAction::RegisterInputs { .. } => RpcKind::RegisterInputs,
                RoundAction::RegisterOutputs { .. } => RpcKind::RegisterOutputs,
                RoundAction::OpenSession { .. } => RpcKind::OpenSession,
                RoundAction::SubmitTreeNonces { .. } => RpcKind::SubmitTreeNonces,
                RoundAction::SubmitTreeSignatures { .. } => RpcKind::SubmitTreeSignatures,
                RoundAction::SubmitForfeits { .. } => RpcKind::SubmitForfeits,
            },
        ),
    }
}

/// A terminal session consumes events but never acts again.
pub open spec fn is_terminal(st: RoundState) -> bool {
    st is Finalized || st is NoOp || st is Failed
}

/// Opens a session over the wallet's spendable outputs.
///
/// With nothing to settle the session ends at once as `NoOp` and no
/// coordinator RPC is ever requested. Otherwise the first action registers
/// every input — boarding inputs first, then off-chain ones — and the
/// session records an output amount equal to the total of all registered
/// inputs: the round conserves value.
pub fn start_round(
    vtxo_inputs: Vec<VtxoInput>,
    boarding_inputs: Vec<BoardingInput>,
    dust: u64,
) -> (r: (RoundSession, Option<RoundAction>))
    requires
        vtxo_inputs_total(vtxo_inputs@) + boarding_inputs_total(boarding_inputs@) <= u64::MAX,
    ensures
        r.0.vtxo_inputs == vtxo_inputs,
        r.0.boarding_inputs == boarding_inputs,
        r.0.dust == dust,
        r.0.output_amount == vtxo_inputs_total(vtxo_inputs@) + boarding_inputs_total(
            boarding_inputs@,
        ),
        (vtxo_inputs@.len() == 0 && boarding_inputs@.len() == 0) ==> (r.0.state == RoundState::NoOp
            && r.1 is None),
        (vtxo_inputs@.len() > 0 || boarding_inputs@.len() > 0) ==> {
            &&& r.0.state == RoundState::Idle
            &&& r.1 matches Some(RoundAction::RegisterInputs { inputs })
            &&& rpc_kind(r.1) == Some(RpcKind::RegisterInputs)
        },
        r.1 matches Some(RoundAction::RegisterInputs { inputs }) ==> {
            &&& inputs@.len() == boarding_inputs@.len() + vtxo_inputs@.len()
            &&& forall|i: int|
                0 <= i < boarding_inputs@.len() ==> #[trigger] inputs@[i] == (RoundInput {
                    outpoint: boarding_inputs@[i].outpoint,
                    boarding: true,
                })
            &&& forall|i: int|
                0 <= i < vtxo_inputs@.len() ==> #[trigger] inputs@[boarding_inputs@.len() + i]
                    == (RoundInput { outpoint: vtxo_inputs@[i].outpoint, boarding: false })
        },
{
    let mut inputs: Vec<RoundInput> = Vec::new();
    let mut total: u64 = 0;
    let nb = boarding_inputs.len();
    for i in 0..nb
        invariant
            nb == boarding_inputs@.len(),
            vtxo_inputs_total(vtxo_inputs@) + boarding_inputs_total(boarding_inputs@) <= u64::MAX,
            inputs@.len() == i,
            forall|k: int|
                0 <= k < i ==> #[trigger] inputs@[k] == (RoundInput {
                    outpoint: boarding_inputs@[k].outpoint,
                    boarding: true,
                }),
            total == boarding_inputs_total(boarding_inputs@.take(i as int)),
    {
        proof {
            assert(boarding_inputs@.take(i + 1).drop_last() =~= boarding_inputs@.take(i as int));
            lemma_boarding_inputs_total_take_le(boarding_inputs@, i + 1);
            lemma_vtxo_inputs_total_nonneg(vtxo_inputs@);
        }
        inputs.push(RoundInput { outpoint: boarding_inputs[i].outpoint, boarding: true });
        total = total + boarding_inputs[i].amount;
    }
    proof {
        assert(boarding_inputs@.take(nb as int) =~= boarding_inputs@);
    }
    let nv = vtxo_inputs.len();
    for i in 0..nv
        invariant
            nb == boarding_inputs@.len(),
            nv == vtxo_inputs@.len(),
            vtxo_inputs_total(vtxo_inputs@) + boarding_inputs_total(boarding_inputs@) <= u64::MAX,
            inputs@.len() == nb + i,
            forall|k: int|
                0 <= k < nb ==> #[trigger] inputs@[k] == (RoundInput {
                    outpoint: boarding_inputs@[k].outpoint,
                    boarding: true,
                }),
            forall|k: int|
                0 <= k < i ==> #[trigger] inputs@[nb + k] == (RoundInput {
                    outpoint: vtxo_inputs@[k].outpoint,
                    boarding: false,
                }),
            total == boarding_inputs_total(boarding_inputs@) + vtxo_inputs_total(
                vtxo_inputs@.take(i as int),
            ),
    {
        proof {
            assert(vtxo_inputs@.take(i + 1).drop_last() =~= vtxo_inputs@.take(i as int));
            lemma_vtxo_inputs_total_take_le(vtxo_inputs@, i + 1);
            lemma_boarding_inputs_total_nonneg(boarding_inputs@);
        }
        inputs.push(RoundInput { outpoint: vtxo_inputs[i].outpoint, boarding: false });
        total = total + vtxo_inputs[i].amount;
    }
    proof {
        assert(vtxo_inputs@.take(nv as int) =~= vtxo_inputs@);
    }
    let nothing_to_settle = nv == 0 && nb == 0;
    let sess = RoundSession {
        state: if nothing_to_settle {
            RoundState::NoOp
        } else {
            RoundState::Idle
        },
        vtxo_inputs,
        boarding_inputs,
        output_amount: total,
        dust,
    };
    if nothing_to_settle {
        (sess, None)
    } else {
        (sess, Some(RoundAction::RegisterInputs { inputs }))
    }
}

/// Advances a session by one observed event.
///
/// The next state and the kind of the emitted RPC follow [`next_state`]
/// and [`emitted_rpc`] exactly; the remaining clauses pin the payload of
/// each emitted action. Tree nonces are submitted only in response to
/// `RoundSigning`, tree signatures only in response to a matching
/// `RoundSigningNoncesGenerated`, and forfeits only in response to a
/// matching `RoundFinalization`, with one forfeit per consumed off-chain
/// input and the round transaction signed exactly when boarding inputs
/// are present.
pub fn step(sess: RoundSession, ev: RoundEvent) -> (r: (RoundSession, Option<RoundAction>))
    ensures
        r.0.state == next_state(sess, ev),
        r.0.vtxo_inputs == sess.vtxo_inputs,
        r.0.boarding_inputs == sess.boarding_inputs,
        r.0.output_amount == sess.output_amount,
        r.0.dust == sess.dust,
        rpc_kind(r.1) == emitted_rpc(sess, ev),
        r.1 matches Some(RoundAction::RegisterOutputs { payment_id, output_amount }) ==> {
            &&& ev == (RoundEvent::PaymentIdAssigned { payment_id })
            &&& output_amount == sess.output_amount
        },
        r.1 matches Some(RoundAction::OpenSession { payment_id }) ==> sess.state == (
        RoundState::InputsRegistered { payment_id }),
        r.1 matches Some(RoundAction::SubmitTreeNonces { round_id, node_count }) ==> {
            &&& sess.state is AwaitingSigning
            &&& ev == (RoundEvent::RoundSigning { round_id, node_count })
        },
        r.1 matches Some(RoundAction::SubmitTreeSignatures { round_id, node_count }) ==> {
            &&& sess.state == (RoundState::AwaitingNoncesAggregated { round_id, node_count })
            &&& ev == (RoundEvent::RoundSigningNoncesGenerated {
                round_id,
                nonce_count: node_count,
            })
        },
        r.1 matches Some(RoundAction::SubmitForfeits { forfeits, sign_round_psbt }) ==> {
            &&& sess.state matches RoundState::AwaitingFinalization { round_id }
            &&& ev matches RoundEvent::RoundFinalization { round_id: rid, forfeit_fee } && rid
                == round_id && forfeits@.len() == sess.vtxo_inputs@.len() && (forall|i: int|
                0 <= i < sess.vtxo_inputs@.len() ==> {
                    &&& (#[trigger] forfeits@[i]).outpoint == sess.vtxo_inputs@[i].outpoint
                    &&& forfeits@[i].value == sess.vtxo_inputs@[i].amount - forfeit_fee
                    &&& forfeits@[i].value >= sess.dust
                })
            &&& sign_round_psbt == (sess.boarding_inputs@.len() > 0)
        },
{
    let state = sess.state;
    match (state, ev) {
        (RoundState::Finalized { .. }, _) => (sess, None),
        (RoundState::NoOp, _) => (sess, None),
        (RoundState::Failed { .. }, _) => (sess, None),
        (RoundState::Idle, RoundEvent::PaymentIdAssigned { payment_id }) => {
            let output_amount = sess.output_amount;
            (
                RoundSession { state: RoundState::InputsRegistered { payment_id }, ..sess },
                Some(RoundAction::RegisterOutputs { payment_id, output_amount }),
            )
        },
        (RoundState::InputsRegistered { payment_id }, RoundEvent::OutputsAcked) => (
            RoundSession { state: RoundState::OutputsRegistered { payment_id }, ..sess },
            Some(RoundAction::OpenSession { payment_id }),
        ),
        (RoundState::OutputsRegistered { .. }, RoundEvent::SessionOpened) => (
            RoundSession { state: RoundState::AwaitingSigning, ..sess },
            None,
        ),
        (RoundState::AwaitingSigning, RoundEvent::RoundSigning { round_id, node_count }) => (
            RoundSession {
                state: RoundState::AwaitingNoncesAggregated { round_id, node_count },
                ..sess
            },
            Some(RoundAction::SubmitTreeNonces { round_id, node_count }),
        ),
        (
            RoundState::AwaitingNoncesAggregated { round_id, node_count },
            RoundEvent::RoundSigningNoncesGenerated { round_id: rid, nonce_count },
        ) => {
            if rid.id != round_id.id {
                (
                    RoundSession {
                        state: RoundState::Failed { error: RoundError::ProtocolViolation },
                        ..sess
                    },
                    None,
                )
            } else if nonce_count != node_count {
                (
                    RoundSession {
                        state: RoundState::Failed { error: RoundError::ConversionError },
                        ..sess
                    },
                    None,
                )
            } else {
                (
                    RoundSession { state: RoundState::AwaitingFinalization { round_id }, ..sess },
                    Some(RoundAction::SubmitTreeSignatures { round_id, node_count }),
                )
            }
        },
        (
            RoundState::AwaitingFinalization { round_id },
            RoundEvent::RoundFinalization { round_id: rid, forfeit_fee },
        ) => {
            if rid.id != round_id.id {
                (
                    RoundSession {
                        state: RoundState::Failed { error: RoundError::ProtocolViolation },
                        ..sess
                    },
                    None,
                )
            } else {
                match plan_forfeits(&sess.vtxo_inputs, forfeit_fee, sess.dust) {
                    Ok(forfeits) => {
                        let sign_round_psbt = sess.boarding_inputs.len() > 0;
                        (
                            RoundSession {
                                state: RoundState::AwaitingFinalized { round_id },
                                ..sess
                            },
                            Some(RoundAction::SubmitForfeits { forfeits, sign_round_psbt }),
                        )
                    },
                    Err(error) => (
                        RoundSession { state: RoundState::Failed { error }, ..sess },
                        None,
                    ),
                }
            }
        },
        (
            RoundState::AwaitingFinalized { round_id },
            RoundEvent::RoundFinalized { round_id: rid, round_txid },
        ) => {
            if rid.id != round_id.id {
                (
                    RoundSession {
                        state: RoundState::Failed { error: RoundError::ProtocolViolation },
                        ..sess
                    },
                    None,
                )
            } else {
                (
                    RoundSession { state: RoundState::Finalized { round_txid }, ..sess },
                    None,
                )
            }
        },
        (_, RoundEvent::StreamClosed) => (
            RoundSession { state: RoundState::Failed { error: RoundError::NetworkError }, ..sess },
            None,
        ),
        _ => (
            RoundSession {
                state: RoundState::Failed { error: RoundError::ProtocolViolation },
                ..sess
            },
            None,
        ),
    }
}

/// The session after one step, as the specification sees it. Only the
/// state moves; the consumed inputs and the server parameters are fixed
/// for the session's whole life.
pub open spec fn step_state(sess: RoundSession, ev: RoundEvent) -> RoundSession {
    RoundSession { state: next_state(sess, ev), ..sess }
}

/// The kinds of the RPCs a session issues over an event sequence, one
/// entry per consumed event.
pub open spec fn run_rpcs(sess: RoundSession, evs: Seq<RoundEvent>) -> Seq<Option<RpcKind>>
    decreases evs.len(),
{
    if evs.len() == 0 {
        Seq::empty()
    } else {
        seq![emitted_rpc(sess, evs[0])] + run_rpcs(step_state(sess, evs[0]), evs.drop_first())
    }
}

/// The session reached after consuming the first `i` events.
pub open spec fn session_at(sess: RoundSession, evs: Seq<RoundEvent>, i: int) -> RoundSession
    decreases i,
{
    if i <= 0 {
        sess
    } else {
        session_at(step_state(sess, evs[0]), evs.drop_first(), i - 1)
    }
}

proof fn lemma_run_rpcs_len(sess: RoundSession, evs: Seq<RoundEvent>)
    ensures
        run_rpcs(sess, evs).len() == evs.len(),
    decreases evs.len(),
{
    if evs.len() > 0 {
        lemma_run_rpcs_len(step_state(sess, evs[0]), evs.drop_first());
    }
}

proof fn lemma_run_rpcs_index(sess: RoundSession, evs: Seq<RoundEvent>, i: int)
    requires
        0 <= i < evs.len(),
    ensures
        run_rpcs(sess, evs)[i] == emitted_rpc(session_at(sess, evs, i), evs[i]),
    decreases i,
{
    lemma_run_rpcs_len(step_state(sess, evs[0]), evs.drop_first());
    if i > 0 {
        lemma_run_rpcs_index(step_state(sess, evs[0]), evs.drop_first(), i - 1);
        assert(evs.drop_first()[i - 1] == evs[i]);
    }
}

/// Once a session is terminal it consumes events silently: no RPC of any
/// kind is ever issued again.
pub proof fn lemma_terminal_emits_nothing(sess: RoundSession, evs: Seq<RoundEvent>)
    requires
        is_terminal(sess.state),
    ensures
        run_rpcs(sess, evs).len() == evs.len(),
        forall|i: int| 0 <= i < evs.len() ==> run_rpcs(sess, evs)[i] is None,
    decreases evs.len(),
{
    lemma_run_rpcs_len(sess, evs);
    if evs.len() > 0 {
        let s1 = step_state(sess, evs[0]);
        assert(is_terminal(s1.state));
        lemma_terminal_emits_nothing(s1, evs.drop_first());
        assert forall|i: int| 0 <= i < evs.len() implies run_rpcs(sess, evs)[i] is None by {
            if i > 0 {
                assert(run_rpcs(sess, evs)[i] == run_rpcs(s1, evs.drop_first())[i - 1]);
            }
        }
    }
}

/// A `RoundFinalization` event carrying a round id other than the one the
/// session locked onto aborts the round with `ProtocolViolation`, emits no
/// RPC for that event, and leaves the session silent for every later
/// event.
pub proof fn lemma_foreign_finalization_aborts(
    sess: RoundSession,
    ev: RoundEvent,
    later: Seq<RoundEvent>,
)
    requires
        sess.state matches RoundState::AwaitingFinalization { round_id } && ev matches
            RoundEvent::RoundFinalization { round_id: rid, .. } && rid != round_id,
    ensures
        next_state(sess, ev) == (RoundState::Failed { error: RoundError::ProtocolViolation }),
        emitted_rpc(sess, ev) is None,
        forall|i: int| 0 <= i < later.len() ==> run_rpcs(step_state(sess, ev), later)[i] is None,
{
    lemma_terminal_emits_nothing(step_state(sess, ev), later);
}

/// Session states at or past the point where tree nonces were submitted.
pub open spec fn past_signing(st: RoundState) -> bool {
    ||| st is AwaitingNoncesAggregated
    ||| st is AwaitingFinalization
    ||| st is AwaitingFinalized
    ||| st is Finalized
}

/// Session states at or past the point where tree signatures were
/// submitted.
pub open spec fn past_nonces(st: RoundState) -> bool {
    ||| st is AwaitingFinalization
    ||| st is AwaitingFinalized
    ||| st is Finalized
}

/// A session reaches the nonce-submission phase only by consuming a
/// `RoundSigning` event.
proof fn lemma_signing_provenance(sess: RoundSession, evs: Seq<RoundEvent>, i: int)
    requires
        0 <= i <= evs.len(),
        !past_signing(sess.state),
        past_signing(session_at(sess, evs, i).state),
    ensures
        exists|j: int| 0 <= j < i && evs[j] is RoundSigning,
    decreases i,
{
    if i > 0 {
        let s1 = step_state(sess, evs[0]);
        if past_signing(s1.state) {
            assert(evs[0] is RoundSigning);
        } else {
            lemma_signing_provenance(s1, evs.drop_first(), i - 1);
            let j = choose|j: int| 0 <= j < i - 1 && evs.drop_first()[j] is RoundSigning;
            assert(evs[j + 1] is RoundSigning);
        }
    }
}

/// A session reaches the signature-submission phase only by consuming a
/// `RoundSigningNoncesGenerated` event.
proof fn lemma_nonces_provenance(sess: RoundSession, evs: Seq<RoundEvent>, i: int)
    requires
        0 <= i <= evs.len(),
        !past_nonces(sess.state),
        past_nonces(session_at(sess, evs, i).state),
    ensures
        exists|j: int| 0 <= j < i && evs[j] is RoundSigningNoncesGenerated,
    decreases i,
{
    if i > 0 {
        let s1 = step_state(sess, evs[0]);
        if past_nonces(s1.state) {
            assert(evs[0] is RoundSigningNoncesGenerated);
        } else {
            lemma_nonces_provenance(s1, evs.drop_first(), i - 1);
            let j = choose|j: int|
                0 <= j < i - 1 && evs.drop_first()[j] is RoundSigningNoncesGenerated;
            assert(evs[j + 1] is RoundSigningNoncesGenerated);
        }
    }
}

/// Over every event ordering whatsoever, a session that has not yet
/// reached the signing phase submits tree nonces only in answer to a
/// `RoundSigning` event, tree signatures only in answer to a
/// `RoundSigningNoncesGenerated` event that was preceded by a
/// `RoundSigning` event, and signed forfeits only in answer to a
/// `RoundFinalization` event that was preceded by a
/// `RoundSigningNoncesGenerated` event.
pub proof fn lemma_tree_rpc_order(sess: RoundSession, evs: Seq<RoundEvent>)
    requires
        !past_signing(sess.state),
    ensures
        run_rpcs(sess, evs).len() == evs.len(),
        forall|i: int|
            0 <= i < evs.len() && (#[trigger] run_rpcs(sess, evs)[i]) == Some(
                RpcKind::SubmitTreeNonces,
            ) ==> evs[i] is RoundSigning,
        forall|i: int|
            0 <= i < evs.len() && (#[trigger] run_rpcs(sess, evs)[i]) == Some(
                RpcKind::SubmitTreeSignatures,
            ) ==> (evs[i] is RoundSigningNoncesGenerated && exists|j: int|
                0 <= j < i && evs[j] is RoundSigning),
        forall|i: int|
            0 <= i < evs.len() && (#[trigger] run_rpcs(sess, evs)[i]) == Some(
                RpcKind::SubmitForfeits,
            ) ==> (evs[i] is RoundFinalization && exists|j: int|
                0 <= j < i && evs[j] is RoundSigningNoncesGenerated),
{
    lemma_run_rpcs_len(sess, evs);
    assert forall|i: int|
        0 <= i < evs.len() && (#[trigger] run_rpcs(sess, evs)[i]) == Some(
            RpcKind::SubmitTreeNonces,
        ) implies evs[i] is RoundSigning by {
        lemma_run_rpcs_index(sess, evs, i);
    }
    assert forall|i: int|
        0 <= i < evs.len() && (#[trigger] run_rpcs(sess, evs)[i]) == Some(
            RpcKind::SubmitTreeSignatures,
        ) implies (evs[i] is RoundSigningNoncesGenerated && exists|j: int|
        0 <= j < i && evs[j] is RoundSigning) by {
        lemma_run_rpcs_index(sess, evs, i);
        assert(past_signing(session_at(sess, evs, i).state));
        lemma_signing_provenance(sess, evs, i);
    }
    assert forall|i: int|
        0 <= i < evs.len() && (#[trigger] run_rpcs(sess, evs)[i]) == Some(
            RpcKind::SubmitForfeits,
        ) implies (evs[i] is RoundFinalization && exists|j: int|
        0 <= j < i && evs[j] is RoundSigningNoncesGenerated) by {
        lemma_run_rpcs_index(sess, evs, i);
        assert(past_nonces(session_at(sess, evs, i).state));
        lemma_nonces_provenance(sess, evs, i);
    }
}

} // verus!
