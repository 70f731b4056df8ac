use ark_round::round::{
    start_round, step, PaymentId, RoundAction, RoundEvent, RoundId, RoundSession, RoundState,
};
use ark_round::types::{BoardingInput, OutPoint, Txid, VtxoInput};
use ark_round::RoundError;

fn op(n: u64) -> OutPoint {
    OutPoint { txid: Txid { w0: n, w1: 0, w2: 0, w3: 0 }, vout: 0 }
}

fn vin(n: u64, amount: u64) -> VtxoInput {
    VtxoInput { outpoint: op(n), amount }
}

fn bin(n: u64, amount: u64) -> BoardingInput {
    BoardingInput { outpoint: op(n), amount }
}

fn rid(n: u64) -> RoundId {
    RoundId { id: n }
}

fn txid(n: u64) -> Txid {
    Txid { w0: n, w1: n, w2: n, w3: n }
}

/// Drives a fresh one-vtxo session up to the state right after tree
/// signatures were submitted, locked onto round id 7 with 3 tree nodes.
fn session_awaiting_finalization() -> RoundSession {
    let (sess, _) = start_round(vec![vin(1, 50_000)], vec![], 1_000);
    let (sess, _) = step(sess, RoundEvent::PaymentIdAssigned { payment_id: PaymentId { id: 4 } });
    let (sess, _) = step(sess, RoundEvent::OutputsAcked);
    let (sess, _) = step(sess, RoundEvent::SessionOpened);
    let (sess, _) = step(sess, RoundEvent::RoundSigning { round_id: rid(7), node_count: 3 });
    let (sess, _) = step(
        sess,
        RoundEvent::RoundSigningNoncesGenerated { round_id: rid(7), nonce_count: 3 },
    );
    assert!(matches!(sess.state, RoundState::AwaitingFinalization { round_id } if round_id == rid(7)));
    sess
}

#[test]
fn nothing_to_settle_contacts_nobody() {
    // Zero spendable off-chain outputs and zero spendable boarding
    // outputs: the no-op outcome, without any coordinator RPC.
    let (sess, action) = start_round(vec![], vec![], 1_000);
    assert!(matches!(sess.state, RoundState::NoOp));
    assert!(action.is_none());
}

#[test]
fn a_full_round_in_order() {
    let (sess, action) = start_round(vec![vin(1, 50_000)], vec![], 1_000);
    assert!(matches!(sess.state, RoundState::Idle));
    match action.unwrap() {
        RoundAction::RegisterInputs { inputs } => {
            assert_eq!(inputs.len(), 1);
            assert_eq!(inputs[0].outpoint, op(1));
            assert!(!inputs[0].boarding);
        },
        other => panic!("expected input registration, got {:?}", other),
    }
    assert_eq!(sess.output_amount, 50_000);

    let pid = PaymentId { id: 4 };
    let (sess, action) = step(sess, RoundEvent::PaymentIdAssigned { payment_id: pid });
    match action.unwrap() {
        RoundAction::RegisterOutputs { payment_id, output_amount } => {
            assert_eq!(payment_id, pid);
            // The registered output amount equals the registered inputs'
            // total: the round conserves value.
            assert_eq!(output_amount, 50_000);
        },
        other => panic!("expected output registration, got {:?}", other),
    }

    let (sess, action) = step(sess, RoundEvent::OutputsAcked);
    assert!(matches!(action.unwrap(), RoundAction::OpenSession { payment_id } if payment_id == pid));

    let (sess, action) = step(sess, RoundEvent::SessionOpened);
    assert!(action.is_none());
    assert!(matches!(sess.state, RoundState::AwaitingSigning));

    let (sess, action) = step(sess, RoundEvent::RoundSigning { round_id: rid(7), node_count: 3 });
    assert!(matches!(
        action.unwrap(),
        RoundAction::SubmitTreeNonces { round_id, node_count } if round_id == rid(7) && node_count == 3
    ));

    let (sess, action) = step(
        sess,
        RoundEvent::RoundSigningNoncesGenerated { round_id: rid(7), nonce_count: 3 },
    );
    assert!(matches!(
        action.unwrap(),
        RoundAction::SubmitTreeSignatures { round_id, node_count } if round_id == rid(7) && node_count == 3
    ));

    let (sess, action) = step(
        sess,
        RoundEvent::RoundFinalization { round_id: rid(7), forfeit_fee: 500 },
    );
    match action.unwrap() {
        RoundAction::SubmitForfeits { forfeits, sign_round_psbt } => {
            // One forfeit per consumed off-chain output.
            assert_eq!(forfeits.len(), 1);
            assert_eq!(forfeits[0].outpoint, op(1));
            assert_eq!(forfeits[0].value, 49_500);
            // No boarding inputs: the round transaction is absent from
            // the submission.
            assert!(!sign_round_psbt);
        },
        other => panic!("expected forfeit submission, got {:?}", other),
    }

    let (sess, action) = step(
        sess,
        RoundEvent::RoundFinalized { round_id: rid(7), round_txid: txid(9) },
    );
    assert!(action.is_none());
    assert!(matches!(sess.state, RoundState::Finalized { round_txid } if round_txid == txid(9)));
}

#[test]
fn boarding_inputs_make_the_round_transaction_owed() {
    let (sess, action) = start_round(vec![vin(1, 10_000)], vec![bin(2, 30_000)], 1_000);
    match action.unwrap() {
        RoundAction::RegisterInputs { inputs } => {
            // Boarding inputs are registered first.
            assert_eq!(inputs.len(), 2);
            assert_eq!(inputs[0].outpoint, op(2));
            assert!(inputs[0].boarding);
            assert_eq!(inputs[1].outpoint, op(1));
            assert!(!inputs[1].boarding);
        },
        other => panic!("expected input registration, got {:?}", other),
    }
    assert_eq!(sess.output_amount, 40_000);

    let (sess, _) = step(sess, RoundEvent::PaymentIdAssigned { payment_id: PaymentId { id: 1 } });
    let (sess, _) = step(sess, RoundEvent::OutputsAcked);
    let (sess, _) = step(sess, RoundEvent::SessionOpened);
    let (sess, _) = step(sess, RoundEvent::RoundSigning { round_id: rid(3), node_count: 2 });
    let (sess, _) = step(
        sess,
        RoundEvent::RoundSigningNoncesGenerated { round_id: rid(3), nonce_count: 2 },
    );
    let (_, action) = step(
        sess,
        RoundEvent::RoundFinalization { round_id: rid(3), forfeit_fee: 100 },
    );
    assert!(matches!(
        action.unwrap(),
        RoundAction::SubmitForfeits { sign_round_psbt: true, .. }
    ));
}

#[test]
fn a_foreign_round_id_is_a_protocol_violation() {
    // A finalization event whose round id differs from the id the
    // session locked onto aborts the round; no further RPC is issued.
    let sess = session_awaiting_finalization();
    let (sess, action) = step(
        sess,
        RoundEvent::RoundFinalization { round_id: rid(8), forfeit_fee: 500 },
    );
    assert!(action.is_none());
    assert!(matches!(
        sess.state,
        RoundState::Failed { error: RoundError::ProtocolViolation }
    ));
    // Whatever arrives later, the session stays failed and silent.
    let (sess, action) = step(
        sess,
        RoundEvent::RoundFinalization { round_id: rid(7), forfeit_fee: 500 },
    );
    assert!(action.is_none());
    let (sess, action) = step(
        sess,
        RoundEvent::RoundFinalized { round_id: rid(7), round_txid: txid(1) },
    );
    assert!(action.is_none());
    assert!(matches!(
        sess.state,
        RoundState::Failed { error: RoundError::ProtocolViolation }
    ));
}

#[test]
fn finalized_before_finalization_is_a_protocol_violation() {
    // The stream skips ahead: `RoundFinalized` arrives while the session
    // still awaits `RoundFinalization`.
    let sess = session_awaiting_finalization();
    let (sess, action) = step(
        sess,
        RoundEvent::RoundFinalized { round_id: rid(7), round_txid: txid(1) },
    );
    assert!(action.is_none());
    assert!(matches!(
        sess.state,
        RoundState::Failed { error: RoundError::ProtocolViolation }
    ));
}

#[test]
fn a_nonce_count_mismatch_is_a_conversion_error() {
    let (sess, _) = start_round(vec![vin(1, 50_000)], vec![], 1_000);
    let (sess, _) = step(sess, RoundEvent::PaymentIdAssigned { payment_id: PaymentId { id: 4 } });
    let (sess, _) = step(sess, RoundEvent::OutputsAcked);
    let (sess, _) = step(sess, RoundEvent::SessionOpened);
    let (sess, _) = step(sess, RoundEvent::RoundSigning { round_id: rid(7), node_count: 3 });
    let (sess, action) = step(
        sess,
        RoundEvent::RoundSigningNoncesGenerated { round_id: rid(7), nonce_count: 2 },
    );
    assert!(action.is_none());
    assert!(matches!(
        sess.state,
        RoundState::Failed { error: RoundError::ConversionError }
    ));
}

#[test]
fn a_closed_stream_fails_the_round() {
    let (sess, _) = start_round(vec![vin(1, 50_000)], vec![], 1_000);
    let (sess, _) = step(sess, RoundEvent::PaymentIdAssigned { payment_id: PaymentId { id: 4 } });
    let (sess, _) = step(sess, RoundEvent::OutputsAcked);
    let (sess, _) = step(sess, RoundEvent::SessionOpened);
    let (sess, action) = step(sess, RoundEvent::StreamClosed);
    assert!(action.is_none());
    assert!(matches!(sess.state, RoundState::Failed { error: RoundError::NetworkError }));
}

#[test]
fn a_dusty_forfeit_aborts_the_round() {
    // The consumed output cannot pay the forfeit fee and still clear the
    // dust threshold: planning fails for the whole set.
    let (sess, _) = start_round(vec![vin(1, 1_200)], vec![], 1_000);
    let (sess, _) = step(sess, RoundEvent::PaymentIdAssigned { payment_id: PaymentId { id: 4 } });
    let (sess, _) = step(sess, RoundEvent::OutputsAcked);
    let (sess, _) = step(sess, RoundEvent::SessionOpened);
    let (sess, _) = step(sess, RoundEvent::RoundSigning { round_id: rid(7), node_count: 1 });
    let (sess, _) = step(
        sess,
        RoundEvent::RoundSigningNoncesGenerated { round_id: rid(7), nonce_count: 1 },
    );
    let (sess, action) = step(
        sess,
        RoundEvent::RoundFinalization { round_id: rid(7), forfeit_fee: 500 },
    );
    assert!(action.is_none());
    assert!(matches!(
        sess.state,
        RoundState::Failed { error: RoundError::BelowDustThreshold }
    ));
}

#[test]
fn an_event_out_of_turn_is_a_protocol_violation() {
    let (sess, _) = start_round(vec![vin(1, 50_000)], vec![], 1_000);
    // The session awaits its payment id; a signing event is out of turn.
    let (sess, action) = step(sess, RoundEvent::RoundSigning { round_id: rid(7), node_count: 3 });
    assert!(action.is_none());
    assert!(matches!(
        sess.state,
        RoundState::Failed { error: RoundError::ProtocolViolation }
    ));
}
