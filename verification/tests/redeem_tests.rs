use ark_round::coin_select::select_coins;
use ark_round::explorer::{apply_spent_statuses, utxos_for_script, TxOutput, TxSnapshot};
use ark_round::redeem::{coin_candidates, plan_redeem, selected_vtxo_inputs};
use ark_round::types::{OutPoint, Txid, VirtualOutput};
use ark_round::RoundError;

fn op(n: u64) -> OutPoint {
    OutPoint { txid: Txid { w0: n, w1: 0, w2: 0, w3: 0 }, vout: 0 }
}

fn vtxo(n: u64, amount: u64, expire_at: i64) -> VirtualOutput {
    VirtualOutput { outpoint: op(n), amount, expire_at, spent: false, swept: false }
}

#[test]
fn candidates_mirror_the_snapshot() {
    let spendable = vec![vtxo(1, 10, 100), vtxo(2, 20, 50)];
    let candidates = coin_candidates(&spendable);
    assert_eq!(candidates.len(), 2);
    assert_eq!(candidates[0].outpoint, op(1));
    assert_eq!(candidates[0].amount, 10);
    assert_eq!(candidates[0].expire_at, 100);
    assert_eq!(candidates[1].outpoint, op(2));
}

#[test]
fn a_selection_resolves_back_to_the_outputs_to_spend() {
    let spendable = vec![vtxo(1, 5, 300), vtxo(2, 7, 100), vtxo(3, 3, 200)];
    let candidates = coin_candidates(&spendable);
    let sel = select_coins(&candidates, 8, 0, true).unwrap();
    let inputs = selected_vtxo_inputs(&spendable, &sel.selected);
    // The selector picked the outputs closest to expiry (2 then 3); the
    // inputs come back in snapshot order.
    assert_eq!(inputs.len(), 2);
    assert_eq!(inputs[0].outpoint, op(2));
    assert_eq!(inputs[0].amount, 7);
    assert_eq!(inputs[1].outpoint, op(3));
    assert_eq!(inputs[1].amount, 3);
}

#[test]
fn an_empty_selection_resolves_to_nothing() {
    let spendable = vec![vtxo(1, 5, 300)];
    let inputs = selected_vtxo_inputs(&spendable, &Vec::new());
    assert_eq!(inputs.len(), 0);
}

#[test]
fn a_redeem_conserves_value() {
    let plan = plan_redeem(50_000, 10_000).unwrap();
    assert_eq!(plan.to_amount, 10_000);
    assert_eq!(plan.change_amount, 40_000);
    assert_eq!(plan.to_amount + plan.change_amount, 50_000);

    let exact = plan_redeem(10_000, 10_000).unwrap();
    assert_eq!(exact.change_amount, 0);

    assert_eq!(plan_redeem(9_999, 10_000).unwrap_err(), RoundError::InsufficientFunds);
}

#[test]
fn discovery_keeps_exactly_the_outputs_paying_the_script() {
    let watched = vec![0x51u8, 0x20, 7];
    let other = vec![0x00u8, 0x14, 9];
    let txs = vec![
        TxSnapshot {
            txid: Txid { w0: 1, w1: 0, w2: 0, w3: 0 },
            outputs: vec![
                TxOutput { script_pubkey: other.clone(), value: 11 },
                TxOutput { script_pubkey: watched.clone(), value: 22 },
            ],
            confirmation_blocktime: Some(500),
        },
        TxSnapshot {
            txid: Txid { w0: 2, w1: 0, w2: 0, w3: 0 },
            outputs: vec![TxOutput { script_pubkey: watched.clone(), value: 33 }],
            confirmation_blocktime: None,
        },
    ];
    let found = utxos_for_script(&txs, &watched);
    assert_eq!(found.len(), 2);
    assert_eq!(found[0].outpoint.txid, Txid { w0: 1, w1: 0, w2: 0, w3: 0 });
    assert_eq!(found[0].outpoint.vout, 1);
    assert_eq!(found[0].amount, 22);
    assert_eq!(found[0].confirmation_blocktime, Some(500));
    assert!(!found[0].spent);
    assert_eq!(found[1].outpoint.vout, 0);
    assert_eq!(found[1].amount, 33);
    assert_eq!(found[1].confirmation_blocktime, None);

    let updated = apply_spent_statuses(&found, &vec![true, false]);
    assert!(updated[0].spent);
    assert!(!updated[1].spent);
    assert_eq!(updated[0].outpoint, found[0].outpoint);
    assert_eq!(updated[0].amount, 22);
}
