use ark_round::coin_select::{select_coins, CoinCandidate};
use ark_round::types::{OutPoint, Txid};
use ark_round::RoundError;

fn op(n: u64) -> OutPoint {
    OutPoint { txid: Txid { w0: n, w1: 0, w2: 0, w3: 0 }, vout: 0 }
}

fn coin(n: u64, amount: u64, expire_at: i64) -> CoinCandidate {
    CoinCandidate { outpoint: op(n), amount, expire_at }
}

#[test]
fn single_output_covers_the_target() {
    // One spendable off-chain output of 50,000 sats, target 10,000,
    // dust threshold 1,000: the selector picks that single output.
    let candidates = vec![coin(1, 50_000, 9_999)];
    let sel = select_coins(&candidates, 10_000, 1_000, true).unwrap();
    assert_eq!(sel.selected.len(), 1);
    assert_eq!(sel.selected[0].outpoint, op(1));
    assert_eq!(sel.total, 50_000);
}

#[test]
fn outputs_closest_to_expiry_are_consumed_first() {
    let candidates = vec![coin(1, 5, 300), coin(2, 7, 100), coin(3, 3, 200)];
    let sel = select_coins(&candidates, 8, 0, true).unwrap();
    // Ordered by expiry: (2, 100), (3, 200), (1, 300); 7 + 3 covers 8.
    assert_eq!(sel.selected.len(), 2);
    assert_eq!(sel.selected[0].outpoint, op(2));
    assert_eq!(sel.selected[1].outpoint, op(3));
    assert_eq!(sel.total, 10);
}

#[test]
fn insufficient_funds_selects_nothing() {
    let candidates = vec![coin(1, 5, 100), coin(2, 6, 200)];
    let r = select_coins(&candidates, 12, 0, true);
    assert_eq!(r.unwrap_err(), RoundError::InsufficientFunds);
}

#[test]
fn no_candidates_is_insufficient() {
    let r = select_coins(&Vec::new(), 1, 0, true);
    assert_eq!(r.unwrap_err(), RoundError::InsufficientFunds);
}

#[test]
fn dusty_change_is_rejected_when_it_may_not_be_dropped() {
    let candidates = vec![coin(1, 100, 50)];
    let r = select_coins(&candidates, 95, 10, false);
    assert_eq!(r.unwrap_err(), RoundError::BelowDustThreshold);
}

#[test]
fn dusty_change_is_allowed_when_it_may_be_dropped() {
    let candidates = vec![coin(1, 100, 50)];
    let sel = select_coins(&candidates, 95, 10, true).unwrap();
    assert_eq!(sel.total, 100);
}

#[test]
fn exact_cover_leaves_no_change_to_object_to() {
    let candidates = vec![coin(1, 95, 50)];
    let sel = select_coins(&candidates, 95, 10, false).unwrap();
    assert_eq!(sel.total, 95);
}

#[test]
fn change_at_the_dust_threshold_passes() {
    let candidates = vec![coin(1, 105, 50)];
    let sel = select_coins(&candidates, 95, 10, false).unwrap();
    assert_eq!(sel.total, 105);
}

#[test]
fn identical_inputs_give_identical_selections() {
    let candidates = vec![coin(1, 40, 7), coin(2, 40, 7), coin(3, 25, 3)];
    let a = select_coins(&candidates, 60, 0, true).unwrap();
    let b = select_coins(&candidates, 60, 0, true).unwrap();
    assert_eq!(a.selected, b.selected);
    assert_eq!(a.total, b.total);
}

#[test]
fn zero_target_selects_nothing() {
    let candidates = vec![coin(1, 5, 100)];
    let sel = select_coins(&candidates, 0, 0, true).unwrap();
    assert_eq!(sel.selected.len(), 0);
    assert_eq!(sel.total, 0);
}

#[test]
fn the_largest_representable_amount_is_selectable() {
    let candidates = vec![coin(1, u64::MAX, 0)];
    let sel = select_coins(&candidates, u64::MAX, 0, false).unwrap();
    assert_eq!(sel.total, u64::MAX);
    assert_eq!(sel.selected.len(), 1);
}
