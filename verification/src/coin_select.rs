//! Coin selection: picks a subset of the wallet's spendable off-chain
//! outputs whose total covers a target amount.
//!
//! Candidates are ordered by expiry (outputs about to expire are consumed
//! first), with a fixed tie-break so that identical inputs always yield the
//! identical selection, and then taken greedily until the target is covered.
//! Selection fails with `InsufficientFunds` when even the whole candidate
//! set does not cover the target, and with `BelowDustThreshold` when the
//! change left over would be nonzero yet below the server's dust threshold
//! while dropping such change is not permitted.

use vstd::prelude::*;
use vstd::multiset::Multiset;
use vstd::relations::{sorted_by, total_ordering};
use vstd::seq_lib::{lemma_multiset_commutative, lemma_sorted_unique};

use crate::types::OutPoint;
use crate::RoundError;

verus! {

broadcast use vstd::seq_lib::group_to_multiset_ensures, vstd::multiset::group_multiset_axioms;

/// One spendable off-chain output offered to the selector.
#[derive(Clone, Copy, Debug, PartialEq, Eq, Structural)]
pub struct CoinCandidate {
    pub outpoint: OutPoint,
    /// Value in satoshis.
    pub amount: u64,
    /// Unix time at which the output expires.
    pub expire_at: i64,
}

/// The order candidates are consumed in: by expiry first (older outputs
/// are spent before they can expire), then by amount and outpoint so that
/// the order is total and the selection reproducible.
pub open spec fn coin_le(a: CoinCandidate, b: CoinCandidate) -> bool {
    if a.expire_at != b.expire_at {
        a.expire_at < b.expire_at
    } else if a.amount != b.amount {
        a.amount < b.amount
    } else if a.outpoint.txid.w0 != b.outpoint.txid.w0 {
        a.outpoint.txid.w0 < b.outpoint.txid.w0
    } else if a.outpoint.txid.w1 != b.outpoint.txid.w1 {
        a.outpoint.txid.w1 < b.outpoint.txid.w1
    } else if a.outpoint.txid.w2 != b.outpoint.txid.w2 {
        a.outpoint.txid.w2 < b.outpoint.txid.w2
    } else if a.outpoint.txid.w3 != b.outpoint.txid.w3 {
        a.outpoint.txid.w3 < b.outpoint.txid.w3
    } else {
        a.outpoint.vout <= b.outpoint.vout
    }
}

/// `coin_le` as a first-class relation, for the sorting vocabulary.
pub open spec fn coin_order() -> spec_fn(CoinCandidate, CoinCandidate) -> bool {
    |a: CoinCandidate, b: CoinCandidate| coin_le(a, b)
}

/// `coin_le` is a total order on candidates.
pub proof fn lemma_coin_order_total()
    ensures
        total_ordering(coin_order()),
{
    let r = coin_order();
    assert forall|x: CoinCandidate| #[trigger] r(x, x) by {}
    assert forall|x: CoinCandidate, y: CoinCandidate| #[trigger] r(x, y) && #[trigger] r(y, x)
        implies x == y by {}
    assert forall|x: CoinCandidate, y: CoinCandidate, z: CoinCandidate|
        #[trigger] r(x, y) && #[trigger] r(y, z) implies r(x, z) by {}
    assert forall|x: CoinCandidate, y: CoinCandidate| #[trigger] r(x, y) || #[trigger] r(y, x) by {}
}

/// Total amount over a sequence of candidates.
pub open spec fn coin_total(s: Seq<CoinCandidate>) -> int
    decreases s.len(),
{
    if s.len() == 0 {
        0
    } else {
        coin_total(s.drop_last()) + s.last().amount
    }
}

/// Splitting a sequence splits its total.
pub proof fn lemma_coin_total_concat(a: Seq<CoinCandidate>, b: Seq<CoinCandidate>)
    ensures
        coin_total(a + b) == coin_total(a) + coin_total(b),
    decreases b.len(),
{
    if b.len() == 0 {
        assert(a + b =~= a);
    } else {
        lemma_coin_total_concat(a, b.drop_last());
        assert((a + b).drop_last() =~= a + b.drop_last());
    }
}

/// A prefix never sums to more than the whole sequence.
pub proof fn lemma_coin_total_take_le(s: Seq<CoinCandidate>, j: int)
    requires
        0 <= j <= s.len(),
    ensures
        coin_total(s.take(j)) <= coin_total(s),
    decreases s.len() - j,
{
    if j < s.len() {
        lemma_coin_total_take_le(s, j + 1);
        assert(s.take(j + 1).drop_last() =~= s.take(j));
    } else {
        assert(s.take(j) =~= s);
    }
}

/// Inserting a candidate adds its amount to the total and its value to the
/// multiset of the sequence.
proof fn lemma_insert_effect(s: Seq<CoinCandidate>, x: CoinCandidate, j: int)
    requires
        0 <= j <= s.len(),
    ensures
        coin_total(s.insert(j, x)) == coin_total(s) + x.amount,
        s.insert(j, x).to_multiset() == s.to_multiset().insert(x),
{
    let t = s.subrange(0, j);
    let u = s.subrange(j, s.len() as int);
    assert(s.insert(j, x) == t.push(x) + u);
    assert(s =~= t + u);
    lemma_coin_total_concat(t.push(x), u);
    lemma_coin_total_concat(t, u);
    assert(t.push(x).drop_last() =~= t);
    lemma_multiset_commutative(t.push(x), u);
    lemma_multiset_commutative(t, u);
    assert(t.push(x).to_multiset() == t.to_multiset().insert(x));
    assert(s.insert(j, x).to_multiset() =~= s.to_multiset().insert(x));
}

/// Decides `coin_le` on concrete candidates.
pub fn coin_le_exec(a: &CoinCandidate, b: &CoinCandidate) -> (r: bool)
    ensures
        r == coin_le(*a, *b),
{
    if a.expire_at != b.expire_at {
        a.expire_at < b.expire_at
    } else if a.amount != b.amount {
        a.amount < b.amount
    } else if a.outpoint.txid.w0 != b.outpoint.txid.w0 {
        a.outpoint.txid.w0 < b.outpoint.txid.w0
    } else if a.outpoint.txid.w1 != b.outpoint.txid.w1 {
        a.outpoint.txid.w1 < b.outpoint.txid.w1
    } else if a.outpoint.txid.w2 != b.outpoint.txid.w2 {
        a.outpoint.txid.w2 < b.outpoint.txid.w2
    } else if a.outpoint.txid.w3 != b.outpoint.txid.w3 {
        a.outpoint.txid.w3 < b.outpoint.txid.w3
    } else {
        a.outpoint.vout <= b.outpoint.vout
    }
}

/// Where `x` belongs in the sorted run `out`: past every element that
/// precedes or equals it.
fn insertion_point(out: &Vec<CoinCandidate>, x: &CoinCandidate) -> (j: usize)
    ensures
        j <= out@.len(),
        forall|k: int| 0 <= k < j ==> coin_le(out@[k], *x),
        j < out@.len() ==> !coin_le(out@[j as int], *x),
{
    let mut j: usize = 0;
    while j < out.len()
        invariant
            j <= out@.len(),
            forall|k: int| 0 <= k < j ==> coin_le(out@[k], *x),
        decreases out@.len() - j,
    {
        if !coin_le_exec(&out[j], x) {
            return j;
        }
        j = j + 1;
    }
    j
}

/// Sorts the candidates into the canonical consumption order.
pub fn sort_candidates(v: &Vec<CoinCandidate>) -> (r: Vec<CoinCandidate>)
    ensures
        r@ == v@.sort_by(coin_order()),
        sorted_by(r@, coin_order()),
        r@.to_multiset() == v@.to_multiset(),
        coin_total(r@) == coin_total(v@),
{
    proof {
        lemma_coin_order_total();
    }
    let mut out: Vec<CoinCandidate> = Vec::new();
    let n = v.len();
    for i in 0..n
        invariant
            n == v@.len(),
            sorted_by(out@, coin_order()),
            out@.to_multiset() == v@.take(i as int).to_multiset(),
            coin_total(out@) == coin_total(v@.take(i as int)),
    {
        let x = v[i];
        let j = insertion_point(&out, &x);
        let ghost prev = out@;
        out.insert(j, x);
        proof {
            lemma_insert_effect(prev, x, j as int);
            prev.insert_ensures(j as int, x);
            let r = coin_order();
            assert forall|p: int, q: int| 0 <= p < q < out@.len() implies #[trigger] r(
                out@[p],
                out@[q],
            ) by {
                if q < j {
                    assert(out@[p] == prev[p] && out@[q] == prev[q]);
                } else if p < j && q == j {
                    assert(out@[p] == prev[p] && out@[q] == x);
                } else if p < j && q > j {
                    assert(out@[p] == prev[p] && out@[q] == prev[q - 1]);
                    if q - 1 >= j {
                        if p < q - 1 {
                            assert(r(prev[p], prev[q - 1]));
                        }
                    }
                } else if p == j {
                    assert(out@[p] == x && out@[q] == prev[q - 1]);
                    assert(!coin_le(prev[j as int], x));
                    assert(coin_le(x, prev[j as int]));
                    if j < q - 1 {
                        assert(r(prev[j as int], prev[q - 1]));
                    }
                } else {
                    assert(out@[p] == prev[p - 1] && out@[q] == prev[q - 1]);
                }
            }
            assert(v@.take(i + 1).drop_last() =~= v@.take(i as int));
            assert(v@.take(i + 1).to_multiset() == v@.take(i as int).to_multiset().insert(
                v@[i as int],
            )) by {
                assert(v@.take(i + 1) =~= v@.take(i as int).push(v@[i as int]));
            }
        }
    }
    proof {
        assert(v@.take(n as int) =~= v@);
        v@.lemma_sort_by_ensures(coin_order());
        lemma_sorted_unique(out@, v@.sort_by(coin_order()), coin_order());
        assert(out@ == v@.sort_by(coin_order()));
    }
    out
}

/// `k` candidates of the run `s`, and no fewer, cover `target`.
pub open spec fn covers_at(s: Seq<CoinCandidate>, target: int, k: int) -> bool {
    &&& 0 <= k <= s.len()
    &&& coin_total(s.take(k)) >= target
    &&& forall|j: int| 0 <= j < k ==> coin_total(s.take(j)) < target
}

/// At most one prefix of a run is the shortest covering one.
pub proof fn lemma_covers_at_unique(s: Seq<CoinCandidate>, target: int, k1: int, k2: int)
    requires
        covers_at(s, target, k1),
        covers_at(s, target, k2),
    ensures
        k1 == k2,
{
}

/// The outcome of a selection: the chosen candidates and their total.
#[derive(Debug)]
pub struct Selection {
    pub selected: Vec<CoinCandidate>,
    pub total: u64,
}

/// Greedily takes candidates from an already ordered run until the target
/// is covered, then checks the change against the dust threshold.
pub fn select_from_ordered(
    ordered: &Vec<CoinCandidate>,
    target: u64,
    dust: u64,
    allow_dust_change: bool,
) -> (r: Result<Selection, RoundError>)
    requires
        coin_total(ordered@) <= u64::MAX,
    ensures
        r matches Ok(sel) ==> {
            &&& covers_at(ordered@, target as int, sel.selected@.len() as int)
            &&& sel.selected@ == ordered@.take(sel.selected@.len() as int)
            &&& sel.total == coin_total(sel.selected@)
            &&& sel.total >= target
            &&& (sel.total == target || sel.total - target >= dust || allow_dust_change)
        },
        r is Err ==> (r->Err_0 == RoundError::InsufficientFunds || r->Err_0
            == RoundError::BelowDustThreshold),
        (r is Err && r->Err_0 == RoundError::InsufficientFunds) <==> coin_total(ordered@)
            < target,
        (r is Err && r->Err_0 == RoundError::BelowDustThreshold) <==> (!allow_dust_change
            && exists|k: int|
            #[trigger] covers_at(ordered@, target as int, k) && 0 < coin_total(
                ordered@.take(k),
            ) - target < dust),
{
    let n = ordered.len();
    let mut selected: Vec<CoinCandidate> = Vec::new();
    let mut total: u64 = 0;
    let mut i: usize = 0;
    while i < n && total < target
        invariant
            n == ordered@.len(),
            coin_total(ordered@) <= u64::MAX,
            i <= n,
            selected@ == ordered@.take(i as int),
            total == coin_total(selected@),
            forall|j: int| 0 <= j < i ==> coin_total(ordered@.take(j)) < target,
        decreases n - i,
    {
        proof {
            assert(ordered@.take(i + 1).drop_last() =~= ordered@.take(i as int));
            lemma_coin_total_take_le(ordered@, i + 1);
        }
        selected.push(ordered[i]);
        total = total + ordered[i].amount;
        i = i + 1;
        proof {
            assert(selected@ =~= ordered@.take(i as int));
        }
    }
    if total < target {
        proof {
            assert(ordered@.take(n as int) =~= ordered@);
            assert forall|k: int| !covers_at(ordered@, target as int, k) by {
                if 0 <= k <= ordered@.len() {
                    lemma_coin_total_take_le(ordered@, k);
                }
            }
        }
        return Err(RoundError::InsufficientFunds);
    }
    proof {
        assert(covers_at(ordered@, target as int, i as int));
        lemma_coin_total_take_le(ordered@, i as int);
    }
    let change = total - target;
    if change > 0 && change < dust && !allow_dust_change {
        return Err(RoundError::BelowDustThreshold);
    }
    proof {
        assert forall|k: int|
            covers_at(ordered@, target as int, k) implies !(0 < coin_total(ordered@.take(k))
            - target < dust) || allow_dust_change by {
            lemma_covers_at_unique(ordered@, target as int, k, i as int);
        }
    }
    Ok(Selection { selected, total })
}

/// Selects spendable outputs covering `target` satoshis.
///
/// The candidates are first put into the canonical consumption order, then
/// taken greedily until the target is covered. Identical inputs always
/// produce the identical selection.
///
/// Whenever the candidates' total covers the target, a covering selection
/// is returned — unless dropping sub-dust change is forbidden and the
/// selection's change would be nonzero yet below `dust`, which fails with
/// `BelowDustThreshold`. Whenever the candidates' total falls short of the
/// target, nothing is selected and selection fails with
/// `InsufficientFunds`.
pub fn select_coins(
    candidates: &Vec<CoinCandidate>,
    target: u64,
    dust: u64,
    allow_dust_change: bool,
) -> (r: Result<Selection, RoundError>)
    requires
        coin_total(candidates@) <= u64::MAX,
    ensures
        r matches Ok(sel) ==> {
            &&& covers_at(candidates@.sort_by(coin_order()), target as int, sel.selected@.len() as int)
            &&& sel.selected@ == candidates@.sort_by(coin_order()).take(sel.selected@.len() as int)
            &&& sel.selected@.to_multiset().subset_of(candidates@.to_multiset())
            &&& sel.total == coin_total(sel.selected@)
            &&& sel.total >= target
            &&& (sel.total == target || sel.total - target >= dust || allow_dust_change)
        },
        r is Err ==> (r->Err_0 == RoundError::InsufficientFunds || r->Err_0
            == RoundError::BelowDustThreshold),
        (r is Err && r->Err_0 == RoundError::InsufficientFunds) <==> coin_total(candidates@)
            < target,
        (r is Err && r->Err_0 == RoundError::BelowDustThreshold) <==> (!allow_dust_change
            && exists|k: int|
            #[trigger] covers_at(candidates@.sort_by(coin_order()), target as int, k) && 0
                < coin_total(candidates@.sort_by(coin_order()).take(k)) - target < dust),
        coin_total(candidates@) >= target && allow_dust_change ==> r is Ok,
{
    let ordered = sort_candidates(candidates);
    let r = select_from_ordered(&ordered, target, dust, allow_dust_change);
    proof {
        if r is Ok {
            let sel = r->Ok_0;
            let k = sel.selected@.len() as int;
            assert(sel.selected@ == ordered@.take(k));
            assert(ordered@ =~= ordered@.take(k) + ordered@.subrange(k, ordered@.len() as int));
            lemma_multiset_commutative(ordered@.take(k), ordered@.subrange(k, ordered@.len() as int));
            assert(sel.selected@.to_multiset().subset_of(candidates@.to_multiset()));
        }
    }
    r
}

} // verus!
