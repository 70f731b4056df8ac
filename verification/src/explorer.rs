//! The compute core of chain discovery: which outputs of the
//! transactions seen at an address actually pay its script, and how the
//! per-output spent evidence folds in.
//!
//! Querying the chain explorer is the transport's job; it hands over the
//! transactions and the spent statuses as plain values.

use vstd::prelude::*;

use crate::types::{OutPoint, Txid};

verus! {

/// One output of a discovered transaction, as the explorer reports it.
#[derive(Clone, Debug)]
pub struct TxOutput {
    pub script_pubkey: Vec<u8>,
    /// Value in satoshis.
    pub value: u64,
}

/// One transaction seen at an address.
#[derive(Clone, Debug)]
pub struct TxSnapshot {
    pub txid: Txid,
    pub outputs: Vec<TxOutput>,
    /// Block time of the confirming block, if confirmed.
    pub confirmation_blocktime: Option<i64>,
}

/// One unspent-or-spent output discovered for a script.
#[derive(Clone, Copy, Debug, PartialEq, Eq, Structural)]
pub struct DiscoveredUtxo {
    pub outpoint: OutPoint,
    /// Value in satoshis.
    pub amount: u64,
    pub confirmation_blocktime: Option<i64>,
    pub spent: bool,
}

/// The discovered output standing for position `i` of transaction `t`.
pub open spec fn utxo_at(t: TxSnapshot, i: int) -> DiscoveredUtxo {
    DiscoveredUtxo {
        outpoint: OutPoint { txid: t.txid, vout: i as u32 },
        amount: t.outputs@[i].value,
        confirmation_blocktime: t.confirmation_blocktime,
        spent: false,
    }
}

/// The outputs among the first `n` of transaction `t` that pay `script`,
/// in output order.
pub open spec fn utxos_of_tx_upto(t: TxSnapshot, script: Seq<u8>, n: int) -> Seq<DiscoveredUtxo>
    decreases n,
{
    if n <= 0 {
        Seq::empty()
    } else {
        utxos_of_tx_upto(t, script, n - 1) + if t.outputs@[n - 1].script_pubkey@ == script {
            seq![utxo_at(t, n - 1)]
        } else {
            Seq::empty()
        }
    }
}

/// The outputs of transaction `t` that pay `script`.
pub open spec fn utxos_of_tx(t: TxSnapshot, script: Seq<u8>) -> Seq<DiscoveredUtxo> {
    utxos_of_tx_upto(t, script, t.outputs@.len() as int)
}

/// The outputs across all of `txs` that pay `script`, transaction by
/// transaction.
pub open spec fn utxos_of_txs(txs: Seq<TxSnapshot>, script: Seq<u8>) -> Seq<DiscoveredUtxo>
    decreases txs.len(),
{
    if txs.len() == 0 {
        Seq::empty()
    } else {
        utxos_of_txs(txs.drop_last(), script) + utxos_of_tx(txs.last(), script)
    }
}

/// Whether two byte strings are equal.
fn script_eq(a: &Vec<u8>, b: &Vec<u8>) -> (r: bool)
    ensures
        r == (a@ == b@),
{
    if a.len() != b.len() {
        proof {
            assert(a@.len() != b@.len());
        }
        return false;
    }
    let n = a.len();
    for i in 0..n
        invariant
            n == a@.len() == b@.len(),
            forall|k: int| 0 <= k < i ==> a@[k] == b@[k],
    {
        if a[i] != b[i] {
            return false;
        }
    }
    proof {
        assert(a@ =~= b@);
    }
    true
}

/// Collects, in order, every output of the seen transactions that pays
/// the watched script, as an unspent discovery; the spent evidence is
/// folded in by [`apply_spent_statuses`] once the explorer reports it.
pub fn utxos_for_script(txs: &Vec<TxSnapshot>, script: &Vec<u8>) -> (r: Vec<DiscoveredUtxo>)
    requires
        forall|t: int| 0 <= t < txs@.len() ==> (#[trigger] txs@[t].outputs@.len()) <= u32::MAX,
    ensures
        r@ == utxos_of_txs(txs@, script@),
{
    let mut r: Vec<DiscoveredUtxo> = Vec::new();
    let n = txs.len();
    for t in 0..n
        invariant
            n == txs@.len(),
            forall|k: int| 0 <= k < txs@.len() ==> (#[trigger] txs@[k].outputs@.len()) <= u32::MAX,
            r@ == utxos_of_txs(txs@.take(t as int), script@),
    {
        let tx = &txs[t];
        let m = tx.outputs.len();
        for i in 0..m
            invariant
                n == txs@.len(),
                t < n,
                m == txs@[t as int].outputs@.len(),
                m <= u32::MAX,
                tx == txs@[t as int],
                r@ == utxos_of_txs(txs@.take(t as int), script@) + utxos_of_tx_upto(
                    txs@[t as int],
                    script@,
                    i as int,
                ),
        {
            if script_eq(&tx.outputs[i].script_pubkey, script) {
                r.push(DiscoveredUtxo {
                    outpoint: OutPoint { txid: tx.txid, vout: i as u32 },
                    amount: tx.outputs[i].value,
                    confirmation_blocktime: tx.confirmation_blocktime,
                    spent: false,
                });
                proof {
                    assert(r@ =~= utxos_of_txs(txs@.take(t as int), script@) + utxos_of_tx_upto(
                        txs@[t as int],
                        script@,
                        i + 1,
                    ));
                }
            } else {
                proof {
                    assert(r@ =~= utxos_of_txs(txs@.take(t as int), script@) + utxos_of_tx_upto(
                        txs@[t as int],
                        script@,
                        i + 1,
                    ));
                }
            }
        }
        proof {
            assert(txs@.take(t + 1).drop_last() =~= txs@.take(t as int));
            assert(txs@.take(t + 1).last() == txs@[t as int]);
            assert(r@ =~= utxos_of_txs(txs@.take(t + 1), script@));
        }
    }
    proof {
        assert(txs@.take(n as int) =~= txs@);
    }
    r
}

/// Folds the explorer's per-output spent evidence into the discoveries:
/// entry by entry, the discovery keeps every field and takes the
/// reported spent flag.
pub fn apply_spent_statuses(utxos: &Vec<DiscoveredUtxo>, spent: &Vec<bool>) -> (r: Vec<
    DiscoveredUtxo,
>)
    requires
        utxos@.len() == spent@.len(),
    ensures
        r@.len() == utxos@.len(),
        forall|i: int| 0 <= i < utxos@.len() ==> r@[i] == (DiscoveredUtxo {
            spent: spent@[i],
            ..utxos@[i]
        }),
{
    let mut r: Vec<DiscoveredUtxo> = Vec::new();
    let n = utxos.len();
    for i in 0..n
        invariant
            n == utxos@.len() == spent@.len(),
            r@.len() == i,
            forall|k: int| 0 <= k < i ==> r@[k] == (DiscoveredUtxo {
                spent: spent@[k],
                ..utxos@[k]
            }),
    {
        let u = utxos[i];
        r.push(DiscoveredUtxo { spent: spent[i], ..u });
    }
    r
}

} // verus!
