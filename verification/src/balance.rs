//! Balance aggregation: classifies each known output into exactly one
//! bucket and sums the amounts per bucket.
//!
//! The classification is a pure function of the supplied snapshot and the
//! given clock reading; it performs no I/O. Chain evidence is gathered by
//! the explorer collaborator and handed in as plain values.

use vstd::prelude::*;

use crate::types::{BalanceResponse, BoardingBalance, BoardingUtxo, OffchainBalance, VirtualOutput};

verus! {

/// The bucket an off-chain output falls into.
#[derive(Clone, Copy, Debug, PartialEq, Eq, Structural)]
pub enum VtxoClass {
    /// May fund a transfer or a settlement round.
    Spendable,
    /// Its expiry time has passed and the server has not swept it yet.
    Expired,
    /// Already consumed; it counts towards no balance.
    Spent,
}

/// The bucket a boarding output falls into.
#[derive(Clone, Copy, Debug, PartialEq, Eq, Structural)]
pub enum BoardingClass {
    /// Confirmed, inside its exit-delay window, and unspent.
    Spendable,
    /// Its unilateral exit-delay window has passed.
    Expired,
    /// No on-chain confirmation evidence exists yet.
    Pending,
    /// Already consumed; it counts towards no balance.
    Spent,
}

/// An off-chain output is expired once its expiry time has passed without
/// the server sweeping it; otherwise it is spendable unless already spent.
pub open spec fn vtxo_class(v: VirtualOutput, now: i64) -> VtxoClass {
    if v.expire_at <= now && !v.swept {
        VtxoClass::Expired
    } else if !v.spent {
        VtxoClass::Spendable
    } else {
        VtxoClass::Spent
    }
}

/// A boarding output with no confirmation evidence is pending; a confirmed
/// one is expired once its exit-delay window has passed, else spendable;
/// a spent one counts nowhere.
pub open spec fn boarding_class(b: BoardingUtxo, exit_delay_secs: u32, now: i64) -> BoardingClass {
    if b.spent {
        BoardingClass::Spent
    } else {
        match b.confirmation_blocktime {
            Option::None => BoardingClass::Pending,
            Option::Some(t) => if t + exit_delay_secs <= now {
                BoardingClass::Expired
            } else {
                BoardingClass::Spendable
            },
        }
    }
}

/// Total amount over a snapshot of off-chain outputs.
pub open spec fn vtxo_total(s: Seq<VirtualOutput>) -> int
    decreases s.len(),
{
    if s.len() == 0 {
        0
    } else {
        vtxo_total(s.drop_last()) + s.last().amount
    }
}

/// Total amount over the off-chain outputs of one bucket.
pub open spec fn vtxo_bucket_total(s: Seq<VirtualOutput>, now: i64, c: VtxoClass) -> int
    decreases s.len(),
{
    if s.len() == 0 {
        0
    } else {
        vtxo_bucket_total(s.drop_last(), now, c) + if vtxo_class(s.last(), now) == c {
            s.last().amount as int
        } else {
            0
        }
    }
}

/// Total amount over a snapshot of boarding outputs.
pub open spec fn boarding_total(s: Seq<BoardingUtxo>) -> int
    decreases s.len(),
{
    if s.len() == 0 {
        0
    } else {
        boarding_total(s.drop_last()) + s.last().amount
    }
}

/// Total amount over the boarding outputs of one bucket.
pub open spec fn boarding_bucket_total(
    s: Seq<BoardingUtxo>,
    exit_delay_secs: u32,
    now: i64,
    c: BoardingClass,
) -> int
    decreases s.len(),
{
    if s.len() == 0 {
        0
    } else {
        boarding_bucket_total(s.drop_last(), exit_delay_secs, now, c) + if boarding_class(
            s.last(),
            exit_delay_secs,
            now,
        ) == c {
            s.last().amount as int
        } else {
            0
        }
    }
}

/// The buckets are additive and disjoint: every off-chain output counts
/// towards exactly one bucket, so the bucket totals add up to the total.
pub proof fn lemma_vtxo_buckets_partition(s: Seq<VirtualOutput>, now: i64)
    ensures
        vtxo_bucket_total(s, now, VtxoClass::Spendable) + vtxo_bucket_total(s, now, VtxoClass::Expired)
            + vtxo_bucket_total(s, now, VtxoClass::Spent) == vtxo_total(s),
    decreases s.len(),
{
    if s.len() > 0 {
        lemma_vtxo_buckets_partition(s.drop_last(), now);
    }
}

/// The buckets are additive and disjoint: every boarding output counts
/// towards exactly one bucket, so the bucket totals add up to the total.
pub proof fn lemma_boarding_buckets_partition(s: Seq<BoardingUtxo>, exit_delay_secs: u32, now: i64)
    ensures
        boarding_bucket_total(s, exit_delay_secs, now, BoardingClass::Spendable)
            + boarding_bucket_total(s, exit_delay_secs, now, BoardingClass::Expired)
            + boarding_bucket_total(s, exit_delay_secs, now, BoardingClass::Pending)
            + boarding_bucket_total(s, exit_delay_secs, now, BoardingClass::Spent)
            == boarding_total(s),
    decreases s.len(),
{
    if s.len() > 0 {
        lemma_boarding_buckets_partition(s.drop_last(), exit_delay_secs, now);
    }
}

/// Each bucket total is bounded by the total over the whole snapshot.
proof fn lemma_vtxo_bucket_le_total(s: Seq<VirtualOutput>, now: i64, c: VtxoClass)
    ensures
        0 <= vtxo_bucket_total(s, now, c) <= vtxo_total(s),
    decreases s.len(),
{
    if s.len() > 0 {
        lemma_vtxo_bucket_le_total(s.drop_last(), now, c);
    }
}

proof fn lemma_boarding_bucket_le_total(
    s: Seq<BoardingUtxo>,
    exit_delay_secs: u32,
    now: i64,
    c: BoardingClass,
)
    ensures
        0 <= boarding_bucket_total(s, exit_delay_secs, now, c) <= boarding_total(s),
    decreases s.len(),
{
    if s.len() > 0 {
        lemma_boarding_bucket_le_total(s.drop_last(), exit_delay_secs, now, c);
    }
}

/// Classifies one off-chain output against the given clock reading.
pub fn classify_vtxo(v: &VirtualOutput, now: i64) -> (c: VtxoClass)
    ensures
        c == vtxo_class(*v, now),
{
    if v.expire_at <= now && !v.swept {
        VtxoClass::Expired
    } else if !v.spent {
        VtxoClass::Spendable
    } else {
        VtxoClass::Spent
    }
}

/// Classifies one boarding output against the given clock reading.
pub fn classify_boarding(b: &BoardingUtxo, exit_delay_secs: u32, now: i64) -> (c: BoardingClass)
    ensures
        c == boarding_class(*b, exit_delay_secs, now),
{
    if b.spent {
        BoardingClass::Spent
    } else {
        match b.confirmation_blocktime {
            Option::None => BoardingClass::Pending,
            Option::Some(t) => {
                if (t as i128) + (exit_delay_secs as i128) <= (now as i128) {
                    BoardingClass::Expired
                } else {
                    BoardingClass::Spendable
                }
            },
        }
    }
}

/// Sums the wallet's off-chain outputs bucket by bucket.
pub fn aggregate_offchain(vtxos: &Vec<VirtualOutput>, now: i64) -> (r: OffchainBalance)
    requires
        vtxo_total(vtxos@) <= u64::MAX,
    ensures
        r.spendable == vtxo_bucket_total(vtxos@, now, VtxoClass::Spendable),
        r.expired == vtxo_bucket_total(vtxos@, now, VtxoClass::Expired),
{
    let mut spendable: u64 = 0;
    let mut expired: u64 = 0;
    let n = vtxos.len();
    for i in 0..n
        invariant
            n == vtxos@.len(),
            vtxo_total(vtxos@) <= u64::MAX,
            spendable == vtxo_bucket_total(vtxos@.take(i as int), now, VtxoClass::Spendable),
            expired == vtxo_bucket_total(vtxos@.take(i as int), now, VtxoClass::Expired),
    {
        proof {
            assert(vtxos@.take(i + 1).drop_last() =~= vtxos@.take(i as int));
            assert(vtxos@.take(i + 1).last() == vtxos@[i as int]);
            lemma_vtxo_bucket_le_total(vtxos@.take(i + 1), now, VtxoClass::Spendable);
            lemma_vtxo_bucket_le_total(vtxos@.take(i + 1), now, VtxoClass::Expired);
            lemma_vtxo_total_take_le(vtxos@, i + 1);
        }
        match classify_vtxo(&vtxos[i], now) {
            VtxoClass::Spendable => { spendable = spendable + vtxos[i].amount; },
            VtxoClass::Expired => { expired = expired + vtxos[i].amount; },
            VtxoClass::Spent => {},
        }
    }
    proof {
        assert(vtxos@.take(n as int) =~= vtxos@);
    }
    OffchainBalance { spendable, expired }
}

/// Sums the wallet's boarding outputs bucket by bucket.
pub fn aggregate_boarding(
    boardings: &Vec<BoardingUtxo>,
    exit_delay_secs: u32,
    now: i64,
) -> (r: BoardingBalance)
    requires
        boarding_total(boardings@) <= u64::MAX,
    ensures
        r.spendable == boarding_bucket_total(boardings@, exit_delay_secs, now, BoardingClass::Spendable),
        r.expired == boarding_bucket_total(boardings@, exit_delay_secs, now, BoardingClass::Expired),
        r.pending == boarding_bucket_total(boardings@, exit_delay_secs, now, BoardingClass::Pending),
{
    let mut spendable: u64 = 0;
    let mut expired: u64 = 0;
    let mut pending: u64 = 0;
    let n = boardings.len();
    for i in 0..n
        invariant
            n == boardings@.len(),
            boarding_total(boardings@) <= u64::MAX,
            spendable == boarding_bucket_total(
                boardings@.take(i as int),
                exit_delay_secs,
                now,
                BoardingClass::Spendable,
            ),
            expired == boarding_bucket_total(
                boardings@.take(i as int),
                exit_delay_secs,
                now,
                BoardingClass::Expired,
            ),
            pending == boarding_bucket_total(
                boardings@.take(i as int),
                exit_delay_secs,
                now,
                BoardingClass::Pending,
            ),
    {
        proof {
            assert(boardings@.take(i + 1).drop_last() =~= boardings@.take(i as int));
            assert(boardings@.take(i + 1).last() == boardings@[i as int]);
            lemma_boarding_bucket_le_total(boardings@.take(i + 1), exit_delay_secs, now, BoardingClass::Spendable);
            lemma_boarding_bucket_le_total(boardings@.take(i + 1), exit_delay_secs, now, BoardingClass::Expired);
            lemma_boarding_bucket_le_total(boardings@.take(i + 1), exit_delay_secs, now, BoardingClass::Pending);
            lemma_boarding_total_take_le(boardings@, i + 1);
        }
        match classify_boarding(&boardings[i], exit_delay_secs, now) {
            BoardingClass::Spendable => { spendable = spendable + boardings[i].amount; },
            BoardingClass::Expired => { expired = expired + boardings[i].amount; },
            BoardingClass::Pending => { pending = pending + boardings[i].amount; },
            BoardingClass::Spent => {},
        }
    }
    proof {
        assert(boardings@.take(n as int) =~= boardings@);
    }
    BoardingBalance { spendable, expired, pending }
}

/// Assembles a wallet's balance report from its output snapshots: every
/// figure is the exact bucket total of the corresponding classification.
pub fn balance_response(
    wallet_id: String,
    vtxos: &Vec<VirtualOutput>,
    boardings: &Vec<BoardingUtxo>,
    exit_delay_secs: u32,
    now: i64,
) -> (r: BalanceResponse)
    requires
        vtxo_total(vtxos@) <= u64::MAX,
        boarding_total(boardings@) <= u64::MAX,
    ensures
        r.wallet_id@ == wallet_id@,
        r.offchain_balance.spendable == vtxo_bucket_total(vtxos@, now, VtxoClass::Spendable),
        r.offchain_balance.expired == vtxo_bucket_total(vtxos@, now, VtxoClass::Expired),
        r.boarding_balance.spendable == boarding_bucket_total(
            boardings@,
            exit_delay_secs,
            now,
            BoardingClass::Spendable,
        ),
        r.boarding_balance.expired == boarding_bucket_total(
            boardings@,
            exit_delay_secs,
            now,
            BoardingClass::Expired,
        ),
        r.boarding_balance.pending == boarding_bucket_total(
            boardings@,
            exit_delay_secs,
            now,
            BoardingClass::Pending,
        ),
{
    let offchain_balance = aggregate_offchain(vtxos, now);
    let boarding_balance = aggregate_boarding(boardings, exit_delay_secs, now);
    BalanceResponse { wallet_id, offchain_balance, boarding_balance }
}

/// A prefix never sums to more than the whole snapshot.
proof fn lemma_vtxo_total_take_le(s: Seq<VirtualOutput>, j: int)
    requires
        0 <= j <= s.len(),
    ensures
        vtxo_total(s.take(j)) <= vtxo_total(s),
    decreases s.len() - j,
{
    if j < s.len() {
        lemma_vtxo_total_take_le(s, j + 1);
        assert(s.take(j + 1).drop_last() =~= s.take(j));
    } else {
        assert(s.take(j) =~= s);
    }
}

proof fn lemma_boarding_total_take_le(s: Seq<BoardingUtxo>, j: int)
    requires
        0 <= j <= s.len(),
    ensures
        boarding_total(s.take(j)) <= boarding_total(s),
    decreases s.len() - j,
{
    if j < s.len() {
        lemma_boarding_total_take_le(s, j + 1);
        assert(s.take(j + 1).drop_last() =~= s.take(j));
    } else {
        assert(s.take(j) =~= s);
    }
}

} // verus!
