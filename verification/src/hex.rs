//! Verified hexadecimal decoding, for the transaction ids the coordinator
//! sends as 64-digit strings.

use vstd::prelude::*;
use vstd::string::StringSliceAdditionalSpecFns;

use crate::types::Txid;

verus! {

/// A hexadecimal digit, either case.
pub open spec fn is_hex_digit(b: u8) -> bool {
    (48 <= b <= 57) || (97 <= b <= 102) || (65 <= b <= 70)
}

/// A lowercase hexadecimal digit.
pub open spec fn is_lower_hex_digit(b: u8) -> bool {
    (48 <= b <= 57) || (97 <= b <= 102)
}

/// The value of one hexadecimal digit; zero on anything else.
pub open spec fn nibble_value(b: u8) -> u8 {
    if 48 <= b <= 57 {
        (b - 48) as u8
    } else if 97 <= b <= 102 {
        (b - 87) as u8
    } else if 65 <= b <= 70 {
        (b - 55) as u8
    } else {
        0
    }
}

/// The big-endian value of a run of hexadecimal digits.
pub open spec fn hex_value(s: Seq<u8>) -> int
    decreases s.len(),
{
    if s.len() == 0 {
        0
    } else {
        hex_value(s.drop_last()) * 16 + nibble_value(s.last())
    }
}

/// Sixteen to the given power.
pub open spec fn pow16(n: nat) -> int
    decreases n,
{
    if n == 0 {
        1
    } else {
        16 * pow16((n - 1) as nat)
    }
}

proof fn lemma_pow16_pos(n: nat)
    ensures
        pow16(n) >= 1,
    decreases n,
{
    if n > 0 {
        lemma_pow16_pos((n - 1) as nat);
    }
}

proof fn lemma_pow16_mono(a: nat, b: nat)
    requires
        a <= b,
    ensures
        pow16(a) <= pow16(b),
    decreases b,
{
    if a < b {
        lemma_pow16_mono(a, (b - 1) as nat);
        lemma_pow16_pos((b - 1) as nat);
    }
}

/// A run of hexadecimal digits stays below sixteen to its length.
proof fn lemma_hex_value_bound(s: Seq<u8>)
    ensures
        0 <= hex_value(s) < pow16(s.len()),
    decreases s.len(),
{
    if s.len() > 0 {
        lemma_hex_value_bound(s.drop_last());
    }
}

/// Decodes one hexadecimal digit.
fn hex_nibble(b: u8) -> (r: Option<u8>)
    ensures
        r is Some <==> is_hex_digit(b),
        r matches Some(v) ==> v == nibble_value(b) && v < 16,
{
    if 48 <= b && b <= 57 {
        Some(b - 48)
    } else if 97 <= b && b <= 102 {
        Some(b - 87)
    } else if 65 <= b && b <= 70 {
        Some(b - 55)
    } else {
        None
    }
}

/// Decodes sixteen hexadecimal digits starting at `start` into one word.
fn parse_hex_word(b: &[u8], start: usize) -> (r: Option<u64>)
    requires
        b@.len() == 64,
        start + 16 <= 64,
    ensures
        r is Some <==> (forall|i: int| start <= i < start + 16 ==> is_hex_digit(b@[i])),
        r matches Some(w) ==> w == hex_value(b@.subrange(start as int, start as int + 16)),
{
    let mut acc: u64 = 0;
    let mut j: usize = 0;
    while j < 16
        invariant
            j <= 16,
            b@.len() == 64,
            start + 16 <= 64,
            forall|i: int| start <= i < start + j ==> is_hex_digit(b@[i]),
            acc == hex_value(b@.subrange(start as int, start as int + j)),
            acc < pow16(j as nat),
        decreases 16 - j,
{
        let c = b[start + j];
        match hex_nibble(c) {
            None => {
                return None;
            },
            Some(v) => {
                proof {
                    lemma_pow16_mono((j + 1) as nat, 16);
                    assert(pow16(16) == 0x10000000000000000) by {
                        reveal_with_fuel(pow16, 17);
                    }
                    assert(b@.subrange(start as int, start as int + j + 1).drop_last()
                        =~= b@.subrange(start as int, start as int + j));
                    assert(b@.subrange(start as int, start as int + j + 1).last() == b@[start
                        + j]);
                }
                acc = acc * 16 + (v as u64);
                j = j + 1;
            },
        }
    }
    Some(acc)
}

/// Exactly 64 hexadecimal digits: the well-formed spelling of a
/// transaction id.
pub open spec fn txid_hex(s: Seq<u8>) -> bool {
    s.len() == 64 && (forall|i: int| 0 <= i < 64 ==> is_hex_digit(s[i]))
}

/// The transaction id a well-formed 64-digit spelling denotes, word by
/// word from the front of the string.
pub open spec fn txid_of_hex(s: Seq<u8>) -> Txid {
    Txid {
        w0: hex_value(s.subrange(0, 16)) as u64,
        w1: hex_value(s.subrange(16, 32)) as u64,
        w2: hex_value(s.subrange(32, 48)) as u64,
        w3: hex_value(s.subrange(48, 64)) as u64,
    }
}

/// Decodes a 64-digit hexadecimal string into a transaction id. Anything
/// but exactly 64 hexadecimal digits is rejected.
pub fn parse_txid(s: &str) -> (r: Option<Txid>)
    ensures
        r is Some <==> txid_hex(s.spec_bytes()),
        r matches Some(t) ==> t == txid_of_hex(s.spec_bytes()),
{
    proof {
        if txid_hex(s.spec_bytes()) {
            lemma_hex_value_bound(s.spec_bytes().subrange(0, 16));
            lemma_hex_value_bound(s.spec_bytes().subrange(16, 32));
            lemma_hex_value_bound(s.spec_bytes().subrange(32, 48));
            lemma_hex_value_bound(s.spec_bytes().subrange(48, 64));
            assert(pow16(16) == 0x10000000000000000) by {
                reveal_with_fuel(pow16, 17);
            }
        }
    }
    let b = s.as_bytes();
    if b.len() != 64 {
        return None;
    }
    let w0 = parse_hex_word(b, 0);
    let w1 = parse_hex_word(b, 16);
    let w2 = parse_hex_word(b, 32);
    let w3 = parse_hex_word(b, 48);
    match (w0, w1, w2, w3) {
        (Some(w0), Some(w1), Some(w2), Some(w3)) => Some(Txid { w0, w1, w2, w3 }),
        _ => None,
    }
}

/// A 64-digit lowercase hexadecimal run — the spelling of a transaction
/// id — starts at `i`.
pub open spec fn txid_run_at(b: Seq<u8>, i: int) -> bool {
    0 <= i && i + 64 <= b.len() && (forall|k: int| i <= k < i + 64 ==> is_lower_hex_digit(b[k]))
}

/// Finds where the first 64-digit lowercase hexadecimal run starts in a
/// byte string, as a mining tool's report holds a transaction id.
pub fn find_txid_hex(b: &[u8]) -> (r: Option<usize>)
    ensures
        r is Some <==> exists|i: int| txid_run_at(b@, i),
        r matches Some(s) ==> txid_run_at(b@, s as int) && (forall|j: int|
            0 <= j < s ==> !txid_run_at(b@, j)),
{
    let n = b.len();
    let mut run: usize = 0;
    for i in 0..n
        invariant
            n == b@.len(),
            run <= i,
            run < 64,
            forall|k: int| i - run <= k < i ==> is_lower_hex_digit(b@[k]),
            run < i ==> !is_lower_hex_digit(b@[i - run - 1]),
            forall|j: int| 0 <= j && j + 64 <= i ==> !txid_run_at(b@, j),
    {
        let c = b[i];
        let hex = (48 <= c && c <= 57) || (97 <= c && c <= 102);
        if hex {
            run = run + 1;
            if run == 64 {
                proof {
                    assert(txid_run_at(b@, i - 63));
                    assert forall|j: int| 0 <= j < i - 63 implies !txid_run_at(b@, j) by {}
                }
                return Some(i + 1 - 64);
            }
            proof {
                assert forall|j: int| 0 <= j && j + 64 <= i + 1 implies !txid_run_at(
                    b@,
                    j,
                ) by {
                    if j + 64 == i + 1 {
                        assert(!is_lower_hex_digit(b@[i - run]));
                        assert(i - run >= j);
                    }
                }
            }
        } else {
            run = 0;
            proof {
                assert forall|j: int| 0 <= j && j + 64 <= i + 1 implies !txid_run_at(
                    b@,
                    j,
                ) by {
                    if j + 64 == i + 1 {
                        assert(!is_lower_hex_digit(b@[i as int]));
                    }
                }
            }
        }
    }
    proof {
        assert forall|i: int| !txid_run_at(b@, i) by {}
    }
    None
}

} // verus!
