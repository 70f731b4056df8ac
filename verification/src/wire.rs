//! Conversion of the coordinator's wire messages into the library's
//! model, field by field.
//!
//! The wire layer hands over plain strings and integers; this module
//! validates every field and rejects a malformed one with
//! `ConversionError`. Where only an outside library can judge a field —
//! a curve point, a Bitcoin address, a base64 payload, a PSBT — the
//! judgement is delegated to it through a trusted wrapper; everything
//! else (hexadecimal ids, network names, lock-time encodings) is decoded
//! by verified code.

use vstd::prelude::*;
use vstd::string::StringSliceAdditionalSpecFns;
use vstd::utf8::encode_utf8;

use std::str::FromStr;

use crate::hex::{parse_txid, txid_hex, txid_of_hex};
use crate::types::{OutPoint, Txid};
use crate::RoundError;

verus! {

/// Whether a string is a valid encoding of a secp256k1 public key.
pub uninterp spec fn pubkey_wellformed(s: Seq<char>) -> bool;

/// Whether a string is a valid Bitcoin address for the named network.
pub uninterp spec fn address_wellformed(addr: Seq<char>, network: Seq<char>) -> bool;

/// What standard-alphabet base64 decoding yields for a string, if it is
/// valid base64.
pub uninterp spec fn base64_decoded(s: Seq<char>) -> Option<Seq<u8>>;

/// Whether a byte string deserializes as a partially signed transaction.
pub uninterp spec fn psbt_wellformed(b: Seq<u8>) -> bool;

/// Relies on `bitcoin::secp256k1::PublicKey::from_str`: whether the
/// string spells a valid public key (a curve point) is a function of the
/// string alone.
#[verifier::external_body]
fn pubkey_valid(s: &str) -> (r: bool)
    ensures
        r == pubkey_wellformed(s@),
{
    bitcoin::secp256k1::PublicKey::from_str(s).is_ok()
}

/// Relies on `bitcoin::Address::from_str` and `Address::require_network`
/// (with `bitcoin::Network::from_str` reading the network name): whether
/// the string spells an address valid on that network is a function of
/// the two strings alone.
#[verifier::external_body]
fn address_valid(addr: &str, network: &str) -> (r: bool)
    ensures
        r == address_wellformed(addr@, network@),
{
    match (bitcoin::Network::from_str(network), bitcoin::Address::from_str(addr)) {
        (Ok(n), Ok(a)) => a.require_network(n).is_ok(),
        _ => false,
    }
}

/// Relies on `base64::Engine::decode` with the standard-alphabet engine:
/// the decoding of a string is a function of the string alone.
#[verifier::external_body]
fn decode_base64(s: &str) -> (r: Option<Vec<u8>>)
    ensures
        r is Some <==> base64_decoded(s@) is Some,
        r matches Some(b) ==> Some(b@) == base64_decoded(s@),
{
    base64::Engine::decode(&base64::engine::general_purpose::STANDARD, s).ok()
}

/// Relies on `bitcoin::Psbt::deserialize`: whether a byte string holds a
/// well-formed partially signed transaction is a function of the bytes
/// alone.
#[verifier::external_body]
fn psbt_valid(b: &Vec<u8>) -> (r: bool)
    ensures
        r == psbt_wellformed(b@),
{
    bitcoin::Psbt::deserialize(b).is_ok()
}

/// Whether a string is a valid off-chain (Ark) address.
pub uninterp spec fn ark_address_wellformed(s: Seq<char>) -> bool;

/// Relies on `ark_core::ArkAddress::decode`: whether the string spells a
/// valid off-chain address is a function of the string alone.
#[verifier::external_body]
fn ark_address_valid(s: &str) -> (r: bool)
    ensures
        r == ark_address_wellformed(s@),
{
    ark_core::ArkAddress::decode(s).is_ok()
}

/// Validates a transfer's destination: exactly the well-formed off-chain
/// addresses pass; anything else is a `ConversionError`, surfaced before
/// any coordinator RPC is issued.
pub fn check_destination(addr: &str) -> (r: Result<(), RoundError>)
    ensures
        r is Ok <==> ark_address_wellformed(addr@),
        r is Err ==> r->Err_0 == RoundError::ConversionError,
{
    if ark_address_valid(addr) {
        Ok(())
    } else {
        Err(RoundError::ConversionError)
    }
}

/// The Bitcoin network a coordinator may serve.
#[derive(Clone, Copy, Debug, PartialEq, Eq, Structural)]
pub enum Network {
    Bitcoin,
    Testnet,
    Testnet4,
    Signet,
    Regtest,
}

/// The network a name denotes, spelled as the wire protocol spells it.
pub open spec fn parsed_network(b: Seq<u8>) -> Option<Network> {
    if b == "bitcoin".spec_bytes() {
        Some(Network::Bitcoin)
    } else if b == "testnet".spec_bytes() {
        Some(Network::Testnet)
    } else if b == "testnet4".spec_bytes() {
        Some(Network::Testnet4)
    } else if b == "signet".spec_bytes() {
        Some(Network::Signet)
    } else if b == "regtest".spec_bytes() {
        Some(Network::Regtest)
    } else {
        None
    }
}

/// Whether two byte strings are equal.
fn bytes_eq(a: &[u8], b: &[u8]) -> (r: bool)
    ensures
        r == (a@ == b@),
{
    if a.len() != b.len() {
        proof {
            assert(a@.len() != b@.len());
        }
        return false;
    }
    let n = a.len();
    for i in 0..n
        invariant
            n == a@.len() == b@.len(),
            forall|k: int| 0 <= k < i ==> a@[k] == b@[k],
    {
        if a[i] != b[i] {
            return false;
        }
    }
    proof {
        assert(a@ =~= b@);
    }
    true
}

/// Reads a network name.
pub fn parse_network(s: &str) -> (r: Option<Network>)
    ensures
        r == parsed_network(s.spec_bytes()),
{
    let b = s.as_bytes();
    if bytes_eq(b, "bitcoin".as_bytes()) {
        Some(Network::Bitcoin)
    } else if bytes_eq(b, "testnet".as_bytes()) {
        Some(Network::Testnet)
    } else if bytes_eq(b, "testnet4".as_bytes()) {
        Some(Network::Testnet4)
    } else if bytes_eq(b, "signet".as_bytes()) {
        Some(Network::Signet)
    } else if bytes_eq(b, "regtest".as_bytes()) {
        Some(Network::Regtest)
    } else {
        None
    }
}

/// The consensus sequence number encoding a relative time lock of
/// `seconds`, rounded up to 512-second intervals: the interval count in
/// the low 16 bits with the time-lock type bit set. Rejects a duration
/// whose interval count does not fit 16 bits.
pub fn sequence_from_seconds_ceil(seconds: u32) -> (r: Result<u32, RoundError>)
    ensures
        r is Ok <==> (seconds + 511) / 512 <= 0xFFFF,
        r matches Ok(v) ==> v == 0x00400000 + (seconds + 511) / 512,
        r is Err ==> r->Err_0 == RoundError::ConversionError,
{
    let intervals = (seconds as u64 + 511) / 512;
    if intervals <= 0xFFFF {
        Ok(0x00400000u32 + (intervals as u32))
    } else {
        Err(RoundError::ConversionError)
    }
}

/// The coordinator's parameters as the wire protocol delivers them.
#[derive(Clone, Debug)]
pub struct WireServerInfo {
    pub pubkey: String,
    pub vtxo_tree_expiry: i64,
    pub unilateral_exit_delay: i64,
    pub round_interval: i64,
    pub network: String,
    pub dust: i64,
    pub boarding_descriptor_template: String,
    pub vtxo_descriptor_templates: Vec<String>,
    pub forfeit_address: String,
}

/// The coordinator's parameters, validated: fetched once at session
/// start and treated as immutable for the session.
#[derive(Clone, Debug)]
pub struct ServerInfo {
    /// The coordinator's public key, validated as a curve point.
    pub pk: String,
    /// Consensus sequence encoding of the output tree's expiry.
    pub vtxo_tree_expiry: u32,
    /// Consensus sequence encoding of the unilateral exit delay.
    pub unilateral_exit_delay: u32,
    pub round_interval: i64,
    pub network: Network,
    /// Dust threshold in satoshis.
    pub dust: u64,
    pub boarding_descriptor_template: String,
    pub vtxo_descriptor_templates: Vec<String>,
    /// The forfeiture address, validated for `network`.
    pub forfeit_address: String,
}

/// Every field of the wire message is well-formed.
pub open spec fn info_convertible(w: WireServerInfo) -> bool {
    &&& pubkey_wellformed(w.pubkey@)
    &&& 0 <= w.vtxo_tree_expiry <= u32::MAX
    &&& (w.vtxo_tree_expiry + 511) / 512 <= 0xFFFF
    &&& 0 <= w.unilateral_exit_delay <= u32::MAX
    &&& (w.unilateral_exit_delay + 511) / 512 <= 0xFFFF
    &&& parsed_network(encode_utf8(w.network@)) is Some
    &&& 0 <= w.dust
    &&& address_wellformed(w.forfeit_address@, w.network@)
}

/// Validates the coordinator's parameters, field by field. Succeeds if
/// and only if every field is well-formed; any malformed field is a
/// `ConversionError`.
pub fn info_from_wire(w: WireServerInfo) -> (r: Result<ServerInfo, RoundError>)
    ensures
        r is Ok <==> info_convertible(w),
        r matches Ok(info) ==> {
            &&& info.pk@ == w.pubkey@
            &&& info.vtxo_tree_expiry == 0x00400000 + (w.vtxo_tree_expiry + 511) / 512
            &&& info.unilateral_exit_delay == 0x00400000 + (w.unilateral_exit_delay + 511) / 512
            &&& info.round_interval == w.round_interval
            &&& Some(info.network) == parsed_network(encode_utf8(w.network@))
            &&& info.dust == w.dust
            &&& info.boarding_descriptor_template@ == w.boarding_descriptor_template@
            &&& info.vtxo_descriptor_templates@ == w.vtxo_descriptor_templates@
            &&& info.forfeit_address@ == w.forfeit_address@
        },
        r is Err ==> r->Err_0 == RoundError::ConversionError,
{
    if !pubkey_valid(w.pubkey.as_str()) {
        return Err(RoundError::ConversionError);
    }
    if w.vtxo_tree_expiry < 0 || w.vtxo_tree_expiry > u32::MAX as i64 {
        return Err(RoundError::ConversionError);
    }
    let vtxo_tree_expiry = match sequence_from_seconds_ceil(w.vtxo_tree_expiry as u32) {
        Ok(v) => v,
        Err(_) => {
            return Err(RoundError::ConversionError);
        },
    };
    if w.unilateral_exit_delay < 0 || w.unilateral_exit_delay > u32::MAX as i64 {
        return Err(RoundError::ConversionError);
    }
    let unilateral_exit_delay = match sequence_from_seconds_ceil(w.unilateral_exit_delay as u32) {
        Ok(v) => v,
        Err(_) => {
            return Err(RoundError::ConversionError);
        },
    };
    let network = match parse_network(w.network.as_str()) {
        Some(n) => n,
        None => {
            return Err(RoundError::ConversionError);
        },
    };
    if w.dust < 0 {
        return Err(RoundError::ConversionError);
    }
    if !address_valid(w.forfeit_address.as_str(), w.network.as_str()) {
        return Err(RoundError::ConversionError);
    }
    Ok(ServerInfo {
        pk: w.pubkey,
        vtxo_tree_expiry,
        unilateral_exit_delay,
        round_interval: w.round_interval,
        network,
        dust: w.dust as u64,
        boarding_descriptor_template: w.boarding_descriptor_template,
        vtxo_descriptor_templates: w.vtxo_descriptor_templates,
        forfeit_address: w.forfeit_address,
    })
}

/// One output reference as the wire protocol delivers it.
#[derive(Clone, Debug)]
pub struct WireOutPoint {
    pub txid: String,
    pub vout: u32,
}

/// One virtual output as the wire protocol delivers it.
#[derive(Clone, Debug)]
pub struct WireVtxo {
    pub outpoint: Option<WireOutPoint>,
    pub spent: bool,
    pub round_txid: String,
    /// Empty when the output is unspent.
    pub spent_by: String,
    pub expire_at: i64,
    pub swept: bool,
    pub is_pending: bool,
    /// Base64 of the redeem transaction; empty when there is none.
    pub redeem_tx: String,
    pub amount: u64,
    pub pubkey: String,
    pub created_at: i64,
}

/// One virtual output, validated.
#[derive(Clone, Debug)]
pub struct VtxoOutPoint {
    pub outpoint: OutPoint,
    pub spent: bool,
    pub round_txid: Txid,
    pub spent_by: Option<Txid>,
    pub expire_at: i64,
    pub swept: bool,
    pub is_pending: bool,
    /// The redeem transaction, decoded and checked to deserialize as a
    /// partially signed transaction.
    pub redeem_tx: Option<Vec<u8>>,
    pub amount: u64,
    pub pubkey: String,
    pub created_at: i64,
}

/// Every field of the wire message is well-formed.
pub open spec fn vtxo_convertible(w: WireVtxo) -> bool {
    &&& w.outpoint matches Some(op) && txid_hex(encode_utf8(op.txid@))
    &&& txid_hex(encode_utf8(w.round_txid@))
    &&& (w.spent_by@.len() == 0 || txid_hex(encode_utf8(w.spent_by@)))
    &&& (w.redeem_tx@.len() == 0 || (base64_decoded(w.redeem_tx@) matches Some(b)
        && psbt_wellformed(b)))
}

/// Validates one virtual output, field by field. Succeeds if and only if
/// every field is well-formed; any malformed field is a
/// `ConversionError`.
pub fn vtxo_from_wire(w: WireVtxo) -> (r: Result<VtxoOutPoint, RoundError>)
    ensures
        r is Ok <==> vtxo_convertible(w),
        r matches Ok(v) ==> {
            &&& w.outpoint matches Some(op) && v.outpoint == (OutPoint {
                txid: txid_of_hex(encode_utf8(op.txid@)),
                vout: op.vout,
            })
            &&& v.spent == w.spent
            &&& v.round_txid == txid_of_hex(encode_utf8(w.round_txid@))
            &&& (w.spent_by@.len() == 0 ==> v.spent_by is None)
            &&& (w.spent_by@.len() > 0 ==> v.spent_by == Some(
                txid_of_hex(encode_utf8(w.spent_by@)),
            ))
            &&& v.expire_at == w.expire_at
            &&& v.swept == w.swept
            &&& v.is_pending == w.is_pending
            &&& (w.redeem_tx@.len() == 0 ==> v.redeem_tx is None)
            &&& (w.redeem_tx@.len() > 0 ==> (v.redeem_tx matches Some(b) && Some(b@)
                == base64_decoded(w.redeem_tx@)))
            &&& v.amount == w.amount
            &&& v.pubkey@ == w.pubkey@
            &&& v.created_at == w.created_at
        },
        r is Err ==> r->Err_0 == RoundError::ConversionError,
{
    let op = match w.outpoint {
        Some(op) => op,
        None => {
            return Err(RoundError::ConversionError);
        },
    };
    let txid = match parse_txid(op.txid.as_str()) {
        Some(t) => t,
        None => {
            return Err(RoundError::ConversionError);
        },
    };
    let round_txid = match parse_txid(w.round_txid.as_str()) {
        Some(t) => t,
        None => {
            return Err(RoundError::ConversionError);
        },
    };
    let spent_by = if w.spent_by.as_str().is_empty() {
        None
    } else {
        match parse_txid(w.spent_by.as_str()) {
            Some(t) => Some(t),
            None => {
                return Err(RoundError::ConversionError);
            },
        }
    };
    let redeem_tx = if w.redeem_tx.as_str().is_empty() {
        None
    } else {
        match decode_base64(w.redeem_tx.as_str()) {
            Some(b) => {
                if !psbt_valid(&b) {
                    return Err(RoundError::ConversionError);
                }
                Some(b)
            },
            None => {
                return Err(RoundError::ConversionError);
            },
        }
    };
    Ok(VtxoOutPoint {
        outpoint: OutPoint { txid, vout: op.vout },
        spent: w.spent,
        round_txid,
        spent_by,
        expire_at: w.expire_at,
        swept: w.swept,
        is_pending: w.is_pending,
        redeem_tx,
        amount: w.amount,
        pubkey: w.pubkey,
        created_at: w.created_at,
    })
}

} // verus!
