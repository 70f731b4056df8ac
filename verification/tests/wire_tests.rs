use ark_round::hex::{find_txid_hex, parse_txid};
use ark_round::types::Txid;
use ark_round::wire::{
    check_destination, info_from_wire, parse_network, sequence_from_seconds_ceil, vtxo_from_wire,
    Network, WireOutPoint, WireServerInfo, WireVtxo,
};
use ark_round::forfeit::plan_forfeits;
use ark_round::types::{OutPoint, VtxoInput};
use ark_round::RoundError;

use base64::Engine;
use std::str::FromStr;

#[test]
fn sequence_encoding_rounds_seconds_up() {
    assert_eq!(sequence_from_seconds_ceil(0).unwrap(), 0x0040_0000);
    assert_eq!(sequence_from_seconds_ceil(1).unwrap(), 0x0040_0001);
    assert_eq!(sequence_from_seconds_ceil(512).unwrap(), 0x0040_0001);
    assert_eq!(sequence_from_seconds_ceil(513).unwrap(), 0x0040_0002);
    assert_eq!(sequence_from_seconds_ceil(65_535 * 512).unwrap(), 0x0040_FFFF);
    assert_eq!(
        sequence_from_seconds_ceil(65_535 * 512 + 1).unwrap_err(),
        RoundError::ConversionError
    );
}

#[test]
fn sequence_encoding_matches_the_bitcoin_library() {
    for seconds in [0u32, 1, 511, 512, 513, 1_000_000, 65_535 * 512] {
        let ours = sequence_from_seconds_ceil(seconds).unwrap();
        let theirs = bitcoin::Sequence::from_seconds_ceil(seconds).unwrap().to_consensus_u32();
        assert_eq!(ours, theirs);
    }
    assert!(bitcoin::Sequence::from_seconds_ceil(65_535 * 512 + 512).is_err());
    assert!(sequence_from_seconds_ceil(65_535 * 512 + 512).is_err());
}

#[test]
fn network_names_parse() {
    assert_eq!(parse_network("bitcoin"), Some(Network::Bitcoin));
    assert_eq!(parse_network("testnet"), Some(Network::Testnet));
    assert_eq!(parse_network("testnet4"), Some(Network::Testnet4));
    assert_eq!(parse_network("signet"), Some(Network::Signet));
    assert_eq!(parse_network("regtest"), Some(Network::Regtest));
    assert_eq!(parse_network("mainnet"), None);
    assert_eq!(parse_network(""), None);
}

#[test]
fn txids_parse_word_by_word() {
    let s = "0000000000000000000000000000000000000000000000000000000000000001";
    assert_eq!(parse_txid(s), Some(Txid { w0: 0, w1: 0, w2: 0, w3: 1 }));
    let s = "00000000000000ff000000000000000a000000000000000000000000deadbeef";
    assert_eq!(parse_txid(s), Some(Txid { w0: 0xff, w1: 0xa, w2: 0, w3: 0xdead_beef }));
    let upper = "00000000000000FF000000000000000A000000000000000000000000DEADBEEF";
    assert_eq!(parse_txid(upper), Some(Txid { w0: 0xff, w1: 0xa, w2: 0, w3: 0xdead_beef }));
}

#[test]
fn malformed_txids_are_rejected() {
    assert_eq!(parse_txid(""), None);
    assert_eq!(parse_txid("abc"), None);
    let short = "000000000000000000000000000000000000000000000000000000000000001";
    assert_eq!(parse_txid(short), None);
    let bad = "000000000000000000000000000000000000000000000000000000000000000g";
    assert_eq!(parse_txid(bad), None);
}

#[test]
fn the_first_txid_in_a_report_is_found() {
    let id = "9f2b5c0d8e417a63b2c4d5e6f708192a3b4c5d6e7f8091a2b3c4d5e6f7081920";
    let text = format!("txid: {} (confirmed)\nsecond: {}", id, id);
    let bytes = text.as_bytes();
    let start = find_txid_hex(bytes).unwrap();
    assert_eq!(&text[start..start + 64], id);
    assert_eq!(start, 6);
    assert_eq!(find_txid_hex(b"no id here"), None);
    // 63 digits are not enough.
    let short = &id[..63];
    assert_eq!(find_txid_hex(short.as_bytes()), None);
    // Uppercase digits do not spell a transaction id in such reports.
    let upper = id.to_uppercase();
    assert_eq!(find_txid_hex(upper.as_bytes()), None);
}

fn generator_pubkey() -> String {
    "0279be667ef9dcbbac55a06295ce870b07029bfcdb2dce28d959f2815b16f81798".to_string()
}

fn regtest_address() -> String {
    let pk = bitcoin::CompressedPublicKey::from_str(&generator_pubkey()).unwrap();
    bitcoin::Address::p2wpkh(&pk, bitcoin::Network::Regtest).to_string()
}

fn wire_info() -> WireServerInfo {
    WireServerInfo {
        pubkey: generator_pubkey(),
        vtxo_tree_expiry: 604_672,
        unilateral_exit_delay: 1_024,
        round_interval: 30,
        network: "regtest".to_string(),
        dust: 1_000,
        boarding_descriptor_template: "tr(...)".to_string(),
        vtxo_descriptor_templates: vec!["tr(...)".to_string()],
        forfeit_address: regtest_address(),
    }
}

#[test]
fn server_parameters_convert_field_by_field() {
    let info = info_from_wire(wire_info()).unwrap();
    assert_eq!(info.pk, generator_pubkey());
    assert_eq!(info.vtxo_tree_expiry, 0x0040_0000 + (604_672 + 511) / 512);
    assert_eq!(info.unilateral_exit_delay, 0x0040_0000 + 2);
    assert_eq!(info.round_interval, 30);
    assert_eq!(info.network, Network::Regtest);
    assert_eq!(info.dust, 1_000);
    assert_eq!(info.forfeit_address, regtest_address());
}

#[test]
fn malformed_server_parameters_are_conversion_errors() {
    let mut w = wire_info();
    w.pubkey = "not a key".to_string();
    assert_eq!(info_from_wire(w).unwrap_err(), RoundError::ConversionError);

    let mut w = wire_info();
    w.network = "moonnet".to_string();
    assert_eq!(info_from_wire(w).unwrap_err(), RoundError::ConversionError);

    let mut w = wire_info();
    w.dust = -1;
    assert_eq!(info_from_wire(w).unwrap_err(), RoundError::ConversionError);

    let mut w = wire_info();
    w.vtxo_tree_expiry = -5;
    assert_eq!(info_from_wire(w).unwrap_err(), RoundError::ConversionError);

    let mut w = wire_info();
    w.unilateral_exit_delay = (65_536i64) * 512;
    assert_eq!(info_from_wire(w).unwrap_err(), RoundError::ConversionError);

    // A mainnet address is not valid on regtest.
    let mut w = wire_info();
    w.forfeit_address = "1BvBMSEYstWetqTFn5Au4m4GFg7xJaNVN2".to_string();
    assert_eq!(info_from_wire(w).unwrap_err(), RoundError::ConversionError);
}

fn wire_vtxo() -> WireVtxo {
    WireVtxo {
        outpoint: Some(WireOutPoint {
            txid: "00000000000000ff000000000000000a000000000000000000000000deadbeef"
                .to_string(),
            vout: 2,
        }),
        spent: false,
        round_txid: "0000000000000000000000000000000000000000000000000000000000000003"
            .to_string(),
        spent_by: String::new(),
        expire_at: 1_700_000_000,
        swept: false,
        is_pending: true,
        redeem_tx: String::new(),
        amount: 21_000,
        pubkey: "02aa".to_string(),
        created_at: 1_600_000_000,
    }
}

#[test]
fn virtual_outputs_convert_field_by_field() {
    let v = vtxo_from_wire(wire_vtxo()).unwrap();
    assert_eq!(v.outpoint.txid, Txid { w0: 0xff, w1: 0xa, w2: 0, w3: 0xdead_beef });
    assert_eq!(v.outpoint.vout, 2);
    assert!(!v.spent);
    assert_eq!(v.round_txid, Txid { w0: 0, w1: 0, w2: 0, w3: 3 });
    assert_eq!(v.spent_by, None);
    assert_eq!(v.expire_at, 1_700_000_000);
    assert!(!v.swept);
    assert!(v.is_pending);
    assert_eq!(v.redeem_tx, None);
    assert_eq!(v.amount, 21_000);
    assert_eq!(v.created_at, 1_600_000_000);
}

#[test]
fn a_redeem_transaction_rides_along_as_checked_psbt_bytes() {
    let tx = bitcoin::Transaction {
        version: bitcoin::transaction::Version::TWO,
        lock_time: bitcoin::absolute::LockTime::ZERO,
        input: vec![],
        output: vec![],
    };
    let psbt = bitcoin::Psbt::from_unsigned_tx(tx).unwrap();
    let bytes = psbt.serialize();
    let mut w = wire_vtxo();
    w.redeem_tx = base64::engine::general_purpose::STANDARD.encode(&bytes);
    let v = vtxo_from_wire(w).unwrap();
    assert_eq!(v.redeem_tx.unwrap(), bytes);
}

#[test]
fn malformed_virtual_outputs_are_conversion_errors() {
    let mut w = wire_vtxo();
    w.outpoint = None;
    assert_eq!(vtxo_from_wire(w).unwrap_err(), RoundError::ConversionError);

    let mut w = wire_vtxo();
    w.outpoint.as_mut().unwrap().txid = "xyz".to_string();
    assert_eq!(vtxo_from_wire(w).unwrap_err(), RoundError::ConversionError);

    let mut w = wire_vtxo();
    w.spent_by = "not-a-txid".to_string();
    assert_eq!(vtxo_from_wire(w).unwrap_err(), RoundError::ConversionError);

    let mut w = wire_vtxo();
    w.redeem_tx = "!!!not base64!!!".to_string();
    assert_eq!(vtxo_from_wire(w).unwrap_err(), RoundError::ConversionError);

    // Valid base64 whose bytes are no partially signed transaction.
    let mut w = wire_vtxo();
    w.redeem_tx = base64::engine::general_purpose::STANDARD.encode(b"junk");
    assert_eq!(vtxo_from_wire(w).unwrap_err(), RoundError::ConversionError);
}

#[test]
fn forfeits_pay_the_consumed_output_less_the_fee() {
    let inputs = vec![
        VtxoInput { outpoint: OutPoint { txid: Txid { w0: 1, w1: 0, w2: 0, w3: 0 }, vout: 0 }, amount: 10_000 },
        VtxoInput { outpoint: OutPoint { txid: Txid { w0: 2, w1: 0, w2: 0, w3: 0 }, vout: 1 }, amount: 2_000 },
    ];
    let plans = plan_forfeits(&inputs, 500, 1_000).unwrap();
    assert_eq!(plans.len(), 2);
    assert_eq!(plans[0].outpoint, inputs[0].outpoint);
    assert_eq!(plans[0].value, 9_500);
    assert_eq!(plans[1].value, 1_500);

    // One output that cannot clear the dust threshold fails the set.
    let dusty = vec![
        VtxoInput { outpoint: OutPoint { txid: Txid { w0: 1, w1: 0, w2: 0, w3: 0 }, vout: 0 }, amount: 10_000 },
        VtxoInput { outpoint: OutPoint { txid: Txid { w0: 2, w1: 0, w2: 0, w3: 0 }, vout: 1 }, amount: 1_200 },
    ];
    assert_eq!(plan_forfeits(&dusty, 500, 1_000).unwrap_err(), RoundError::BelowDustThreshold);
}

#[test]
fn destinations_must_be_offchain_addresses() {
    let xonly = bitcoin::XOnlyPublicKey::from_str(
        "79be667ef9dcbbac55a06295ce870b07029bfcdb2dce28d959f2815b16f81798",
    )
    .unwrap();
    let tweaked = bitcoin::key::TweakedPublicKey::dangerous_assume_tweaked(xonly);
    let addr = ark_core::ArkAddress::new(bitcoin::Network::Regtest, xonly, tweaked).encode();
    assert!(check_destination(&addr).is_ok());

    assert_eq!(check_destination("").unwrap_err(), RoundError::ConversionError);
    assert_eq!(
        check_destination("not an address").unwrap_err(),
        RoundError::ConversionError
    );
    // An on-chain address is not an off-chain destination.
    assert_eq!(
        check_destination("1BvBMSEYstWetqTFn5Au4m4GFg7xJaNVN2").unwrap_err(),
        RoundError::ConversionError
    );
}
