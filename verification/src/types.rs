//! Plain data model shared by the settlement components.
//!
//! Outside collaborators (the gRPC transport, the chain explorer, the
//! signing engine) deal in rich foreign types; the verified logic reads
//! only the plain values modelled here.

use vstd::prelude::*;

verus! {

/// A 256-bit transaction id, stored as four little-endian 64-bit words.
#[derive(Clone, Copy, Debug, Hash, PartialEq, Eq, Structural)]
pub struct Txid {
    pub w0: u64,
    pub w1: u64,
    pub w2: u64,
    pub w3: u64,
}

/// A reference to one output of one transaction.
#[derive(Clone, Copy, Debug, Hash, PartialEq, Eq, Structural)]
pub struct OutPoint {
    pub txid: Txid,
    pub vout: u32,
}

/// Snapshot of one off-chain (virtual) output the wallet knows about,
/// together with the coordinator- and chain-supplied evidence the balance
/// classification reads.
#[derive(Clone, Copy, Debug)]
pub struct VirtualOutput {
    pub outpoint: OutPoint,
    /// Value in satoshis.
    pub amount: u64,
    /// Unix time at which the output expires and may be swept by the server.
    pub expire_at: i64,
    /// The coordinator already saw this output spent.
    pub spent: bool,
    /// The coordinator already swept this output after expiry.
    pub swept: bool,
}

/// Snapshot of one on-chain boarding output earmarked for entry into a
/// round, together with the chain evidence the classification reads.
#[derive(Clone, Copy, Debug)]
pub struct BoardingUtxo {
    pub outpoint: OutPoint,
    /// Value in satoshis.
    pub amount: u64,
    /// Block time of the confirming block, if the output is confirmed.
    pub confirmation_blocktime: Option<i64>,
    /// The chain explorer already saw this output spent.
    pub spent: bool,
}

/// One off-chain output consumed by a settlement round.
#[derive(Clone, Copy, Debug, PartialEq, Eq, Structural)]
pub struct VtxoInput {
    pub outpoint: OutPoint,
    /// Value in satoshis.
    pub amount: u64,
}

/// One on-chain boarding output contributed to a settlement round.
#[derive(Clone, Copy, Debug, PartialEq, Eq, Structural)]
pub struct BoardingInput {
    pub outpoint: OutPoint,
    /// Value in satoshis.
    pub amount: u64,
}

/// Connection endpoints, as read from the configuration file.
#[derive(Clone, Debug)]
pub struct Config {
    pub ark_server_url: String,
    pub esplora_url: String,
}

/// One wallet held by the backend: an identifier and the seed its keys are
/// derived from.
#[derive(Clone, Debug)]
pub struct WalletInfo {
    pub id: String,
    pub seed: String,
}

/// The two addresses a wallet receives on.
#[derive(Clone, Debug)]
pub struct AddressResponse {
    pub wallet_id: String,
    pub onchain_address: String,
    pub offchain_address: String,
}

/// Acknowledges a freshly created wallet.
#[derive(Clone, Debug)]
pub struct WalletResponse {
    pub wallet_id: String,
}

/// Totals over the wallet's off-chain outputs, in satoshis.
#[derive(Clone, Copy, Debug, PartialEq, Eq, Structural)]
pub struct OffchainBalance {
    pub spendable: u64,
    pub expired: u64,
}

/// Totals over the wallet's boarding outputs, in satoshis.
#[derive(Clone, Copy, Debug, PartialEq, Eq, Structural)]
pub struct BoardingBalance {
    pub spendable: u64,
    pub expired: u64,
    pub pending: u64,
}

/// A wallet's balances, bucket by bucket.
#[derive(Clone, Debug)]
pub struct BalanceResponse {
    pub wallet_id: String,
    pub offchain_balance: OffchainBalance,
    pub boarding_balance: BoardingBalance,
}

/// Asks to pay `amount` satoshis to an off-chain address.
#[derive(Clone, Debug)]
pub struct SendToArkAddressRequest {
    pub wallet_id: String,
    pub address: String,
    pub amount: u64,
}

/// Reports a completed off-chain payment.
#[derive(Clone, Debug)]
pub struct SendToArkAddressResponse {
    pub wallet_id: String,
    pub to_address: String,
    pub amount: u64,
    pub txid: String,
}

/// Asks to settle a wallet's funds into the next round, optionally to a
/// foreign address.
#[derive(Clone, Debug)]
pub struct SettleRequest {
    pub wallet_id: String,
    pub to_address: Option<String>,
}

/// Reports the outcome of a settlement attempt.
#[derive(Clone, Debug)]
pub struct SettleResponse {
    pub wallet_id: String,
    pub success: bool,
    pub txid: Option<String>,
    pub error: Option<String>,
}

} // verus!
