//! Plain data the checker works over: networks, addresses, transaction
//! metadata, and the validation errors.

use vstd::prelude::*;

verus! {

/// The network a wallet runs on. An address encodes the network it is meant
/// for, and the two must agree before the address may be used.
#[derive(Clone, Copy, PartialEq, Eq, Structural, Debug)]
pub enum Network {
    Mainnet,
    Testnet,
    Signet,
    Regtest,
}

/// A payment destination: the text of the address together with the network
/// its encoding names. The checker reads only the network tag; the text is
/// carried through untouched for the wallet to look up.
#[derive(Clone, Debug)]
pub struct Address {
    /// The network the address is encoded for.
    pub network: Network,
    /// The address as the user supplied it.
    pub text: String,
}

/// An identifier naming a transaction known to the chain client. Opaque to
/// the checker: it is only handed back to the caller with each query.
#[derive(Clone, Copy, PartialEq, Eq, Debug)]
pub struct Txid {
    /// The identifier's bytes.
    pub bytes: [u8; 32],
}

/// Wallet-relative metadata for a transaction, as the chain client reports
/// it: how many blocks confirm it, and the absolute fee it paid, when the
/// wallet has that recorded.
#[derive(Clone, Copy, PartialEq, Eq, Debug)]
pub struct TransactionInfo {
    /// Number of confirming blocks; zero means pending, and some clients
    /// report a negative count for a conflicted transaction.
    pub confirmations: i64,
    /// Fee paid, in the smallest monetary unit, if recorded.
    pub fee: Option<u64>,
}

/// The decoded transaction. Only its size matters to the checker: it is the
/// denominator of the current fee rate.
#[derive(Clone, Copy, PartialEq, Eq, Debug)]
pub struct RawTransaction {
    /// Size of the serialized transaction, in bytes.
    pub size: u64,
}

/// Why the acceleration preconditions are not satisfied. Each guard has a
/// variant of its own, and the first failing guard decides.
#[derive(Clone, Copy, PartialEq, Eq, Debug)]
pub enum Error {
    /// The address is encoded for a network other than the wallet's.
    InvalidAddressForNetwork,
    /// The wallet does not control the address.
    AddressNotOwned,
    /// The chain client does not know the transaction.
    TransactionNotFound,
    /// The transaction's confirmation count is not zero.
    AlreadyConfirmed,
    /// The current fee rate is not strictly below the requested threshold.
    FeeRateAlreadySufficient,
}

} // verus!
