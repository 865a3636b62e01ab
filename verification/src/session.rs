//! The acceleration precondition check, as a typestate pipeline.
//!
//! [`Accelerator::run`] performs the one guard that needs no collaborator —
//! the address must be encoded for the wallet's network — and returns an
//! [`OwnershipCheck`]. Each state names the single query whose answer the
//! caller must fetch next; feeding the answer to `resolve` either fails with
//! the guard's error or moves to the next state. The types make the guard
//! order the only possible one, and a failed guard leaves nothing to query,
//! so no call is made past the first failure.

use vstd::prelude::*;

use crate::fee_rate::{rate_below, rate_strictly_below, FeeRate};
use crate::types::{Address, Error, Network, RawTransaction, TransactionInfo, Txid};

verus! {

/// An acceleration request: which address and transaction to accelerate, and
/// the fee-rate threshold the bump should reach. `dry_run` is not read by any
/// guard; it is carried through to [`Ready`] for the signing step that
/// follows a successful check.
#[derive(Clone, Debug)]
pub struct Accelerator {
    /// The address the transaction pays, as supplied, not yet checked
    /// against the wallet's network.
    pub address: Address,
    /// The transaction to accelerate.
    pub tx: Txid,
    /// Do not sign or broadcast afterwards; no guard reads this.
    pub dry_run: bool,
    /// The threshold the current fee rate must stay strictly below.
    pub fee_rate: FeeRate,
}

/// Awaiting the wallet's answer to: do you own `address`?
#[derive(Clone, Debug)]
pub struct OwnershipCheck {
    /// The address to ask the wallet about, already network-checked.
    pub address: Address,
    /// Carried through for the later queries.
    pub txid: Txid,
    /// Carried through for the fee-rate guard.
    pub threshold: FeeRate,
    /// Carried through for the signing step.
    pub dry_run: bool,
}

/// Awaiting the chain client's metadata for `txid`, to test that the
/// transaction is still unconfirmed.
#[derive(Clone, Copy, PartialEq, Eq, Debug)]
pub struct ConfirmationCheck {
    /// The transaction to look up.
    pub txid: Txid,
    /// Carried through for the fee-rate guard.
    pub threshold: FeeRate,
    /// Carried through for the signing step.
    pub dry_run: bool,
}

/// Awaiting the raw transaction for `txid`, to compare its current fee rate
/// against the threshold.
#[derive(Clone, Copy, PartialEq, Eq, Debug)]
pub struct FeeRateCheck {
    /// The transaction to fetch.
    pub txid: Txid,
    /// The fee the transaction paid, if the wallet recorded one; no record
    /// counts as a current fee rate of zero.
    pub fee: Option<u64>,
    /// The threshold the current fee rate must stay strictly below.
    pub threshold: FeeRate,
    /// Carried through for the signing step.
    pub dry_run: bool,
}

/// Every precondition holds: the transaction may be accelerated. Signing and
/// broadcast are the caller's business, gated by `dry_run`.
#[derive(Clone, Copy, PartialEq, Eq, Debug)]
pub struct Ready {
    /// The transaction cleared for acceleration.
    pub txid: Txid,
    /// Do not sign or broadcast afterwards.
    pub dry_run: bool,
}

impl Accelerator {
    /// The request's threshold denotes a rational.
    pub open spec fn wf(self) -> bool {
        self.fee_rate.wf()
    }

    /// What starting the check yields: the ownership query if the address is
    /// encoded for the wallet's network, the network error otherwise.
    pub open spec fn outcome(self, wallet_network: Network) -> Result<OwnershipCheck, Error> {
        if self.address.network == wallet_network {
            Ok(
                OwnershipCheck {
                    address: self.address,
                    txid: self.tx,
                    threshold: self.fee_rate,
                    dry_run: self.dry_run,
                },
            )
        } else {
            Err(Error::InvalidAddressForNetwork)
        }
    }

    /// Starts the check against a wallet on `wallet_network`. This is the
    /// address-network guard: it fails with `InvalidAddressForNetwork`
    /// exactly when the address's encoded network is another one, and in
    /// that case there is no next state, so no collaborator is ever queried.
    pub fn run(self, wallet_network: Network) -> (r: Result<OwnershipCheck, Error>)
        requires
            self.wf(),
        ensures
            r == self.outcome(wallet_network),
            (r matches Ok(c) ==> c.wf()),
    {
        if self.address.network == wallet_network {
            Ok(
                OwnershipCheck {
                    address: self.address,
                    txid: self.tx,
                    threshold: self.fee_rate,
                    dry_run: self.dry_run,
                },
            )
        } else {
            Err(Error::InvalidAddressForNetwork)
        }
    }
}

impl OwnershipCheck {
    /// The carried threshold denotes a rational.
    pub open spec fn wf(self) -> bool {
        self.threshold.wf()
    }

    /// What the ownership guard yields for a wallet answer of `owned`.
    pub open spec fn next(self, owned: bool) -> Result<ConfirmationCheck, Error> {
        if owned {
            Ok(ConfirmationCheck { txid: self.txid, threshold: self.threshold, dry_run: self.dry_run })
        } else {
            Err(Error::AddressNotOwned)
        }
    }

    /// The ownership guard: `owned` is the wallet's answer for the checked
    /// address. Fails with `AddressNotOwned` exactly when the wallet does
    /// not control it.
    pub fn resolve(self, owned: bool) -> (r: Result<ConfirmationCheck, Error>)
        requires
            self.wf(),
        ensures
            r == self.next(owned),
            (r matches Ok(c) ==> c.wf()),
    {
        if owned {
            Ok(ConfirmationCheck { txid: self.txid, threshold: self.threshold, dry_run: self.dry_run })
        } else {
            Err(Error::AddressNotOwned)
        }
    }
}

impl ConfirmationCheck {
    /// The carried threshold denotes a rational.
    pub open spec fn wf(self) -> bool {
        self.threshold.wf()
    }

    /// What the confirmation guard yields when the chain client reports
    /// `lookup` for the transaction, `None` standing for its not-found
    /// answer.
    pub open spec fn next(self, lookup: Option<TransactionInfo>) -> Result<FeeRateCheck, Error> {
        match lookup {
            Option::Some(info) => if info.confirmations == 0 {
                Ok(
                    FeeRateCheck {
                        txid: self.txid,
                        fee: info.fee,
                        threshold: self.threshold,
                        dry_run: self.dry_run,
                    },
                )
            } else {
                Err(Error::AlreadyConfirmed)
            },
            Option::None => Err(Error::TransactionNotFound),
        }
    }

    /// The confirmation guard: `lookup` is the chain client's metadata for
    /// the transaction, `None` when the client does not know it. Fails with
    /// `TransactionNotFound` on `None`, and with `AlreadyConfirmed` exactly
    /// when the confirmation count is not zero — a negative count, as some
    /// clients report for a conflicted transaction, fails the same way.
    pub fn resolve(self, lookup: Option<TransactionInfo>) -> (r: Result<FeeRateCheck, Error>)
        requires
            self.wf(),
        ensures
            r == self.next(lookup),
            (r matches Ok(c) ==> c.wf()),
    {
        match lookup {
            Option::Some(info) => if info.confirmations == 0 {
                Ok(
                    FeeRateCheck {
                        txid: self.txid,
                        fee: info.fee,
                        threshold: self.threshold,
                        dry_run: self.dry_run,
                    },
                )
            } else {
                Err(Error::AlreadyConfirmed)
            },
            Option::None => Err(Error::TransactionNotFound),
        }
    }
}

impl FeeRateCheck {
    /// The carried threshold denotes a rational.
    pub open spec fn wf(self) -> bool {
        self.threshold.wf()
    }

    /// What the fee-rate guard yields when the chain client reports `lookup`
    /// for the raw transaction, `None` standing for its not-found answer.
    pub open spec fn next(self, lookup: Option<RawTransaction>) -> Result<Ready, Error> {
        match lookup {
            Option::Some(raw) => if rate_below(self.fee, raw.size, self.threshold) {
                Ok(Ready { txid: self.txid, dry_run: self.dry_run })
            } else {
                Err(Error::FeeRateAlreadySufficient)
            },
            Option::None => Err(Error::TransactionNotFound),
        }
    }

    /// The fee-rate guard: `lookup` is the raw transaction, `None` when the
    /// client does not know it. Fails with `TransactionNotFound` on `None`,
    /// and with `FeeRateAlreadySufficient` exactly when the current fee rate
    /// — the recorded fee over the transaction's size, or zero when no fee
    /// is recorded — is not strictly below the threshold.
    pub fn resolve(self, lookup: Option<RawTransaction>) -> (r: Result<Ready, Error>)
        requires
            self.wf(),
        ensures
            r == self.next(lookup),
    {
        match lookup {
            Option::Some(raw) => if rate_strictly_below(self.fee, raw.size, &self.threshold) {
                Ok(Ready { txid: self.txid, dry_run: self.dry_run })
            } else {
                Err(Error::FeeRateAlreadySufficient)
            },
            Option::None => Err(Error::TransactionNotFound),
        }
    }
}

/// An address the wallet does not own is rejected with `AddressNotOwned`,
/// whatever the transaction, the threshold and the dry-run flag — provided
/// the address is encoded for the wallet's network, since otherwise the
/// network guard rejects it first.
pub proof fn law_address_not_owned(acc: Accelerator, wallet_network: Network)
    requires
        acc.address.network == wallet_network,
    ensures
        acc.outcome(wallet_network) matches Ok(c) && c.next(false) == Err::<
            ConfirmationCheck,
            Error,
        >(Error::AddressNotOwned),
{
}

/// A transaction with confirmation count zero whose current fee rate already
/// reaches the requested threshold is rejected with
/// `FeeRateAlreadySufficient`.
pub proof fn law_fee_rate_already_sufficient(
    check: ConfirmationCheck,
    info: TransactionInfo,
    raw: RawTransaction,
)
    requires
        info.confirmations == 0,
        !rate_below(info.fee, raw.size, check.threshold),
    ensures
        check.next(Some(info)) matches Ok(f) && f.next(Some(raw)) == Err::<Ready, Error>(
            Error::FeeRateAlreadySufficient,
        ),
{
}

/// A transaction with a nonzero confirmation count — positive or negative —
/// is rejected with `AlreadyConfirmed`, whatever its fee rate.
pub proof fn law_already_confirmed(check: ConfirmationCheck, info: TransactionInfo)
    requires
        info.confirmations != 0,
    ensures
        check.next(Some(info)) == Err::<FeeRateCheck, Error>(Error::AlreadyConfirmed),
{
}

/// With no recorded fee the current fee rate counts as zero, so any positive
/// threshold passes the fee-rate guard, whatever the transaction's size.
pub proof fn law_absent_fee_counts_as_zero(check: FeeRateCheck, raw: RawTransaction)
    requires
        check.fee is None,
        check.threshold.positive(),
    ensures
        check.next(Some(raw)) == Ok::<Ready, Error>(
            Ready { txid: check.txid, dry_run: check.dry_run },
        ),
{
}

} // verus!
