//! Validation of sweep transactions: the per-deposit eligibility decision
//! and the ordered steps that validate a whole candidate transaction.

use bitcoin::OutPoint;
use vstd::prelude::*;

use crate::model::BitcoinBlockHash;
use crate::model::BitcoinTxId;
use crate::model::PublicKey;
use crate::model::QualifiedRequestId;
use crate::DEPOSIT_LOCKTIME_BLOCK_BUFFER;

verus! {

/// The necessary information for validating a bitcoin transaction.
#[derive(Debug)]
pub struct BitcoinTxContext {
    /// This signer's current view of the chain tip of the canonical
    /// bitcoin blockchain: the block with the greatest height, ties broken
    /// by the greatest block hash.
    pub chain_tip: BitcoinBlockHash,
    /// The block height of the bitcoin chain tip identified by the
    /// `chain_tip` field.
    pub chain_tip_height: u64,
    /// The transaction that is being validated.
    pub tx: bitcoin::Transaction,
    /// The withdrawal requests associated with the outputs after the two
    /// signer outputs, in order.
    pub request_ids: Vec<QualifiedRequestId>,
    /// The public key of the signer that created the transaction, kept
    /// for logging; it never affects the result of validation.
    pub origin: PublicKey,
}

/// Why a deposit input of a sweep transaction is refused.
#[derive(Debug, PartialEq, Eq, Copy, Clone)]
pub enum BitcoinDepositInputError {
    /// The assessed fee exceeds the max-fee in the deposit request.
    AssessedFeeTooHigh(OutPoint),
    /// The signer is not part of the signer set that generated the
    /// aggregate public key used to lock the deposit funds.
    CannotSignUtxo(OutPoint),
    /// The deposit transaction is not confirmed on the canonical bitcoin
    /// blockchain.
    TxNotOnBestChain(OutPoint),
    /// The deposit UTXO has already been spent by the given transaction.
    DepositUtxoSpent(OutPoint, BitcoinTxId),
    /// The depositor could reclaim the deposit too soon to sweep it safely.
    LockTimeExpiry(OutPoint),
    /// The signer has no record of their vote on the deposit request.
    NoVote(OutPoint),
    /// The signer has not accepted the deposit request.
    RejectedRequest(OutPoint),
    /// The signer has no record of the deposit request.
    Unknown(OutPoint),
    /// The lock-time of the reclaim script is in time units, which is not
    /// supported.
    UnsupportedLockTime(OutPoint),
}

/// The error of a sweep transaction, by the part of it that failed.
#[derive(Debug, PartialEq, Eq, Copy, Clone)]
pub enum BitcoinSweepErrorMsg {
    /// The error has something to do with the deposit inputs.
    Deposit(BitcoinDepositInputError),
}

impl From<BitcoinDepositInputError> for BitcoinSweepErrorMsg {
    fn from(err: BitcoinDepositInputError) -> (r: Self)
        ensures
            r == BitcoinSweepErrorMsg::Deposit(err),
    {
        BitcoinSweepErrorMsg::Deposit(err)
    }
}

impl vstd::std_specs::convert::FromSpecImpl<BitcoinDepositInputError> for BitcoinSweepErrorMsg {
    open spec fn obeys_from_spec() -> bool {
        true
    }

    open spec fn from_spec(err: BitcoinDepositInputError) -> Self {
        BitcoinSweepErrorMsg::Deposit(err)
    }
}

/// A validation error of a sweep transaction, with the context of the
/// transaction that produced it.
#[derive(Debug)]
pub struct BitcoinValidationError {
    /// The specific error that happened during validation.
    pub error: BitcoinSweepErrorMsg,
    /// The transaction that was being validated, with the signer that
    /// proposed it.
    pub context: BitcoinTxContext,
}

/// The confirmation status of a deposit request.
#[derive(Debug, Clone, Copy, PartialEq, Eq)]
pub enum DepositRequestStatus {
    /// Confirmed on the canonical bitcoin blockchain at the given height,
    /// in the given block, and not spent by us.
    Confirmed(u64, BitcoinBlockHash),
    /// Spent as an input of the given transaction, which is confirmed on
    /// the canonical bitcoin blockchain.
    Spent(BitcoinTxId),
    /// Known, but not confirmed on the canonical bitcoin blockchain, as
    /// happens after a reorg.
    Unconfirmed,
}

/// The relative lock-time of a deposit's reclaim path.
#[derive(Debug, Clone, Copy, PartialEq, Eq, Structural)]
pub enum LockTime {
    /// A number of blocks.
    Blocks(u16),
    /// A number of 512 second intervals.
    Time(u16),
}

impl LockTime {
    /// A lock-time of `n` blocks.
    pub fn from_height(n: u16) -> (r: LockTime)
        ensures
            r == LockTime::Blocks(n),
    {
        LockTime::Blocks(n)
    }

    /// A lock-time of `intervals` times 512 seconds.
    pub fn from_512_second_intervals(intervals: u16) -> (r: LockTime)
        ensures
            r == LockTime::Time(intervals),
    {
        LockTime::Time(intervals)
    }
}

/// What this signer knows of one deposit that a sweep transaction spends.
#[derive(Debug, Clone, Copy, PartialEq, Eq)]
pub struct DepositRequestReport {
    /// The deposit UTXO outpoint that uniquely identifies the deposit.
    pub outpoint: OutPoint,
    /// The confirmation status of the deposit request transaction.
    pub status: DepositRequestStatus,
    /// Whether this signer is part of the signing set that locked the
    /// deposited funds; `None` if there is no record of the request.
    pub can_sign: Option<bool>,
    /// Whether this signer accepted the deposit request; meaningful only
    /// when `can_sign` is `Some(true)`.
    pub is_accepted: Option<bool>,
    /// The deposit amount, in satoshis.
    pub amount: u64,
    /// The lock-time of the reclaim script.
    pub lock_time: LockTime,
}

/// The number of blocks since a deposit was confirmed at `confirmed`, seen
/// from a chain tip at `tip`; zero if the tip is lower.
pub open spec fn deposit_age(tip: u64, confirmed: u64) -> nat {
    if tip >= confirmed {
        (tip - confirmed) as nat
    } else {
        0
    }
}

/// The greatest deposit age that leaves more than the safety buffer before
/// a reclaim lock-time of `blocks` blocks expires; zero if the lock-time is
/// within the buffer.
pub open spec fn max_deposit_age(blocks: u16) -> nat {
    if blocks >= DEPOSIT_LOCKTIME_BLOCK_BUFFER {
        (blocks - DEPOSIT_LOCKTIME_BLOCK_BUFFER) as nat
    } else {
        0
    }
}

/// The decision on a deposit report at a chain tip of height `tip`: the
/// first of the confirmation, signing set, acceptance and lock-time checks
/// that fails gives the error.
pub open spec fn deposit_decision(r: DepositRequestReport, tip: u64) -> Result<
    (),
    BitcoinDepositInputError,
> {
    match r.status {
        DepositRequestStatus::Unconfirmed => Err(
            BitcoinDepositInputError::TxNotOnBestChain(r.outpoint),
        ),
        DepositRequestStatus::Spent(txid) => Err(
            BitcoinDepositInputError::DepositUtxoSpent(r.outpoint, txid),
        ),
        DepositRequestStatus::Confirmed(height, _) => {
            if r.can_sign == None::<bool> {
                Err(BitcoinDepositInputError::NoVote(r.outpoint))
            } else if r.can_sign == Some(false) {
                Err(BitcoinDepositInputError::CannotSignUtxo(r.outpoint))
            } else if r.is_accepted != Some(true) {
                Err(BitcoinDepositInputError::RejectedRequest(r.outpoint))
            } else {
                match r.lock_time {
                    LockTime::Time(_) => Err(
                        BitcoinDepositInputError::UnsupportedLockTime(r.outpoint),
                    ),
                    LockTime::Blocks(blocks) => {
                        if deposit_age(tip, height) >= max_deposit_age(blocks) {
                            Err(BitcoinDepositInputError::LockTimeExpiry(r.outpoint))
                        } else {
                            Ok(())
                        }
                    },
                }
            }
        },
    }
}

impl DepositRequestReport {
    /// Validate that the deposit may be swept, given the height of this
    /// signer's bitcoin chain tip.
    pub fn validate(self, chain_tip_height: u64) -> (r: Result<(), BitcoinDepositInputError>)
        ensures
            r == deposit_decision(self, chain_tip_height),
            self.status == DepositRequestStatus::Unconfirmed ==> r == Err::<
                (),
                BitcoinDepositInputError,
            >(BitcoinDepositInputError::TxNotOnBestChain(self.outpoint)),
            forall|txid: BitcoinTxId|
                self.status == DepositRequestStatus::Spent(txid) ==> r == Err::<
                    (),
                    BitcoinDepositInputError,
                >(BitcoinDepositInputError::DepositUtxoSpent(self.outpoint, txid)),
            self.status is Confirmed && self.can_sign == None::<bool> ==> r == Err::<
                (),
                BitcoinDepositInputError,
            >(BitcoinDepositInputError::NoVote(self.outpoint)),
            self.status is Confirmed && self.can_sign == Some(false) ==> r == Err::<
                (),
                BitcoinDepositInputError,
            >(BitcoinDepositInputError::CannotSignUtxo(self.outpoint)),
            self.status is Confirmed && self.can_sign == Some(true) && self.is_accepted != Some(
                true,
            ) ==> r == Err::<(), BitcoinDepositInputError>(
                BitcoinDepositInputError::RejectedRequest(self.outpoint),
            ),
            self.status is Confirmed && self.can_sign == Some(true) && self.is_accepted == Some(
                true,
            ) && self.lock_time is Time ==> r == Err::<(), BitcoinDepositInputError>(
                BitcoinDepositInputError::UnsupportedLockTime(self.outpoint),
            ),
            forall|height: u64, hash: BitcoinBlockHash, blocks: u16|
                self.status == DepositRequestStatus::Confirmed(height, hash) && self.can_sign
                    == Some(true) && self.is_accepted == Some(true) && self.lock_time
                    == LockTime::Blocks(blocks) ==> {
                    &&& r == Err::<(), BitcoinDepositInputError>(
                        BitcoinDepositInputError::LockTimeExpiry(self.outpoint),
                    ) <==> deposit_age(chain_tip_height, height) >= max_deposit_age(blocks)
                    &&& r is Ok <==> deposit_age(chain_tip_height, height) < max_deposit_age(
                        blocks,
                    )
                },
    {
        let confirmed_block_height = match self.status {
            DepositRequestStatus::Unconfirmed => {
                return Err(BitcoinDepositInputError::TxNotOnBestChain(self.outpoint));
            },
            DepositRequestStatus::Spent(txid) => {
                return Err(BitcoinDepositInputError::DepositUtxoSpent(self.outpoint, txid));
            },
            DepositRequestStatus::Confirmed(block_height, _) => block_height,
        };

        match self.can_sign {
            None => return Err(BitcoinDepositInputError::NoVote(self.outpoint)),
            Some(false) => return Err(BitcoinDepositInputError::CannotSignUtxo(self.outpoint)),
            Some(true) => {},
        }
        let accepted = match self.is_accepted {
            Some(true) => true,
            _ => false,
        };
        if !accepted {
            return Err(BitcoinDepositInputError::RejectedRequest(self.outpoint));
        }

        let deposit_age = chain_tip_height.saturating_sub(confirmed_block_height);

        match self.lock_time {
            LockTime::Blocks(height) => {
                let max_age = height.saturating_sub(DEPOSIT_LOCKTIME_BLOCK_BUFFER) as u64;
                if deposit_age >= max_age {
                    return Err(BitcoinDepositInputError::LockTimeExpiry(self.outpoint));
                }
            },
            LockTime::Time(_) => {
                return Err(BitcoinDepositInputError::UnsupportedLockTime(self.outpoint));
            },
        }
        Ok(())
    }
}

/// Validating a deposit report is deterministic: two calls on the same
/// report and chain tip height give the same result.
pub proof fn lemma_deposit_validation_is_deterministic(
    report: DepositRequestReport,
    chain_tip_height: u64,
    first: Result<(), BitcoinDepositInputError>,
    second: Result<(), BitcoinDepositInputError>,
)
    requires
        call_ensures(DepositRequestReport::validate, (report, chain_tip_height), first),
        call_ensures(DepositRequestReport::validate, (report, chain_tip_height), second),
    ensures
        first == second,
{
}

} // verus!
