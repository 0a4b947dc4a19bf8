//! Identifiers and ledger records shared by the validation logic and the
//! in-memory test data collection.

use vstd::prelude::*;
use vstd::std_specs::cmp::PartialEqSpec;

verus! {

/// Whether two byte arrays are equal, byte by byte.
pub fn bytes_eq<const N: usize>(a: &[u8; N], b: &[u8; N]) -> (r: bool)
    ensures
        r == (a@ == b@),
{
    let mut i: usize = 0;
    while i < N
        invariant
            i <= N,
            a@.len() == N,
            b@.len() == N,
            forall|j: int| 0 <= j < i ==> a@[j] == b@[j],
        decreases N - i,
    {
        if a[i] != b[i] {
            return false;
        }
        i = i + 1;
    }
    assert(a@ =~= b@);
    true
}

/// The hash of a bitcoin block.
#[derive(Debug, Clone, Copy, Eq, Hash)]
pub struct BitcoinBlockHash(pub [u8; 32]);

/// The id of a bitcoin transaction.
#[derive(Debug, Clone, Copy, Eq, Hash)]
pub struct BitcoinTxId(pub [u8; 32]);

/// The hash of a stacks block.
#[derive(Debug, Clone, Copy, Eq, Hash)]
pub struct StacksBlockHash(pub [u8; 32]);

/// The id of a stacks transaction.
#[derive(Debug, Clone, Copy, Eq, Hash)]
pub struct StacksTxId(pub [u8; 32]);

impl From<[u8; 32]> for BitcoinTxId {
    fn from(bytes: [u8; 32]) -> (r: Self)
        ensures
            r.0 == bytes,
    {
        BitcoinTxId(bytes)
    }
}

impl vstd::std_specs::convert::FromSpecImpl<[u8; 32]> for BitcoinTxId {
    open spec fn obeys_from_spec() -> bool {
        true
    }

    open spec fn from_spec(bytes: [u8; 32]) -> Self {
        BitcoinTxId(bytes)
    }
}

impl From<[u8; 32]> for BitcoinBlockHash {
    fn from(bytes: [u8; 32]) -> (r: Self)
        ensures
            r.0 == bytes,
    {
        BitcoinBlockHash(bytes)
    }
}

impl vstd::std_specs::convert::FromSpecImpl<[u8; 32]> for BitcoinBlockHash {
    open spec fn obeys_from_spec() -> bool {
        true
    }

    open spec fn from_spec(bytes: [u8; 32]) -> Self {
        BitcoinBlockHash(bytes)
    }
}

impl PartialEq for BitcoinBlockHash {
    fn eq(&self, other: &Self) -> (r: bool) {
        bytes_eq(&self.0, &other.0)
    }
}

impl vstd::std_specs::cmp::PartialEqSpecImpl for BitcoinBlockHash {
    open spec fn obeys_eq_spec() -> bool {
        true
    }

    open spec fn eq_spec(&self, other: &Self) -> bool {
        self.0@ == other.0@
    }
}

impl PartialEq for BitcoinTxId {
    fn eq(&self, other: &Self) -> (r: bool) {
        bytes_eq(&self.0, &other.0)
    }
}

impl vstd::std_specs::cmp::PartialEqSpecImpl for BitcoinTxId {
    open spec fn obeys_eq_spec() -> bool {
        true
    }

    open spec fn eq_spec(&self, other: &Self) -> bool {
        self.0@ == other.0@
    }
}

impl PartialEq for StacksBlockHash {
    fn eq(&self, other: &Self) -> (r: bool) {
        bytes_eq(&self.0, &other.0)
    }
}

impl vstd::std_specs::cmp::PartialEqSpecImpl for StacksBlockHash {
    open spec fn obeys_eq_spec() -> bool {
        true
    }

    open spec fn eq_spec(&self, other: &Self) -> bool {
        self.0@ == other.0@
    }
}

impl PartialEq for StacksTxId {
    fn eq(&self, other: &Self) -> (r: bool) {
        bytes_eq(&self.0, &other.0)
    }
}

impl vstd::std_specs::cmp::PartialEqSpecImpl for StacksTxId {
    open spec fn obeys_eq_spec() -> bool {
        true
    }

    open spec fn eq_spec(&self, other: &Self) -> bool {
        self.0@ == other.0@
    }
}

/// A compressed secp256k1 public key.
#[derive(Debug, Clone, Copy, Eq, Hash)]
pub struct PublicKey(pub [u8; 33]);

impl PartialEq for PublicKey {
    fn eq(&self, other: &Self) -> (r: bool) {
        bytes_eq(&self.0, &other.0)
    }
}

impl vstd::std_specs::cmp::PartialEqSpecImpl for PublicKey {
    open spec fn obeys_eq_spec() -> bool {
        true
    }

    open spec fn eq_spec(&self, other: &Self) -> bool {
        self.0@ == other.0@
    }
}

/// What a transaction does.
#[derive(Debug, Clone, Copy, PartialEq, Eq, Hash, Structural)]
pub enum TransactionType {
    /// A sweep transaction of the signers.
    SbtcTransaction,
    /// A deposit request.
    DepositRequest,
    /// A withdrawal request.
    WithdrawRequest,
    /// The acceptance of a deposit.
    DepositAccept,
    /// The acceptance of a withdrawal.
    WithdrawAccept,
    /// The rejection of a withdrawal.
    WithdrawReject,
    /// A rotation of the signers' keys.
    RotateKeys,
}
/// A withdrawal request as the stacks chain identifies it.
#[derive(Debug, Clone, Copy, Eq, Hash)]
pub struct QualifiedRequestId {
    /// The request id assigned by the contract.
    pub request_id: u64,
    /// The stacks transaction that created the request.
    pub txid: StacksTxId,
    /// The stacks block holding that transaction.
    pub block_hash: StacksBlockHash,
}

impl PartialEq for QualifiedRequestId {
    fn eq(&self, other: &Self) -> (r: bool) {
        self.request_id == other.request_id && self.txid == other.txid && self.block_hash == other.block_hash
    }
}

impl vstd::std_specs::cmp::PartialEqSpecImpl for QualifiedRequestId {
    open spec fn obeys_eq_spec() -> bool {
        true
    }

    open spec fn eq_spec(&self, other: &Self) -> bool {
        self.request_id == other.request_id
            && PartialEqSpec::eq_spec(&self.txid, &other.txid)
            && PartialEqSpec::eq_spec(&self.block_hash, &other.block_hash)
    }
}

/// A bitcoin block.
#[derive(Debug, Clone, Eq, Hash)]
pub struct BitcoinBlock {
    /// The hash of the block.
    pub block_hash: BitcoinBlockHash,
    /// The height of the block.
    pub block_height: u64,
    /// The hash of the parent block.
    pub parent_hash: BitcoinBlockHash,
    /// The stacks blocks that this block anchors.
    pub confirms: Vec<StacksBlockHash>,
}

impl PartialEq for BitcoinBlock {
    fn eq(&self, other: &Self) -> (r: bool) {
        self.block_hash == other.block_hash && self.block_height == other.block_height && self.parent_hash == other.parent_hash && self.confirms == other.confirms
    }
}

impl vstd::std_specs::cmp::PartialEqSpecImpl for BitcoinBlock {
    open spec fn obeys_eq_spec() -> bool {
        true
    }

    open spec fn eq_spec(&self, other: &Self) -> bool {
        PartialEqSpec::eq_spec(&self.block_hash, &other.block_hash)
            && self.block_height == other.block_height
            && PartialEqSpec::eq_spec(&self.parent_hash, &other.parent_hash)
            && PartialEqSpec::eq_spec(&self.confirms, &other.confirms)
    }
}

/// A stacks block.
#[derive(Debug, Clone, Copy, Eq, Hash)]
pub struct StacksBlock {
    /// The hash of the block.
    pub block_hash: StacksBlockHash,
    /// The height of the block.
    pub block_height: u64,
    /// The hash of the parent block.
    pub parent_hash: StacksBlockHash,
}

impl PartialEq for StacksBlock {
    fn eq(&self, other: &Self) -> (r: bool) {
        self.block_hash == other.block_hash && self.block_height == other.block_height && self.parent_hash == other.parent_hash
    }
}

impl vstd::std_specs::cmp::PartialEqSpecImpl for StacksBlock {
    open spec fn obeys_eq_spec() -> bool {
        true
    }

    open spec fn eq_spec(&self, other: &Self) -> bool {
        PartialEqSpec::eq_spec(&self.block_hash, &other.block_hash)
            && self.block_height == other.block_height
            && PartialEqSpec::eq_spec(&self.parent_hash, &other.parent_hash)
    }
}

/// A deposit request.
#[derive(Debug, Clone, Eq, Hash)]
pub struct DepositRequest {
    /// The bitcoin transaction holding the deposit.
    pub txid: BitcoinTxId,
    /// The index of the deposit output in that transaction.
    pub output_index: u32,
    /// The script that lets the signers spend the deposit.
    pub spend_script: Vec<u8>,
    /// The script that lets the depositor reclaim the deposit.
    pub reclaim_script: Vec<u8>,
    /// The stacks address to credit.
    pub recipient: Vec<u8>,
    /// The deposited amount, in satoshis.
    pub amount: u64,
    /// The greatest fee the depositor accepts, in satoshis.
    pub max_fee: u64,
}

impl PartialEq for DepositRequest {
    fn eq(&self, other: &Self) -> (r: bool) {
        self.txid == other.txid && self.output_index == other.output_index && self.spend_script == other.spend_script && self.reclaim_script == other.reclaim_script && self.recipient == other.recipient && self.amount == other.amount && self.max_fee == other.max_fee
    }
}

impl vstd::std_specs::cmp::PartialEqSpecImpl for DepositRequest {
    open spec fn obeys_eq_spec() -> bool {
        true
    }

    open spec fn eq_spec(&self, other: &Self) -> bool {
        PartialEqSpec::eq_spec(&self.txid, &other.txid)
            && self.output_index == other.output_index
            && PartialEqSpec::eq_spec(&self.spend_script, &other.spend_script)
            && PartialEqSpec::eq_spec(&self.reclaim_script, &other.reclaim_script)
            && PartialEqSpec::eq_spec(&self.recipient, &other.recipient)
            && self.amount == other.amount
            && self.max_fee == other.max_fee
    }
}

/// A withdrawal request.
#[derive(Debug, Clone, Eq, Hash)]
pub struct WithdrawalRequest {
    /// The request id assigned by the contract.
    pub request_id: u64,
    /// The stacks transaction that created the request.
    pub txid: StacksTxId,
    /// The stacks block holding that transaction.
    pub block_hash: StacksBlockHash,
    /// The bitcoin script to pay.
    pub recipient: Vec<u8>,
    /// The amount to withdraw, in satoshis.
    pub amount: u64,
    /// The greatest fee the requester accepts, in satoshis.
    pub max_fee: u64,
}

impl PartialEq for WithdrawalRequest {
    fn eq(&self, other: &Self) -> (r: bool) {
        self.request_id == other.request_id && self.txid == other.txid && self.block_hash == other.block_hash && self.recipient == other.recipient && self.amount == other.amount && self.max_fee == other.max_fee
    }
}

impl vstd::std_specs::cmp::PartialEqSpecImpl for WithdrawalRequest {
    open spec fn obeys_eq_spec() -> bool {
        true
    }

    open spec fn eq_spec(&self, other: &Self) -> bool {
        self.request_id == other.request_id
            && PartialEqSpec::eq_spec(&self.txid, &other.txid)
            && PartialEqSpec::eq_spec(&self.block_hash, &other.block_hash)
            && PartialEqSpec::eq_spec(&self.recipient, &other.recipient)
            && self.amount == other.amount
            && self.max_fee == other.max_fee
    }
}

/// A raw transaction of either chain.
#[derive(Debug, Clone, Eq, Hash)]
pub struct RawTransaction {
    /// The id of the transaction.
    pub txid: [u8; 32],
    /// The encoded transaction.
    pub tx: Vec<u8>,
    /// What the transaction does.
    pub tx_type: TransactionType,
    /// The block holding the transaction.
    pub block_hash: [u8; 32],
}

impl PartialEq for RawTransaction {
    fn eq(&self, other: &Self) -> (r: bool) {
        bytes_eq(&self.txid, &other.txid) && self.tx == other.tx && self.tx_type == other.tx_type && bytes_eq(&self.block_hash, &other.block_hash)
    }
}

impl vstd::std_specs::cmp::PartialEqSpecImpl for RawTransaction {
    open spec fn obeys_eq_spec() -> bool {
        true
    }

    open spec fn eq_spec(&self, other: &Self) -> bool {
        self.txid@ == other.txid@
            && PartialEqSpec::eq_spec(&self.tx, &other.tx)
            && self.tx_type == other.tx_type
            && self.block_hash@ == other.block_hash@
    }
}

/// The link between a bitcoin transaction and its block.
#[derive(Debug, Clone, Copy, Eq, Hash)]
pub struct BitcoinTxRef {
    /// The transaction.
    pub txid: BitcoinTxId,
    /// The block holding it.
    pub block_hash: BitcoinBlockHash,
}

impl PartialEq for BitcoinTxRef {
    fn eq(&self, other: &Self) -> (r: bool) {
        self.txid == other.txid && self.block_hash == other.block_hash
    }
}

impl vstd::std_specs::cmp::PartialEqSpecImpl for BitcoinTxRef {
    open spec fn obeys_eq_spec() -> bool {
        true
    }

    open spec fn eq_spec(&self, other: &Self) -> bool {
        PartialEqSpec::eq_spec(&self.txid, &other.txid)
            && PartialEqSpec::eq_spec(&self.block_hash, &other.block_hash)
    }
}

/// The link between a stacks transaction and its block.
#[derive(Debug, Clone, Copy, Eq, Hash)]
pub struct StacksTransaction {
    /// The transaction.
    pub txid: StacksTxId,
    /// The block holding it.
    pub block_hash: StacksBlockHash,
}

impl PartialEq for StacksTransaction {
    fn eq(&self, other: &Self) -> (r: bool) {
        self.txid == other.txid && self.block_hash == other.block_hash
    }
}

impl vstd::std_specs::cmp::PartialEqSpecImpl for StacksTransaction {
    open spec fn obeys_eq_spec() -> bool {
        true
    }

    open spec fn eq_spec(&self, other: &Self) -> bool {
        PartialEqSpec::eq_spec(&self.txid, &other.txid)
            && PartialEqSpec::eq_spec(&self.block_hash, &other.block_hash)
    }
}

/// A signer's decision on a deposit request.
#[derive(Debug, Clone, Copy, Eq, Hash)]
pub struct DepositSigner {
    /// The bitcoin transaction holding the deposit.
    pub txid: BitcoinTxId,
    /// The index of the deposit output in that transaction.
    pub output_index: u32,
    /// The signer.
    pub signer_pub_key: PublicKey,
    /// Whether the signer accepted the request.
    pub is_accepted: bool,
}

impl PartialEq for DepositSigner {
    fn eq(&self, other: &Self) -> (r: bool) {
        self.txid == other.txid && self.output_index == other.output_index && self.signer_pub_key == other.signer_pub_key && self.is_accepted == other.is_accepted
    }
}

impl vstd::std_specs::cmp::PartialEqSpecImpl for DepositSigner {
    open spec fn obeys_eq_spec() -> bool {
        true
    }

    open spec fn eq_spec(&self, other: &Self) -> bool {
        PartialEqSpec::eq_spec(&self.txid, &other.txid)
            && self.output_index == other.output_index
            && PartialEqSpec::eq_spec(&self.signer_pub_key, &other.signer_pub_key)
            && self.is_accepted == other.is_accepted
    }
}

/// A signer's decision on a withdrawal request.
#[derive(Debug, Clone, Copy, Eq, Hash)]
pub struct WithdrawalSigner {
    /// The request id assigned by the contract.
    pub request_id: u64,
    /// The stacks block holding the request.
    pub block_hash: StacksBlockHash,
    /// The stacks transaction that created the request.
    pub txid: StacksTxId,
    /// The signer.
    pub signer_pub_key: PublicKey,
    /// Whether the signer accepted the request.
    pub is_accepted: bool,
}

impl PartialEq for WithdrawalSigner {
    fn eq(&self, other: &Self) -> (r: bool) {
        self.request_id == other.request_id && self.block_hash == other.block_hash && self.txid == other.txid && self.signer_pub_key == other.signer_pub_key && self.is_accepted == other.is_accepted
    }
}

impl vstd::std_specs::cmp::PartialEqSpecImpl for WithdrawalSigner {
    open spec fn obeys_eq_spec() -> bool {
        true
    }

    open spec fn eq_spec(&self, other: &Self) -> bool {
        self.request_id == other.request_id
            && PartialEqSpec::eq_spec(&self.block_hash, &other.block_hash)
            && PartialEqSpec::eq_spec(&self.txid, &other.txid)
            && PartialEqSpec::eq_spec(&self.signer_pub_key, &other.signer_pub_key)
            && self.is_accepted == other.is_accepted
    }
}

/// The hash and height of a bitcoin block.
#[derive(Debug, Clone, Copy, Eq, Hash)]
pub struct BitcoinBlockRef {
    /// The hash of the block.
    pub block_hash: BitcoinBlockHash,
    /// The height of the block.
    pub block_height: u64,
}

impl PartialEq for BitcoinBlockRef {
    fn eq(&self, other: &Self) -> (r: bool) {
        self.block_hash == other.block_hash && self.block_height == other.block_height
    }
}

impl vstd::std_specs::cmp::PartialEqSpecImpl for BitcoinBlockRef {
    open spec fn obeys_eq_spec() -> bool {
        true
    }

    open spec fn eq_spec(&self, other: &Self) -> bool {
        PartialEqSpec::eq_spec(&self.block_hash, &other.block_hash)
            && self.block_height == other.block_height
    }
}

/// The hash and height of a stacks block.
#[derive(Debug, Clone, Copy, Eq, Hash)]
pub struct StacksBlockSummary {
    /// The hash of the block.
    pub block_hash: StacksBlockHash,
    /// The height of the block.
    pub block_height: u64,
}

impl PartialEq for StacksBlockSummary {
    fn eq(&self, other: &Self) -> (r: bool) {
        self.block_hash == other.block_hash && self.block_height == other.block_height
    }
}

impl vstd::std_specs::cmp::PartialEqSpecImpl for StacksBlockSummary {
    open spec fn obeys_eq_spec() -> bool {
        true
    }

    open spec fn eq_spec(&self, other: &Self) -> bool {
        PartialEqSpec::eq_spec(&self.block_hash, &other.block_hash)
            && self.block_height == other.block_height
    }
}

} // verus!
