//! An in-memory collection of related ledger records, used to load a store
//! with consistent data.

use vstd::prelude::*;
use vstd::std_specs::cmp::PartialEqSpec;

use crate::model::BitcoinBlock;
use crate::model::BitcoinBlockHash;
use crate::model::BitcoinBlockRef;
use crate::model::BitcoinTxId;
use crate::model::BitcoinTxRef;
use crate::model::DepositRequest;
use crate::model::DepositSigner;
use crate::model::RawTransaction;
use crate::model::StacksBlock;
use crate::model::StacksBlockHash;
use crate::model::StacksBlockSummary;
use crate::model::StacksTransaction;
use crate::model::TransactionType;
use crate::model::WithdrawalRequest;
use crate::model::WithdrawalSigner;

verus! {

/// The height given to a parent block that is not in the collection.
pub const HALLUCINATED_PARENT_HEIGHT: u64 = 1337;

/// Collection of related data usable for database tests.
#[derive(Debug, Clone)]
pub struct TestData {
    /// Bitcoin blocks
    pub bitcoin_blocks: Vec<BitcoinBlock>,
    /// Stacks blocks
    pub stacks_blocks: Vec<StacksBlock>,
    /// Deposit requests
    pub deposit_requests: Vec<DepositRequest>,
    /// Withdrawal requests
    pub withdraw_requests: Vec<WithdrawalRequest>,
    /// Raw transaction data
    pub transactions: Vec<RawTransaction>,
    /// Connection between bitcoin blocks and transactions
    pub bitcoin_transactions: Vec<BitcoinTxRef>,
    /// Connection between stacks blocks and transactions
    pub stacks_transactions: Vec<StacksTransaction>,
    /// Deposit signers
    pub deposit_signers: Vec<DepositSigner>,
    /// Withdrawal signers
    pub withdraw_signers: Vec<WithdrawalSigner>,
}

/// Parameters for test data generation.
#[derive(Debug, Clone, Copy, PartialEq, Eq, Structural)]
pub struct Params {
    /// The number of bitcoin blocks to generate.
    pub num_bitcoin_blocks: usize,
    /// The number of stacks blocks to generate per bitcoin block.
    pub num_stacks_blocks_per_bitcoin_block: usize,
    /// The number of deposit requests to generate per bitcoin block.
    pub num_deposit_requests_per_block: usize,
    /// The number of withdrawal requests to generate per bitcoin block.
    pub num_withdraw_requests_per_block: usize,
    /// The number of signers to hallucinate per request.
    pub num_signers_per_request: usize,
}

/// Whether some item of `m` equals `v`.
pub open spec fn contains_eq<T: PartialEq>(m: Seq<T>, v: T) -> bool {
    exists|j: int| 0 <= j < m.len() && PartialEqSpec::eq_spec(&v, &m[j])
}

/// The items of `s`, in order, that equal no item of `m`.
pub open spec fn diff_spec<T: PartialEq>(s: Seq<T>, m: Seq<T>) -> Seq<T> {
    s.filter(not_in(m))
}

/// The test of whether a value equals no item of `m`.
pub open spec fn not_in<T: PartialEq>(m: Seq<T>) -> spec_fn(T) -> bool {
    |v: T| !contains_eq(m, v)
}

/// Whether some item of `m` equals `v`.
fn contains<T: PartialEq>(m: &[T], v: &T) -> (r: bool)
    requires
        T::obeys_eq_spec(),
    ensures
        r == contains_eq(m@, *v),
{
    let mut i: usize = 0;
    while i < m.len()
        invariant
            i <= m@.len(),
            T::obeys_eq_spec(),
            forall|j: int| 0 <= j < i ==> !PartialEqSpec::eq_spec(v, &m@[j]),
        decreases m@.len() - i,
    {
        if *v == m[i] {
            return true;
        }
        i = i + 1;
    }
    false
}

/// Remove from `subtrahend` every item that equals an item of `minuend`.
pub fn vec_diff<T: PartialEq>(subtrahend: &mut Vec<T>, minuend: &[T])
    requires
        T::obeys_eq_spec(),
    ensures
        final(subtrahend)@ == diff_spec(old(subtrahend)@, minuend@),
{
    let ghost orig = subtrahend@;
    let ghost pred = not_in(minuend@);
    let mut kept: Vec<T> = Vec::new();
    let ghost mut k: int = 0;
    while subtrahend.len() > 0
        invariant
            T::obeys_eq_spec(),
            0 <= k <= orig.len(),
            subtrahend@ == orig.skip(k),
            pred == not_in(minuend@),
            kept@ == orig.take(k).filter(pred),
        decreases subtrahend@.len(),
    {
        let item = subtrahend.remove(0);
        proof {
            let prefix = orig.take(k + 1);
            assert(prefix.drop_last() =~= orig.take(k));
            assert(prefix.last() == item);
            reveal(Seq::filter);
            assert(prefix.filter(pred) == if pred(item) {
                orig.take(k).filter(pred).push(item)
            } else {
                orig.take(k).filter(pred)
            });
        }
        let found = contains(minuend, &item);
        assert(pred(item) == !found);
        if !found {
            kept.push(item);
        }
        proof {
            k = k + 1;
        }
        assert(subtrahend@ =~= orig.skip(k));
    }
    assert(orig.take(k) =~= orig);
    *subtrahend = kept;
}

/// Whether `i` is the first block of `blocks` with the hash `hash`.
pub open spec fn first_with_hash(blocks: Seq<BitcoinBlock>, hash: BitcoinBlockHash, i: int) -> bool {
    &&& 0 <= i < blocks.len()
    &&& blocks[i].block_hash.0@ == hash.0@
    &&& forall|j: int| 0 <= j < i ==> blocks[j].block_hash.0@ != hash.0@
}

impl BitcoinBlock {
    /// Whether `a` and `b` hold the same values.
    pub open spec fn same_block(a: BitcoinBlock, b: BitcoinBlock) -> bool {
        &&& a.block_hash == b.block_hash
        &&& a.block_height == b.block_height
        &&& a.parent_hash == b.parent_hash
        &&& a.confirms@ == b.confirms@
    }

    /// A copy of this block.
    pub fn duplicate(&self) -> (r: BitcoinBlock)
        ensures
            BitcoinBlock::same_block(r, *self),
    {
        let mut confirms: Vec<StacksBlockHash> = Vec::new();
        let mut i: usize = 0;
        while i < self.confirms.len()
            invariant
                i <= self.confirms@.len(),
                confirms@ == self.confirms@.take(i as int),
            decreases self.confirms@.len() - i,
        {
            confirms.push(self.confirms[i]);
            i = i + 1;
            assert(confirms@ =~= self.confirms@.take(i as int));
        }
        assert(confirms@ =~= self.confirms@);
        BitcoinBlock {
            block_hash: self.block_hash,
            block_height: self.block_height,
            parent_hash: self.parent_hash,
            confirms,
        }
    }
}

impl TestData {
    /// An empty collection.
    pub fn new() -> (r: Self)
        ensures
            r.is_empty(),
    {
        TestData {
            bitcoin_blocks: Vec::new(),
            stacks_blocks: Vec::new(),
            deposit_requests: Vec::new(),
            withdraw_requests: Vec::new(),
            transactions: Vec::new(),
            bitcoin_transactions: Vec::new(),
            stacks_transactions: Vec::new(),
            deposit_signers: Vec::new(),
            withdraw_signers: Vec::new(),
        }
    }

    /// Whether the collection holds no record.
    pub open spec fn is_empty(&self) -> bool {
        &&& self.bitcoin_blocks@.len() == 0
        &&& self.stacks_blocks@.len() == 0
        &&& self.deposit_requests@.len() == 0
        &&& self.withdraw_requests@.len() == 0
        &&& self.transactions@.len() == 0
        &&& self.bitcoin_transactions@.len() == 0
        &&& self.stacks_transactions@.len() == 0
        &&& self.deposit_signers@.len() == 0
        &&& self.withdraw_signers@.len() == 0
    }

    /// Whether `post` holds the records of `pre` followed by those of `new`.
    pub open spec fn pushed(pre: TestData, new: TestData, post: TestData) -> bool {
        &&& post.bitcoin_blocks@ == pre.bitcoin_blocks@ + new.bitcoin_blocks@
        &&& post.stacks_blocks@ == pre.stacks_blocks@ + new.stacks_blocks@
        &&& post.deposit_requests@ == pre.deposit_requests@ + new.deposit_requests@
        &&& post.withdraw_requests@ == pre.withdraw_requests@ + new.withdraw_requests@
        &&& post.transactions@ == pre.transactions@ + new.transactions@
        &&& post.bitcoin_transactions@ == pre.bitcoin_transactions@ + new.bitcoin_transactions@
        &&& post.stacks_transactions@ == pre.stacks_transactions@ + new.stacks_transactions@
        &&& post.deposit_signers@ == pre.deposit_signers@ + new.deposit_signers@
        &&& post.withdraw_signers@ == pre.withdraw_signers@ + new.withdraw_signers@
    }

    /// Whether `post` holds the records of `pre` that equal no record of
    /// the same kind in `other`, in order.
    pub open spec fn removed(pre: TestData, other: TestData, post: TestData) -> bool {
        &&& post.bitcoin_blocks@ == diff_spec(pre.bitcoin_blocks@, other.bitcoin_blocks@)
        &&& post.stacks_blocks@ == diff_spec(pre.stacks_blocks@, other.stacks_blocks@)
        &&& post.deposit_requests@ == diff_spec(pre.deposit_requests@, other.deposit_requests@)
        &&& post.withdraw_requests@ == diff_spec(pre.withdraw_requests@, other.withdraw_requests@)
        &&& post.transactions@ == diff_spec(pre.transactions@, other.transactions@)
        &&& post.bitcoin_transactions@ == diff_spec(
            pre.bitcoin_transactions@,
            other.bitcoin_transactions@,
        )
        &&& post.stacks_transactions@ == diff_spec(
            pre.stacks_transactions@,
            other.stacks_transactions@,
        )
        &&& post.deposit_signers@ == diff_spec(pre.deposit_signers@, other.deposit_signers@)
        &&& post.withdraw_signers@ == diff_spec(pre.withdraw_signers@, other.withdraw_signers@)
    }

    /// Add newly generated data to the current model.
    pub fn push(&mut self, new_data: Self)
        ensures
            TestData::pushed(*old(self), new_data, *final(self)),
    {
        let mut new_data = new_data;
        self.bitcoin_blocks.append(&mut new_data.bitcoin_blocks);
        self.stacks_blocks.append(&mut new_data.stacks_blocks);
        self.deposit_requests.append(&mut new_data.deposit_requests);
        self.deposit_signers.append(&mut new_data.deposit_signers);
        self.withdraw_requests.append(&mut new_data.withdraw_requests);
        self.withdraw_signers.append(&mut new_data.withdraw_signers);
        self.bitcoin_transactions.append(&mut new_data.bitcoin_transactions);
        self.stacks_transactions.append(&mut new_data.stacks_transactions);
        self.transactions.append(&mut new_data.transactions);
    }

    /// Remove data in `other` present in the current model.
    pub fn remove(&mut self, other: Self)
        ensures
            TestData::removed(*old(self), other, *final(self)),
    {
        vec_diff(&mut self.bitcoin_blocks, other.bitcoin_blocks.as_slice());
        vec_diff(&mut self.stacks_blocks, other.stacks_blocks.as_slice());
        vec_diff(&mut self.deposit_requests, other.deposit_requests.as_slice());
        vec_diff(&mut self.deposit_signers, other.deposit_signers.as_slice());
        vec_diff(&mut self.withdraw_requests, other.withdraw_requests.as_slice());
        vec_diff(&mut self.withdraw_signers, other.withdraw_signers.as_slice());
        vec_diff(&mut self.bitcoin_transactions, other.bitcoin_transactions.as_slice());
        vec_diff(&mut self.stacks_transactions, other.stacks_transactions.as_slice());
        vec_diff(&mut self.transactions, other.transactions.as_slice());
    }

    /// Fetch the first bitcoin block with the given hash.
    pub fn get_bitcoin_block(&self, block_hash: &BitcoinBlockHash) -> (r: Option<BitcoinBlock>)
        ensures
            match r {
                None => forall|i: int|
                    0 <= i < self.bitcoin_blocks@.len()
                        ==> self.bitcoin_blocks@[i].block_hash.0@ != block_hash.0@,
                Some(b) => exists|i: int|
                    first_with_hash(self.bitcoin_blocks@, *block_hash, i)
                        && BitcoinBlock::same_block(b, self.bitcoin_blocks@[i]),
            },
    {
        let mut i: usize = 0;
        while i < self.bitcoin_blocks.len()
            invariant
                i <= self.bitcoin_blocks@.len(),
                forall|j: int| 0 <= j < i ==> self.bitcoin_blocks@[j].block_hash.0@ != block_hash.0@,
            decreases self.bitcoin_blocks@.len() - i,
        {
            if self.bitcoin_blocks[i].block_hash == *block_hash {
                assert(first_with_hash(self.bitcoin_blocks@, *block_hash, i as int));
                return Some(self.bitcoin_blocks[i].duplicate());
            }
            i = i + 1;
        }
        None
    }
}

/// Whether `i` is the first stacks block of `blocks` with the hash `hash`.
pub open spec fn first_stacks_with_hash(blocks: Seq<StacksBlock>, hash: StacksBlockHash, i: int) -> bool {
    &&& 0 <= i < blocks.len()
    &&& blocks[i].block_hash.0@ == hash.0@
    &&& forall|j: int| 0 <= j < i ==> blocks[j].block_hash.0@ != hash.0@
}

/// The first stacks block of `blocks` with the hash `hash`, if any.
pub open spec fn find_stacks_block(blocks: Seq<StacksBlock>, hash: StacksBlockHash) -> Option<
    StacksBlock,
> {
    if exists|i: int| first_stacks_with_hash(blocks, hash, i) {
        Some(blocks[choose|i: int| first_stacks_with_hash(blocks, hash, i)])
    } else {
        None
    }
}

/// The first bitcoin block of `blocks` with the hash `hash`, if any.
pub open spec fn find_bitcoin_block(blocks: Seq<BitcoinBlock>, hash: BitcoinBlockHash) -> Option<
    BitcoinBlock,
> {
    if exists|i: int| first_with_hash(blocks, hash, i) {
        Some(blocks[choose|i: int| first_with_hash(blocks, hash, i)])
    } else {
        None
    }
}

/// The height after `height`, saturating at `u64::MAX`.
pub open spec fn next_height(height: u64) -> u64 {
    if height < u64::MAX {
        (height + 1) as u64
    } else {
        u64::MAX
    }
}

/// The first stacks block with the hash `hash`, if any.
fn find_stacks(blocks: &Vec<StacksBlock>, hash: &StacksBlockHash) -> (r: Option<StacksBlock>)
    ensures
        r == find_stacks_block(blocks@, *hash),
{
    let mut i: usize = 0;
    while i < blocks.len()
        invariant
            i <= blocks@.len(),
            forall|j: int| 0 <= j < i ==> blocks@[j].block_hash.0@ != hash.0@,
        decreases blocks@.len() - i,
    {
        if blocks[i].block_hash == *hash {
            assert(first_stacks_with_hash(blocks@, *hash, i as int));
            let ghost k = choose|k: int| first_stacks_with_hash(blocks@, *hash, k);
            assert(k == i) by {
                if k < i {
                    assert(blocks@[k].block_hash.0@ != hash.0@);
                } else if k > i {
                    assert(blocks@[i as int].block_hash.0@ != hash.0@);
                }
            }
            return Some(blocks[i]);
        }
        i = i + 1;
    }
    None
}

/// The consensus encoding of `tx`.
pub uninterp spec fn consensus_encoding(tx: bitcoin::Transaction) -> Seq<u8>;

/// The id of `tx`, as its 32 bytes.
pub uninterp spec fn txid_bytes(tx: bitcoin::Transaction) -> Seq<u8>;

/// Relies on `bitcoin::consensus::encode::serialize`: the consensus
/// encoding of a transaction, into a fresh buffer; it depends on the
/// transaction alone.
#[verifier::external_body]
fn consensus_bytes(tx: &bitcoin::Transaction) -> (r: Vec<u8>)
    ensures
        r@ == consensus_encoding(*tx),
{
    bitcoin::consensus::encode::serialize(tx)
}

/// Relies on `bitcoin::Transaction::compute_txid`: the id of a
/// transaction, as its 32 bytes; it depends on the transaction alone.
#[verifier::external_body]
fn compute_txid(tx: &bitcoin::Transaction) -> (r: [u8; 32])
    ensures
        r@ == txid_bytes(*tx),
{
    bitcoin::hashes::Hash::to_byte_array(tx.compute_txid())
}

impl TestData {
    /// Whether `post` differs from `pre` only by one raw transaction and
    /// one link to `block` for each of `txs`, in order, each link carrying
    /// the id of its raw transaction.
    pub open spec fn pushed_bitcoin_txs(
        pre: TestData,
        block: BitcoinBlockRef,
        txs: Seq<(TransactionType, bitcoin::Transaction)>,
        post: TestData,
    ) -> bool {
        let n = pre.transactions@.len();
        let m = pre.bitcoin_transactions@.len();
        &&& post.transactions@.len() == n + txs.len()
        &&& post.bitcoin_transactions@.len() == m + txs.len()
        &&& post.transactions@.subrange(0, n as int) == pre.transactions@
        &&& post.bitcoin_transactions@.subrange(0, m as int) == pre.bitcoin_transactions@
        &&& forall|i: int|
            0 <= i < txs.len() ==> {
                let raw = #[trigger] post.transactions@[n + i];
                let link = post.bitcoin_transactions@[m + i];
                &&& raw.tx_type == txs[i].0
                &&& raw.txid@ == txid_bytes(txs[i].1)
                &&& raw.tx@ == consensus_encoding(txs[i].1)
                &&& raw.block_hash == block.block_hash.0
                &&& link.txid.0 == raw.txid
                &&& link.block_hash == block.block_hash
            }
        &&& post.bitcoin_blocks@ == pre.bitcoin_blocks@
        &&& post.stacks_blocks@ == pre.stacks_blocks@
        &&& post.deposit_requests@ == pre.deposit_requests@
        &&& post.withdraw_requests@ == pre.withdraw_requests@
        &&& post.stacks_transactions@ == pre.stacks_transactions@
        &&& post.deposit_signers@ == pre.deposit_signers@
        &&& post.withdraw_signers@ == pre.withdraw_signers@
    }

    /// Push bitcoin transactions, confirmed in the given block.
    pub fn push_bitcoin_txs(
        &mut self,
        block: &BitcoinBlockRef,
        sbtc_txs: Vec<(TransactionType, bitcoin::Transaction)>,
    )
        ensures
            TestData::pushed_bitcoin_txs(*old(self), *block, sbtc_txs@, *final(self)),
    {
        let mut bitcoin_transactions: Vec<BitcoinTxRef> = Vec::new();
        let mut transactions: Vec<RawTransaction> = Vec::new();
        let mut i: usize = 0;
        while i < sbtc_txs.len()
            invariant
                i <= sbtc_txs@.len(),
                transactions@.len() == i,
                bitcoin_transactions@.len() == i,
                forall|j: int|
                    0 <= j < i ==> {
                        let raw = #[trigger] transactions@[j];
                        let link = bitcoin_transactions@[j];
                        &&& raw.tx_type == sbtc_txs@[j].0
                        &&& raw.txid@ == txid_bytes(sbtc_txs@[j].1)
                        &&& raw.tx@ == consensus_encoding(sbtc_txs@[j].1)
                        &&& raw.block_hash == block.block_hash.0
                        &&& link.txid.0 == raw.txid
                        &&& link.block_hash == block.block_hash
                    },
            decreases sbtc_txs@.len() - i,
        {
            let tx_type = sbtc_txs[i].0;
            let txid = compute_txid(&sbtc_txs[i].1);
            let tx_bytes = consensus_bytes(&sbtc_txs[i].1);
            let tx = RawTransaction {
                txid,
                tx: tx_bytes,
                tx_type,
                block_hash: block.block_hash.0,
            };
            let bitcoin_transaction = BitcoinTxRef {
                txid: BitcoinTxId(txid),
                block_hash: block.block_hash,
            };
            transactions.push(tx);
            bitcoin_transactions.push(bitcoin_transaction);
            i = i + 1;
        }
        let mut new_data = TestData::new();
        new_data.bitcoin_transactions = bitcoin_transactions;
        new_data.transactions = transactions;
        let ghost pre = *self;
        self.push(new_data);
        assert(self.transactions@.subrange(0, pre.transactions@.len() as int) =~= pre.transactions@);
        assert(self.bitcoin_transactions@.subrange(0, pre.bitcoin_transactions@.len() as int)
            =~= pre.bitcoin_transactions@);
    }
}

impl TestData {
    /// The summary of the parent of a block to add on top of the
    /// collection: `parent` if given, else the block of the collection at
    /// `pick` (modulo its number of blocks), else a stand-in for the parent
    /// that `block` names.
    pub open spec fn bitcoin_parent(
        &self,
        block: BitcoinBlock,
        parent: Option<BitcoinBlockRef>,
        pick: usize,
    ) -> BitcoinBlockRef {
        match parent {
            Some(p) => p,
            None => if self.bitcoin_blocks@.len() > 0 {
                let b = self.bitcoin_blocks@[pick as int % self.bitcoin_blocks@.len() as int];
                BitcoinBlockRef { block_hash: b.block_hash, block_height: b.block_height }
            } else {
                BitcoinBlockRef {
                    block_hash: block.parent_hash,
                    block_height: HALLUCINATED_PARENT_HEIGHT,
                }
            },
        }
    }

    /// Put the freshly made `block` on top of its parent, chosen as
    /// `bitcoin_parent` says.
    pub fn generate_bitcoin_block(
        &self,
        block: BitcoinBlock,
        parent: Option<&BitcoinBlockRef>,
        pick: usize,
    ) -> (r: BitcoinBlock)
        ensures
            ({
                let p = self.bitcoin_parent(
                    block,
                    match parent {
                        Some(p) => Some(*p),
                        None => None,
                    },
                    pick,
                );
                &&& r.block_hash == block.block_hash
                &&& r.confirms@ == block.confirms@
                &&& r.parent_hash == p.block_hash
                &&& r.block_height == next_height(p.block_height)
            }),
    {
        let mut block = block;
        let parent_block_summary = match parent {
            Some(p) => *p,
            None => {
                if self.bitcoin_blocks.len() > 0 {
                    let index = pick % self.bitcoin_blocks.len();
                    BitcoinBlockRef::summarize(&self.bitcoin_blocks[index])
                } else {
                    BitcoinBlockRef::hallucinate_parent(&block)
                }
            },
        };
        block.parent_hash = parent_block_summary.block_hash;
        block.block_height = parent_block_summary.block_height.saturating_add(1);
        block
    }

    /// The summary of the stacks parent of the first stacks block `first`
    /// anchored by `new_block`: the stacks block, among those anchored by
    /// the bitcoin parent of `new_block`, at `pick` (modulo their number),
    /// if the collection holds both; else a stand-in for the parent that
    /// `first` names.
    pub open spec fn stacks_parent(
        &self,
        new_block: BitcoinBlock,
        first: StacksBlock,
        pick: usize,
    ) -> StacksBlockSummary {
        let fallback = StacksBlockSummary {
            block_hash: first.parent_hash,
            block_height: HALLUCINATED_PARENT_HEIGHT,
        };
        match find_bitcoin_block(self.bitcoin_blocks@, new_block.parent_hash) {
            Some(b) => if b.confirms@.len() > 0 {
                let hash = b.confirms@[pick as int % b.confirms@.len() as int];
                match find_stacks_block(self.stacks_blocks@, hash) {
                    Some(s) => StacksBlockSummary {
                        block_hash: s.block_hash,
                        block_height: s.block_height,
                    },
                    None => fallback,
                }
            } else {
                fallback
            },
            None => fallback,
        }
    }

    /// Chain the freshly made stacks blocks `fresh`, in order, on top of
    /// the stacks parent that `stacks_parent` gives.
    pub fn generate_stacks_blocks(
        &self,
        new_bitcoin_block: &BitcoinBlock,
        fresh: Vec<StacksBlock>,
        pick: usize,
    ) -> (r: Vec<StacksBlock>)
        requires
            fresh@.len() > 0,
        ensures
            r@.len() == fresh@.len(),
            forall|i: int| 0 <= i < r@.len() ==> (#[trigger] r@[i]).block_hash == fresh@[i].block_hash,
            ({
                let p = self.stacks_parent(*new_bitcoin_block, fresh@[0], pick);
                &&& r@[0].parent_hash == p.block_hash
                &&& r@[0].block_height == next_height(p.block_height)
            }),
            forall|i: int|
                0 < i < r@.len() ==> {
                    &&& (#[trigger] r@[i]).parent_hash == r@[i - 1].block_hash
                    &&& r@[i].block_height == next_height(r@[i - 1].block_height)
                },
    {
        let first = fresh[0];
        let fallback = StacksBlockSummary::hallucinate_parent(&first);
        let parent = match self.get_bitcoin_block(&new_bitcoin_block.parent_hash) {
            Some(b) => {
                if b.confirms.len() > 0 {
                    let hash = b.confirms[pick % b.confirms.len()];
                    match find_stacks(&self.stacks_blocks, &hash) {
                        Some(s) => StacksBlockSummary::summarize(&s),
                        None => fallback,
                    }
                } else {
                    fallback
                }
            },
            None => fallback,
        };
        proof {
            let blocks = self.bitcoin_blocks@;
            let hash = new_bitcoin_block.parent_hash;
            if exists|i: int| first_with_hash(blocks, hash, i) {
                let k = choose|i: int| first_with_hash(blocks, hash, i);
                assert forall|i: int| first_with_hash(blocks, hash, i) implies i == k by {
                    if i < k {
                        assert(blocks[i].block_hash.0@ != hash.0@);
                    } else if k < i {
                        assert(blocks[k].block_hash.0@ != hash.0@);
                    }
                }
            }
        }
        let mut stacks_blocks: Vec<StacksBlock> = Vec::new();
        let mut head = first;
        head.parent_hash = parent.block_hash;
        head.block_height = parent.block_height.saturating_add(1);
        stacks_blocks.push(head);
        let mut i: usize = 1;
        while i < fresh.len()
            invariant
                1 <= i <= fresh@.len(),
                stacks_blocks@.len() == i,
                stacks_blocks@[0].parent_hash == parent.block_hash,
                stacks_blocks@[0].block_height == next_height(parent.block_height),
                forall|j: int|
                    0 <= j < i ==> (#[trigger] stacks_blocks@[j]).block_hash == fresh@[j].block_hash,
                forall|j: int|
                    0 < j < i ==> {
                        &&& (#[trigger] stacks_blocks@[j]).parent_hash == stacks_blocks@[j
                            - 1].block_hash
                        &&& stacks_blocks@[j].block_height == next_height(
                            stacks_blocks@[j - 1].block_height,
                        )
                    },
            decreases fresh@.len() - i,
        {
            let previous = stacks_blocks[i - 1];
            let mut block = fresh[i];
            block.parent_hash = previous.block_hash;
            block.block_height = previous.block_height.saturating_add(1);
            stacks_blocks.push(block);
            i = i + 1;
        }
        stacks_blocks
    }
}

impl BitcoinBlockRef {
    /// The hash and height of `block`.
    pub fn summarize(block: &BitcoinBlock) -> (r: Self)
        ensures
            r.block_hash == block.block_hash,
            r.block_height == block.block_height,
    {
        BitcoinBlockRef { block_hash: block.block_hash, block_height: block.block_height }
    }

    /// A stand-in for the parent of `block`: its hash, at an arbitrary
    /// height.
    pub fn hallucinate_parent(block: &BitcoinBlock) -> (r: Self)
        ensures
            r.block_hash == block.parent_hash,
            r.block_height == HALLUCINATED_PARENT_HEIGHT,
    {
        BitcoinBlockRef { block_hash: block.parent_hash, block_height: HALLUCINATED_PARENT_HEIGHT }
    }
}

impl StacksBlockSummary {
    /// The hash and height of `block`.
    pub fn summarize(block: &StacksBlock) -> (r: Self)
        ensures
            r.block_hash == block.block_hash,
            r.block_height == block.block_height,
    {
        StacksBlockSummary { block_hash: block.block_hash, block_height: block.block_height }
    }

    /// A stand-in for the parent of `block`: its hash, at an arbitrary
    /// height.
    pub fn hallucinate_parent(block: &StacksBlock) -> (r: Self)
        ensures
            r.block_hash == block.parent_hash,
            r.block_height == HALLUCINATED_PARENT_HEIGHT,
    {
        StacksBlockSummary { block_hash: block.parent_hash, block_height: HALLUCINATED_PARENT_HEIGHT }
    }
}

} // verus!
