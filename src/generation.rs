//! Assembling freshly made records into consistent deposit and withdrawal
//! data. What is random (the records' own values, which block to pick, how
//! each signer votes) comes in as seeds; how the records are tied together
//! is decided here.

use vstd::prelude::*;

use crate::model::BitcoinBlock;
use crate::model::BitcoinTxId;
use crate::model::BitcoinTxRef;
use crate::model::DepositRequest;
use crate::model::DepositSigner;
use crate::model::PublicKey;
use crate::model::RawTransaction;
use crate::model::StacksBlock;
use crate::model::StacksBlockHash;
use crate::model::StacksTransaction;
use crate::model::StacksTxId;
use crate::model::TransactionType;
use crate::model::WithdrawalRequest;
use crate::model::WithdrawalSigner;
use crate::model::BitcoinBlockRef;
use crate::test_data::next_height;
use crate::test_data::HALLUCINATED_PARENT_HEIGHT;
use crate::test_data::Params;
use crate::test_data::TestData;

verus! {

/// The freshly made parts of one deposit.
#[derive(Debug, Clone)]
pub struct DepositSeed {
    /// The request; its txid is replaced by that of `transaction`.
    pub request: DepositRequest,
    /// The deposit transaction; its block is replaced by the confirming one.
    pub transaction: RawTransaction,
    /// The vote of each signer, in the order of the signer keys.
    pub votes: Vec<bool>,
}

/// The freshly made parts of one withdrawal.
#[derive(Debug, Clone)]
pub struct WithdrawalSeed {
    /// The request; its id and block are replaced.
    pub request: WithdrawalRequest,
    /// The stacks transaction that carries the request.
    pub transaction: RawTransaction,
    /// Which of the new stacks blocks holds the request, modulo their number.
    pub block_pick: usize,
    /// The vote of each signer, in the order of the signer keys.
    pub votes: Vec<bool>,
}

/// The freshly made parts of one new bitcoin block and what it anchors.
#[derive(Debug, Clone)]
pub struct BlockSeed {
    /// The block; its parent and height are replaced.
    pub block: BitcoinBlock,
    /// Which existing block is the parent when none is given, modulo their
    /// number.
    pub parent_pick: usize,
    /// The new stacks blocks, at least one; their parents and heights are
    /// replaced.
    pub stacks_blocks: Vec<StacksBlock>,
    /// Which stacks block anchored by the parent is the stacks parent,
    /// modulo their number.
    pub stacks_parent_pick: usize,
    /// The deposits confirmed in the block.
    pub deposits: Vec<DepositSeed>,
    /// The withdrawals requested in the new stacks blocks.
    pub withdrawals: Vec<WithdrawalSeed>,
}

/// The number of stacks blocks made for each bitcoin block.
pub open spec fn stacks_per_block(params: Params) -> int {
    if params.num_stacks_blocks_per_bitcoin_block > 0 {
        params.num_stacks_blocks_per_bitcoin_block as int
    } else {
        1
    }
}

/// Whether the requests of `requests` are numbered 1, 2, ... in order.
pub open spec fn numbered_from_one(requests: Seq<WithdrawalRequest>) -> bool {
    forall|k: int| 0 <= k < requests.len() ==> (#[trigger] requests[k]).request_id == k + 1
}

/// Requests numbered 1, 2, ... have the number of requests as their
/// greatest id.
proof fn lemma_max_of_numbered(requests: Seq<WithdrawalRequest>)
    requires
        numbered_from_one(requests),
    ensures
        max_request_id(requests) == requests.len(),
    decreases requests.len(),
{
    if requests.len() > 0 {
        let rest = requests.drop_last();
        assert forall|k: int| 0 <= k < rest.len() implies (#[trigger] rest[k]).request_id == k + 1 by {
            assert(rest[k] == requests[k]);
        }
        lemma_max_of_numbered(rest);
        assert(requests.last().request_id == requests.len());
    }
}

/// Whether `seed` suits the parameters `params` and `signer_keys`.
pub open spec fn seed_fits(seed: BlockSeed, params: Params, signer_keys: Seq<PublicKey>) -> bool {
    &&& seed.stacks_blocks@.len() == if params.num_stacks_blocks_per_bitcoin_block > 0 {
        params.num_stacks_blocks_per_bitcoin_block as int
    } else {
        1
    }
    &&& seed.deposits@.len() == params.num_deposit_requests_per_block
    &&& seed.withdrawals@.len() == params.num_withdraw_requests_per_block
    &&& forall|k: int|
        0 <= k < seed.deposits@.len() ==> (#[trigger] seed.deposits@[k]).votes@.len() >= voters(
            signer_keys,
            params.num_signers_per_request,
        )
    &&& forall|k: int|
        0 <= k < seed.withdrawals@.len() ==> (#[trigger] seed.withdrawals@[k]).votes@.len()
            >= voters(signer_keys, params.num_signers_per_request)
}

/// Deposit records tied to one bitcoin block.
#[derive(Debug, Clone)]
pub struct DepositData {
    /// Deposit requests
    pub deposit_requests: Vec<DepositRequest>,
    /// Deposit signers
    pub deposit_signers: Vec<DepositSigner>,
    /// Raw deposit transactions
    pub transactions: Vec<RawTransaction>,
    /// Connection between the bitcoin block and the transactions
    pub bitcoin_transactions: Vec<BitcoinTxRef>,
}

/// Withdrawal records tied to new stacks blocks.
#[derive(Debug, Clone)]
pub struct WithdrawData {
    /// Withdrawal requests
    pub withdraw_requests: Vec<WithdrawalRequest>,
    /// Withdrawal signers
    pub withdraw_signers: Vec<WithdrawalSigner>,
    /// Raw stacks transactions
    pub transactions: Vec<RawTransaction>,
    /// Connection between the stacks blocks and the transactions
    pub stacks_transactions: Vec<StacksTransaction>,
}

/// The number of signers that vote on each request.
pub open spec fn voters(keys: Seq<PublicKey>, per_request: usize) -> int {
    if per_request < keys.len() {
        per_request as int
    } else {
        keys.len() as int
    }
}

/// Whether `request`, `tx` and `link` are the records of the deposit
/// seeded by `seed` and confirmed in `block`.
pub open spec fn deposit_tied(
    seed: DepositSeed,
    block: BitcoinBlock,
    request: DepositRequest,
    tx: RawTransaction,
    link: BitcoinTxRef,
) -> bool {
    &&& tx.txid == seed.transaction.txid
    &&& tx.tx@ == seed.transaction.tx@
    &&& tx.tx_type == seed.transaction.tx_type
    &&& tx.block_hash == block.block_hash.0
    &&& request.txid == BitcoinTxId(tx.txid)
    &&& request.output_index == seed.request.output_index
    &&& request.spend_script@ == seed.request.spend_script@
    &&& request.reclaim_script@ == seed.request.reclaim_script@
    &&& request.recipient@ == seed.request.recipient@
    &&& request.amount == seed.request.amount
    &&& request.max_fee == seed.request.max_fee
    &&& link == BitcoinTxRef { txid: BitcoinTxId(tx.txid), block_hash: block.block_hash }
}

/// The greatest request id in `requests`, or zero.
pub open spec fn max_request_id(requests: Seq<WithdrawalRequest>) -> u64
    decreases requests.len(),
{
    if requests.len() == 0 {
        0
    } else {
        let rest = max_request_id(requests.drop_last());
        if requests.last().request_id > rest {
            requests.last().request_id
        } else {
            rest
        }
    }
}

/// The id given to the `k`-th new request after `first`, saturating at
/// `u64::MAX`.
pub open spec fn request_id_at(first: u64, k: int) -> u64 {
    if first + k <= u64::MAX {
        (first + k) as u64
    } else {
        u64::MAX
    }
}

/// The decisions of the first `count` signers on the deposit at
/// `txid`/`output_index`, each with its vote.
fn signers_of(
    signer_keys: &Vec<PublicKey>,
    count: usize,
    txid: BitcoinTxId,
    output_index: u32,
    votes: &Vec<bool>,
) -> (r: Vec<DepositSigner>)
    requires
        count <= signer_keys@.len(),
        count <= votes@.len(),
    ensures
        r@.len() == count,
        forall|j: int|
            0 <= j < count ==> (#[trigger] r@[j]) == (DepositSigner {
                txid,
                output_index,
                signer_pub_key: signer_keys@[j],
                is_accepted: votes@[j],
            }),
{
    let mut signers: Vec<DepositSigner> = Vec::new();
    let mut j: usize = 0;
    while j < count
        invariant
            j <= count,
            count <= signer_keys@.len(),
            count <= votes@.len(),
            signers@.len() == j,
            forall|jj: int|
                0 <= jj < j ==> (#[trigger] signers@[jj]) == (DepositSigner {
                    txid,
                    output_index,
                    signer_pub_key: signer_keys@[jj],
                    is_accepted: votes@[jj],
                }),
        decreases count - j,
    {
        signers.push(
            DepositSigner {
                txid,
                output_index,
                signer_pub_key: signer_keys[j],
                is_accepted: votes[j],
            },
        );
        j = j + 1;
    }
    signers
}

impl DepositData {
    /// No deposit records.
    pub fn new() -> (r: Self)
        ensures
            r.deposit_requests@.len() == 0,
            r.deposit_signers@.len() == 0,
            r.transactions@.len() == 0,
            r.bitcoin_transactions@.len() == 0,
    {
        DepositData {
            deposit_requests: Vec::new(),
            deposit_signers: Vec::new(),
            transactions: Vec::new(),
            bitcoin_transactions: Vec::new(),
        }
    }

    /// Tie each seeded deposit to `bitcoin_block`, with the votes of the
    /// first `num_signers_per_request` signers.
    pub fn generate(
        signer_keys: &Vec<PublicKey>,
        bitcoin_block: &BitcoinBlock,
        seeds: Vec<DepositSeed>,
        num_signers_per_request: usize,
    ) -> (r: Self)
        requires
            forall|k: int|
                0 <= k < seeds@.len() ==> (#[trigger] seeds@[k]).votes@.len() >= voters(
                    signer_keys@,
                    num_signers_per_request,
                ),
        ensures
            r.deposit_requests@.len() == seeds@.len(),
            r.transactions@.len() == seeds@.len(),
            r.bitcoin_transactions@.len() == seeds@.len(),
            r.deposit_signers@.len() == seeds@.len() * voters(signer_keys@, num_signers_per_request),
            forall|k: int|
                #![trigger r.deposit_requests@[k]]
                0 <= k < seeds@.len() ==> deposit_tied(
                    seeds@[k],
                    *bitcoin_block,
                    r.deposit_requests@[k],
                    r.transactions@[k],
                    r.bitcoin_transactions@[k],
                ),
            forall|k: int, j: int|
                #![trigger seeds@[k], signer_keys@[j]]
                0 <= k < seeds@.len() && 0 <= j < voters(signer_keys@, num_signers_per_request)
                    ==> r.deposit_signers@[k * voters(signer_keys@, num_signers_per_request) + j]
                    == (DepositSigner {
                    txid: BitcoinTxId(seeds@[k].transaction.txid),
                    output_index: seeds@[k].request.output_index,
                    signer_pub_key: signer_keys@[j],
                    is_accepted: seeds@[k].votes@[j],
                }),
    {
        let ghost orig = seeds@;
        let ghost v = voters(signer_keys@, num_signers_per_request);
        let count: usize = if num_signers_per_request < signer_keys.len() {
            num_signers_per_request
        } else {
            signer_keys.len()
        };
        let mut seeds = seeds;
        let mut data = DepositData::new();
        let ghost mut k: int = 0;
        while seeds.len() > 0
            invariant
                count == v,
                0 <= v <= signer_keys@.len(),
                k <= orig.len(),
                0 <= k,
                seeds@ == orig.skip(k),
                forall|i: int| 0 <= i < orig.len() ==> (#[trigger] orig[i]).votes@.len() >= v,
                data.deposit_requests@.len() == k,
                data.transactions@.len() == k,
                data.bitcoin_transactions@.len() == k,
                data.deposit_signers@.len() == k * v,
                forall|i: int|
                    #![trigger data.deposit_requests@[i]]
                    0 <= i < k ==> deposit_tied(
                        orig[i],
                        *bitcoin_block,
                        data.deposit_requests@[i],
                        data.transactions@[i],
                        data.bitcoin_transactions@[i],
                    ),
                forall|i: int, j: int|
                    #![trigger orig[i], signer_keys@[j]]
                    0 <= i < k && 0 <= j < v ==> data.deposit_signers@[i * v + j] == (DepositSigner {
                        txid: BitcoinTxId(orig[i].transaction.txid),
                        output_index: orig[i].request.output_index,
                        signer_pub_key: signer_keys@[j],
                        is_accepted: orig[i].votes@[j],
                    }),
            decreases seeds@.len(),
        {
            let seed = seeds.remove(0);
            assert(seed == orig[k]);
            let mut raw_transaction = seed.transaction;
            raw_transaction.block_hash = bitcoin_block.block_hash.0;
            let mut deposit_request = seed.request;
            deposit_request.txid = BitcoinTxId(raw_transaction.txid);

            let mut signers = signers_of(
                signer_keys,
                count,
                deposit_request.txid,
                deposit_request.output_index,
                &seed.votes,
            );
            let ghost before = data.deposit_signers@;
            data.deposit_signers.append(&mut signers);
            assert forall|i: int, jj: int|
                #![trigger orig[i], signer_keys@[jj]]
                0 <= i < k && 0 <= jj < v implies data.deposit_signers@[i * v + jj]
                == before[i * v + jj] by {
                assert(i * v + jj < k * v) by (nonlinear_arith)
                    requires
                        0 <= i < k,
                        0 <= jj < v,
                ;
            }
            assert forall|jj: int|
                #![trigger signer_keys@[jj]]
                0 <= jj < v implies data.deposit_signers@[k * v + jj] == (DepositSigner {
                    txid: BitcoinTxId(orig[k].transaction.txid),
                    output_index: orig[k].request.output_index,
                    signer_pub_key: signer_keys@[jj],
                    is_accepted: orig[k].votes@[jj],
                }) by {}
            assert((k + 1) * v == k * v + v) by (nonlinear_arith);
            let bitcoin_transaction = BitcoinTxRef {
                txid: BitcoinTxId(raw_transaction.txid),
                block_hash: bitcoin_block.block_hash,
            };
            data.bitcoin_transactions.push(bitcoin_transaction);
            data.deposit_requests.push(deposit_request);
            data.transactions.push(raw_transaction);
            proof {
                k = k + 1;
            }
            assert(seeds@ =~= orig.skip(k));
        }
        assert(k == orig.len());
        data
    }
}

/// Whether `request`, `tx` and `link` are the records of the withdrawal
/// seeded by `seed`, with the id `id`, held by one of `blocks` as the seed
/// picks it.
pub open spec fn withdrawal_tied(
    seed: WithdrawalSeed,
    blocks: Seq<StacksBlock>,
    id: u64,
    request: WithdrawalRequest,
    tx: RawTransaction,
    link: StacksTransaction,
) -> bool {
    let block_hash = blocks[seed.block_pick as int % blocks.len() as int].block_hash;
    &&& request.request_id == id
    &&& request.block_hash == block_hash
    &&& request.txid == seed.request.txid
    &&& request.recipient@ == seed.request.recipient@
    &&& request.amount == seed.request.amount
    &&& request.max_fee == seed.request.max_fee
    &&& tx.txid == seed.transaction.txid
    &&& tx.tx@ == seed.transaction.tx@
    &&& tx.tx_type == TransactionType::WithdrawRequest
    &&& tx.block_hash == seed.transaction.block_hash
    &&& link == StacksTransaction { txid: StacksTxId(tx.txid), block_hash }
}

/// The greatest request id of `requests`, or zero.
fn max_id(requests: &Vec<WithdrawalRequest>) -> (r: u64)
    ensures
        r == max_request_id(requests@),
{
    let mut best: u64 = 0;
    let mut i: usize = 0;
    while i < requests.len()
        invariant
            i <= requests@.len(),
            best == max_request_id(requests@.subrange(0, i as int)),
        decreases requests@.len() - i,
    {
        assert(requests@.subrange(0, i + 1).drop_last() =~= requests@.subrange(0, i as int));
        if requests[i].request_id > best {
            best = requests[i].request_id;
        }
        i = i + 1;
    }
    assert(requests@.subrange(0, i as int) =~= requests@);
    best
}

/// The decisions of the first `count` signers on the withdrawal request
/// `request_id` in `block_hash`/`txid`, each with its vote.
fn withdrawal_signers_of(
    signer_keys: &Vec<PublicKey>,
    count: usize,
    request_id: u64,
    block_hash: StacksBlockHash,
    txid: StacksTxId,
    votes: &Vec<bool>,
) -> (r: Vec<WithdrawalSigner>)
    requires
        count <= signer_keys@.len(),
        count <= votes@.len(),
    ensures
        r@.len() == count,
        forall|j: int|
            0 <= j < count ==> (#[trigger] r@[j]) == (WithdrawalSigner {
                request_id,
                block_hash,
                txid,
                signer_pub_key: signer_keys@[j],
                is_accepted: votes@[j],
            }),
{
    let mut signers: Vec<WithdrawalSigner> = Vec::new();
    let mut j: usize = 0;
    while j < count
        invariant
            j <= count,
            count <= signer_keys@.len(),
            count <= votes@.len(),
            signers@.len() == j,
            forall|jj: int|
                0 <= jj < j ==> (#[trigger] signers@[jj]) == (WithdrawalSigner {
                    request_id,
                    block_hash,
                    txid,
                    signer_pub_key: signer_keys@[jj],
                    is_accepted: votes@[jj],
                }),
        decreases count - j,
    {
        signers.push(
            WithdrawalSigner {
                request_id,
                block_hash,
                txid,
                signer_pub_key: signer_keys[j],
                is_accepted: votes[j],
            },
        );
        j = j + 1;
    }
    signers
}

impl WithdrawData {
    /// No withdrawal records.
    pub fn new() -> (r: Self)
        ensures
            r.withdraw_requests@.len() == 0,
            r.withdraw_signers@.len() == 0,
            r.transactions@.len() == 0,
            r.stacks_transactions@.len() == 0,
    {
        WithdrawData {
            withdraw_requests: Vec::new(),
            withdraw_signers: Vec::new(),
            transactions: Vec::new(),
            stacks_transactions: Vec::new(),
        }
    }

    /// Tie each seeded withdrawal to one of `stacks_blocks`, numbering the
    /// requests on from the greatest id of `withdraw_requests`, with the
    /// votes of the first `num_signers_per_request` signers.
    pub fn generate(
        signer_keys: &Vec<PublicKey>,
        stacks_blocks: &Vec<StacksBlock>,
        withdraw_requests: &Vec<WithdrawalRequest>,
        seeds: Vec<WithdrawalSeed>,
        num_signers_per_request: usize,
    ) -> (r: Self)
        requires
            seeds@.len() > 0 ==> stacks_blocks@.len() > 0,
            forall|k: int|
                0 <= k < seeds@.len() ==> (#[trigger] seeds@[k]).votes@.len() >= voters(
                    signer_keys@,
                    num_signers_per_request,
                ),
        ensures
            r.withdraw_requests@.len() == seeds@.len(),
            r.transactions@.len() == seeds@.len(),
            r.stacks_transactions@.len() == seeds@.len(),
            r.withdraw_signers@.len() == seeds@.len() * voters(
                signer_keys@,
                num_signers_per_request,
            ),
            forall|k: int|
                #![trigger r.withdraw_requests@[k]]
                0 <= k < seeds@.len() ==> withdrawal_tied(
                    seeds@[k],
                    stacks_blocks@,
                    request_id_at(request_id_at(max_request_id(withdraw_requests@), 1), k),
                    r.withdraw_requests@[k],
                    r.transactions@[k],
                    r.stacks_transactions@[k],
                ),
            forall|k: int, j: int|
                #![trigger seeds@[k], signer_keys@[j]]
                0 <= k < seeds@.len() && 0 <= j < voters(signer_keys@, num_signers_per_request)
                    ==> r.withdraw_signers@[k * voters(signer_keys@, num_signers_per_request) + j]
                    == (WithdrawalSigner {
                    request_id: r.withdraw_requests@[k].request_id,
                    block_hash: r.withdraw_requests@[k].block_hash,
                    txid: seeds@[k].request.txid,
                    signer_pub_key: signer_keys@[j],
                    is_accepted: seeds@[k].votes@[j],
                }),
    {
        let ghost orig = seeds@;
        let ghost v = voters(signer_keys@, num_signers_per_request);
        let ghost first = request_id_at(max_request_id(withdraw_requests@), 1);
        let count: usize = if num_signers_per_request < signer_keys.len() {
            num_signers_per_request
        } else {
            signer_keys.len()
        };
        let mut next_id = max_id(withdraw_requests).saturating_add(1);
        let mut seeds = seeds;
        let mut data = WithdrawData::new();
        let ghost mut k: int = 0;
        while seeds.len() > 0
            invariant
                count == v,
                0 <= v <= signer_keys@.len(),
                0 <= k <= orig.len(),
                orig.len() > 0 ==> stacks_blocks@.len() > 0,
                seeds@ == orig.skip(k),
                next_id == request_id_at(first, k),
                forall|i: int| 0 <= i < orig.len() ==> (#[trigger] orig[i]).votes@.len() >= v,
                data.withdraw_requests@.len() == k,
                data.transactions@.len() == k,
                data.stacks_transactions@.len() == k,
                data.withdraw_signers@.len() == k * v,
                forall|i: int|
                    #![trigger data.withdraw_requests@[i]]
                    0 <= i < k ==> withdrawal_tied(
                        orig[i],
                        stacks_blocks@,
                        request_id_at(first, i),
                        data.withdraw_requests@[i],
                        data.transactions@[i],
                        data.stacks_transactions@[i],
                    ),
                forall|i: int, j: int|
                    #![trigger orig[i], signer_keys@[j]]
                    0 <= i < k && 0 <= j < v ==> data.withdraw_signers@[i * v + j] == (WithdrawalSigner {
                        request_id: data.withdraw_requests@[i].request_id,
                        block_hash: data.withdraw_requests@[i].block_hash,
                        txid: orig[i].request.txid,
                        signer_pub_key: signer_keys@[j],
                        is_accepted: orig[i].votes@[j],
                    }),
            decreases seeds@.len(),
        {
            let seed = seeds.remove(0);
            assert(seed == orig[k]);
            let stacks_block_hash = stacks_blocks[seed.block_pick % stacks_blocks.len()].block_hash;
            let mut withdraw_request = seed.request;
            withdraw_request.block_hash = stacks_block_hash;
            withdraw_request.request_id = next_id;
            let mut raw_transaction = seed.transaction;
            raw_transaction.tx_type = TransactionType::WithdrawRequest;
            let stacks_transaction = StacksTransaction {
                txid: StacksTxId(raw_transaction.txid),
                block_hash: stacks_block_hash,
            };
            let mut signers = withdrawal_signers_of(
                signer_keys,
                count,
                withdraw_request.request_id,
                withdraw_request.block_hash,
                withdraw_request.txid,
                &seed.votes,
            );
            let ghost before = data.withdraw_signers@;
            data.withdraw_signers.append(&mut signers);
            assert forall|i: int, jj: int|
                #![trigger orig[i], signer_keys@[jj]]
                0 <= i < k && 0 <= jj < v implies data.withdraw_signers@[i * v + jj]
                == before[i * v + jj] by {
                assert(i * v + jj < k * v) by (nonlinear_arith)
                    requires
                        0 <= i < k,
                        0 <= jj < v,
                ;
            }
            assert((k + 1) * v == k * v + v) by (nonlinear_arith);
            data.stacks_transactions.push(stacks_transaction);
            data.withdraw_requests.push(withdraw_request);
            data.transactions.push(raw_transaction);
            next_id = next_id.saturating_add(1);
            proof {
                k = k + 1;
            }
            assert(seeds@ =~= orig.skip(k));
        }
        data
    }
}

impl TestData {
    /// Generate a new bitcoin block, with what it anchors and confirms, on
    /// top of the current model, from the fresh parts in `seed`.
    #[verifier::rlimit(50)]
    pub fn new_block(
        &self,
        signer_keys: &Vec<PublicKey>,
        params: &Params,
        parent: Option<&BitcoinBlockRef>,
        seed: BlockSeed,
    ) -> (r: (TestData, BitcoinBlockRef))
        requires
            seed_fits(seed, *params, signer_keys@),
        ensures
            ({
                let (data, block_ref) = r;
                let block = data.bitcoin_blocks@[0];
                let p = self.bitcoin_parent(
                    seed.block,
                    match parent {
                        Some(p) => Some(*p),
                        None => None,
                    },
                    seed.parent_pick,
                );
                let v = voters(signer_keys@, params.num_signers_per_request);
                let nd = seed.deposits@.len();
                &&& data.bitcoin_blocks@.len() == 1
                &&& block.block_hash == seed.block.block_hash
                &&& block.parent_hash == p.block_hash
                &&& block.block_height == next_height(p.block_height)
                &&& block.confirms@ == seed.block.confirms@.push(data.stacks_blocks@.last().block_hash)
                &&& block_ref == BitcoinBlockRef {
                    block_hash: block.block_hash,
                    block_height: block.block_height,
                }
                &&& data.stacks_blocks@.len() == seed.stacks_blocks@.len()
                &&& forall|i: int|
                    0 <= i < data.stacks_blocks@.len() ==> (#[trigger] data.stacks_blocks@[i]).block_hash
                        == seed.stacks_blocks@[i].block_hash
                &&& data.stacks_blocks@[0].parent_hash == self.stacks_parent(
                    block,
                    seed.stacks_blocks@[0],
                    seed.stacks_parent_pick,
                ).block_hash
                &&& data.stacks_blocks@[0].block_height == next_height(
                    self.stacks_parent(block, seed.stacks_blocks@[0], seed.stacks_parent_pick).block_height,
                )
                &&& forall|i: int|
                    0 < i < data.stacks_blocks@.len() ==> {
                        &&& (#[trigger] data.stacks_blocks@[i]).parent_hash
                            == data.stacks_blocks@[i - 1].block_hash
                        &&& data.stacks_blocks@[i].block_height == next_height(
                            data.stacks_blocks@[i - 1].block_height,
                        )
                    }
                &&& data.deposit_requests@.len() == nd
                &&& data.bitcoin_transactions@.len() == nd
                &&& data.deposit_signers@.len() == nd * v
                &&& forall|k: int|
                    #![trigger data.deposit_requests@[k]]
                    0 <= k < nd ==> deposit_tied(
                        seed.deposits@[k],
                        block,
                        data.deposit_requests@[k],
                        data.transactions@[k],
                        data.bitcoin_transactions@[k],
                    )
                &&& data.withdraw_requests@.len() == seed.withdrawals@.len()
                &&& data.stacks_transactions@.len() == seed.withdrawals@.len()
                &&& data.withdraw_signers@.len() == seed.withdrawals@.len() * v
                &&& data.transactions@.len() == nd + seed.withdrawals@.len()
                &&& forall|k: int|
                    #![trigger data.withdraw_requests@[k]]
                    0 <= k < seed.withdrawals@.len() ==> withdrawal_tied(
                        seed.withdrawals@[k],
                        data.stacks_blocks@,
                        request_id_at(request_id_at(max_request_id(self.withdraw_requests@), 1), k),
                        data.withdraw_requests@[k],
                        data.transactions@[nd + k],
                        data.stacks_transactions@[k],
                    )
            }),
    {
        let mut block = self.generate_bitcoin_block(seed.block, parent, seed.parent_pick);
        let stacks_blocks = self.generate_stacks_blocks(
            &block,
            seed.stacks_blocks,
            seed.stacks_parent_pick,
        );
        let ghost linked = block;
        let last = stacks_blocks.len() - 1;
        block.confirms.push(stacks_blocks[last].block_hash);
        assert(self.stacks_parent(block, seed.stacks_blocks@[0], seed.stacks_parent_pick)
            == self.stacks_parent(linked, seed.stacks_blocks@[0], seed.stacks_parent_pick));

        let deposit_data = DepositData::generate(
            signer_keys,
            &block,
            seed.deposits,
            params.num_signers_per_request,
        );
        let withdraw_data = WithdrawData::generate(
            signer_keys,
            &stacks_blocks,
            &self.withdraw_requests,
            seed.withdrawals,
            params.num_signers_per_request,
        );
        let mut transactions = deposit_data.transactions;
        let mut withdraw_transactions = withdraw_data.transactions;
        let ghost deposit_txs = transactions@;
        transactions.append(&mut withdraw_transactions);
        assert forall|k: int| 0 <= k < deposit_txs.len() implies transactions@[k] == deposit_txs[k] by {}

        let block_ref = BitcoinBlockRef::summarize(&block);
        let mut bitcoin_blocks: Vec<BitcoinBlock> = Vec::new();
        bitcoin_blocks.push(block);
        (
            TestData {
                bitcoin_blocks,
                stacks_blocks,
                deposit_requests: deposit_data.deposit_requests,
                deposit_signers: deposit_data.deposit_signers,
                withdraw_requests: withdraw_data.withdraw_requests,
                withdraw_signers: withdraw_data.withdraw_signers,
                bitcoin_transactions: deposit_data.bitcoin_transactions,
                stacks_transactions: withdraw_data.stacks_transactions,
                transactions,
            },
            block_ref,
        )
    }

    /// Generate test data of `seeds.len()` bitcoin blocks, each on top of
    /// a block generated before it, or of a stand-in parent for the first.
    pub fn generate(signer_keys: &Vec<PublicKey>, params: &Params, seeds: Vec<BlockSeed>) -> (r: Self)
        requires
            seeds@.len() == params.num_bitcoin_blocks,
            forall|i: int|
                0 <= i < seeds@.len() ==> seed_fits(#[trigger] seeds@[i], *params, signer_keys@),
        ensures
            r.bitcoin_blocks@.len() == seeds@.len(),
            forall|i: int|
                0 <= i < r.bitcoin_blocks@.len() ==> (#[trigger] r.bitcoin_blocks@[i]).block_hash
                    == seeds@[i].block.block_hash,
            forall|i: int|
                0 < i < r.bitcoin_blocks@.len() ==> {
                    let parent = r.bitcoin_blocks@[seeds@[i].parent_pick as int % i];
                    &&& (#[trigger] r.bitcoin_blocks@[i]).parent_hash == parent.block_hash
                    &&& r.bitcoin_blocks@[i].block_height == next_height(parent.block_height)
                },
            seeds@.len() > 0 ==> {
                &&& r.bitcoin_blocks@[0].parent_hash == seeds@[0].block.parent_hash
                &&& r.bitcoin_blocks@[0].block_height == HALLUCINATED_PARENT_HEIGHT + 1
            },
            r.stacks_blocks@.len() == seeds@.len() * stacks_per_block(*params),
            r.deposit_requests@.len() == seeds@.len() * params.num_deposit_requests_per_block,
            r.withdraw_requests@.len() == seeds@.len() * params.num_withdraw_requests_per_block,
            numbered_from_one(r.withdraw_requests@),
    {
        let ghost orig = seeds@;
        let mut seeds = seeds;
        let mut test_data = TestData::new();
        let ghost mut i: int = 0;
        while seeds.len() > 0
            invariant
                0 <= i <= orig.len(),
                seeds@ == orig.skip(i),
                forall|j: int| 0 <= j < orig.len() ==> seed_fits(#[trigger] orig[j], *params, signer_keys@),
                test_data.bitcoin_blocks@.len() == i,
                forall|j: int|
                    0 <= j < i ==> (#[trigger] test_data.bitcoin_blocks@[j]).block_hash
                        == orig[j].block.block_hash,
                i > 0 ==> {
                    &&& test_data.bitcoin_blocks@[0].parent_hash == orig[0].block.parent_hash
                    &&& test_data.bitcoin_blocks@[0].block_height == HALLUCINATED_PARENT_HEIGHT + 1
                },
                test_data.stacks_blocks@.len() == i * stacks_per_block(*params),
                test_data.deposit_requests@.len() == i * params.num_deposit_requests_per_block,
                test_data.withdraw_requests@.len() == i * params.num_withdraw_requests_per_block,
                numbered_from_one(test_data.withdraw_requests@),
                forall|j: int|
                    0 < j < i ==> {
                        let parent = test_data.bitcoin_blocks@[orig[j].parent_pick as int % j];
                        &&& (#[trigger] test_data.bitcoin_blocks@[j]).parent_hash == parent.block_hash
                        &&& test_data.bitcoin_blocks@[j].block_height == next_height(
                            parent.block_height,
                        )
                    },
            decreases seeds@.len(),
        {
            let seed = seeds.remove(0);
            assert(seed == orig[i]);
            let (next_chunk, _) = test_data.new_block(signer_keys, params, None, seed);
            let ghost before = test_data.bitcoin_blocks@;
            let ghost requests_before = test_data.withdraw_requests@;
            let ghost chunk = next_chunk;
            proof {
                lemma_max_of_numbered(requests_before);
            }
            test_data.push(next_chunk);
            let total_requests = test_data.withdraw_requests.len();
            assert forall|j: int| 0 <= j < i implies test_data.bitcoin_blocks@[j] == before[j] by {}
            assert forall|k: int|
                0 <= k < test_data.withdraw_requests@.len() implies (
                #[trigger] test_data.withdraw_requests@[k]).request_id == k + 1 by {
                if k < requests_before.len() {
                    assert(test_data.withdraw_requests@[k] == requests_before[k]);
                } else {
                    let m = requests_before.len();
                    assert(test_data.withdraw_requests@[k] == chunk.withdraw_requests@[k - m]);
                    assert(m + 1 + (k - m) <= u64::MAX);
                }
            }
            assert((i + 1) * stacks_per_block(*params) == i * stacks_per_block(*params)
                + stacks_per_block(*params)) by (nonlinear_arith);
            assert((i + 1) * params.num_deposit_requests_per_block == i
                * params.num_deposit_requests_per_block + params.num_deposit_requests_per_block)
                by (nonlinear_arith);
            assert((i + 1) * params.num_withdraw_requests_per_block == i
                * params.num_withdraw_requests_per_block + params.num_withdraw_requests_per_block)
                by (nonlinear_arith);
            proof {
                i = i + 1;
            }
            assert(seeds@ =~= orig.skip(i));
        }
        test_data
    }
}

} // verus!
