use signer::generation::BlockSeed;
use signer::generation::DepositData;
use signer::generation::DepositSeed;
use signer::generation::WithdrawData;
use signer::generation::WithdrawalSeed;
use signer::model::BitcoinBlock;
use signer::model::BitcoinBlockHash;
use signer::model::BitcoinBlockRef;
use signer::model::BitcoinTxId;
use signer::model::DepositRequest;
use signer::model::PublicKey;
use signer::model::RawTransaction;
use signer::model::StacksBlock;
use signer::model::StacksBlockHash;
use signer::model::StacksTxId;
use signer::model::TransactionType;
use signer::model::WithdrawalRequest;
use signer::test_data::Params;
use signer::test_data::TestData;

fn keys() -> Vec<PublicKey> {
    vec![PublicKey([1; 33]), PublicKey([2; 33]), PublicKey([3; 33])]
}

fn raw(n: u8) -> RawTransaction {
    RawTransaction {
        txid: [n; 32],
        tx: vec![n, n],
        tx_type: TransactionType::DepositRequest,
        block_hash: [0; 32],
    }
}

fn deposit_seed(n: u8) -> DepositSeed {
    DepositSeed {
        request: DepositRequest {
            txid: BitcoinTxId([99; 32]),
            output_index: n as u32,
            spend_script: vec![1],
            reclaim_script: vec![2],
            recipient: vec![3],
            amount: 1000 * n as u64,
            max_fee: 10,
        },
        transaction: raw(n),
        votes: vec![true, false, true],
    }
}

fn withdrawal_seed(n: u8, pick: usize) -> WithdrawalSeed {
    WithdrawalSeed {
        request: WithdrawalRequest {
            request_id: 0,
            txid: StacksTxId([n; 32]),
            block_hash: StacksBlockHash([0; 32]),
            recipient: vec![n],
            amount: 500,
            max_fee: 20,
        },
        transaction: raw(n),
        block_pick: pick,
        votes: vec![false, true, true],
    }
}

fn bitcoin_block(n: u8) -> BitcoinBlock {
    BitcoinBlock {
        block_hash: BitcoinBlockHash([n; 32]),
        block_height: 0,
        parent_hash: BitcoinBlockHash([n.wrapping_add(100); 32]),
        confirms: vec![],
    }
}

fn stacks_block(n: u8) -> StacksBlock {
    StacksBlock {
        block_hash: StacksBlockHash([n; 32]),
        block_height: 0,
        parent_hash: StacksBlockHash([0; 32]),
    }
}

fn params(blocks: usize) -> Params {
    Params {
        num_bitcoin_blocks: blocks,
        num_stacks_blocks_per_bitcoin_block: 2,
        num_deposit_requests_per_block: 1,
        num_withdraw_requests_per_block: 1,
        num_signers_per_request: 2,
    }
}

fn block_seed(n: u8, pick: usize) -> BlockSeed {
    BlockSeed {
        block: bitcoin_block(n),
        parent_pick: pick,
        stacks_blocks: vec![stacks_block(n), stacks_block(n + 50)],
        stacks_parent_pick: 0,
        deposits: vec![deposit_seed(n)],
        withdrawals: vec![withdrawal_seed(n, 1)],
    }
}

#[test]
fn deposit_data_ties_records_to_block() {
    let block = bitcoin_block(7);
    let data = DepositData::generate(&keys(), &block, vec![deposit_seed(1), deposit_seed(2)], 2);
    assert_eq!(data.deposit_requests.len(), 2);
    assert_eq!(data.deposit_requests[1].txid, BitcoinTxId([2; 32]));
    assert_eq!(data.transactions[0].block_hash, [7; 32]);
    assert_eq!(data.bitcoin_transactions[1].block_hash, BitcoinBlockHash([7; 32]));
    assert_eq!(data.deposit_signers.len(), 4);
    assert_eq!(data.deposit_signers[3].signer_pub_key, PublicKey([2; 33]));
    assert!(!data.deposit_signers[3].is_accepted);
    assert_eq!(data.deposit_signers[2].output_index, 2);
    assert!(DepositData::new().deposit_requests.is_empty());
}

#[test]
fn withdraw_data_numbers_requests() {
    let existing = vec![
        WithdrawalRequest { request_id: 41, ..withdrawal_seed(1, 0).request },
        WithdrawalRequest { request_id: 7, ..withdrawal_seed(2, 0).request },
    ];
    let stacks = vec![stacks_block(10), stacks_block(11)];
    let data = WithdrawData::generate(
        &keys(),
        &stacks,
        &existing,
        vec![withdrawal_seed(3, 0), withdrawal_seed(4, 3)],
        5,
    );
    assert_eq!(data.withdraw_requests[0].request_id, 42);
    assert_eq!(data.withdraw_requests[1].request_id, 43);
    assert_eq!(data.withdraw_requests[0].block_hash, StacksBlockHash([10; 32]));
    assert_eq!(data.withdraw_requests[1].block_hash, StacksBlockHash([11; 32]));
    assert_eq!(data.transactions[0].tx_type, TransactionType::WithdrawRequest);
    assert_eq!(data.stacks_transactions[1].txid, StacksTxId([4; 32]));
    assert_eq!(data.withdraw_signers.len(), 6);
    assert_eq!(data.withdraw_signers[4].request_id, 43);
    assert!(WithdrawData::new().withdraw_requests.is_empty());
}

#[test]
fn new_block_links_to_given_parent() {
    let data = TestData::new();
    let parent = BitcoinBlockRef { block_hash: BitcoinBlockHash([9; 32]), block_height: 100 };
    let (chunk, block_ref) = data.new_block(&keys(), &params(1), Some(&parent), block_seed(1, 0));
    assert_eq!(chunk.bitcoin_blocks.len(), 1);
    let block = &chunk.bitcoin_blocks[0];
    assert_eq!(block.parent_hash, BitcoinBlockHash([9; 32]));
    assert_eq!(block.block_height, 101);
    assert_eq!(block_ref.block_height, 101);
    assert_eq!(block.confirms, vec![StacksBlockHash([51; 32])]);
    assert_eq!(chunk.stacks_blocks[0].block_height, 1338);
    assert_eq!(chunk.stacks_blocks[1].parent_hash, StacksBlockHash([1; 32]));
    assert_eq!(chunk.stacks_blocks[1].block_height, 1339);
    assert_eq!(chunk.transactions.len(), 2);
    assert_eq!(chunk.withdraw_requests[0].request_id, 1);
}

#[test]
fn generate_chains_blocks() {
    let seeds = vec![block_seed(1, 0), block_seed(2, 0), block_seed(3, 1)];
    let data = TestData::generate(&keys(), &params(3), seeds);
    assert_eq!(data.bitcoin_blocks.len(), 3);
    assert_eq!(data.bitcoin_blocks[0].block_height, 1338);
    assert_eq!(data.bitcoin_blocks[1].parent_hash, BitcoinBlockHash([1; 32]));
    assert_eq!(data.bitcoin_blocks[1].block_height, 1339);
    assert_eq!(data.bitcoin_blocks[2].parent_hash, BitcoinBlockHash([2; 32]));
    assert_eq!(data.bitcoin_blocks[2].block_height, 1340);
    // The second block's stacks blocks continue those its parent anchors.
    assert_eq!(data.stacks_blocks[2].parent_hash, StacksBlockHash([51; 32]));
    assert_eq!(data.withdraw_requests.len(), 3);
    assert_eq!(data.withdraw_requests[2].request_id, 3);
    assert_eq!(data.deposit_signers.len(), 6);
}

#[test]
fn generate_counts_ids_and_first_height() {
    let seeds = vec![block_seed(1, 0), block_seed(2, 0), block_seed(3, 1), block_seed(4, 7)];
    let data = TestData::generate(&keys(), &params(4), seeds);
    assert_eq!(data.bitcoin_blocks.len(), 4);
    assert_eq!(data.stacks_blocks.len(), 8);
    assert_eq!(data.deposit_requests.len(), 4);
    assert_eq!(data.withdraw_requests.len(), 4);
    for (k, req) in data.withdraw_requests.iter().enumerate() {
        assert_eq!(req.request_id, k as u64 + 1);
    }
    assert_eq!(data.bitcoin_blocks[0].block_height, 1338);
    assert_eq!(data.bitcoin_blocks[0].parent_hash, BitcoinBlockHash([101; 32]));
}

#[test]
fn new_block_stacks_heights_climb() {
    let data = TestData::new();
    let mut seed = block_seed(1, 0);
    seed.stacks_blocks = vec![stacks_block(1), stacks_block(2), stacks_block(3)];
    let mut p = params(1);
    p.num_stacks_blocks_per_bitcoin_block = 3;
    let (chunk, _) = data.new_block(&keys(), &p, None, seed);
    let heights: Vec<u64> = chunk.stacks_blocks.iter().map(|b| b.block_height).collect();
    assert_eq!(heights, vec![1338, 1339, 1340]);
    assert_eq!(chunk.stacks_blocks[2].parent_hash, StacksBlockHash([2; 32]));
    assert_eq!(chunk.bitcoin_blocks[0].confirms.last(), Some(&StacksBlockHash([3; 32])));
}
