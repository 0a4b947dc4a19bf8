use signer::model::BitcoinBlock;
use signer::model::BitcoinBlockHash;
use signer::model::BitcoinBlockRef;
use signer::model::BitcoinTxId;
use signer::model::BitcoinTxRef;
use signer::model::StacksBlock;
use signer::model::StacksBlockHash;
use signer::model::StacksBlockSummary;
use signer::test_data::vec_diff;
use signer::test_data::TestData;
use signer::test_data::HALLUCINATED_PARENT_HEIGHT;

fn block(n: u8, height: u64) -> BitcoinBlock {
    BitcoinBlock {
        block_hash: BitcoinBlockHash([n; 32]),
        block_height: height,
        parent_hash: BitcoinBlockHash([n.wrapping_sub(1); 32]),
        confirms: vec![StacksBlockHash([n; 32])],
    }
}

fn tx_ref(n: u8) -> BitcoinTxRef {
    BitcoinTxRef { txid: BitcoinTxId([n; 32]), block_hash: BitcoinBlockHash([n; 32]) }
}

#[test]
fn push_appends_in_order() {
    let mut data = TestData::new();
    let mut first = TestData::new();
    first.bitcoin_blocks.push(block(1, 1));
    first.bitcoin_transactions.push(tx_ref(1));
    let mut second = TestData::new();
    second.bitcoin_blocks.push(block(2, 2));
    data.push(first);
    data.push(second);
    assert_eq!(data.bitcoin_blocks, vec![block(1, 1), block(2, 2)]);
    assert_eq!(data.bitcoin_transactions, vec![tx_ref(1)]);
    assert!(data.stacks_blocks.is_empty());
}

#[test]
fn remove_drops_matching_records() {
    let mut data = TestData::new();
    data.bitcoin_blocks = vec![block(1, 1), block(2, 2), block(3, 3), block(2, 2)];
    data.bitcoin_transactions = vec![tx_ref(1), tx_ref(2)];
    let mut other = TestData::new();
    other.bitcoin_blocks = vec![block(2, 2), block(9, 9)];
    other.bitcoin_transactions = vec![tx_ref(1)];
    data.remove(other);
    assert_eq!(data.bitcoin_blocks, vec![block(1, 1), block(3, 3)]);
    assert_eq!(data.bitcoin_transactions, vec![tx_ref(2)]);
}

#[test]
fn push_then_remove_restores() {
    let mut data = TestData::new();
    data.bitcoin_blocks = vec![block(1, 1)];
    let mut extra = TestData::new();
    extra.bitcoin_blocks = vec![block(2, 2)];
    data.push(extra.clone());
    data.remove(extra);
    assert_eq!(data.bitcoin_blocks, vec![block(1, 1)]);
}

#[test]
fn vec_diff_keeps_order() {
    let mut items = vec![5u32, 1, 4, 1, 3];
    vec_diff(&mut items, &[1, 3]);
    assert_eq!(items, vec![5, 4]);
    let mut none: Vec<u32> = vec![];
    vec_diff(&mut none, &[1]);
    assert!(none.is_empty());
}

#[test]
fn get_bitcoin_block_finds_first_match() {
    let mut data = TestData::new();
    let mut later = block(2, 20);
    later.block_height = 21;
    data.bitcoin_blocks = vec![block(1, 10), block(2, 20), later];
    assert_eq!(data.get_bitcoin_block(&BitcoinBlockHash([2; 32])), Some(block(2, 20)));
    assert_eq!(data.get_bitcoin_block(&BitcoinBlockHash([8; 32])), None);
}

#[test]
fn summaries_and_hallucinated_parents() {
    let b = block(4, 40);
    let summary = BitcoinBlockRef::summarize(&b);
    assert_eq!(summary.block_hash, BitcoinBlockHash([4; 32]));
    assert_eq!(summary.block_height, 40);
    let parent = BitcoinBlockRef::hallucinate_parent(&b);
    assert_eq!(parent.block_hash, BitcoinBlockHash([3; 32]));
    assert_eq!(parent.block_height, HALLUCINATED_PARENT_HEIGHT);
    assert_eq!(HALLUCINATED_PARENT_HEIGHT, 1337);

    let s = StacksBlock {
        block_hash: StacksBlockHash([6; 32]),
        block_height: 60,
        parent_hash: StacksBlockHash([5; 32]),
    };
    let summary = StacksBlockSummary::summarize(&s);
    assert_eq!(summary.block_hash, StacksBlockHash([6; 32]));
    assert_eq!(summary.block_height, 60);
    let parent = StacksBlockSummary::hallucinate_parent(&s);
    assert_eq!(parent.block_hash, StacksBlockHash([5; 32]));
    assert_eq!(parent.block_height, 1337);
}

#[test]
fn push_bitcoin_txs_records_encoding_and_id() {
    let tx = bitcoin::Transaction {
        version: bitcoin::transaction::Version::TWO,
        lock_time: bitcoin::absolute::LockTime::ZERO,
        input: vec![],
        output: vec![bitcoin::TxOut {
            value: bitcoin::Amount::from_sat(5_000),
            script_pubkey: bitcoin::ScriptBuf::new(),
        }],
    };
    let expected_txid = <bitcoin::Txid as bitcoin::hashes::Hash>::to_byte_array(tx.compute_txid());
    let expected_bytes = bitcoin::consensus::encode::serialize(&tx);
    let block = BitcoinBlockRef { block_hash: BitcoinBlockHash([5; 32]), block_height: 5 };
    let mut data = TestData::new();
    data.push_bitcoin_txs(
        &block,
        vec![(signer::model::TransactionType::SbtcTransaction, tx)],
    );
    assert_eq!(data.transactions.len(), 1);
    assert_eq!(data.transactions[0].txid, expected_txid);
    assert_eq!(data.transactions[0].tx, expected_bytes);
    assert!(!data.transactions[0].tx.is_empty());
    assert_eq!(data.transactions[0].block_hash, [5; 32]);
    assert_eq!(data.bitcoin_transactions, vec![BitcoinTxRef {
        txid: BitcoinTxId(expected_txid),
        block_hash: BitcoinBlockHash([5; 32]),
    }]);
    assert!(data.bitcoin_blocks.is_empty());
}
