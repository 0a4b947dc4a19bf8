use signer::sweep::assess_deposit_fees;
use signer::validation::BitcoinDepositInputError;
use signer::model::BitcoinBlockHash;
use signer::model::PublicKey;
use signer::sweep::first_fee_violation;
use signer::sweep::implied_fee;
use signer::validation::BitcoinTxContext;

#[test]
fn implied_fee_is_inputs_minus_outputs() {
    assert_eq!(implied_fee(1_000, &vec![300, 200]), Some(500));
    assert_eq!(implied_fee(500, &vec![300, 200]), Some(0));
    assert_eq!(implied_fee(499, &vec![300, 200]), None);
    assert_eq!(implied_fee(7, &vec![]), Some(7));
    assert_eq!(implied_fee(u64::MAX, &vec![u64::MAX, 1]), None);
}

#[test]
fn fee_shares_split_equally_rounding_up() {
    // 10 split over 3 requests: each bears 4.
    assert_eq!(first_fee_violation(10, &vec![4, 4, 4]), None);
    assert_eq!(first_fee_violation(10, &vec![5, 3, 2]), Some(1));
    // 9 split over 3 requests: each bears 3.
    assert_eq!(first_fee_violation(9, &vec![3, 3, 3]), None);
    assert_eq!(first_fee_violation(9, &vec![3, 3, 2]), Some(2));
    assert_eq!(first_fee_violation(u64::MAX, &vec![]), None);
    assert_eq!(first_fee_violation(u64::MAX, &vec![u64::MAX]), None);
    assert_eq!(first_fee_violation(u64::MAX, &vec![u64::MAX - 1]), Some(0));
    assert_eq!(first_fee_violation(0, &vec![0, 0]), None);
}

#[test]
fn context_fee_reads_transaction_outputs() {
    let output = |sats: u64| bitcoin::TxOut {
        value: bitcoin::Amount::from_sat(sats),
        script_pubkey: bitcoin::ScriptBuf::new(),
    };
    let tx = bitcoin::Transaction {
        version: bitcoin::transaction::Version::TWO,
        lock_time: bitcoin::absolute::LockTime::ZERO,
        input: vec![],
        output: vec![output(600), output(0), output(150)],
    };
    let context = BitcoinTxContext {
        chain_tip: BitcoinBlockHash::from([3; 32]),
        chain_tip_height: 77,
        tx,
        request_ids: vec![],
        origin: PublicKey([2; 33]),
    };
    assert_eq!(context.implied_fee(1_000), Some(250));
    assert_eq!(context.implied_fee(700), None);
}

fn op(n: u8) -> bitcoin::OutPoint {
    bitcoin::OutPoint { txid: <bitcoin::Txid as bitcoin::hashes::Hash>::from_byte_array([n; 32]), vout: n as u32 }
}

fn context_with_outputs(values: &[u64], request_ids: usize) -> BitcoinTxContext {
    let tx = bitcoin::Transaction {
        version: bitcoin::transaction::Version::TWO,
        lock_time: bitcoin::absolute::LockTime::ZERO,
        input: vec![],
        output: values
            .iter()
            .map(|v| bitcoin::TxOut {
                value: bitcoin::Amount::from_sat(*v),
                script_pubkey: bitcoin::ScriptBuf::new(),
            })
            .collect(),
    };
    let id = signer::model::QualifiedRequestId {
        request_id: 1,
        txid: signer::model::StacksTxId([1; 32]),
        block_hash: signer::model::StacksBlockHash([1; 32]),
    };
    BitcoinTxContext {
        chain_tip: BitcoinBlockHash::from([3; 32]),
        chain_tip_height: 77,
        tx,
        request_ids: vec![id; request_ids],
        origin: PublicKey([2; 33]),
    }
}

#[test]
fn deposit_fee_over_max_fee_is_refused() {
    // A fee of 10 over two deposits and one withdrawal: each bears 4; over
    // three deposits and one withdrawal: each bears 3.
    assert_eq!(assess_deposit_fees(10, &vec![(op(1), 4), (op(2), 9)], 1), Ok(()));
    assert_eq!(
        assess_deposit_fees(10, &vec![(op(1), 4), (op(2), 2), (op(3), 0)], 1),
        Err(BitcoinDepositInputError::AssessedFeeTooHigh(op(2)))
    );
    assert_eq!(
        assess_deposit_fees(10, &vec![(op(1), 9)], 0),
        Err(BitcoinDepositInputError::AssessedFeeTooHigh(op(1)))
    );
    assert_eq!(assess_deposit_fees(10, &vec![], 5), Ok(()));
}

#[test]
fn context_fee_step_for_deposits() {
    let context = context_with_outputs(&[600, 0, 150], 1);
    // The fee is 1_000 - 750 = 250, over one deposit and one withdrawal.
    assert_eq!(context.validate_deposit_fees(1_000, &vec![(op(1), 125)], 1), Some(Ok(())));
    assert_eq!(
        context.validate_deposit_fees(1_000, &vec![(op(1), 124)], 1),
        Some(Err(BitcoinDepositInputError::AssessedFeeTooHigh(op(1))))
    );
    assert_eq!(context.validate_deposit_fees(700, &vec![(op(1), 124)], 1), None);
}

#[test]
fn request_ids_must_match_withdrawal_outputs() {
    assert!(context_with_outputs(&[600, 0, 150], 1).request_ids_match_outputs());
    assert!(context_with_outputs(&[600, 0], 0).request_ids_match_outputs());
    assert!(!context_with_outputs(&[600, 0, 150], 2).request_ids_match_outputs());
    assert!(!context_with_outputs(&[600, 0, 150], 0).request_ids_match_outputs());
    assert!(!context_with_outputs(&[600], 0).request_ids_match_outputs());
}
