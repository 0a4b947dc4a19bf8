use bitcoin::OutPoint;
use bitcoin::Txid;
use signer::model::BitcoinBlockHash;
use signer::model::PublicKey;
use signer::sweep::validate_deposits;
use signer::sweep::StepOutcome;
use signer::sweep::TxValidation;
use signer::sweep::TxValidationAction;
use signer::sweep::TxValidationError;
use signer::sweep::ValidationStage;
use signer::validation::BitcoinDepositInputError;
use signer::validation::BitcoinSweepErrorMsg;
use signer::validation::BitcoinTxContext;
use signer::validation::DepositRequestReport;
use signer::validation::DepositRequestStatus;
use signer::validation::LockTime;

fn outpoint(n: u8) -> OutPoint {
    OutPoint { txid: <Txid as bitcoin::hashes::Hash>::from_byte_array([n; 32]), vout: n as u32 }
}

fn good_report(n: u8, amount: u64) -> DepositRequestReport {
    DepositRequestReport {
        outpoint: outpoint(n),
        status: DepositRequestStatus::Confirmed(10, BitcoinBlockHash::from([1; 32])),
        can_sign: Some(true),
        is_accepted: Some(true),
        amount,
        lock_time: LockTime::from_height(100),
    }
}

fn at_deposits(signer_amount: u64) -> TxValidation {
    let mut state = TxValidation::new(20);
    let action = state.step::<String>(StepOutcome::SignerInput(Ok(signer_amount)));
    assert_eq!(action, TxValidationAction::ReportDeposits);
    state
}

#[test]
fn whole_validation_in_order() {
    let mut state = TxValidation::new(20);
    assert_eq!(state.request::<String>(), TxValidationAction::ValidateSignerInput);
    let action = state.step::<String>(StepOutcome::SignerInput(Ok(1_000)));
    assert_eq!(action, TxValidationAction::ReportDeposits);
    let reports = vec![good_report(1, 200), good_report(2, 300)];
    let action = state.step::<String>(StepOutcome::Deposits(reports));
    assert_eq!(action, TxValidationAction::ValidateSignerOutputs);
    assert_eq!(state.input_amount, 1_500);
    let action = state.step::<String>(StepOutcome::SignerOutputs(Ok(())));
    assert_eq!(action, TxValidationAction::ValidateWithdrawals);
    let action = state.step::<String>(StepOutcome::Withdrawals(Ok(())));
    assert_eq!(action, TxValidationAction::ValidateFees(1_500));
    assert!(!state.is_finished());
    let action = state.step::<String>(StepOutcome::Fees(Ok(())));
    assert_eq!(action, TxValidationAction::Finish(Ok(())));
    assert!(state.is_finished());
}

#[test]
fn failing_deposit_stops_at_deposit_step() {
    let mut state = at_deposits(1_000);
    let mut spent = good_report(2, 300);
    spent.status = DepositRequestStatus::Spent(signer::model::BitcoinTxId::from([1; 32]));
    let mut unvoted = good_report(3, 300);
    unvoted.can_sign = None;
    let reports = vec![good_report(1, 200), spent, unvoted];
    let action = state.step::<String>(StepOutcome::Deposits(reports));
    assert_eq!(
        action,
        TxValidationAction::Finish(Err(TxValidationError::Sweep(BitcoinSweepErrorMsg::Deposit(
            BitcoinDepositInputError::DepositUtxoSpent(
                outpoint(2),
                signer::model::BitcoinTxId::from([1; 32])
            )
        ))))
    );
    assert_eq!(state.stage, ValidationStage::Finished);
}

#[test]
fn failing_step_error_is_returned() {
    let mut state = TxValidation::new(5);
    let action = state.step(StepOutcome::SignerInput(Err("bad signer input".to_string())));
    assert_eq!(
        action,
        TxValidationAction::Finish(Err(TxValidationError::Step("bad signer input".to_string())))
    );
    let mut state = at_deposits(0);
    state.step::<String>(StepOutcome::Deposits(vec![]));
    state.step::<String>(StepOutcome::SignerOutputs(Ok(())));
    let action = state.step(StepOutcome::Withdrawals(Err("unknown request".to_string())));
    assert_eq!(
        action,
        TxValidationAction::Finish(Err(TxValidationError::Step("unknown request".to_string())))
    );
}

#[test]
fn fees_step_failure() {
    let mut state = at_deposits(7);
    state.step::<u32>(StepOutcome::Deposits(vec![good_report(1, 3)]));
    state.step::<u32>(StepOutcome::SignerOutputs(Ok(())));
    assert_eq!(
        state.step::<u32>(StepOutcome::Withdrawals(Ok(()))),
        TxValidationAction::ValidateFees(10)
    );
    assert_eq!(
        state.step(StepOutcome::Fees(Err(42u32))),
        TxValidationAction::Finish(Err(TxValidationError::Step(42)))
    );
}

#[test]
fn input_amount_overflow() {
    let mut state = at_deposits(u64::MAX);
    let action = state.step::<String>(StepOutcome::Deposits(vec![good_report(1, 1)]));
    assert_eq!(action, TxValidationAction::Finish(Err(TxValidationError::AmountOverflow)));
}

#[test]
fn unexpected_outcome_changes_nothing() {
    let mut state = TxValidation::new(9);
    let before = state;
    let action = state.step::<String>(StepOutcome::Fees(Ok(())));
    assert_eq!(action, TxValidationAction::ValidateSignerInput);
    assert_eq!(state, before);
}

#[test]
fn deposit_amounts_add_up() {
    let reports = vec![good_report(1, 5), good_report(2, 6), good_report(3, 7)];
    assert_eq!(validate_deposits::<String>(&reports, 20), Ok(18));
    assert_eq!(validate_deposits::<String>(&vec![], 20), Ok(0));
    let too_much = vec![good_report(1, u64::MAX), good_report(2, 1)];
    assert_eq!(validate_deposits::<String>(&too_much, 20), Err(TxValidationError::AmountOverflow));
}

#[test]
fn context_starts_at_signer_input() {
    let tx = bitcoin::Transaction {
        version: bitcoin::transaction::Version::TWO,
        lock_time: bitcoin::absolute::LockTime::ZERO,
        input: vec![],
        output: vec![],
    };
    let context = BitcoinTxContext {
        chain_tip: BitcoinBlockHash::from([3; 32]),
        chain_tip_height: 77,
        tx,
        request_ids: vec![],
        origin: PublicKey([2; 33]),
    };
    let state = context.start_validation();
    assert_eq!(state.stage, ValidationStage::SignerInput);
    assert_eq!(state.chain_tip_height, 77);
}
