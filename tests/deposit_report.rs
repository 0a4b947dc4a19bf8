use bitcoin::OutPoint;
use signer::model::BitcoinBlockHash;
use signer::model::BitcoinTxId;
use signer::validation::BitcoinDepositInputError;
use signer::validation::BitcoinSweepErrorMsg;
use signer::validation::DepositRequestReport;
use signer::validation::DepositRequestStatus;
use signer::validation::LockTime;
use signer::DEPOSIT_LOCKTIME_BLOCK_BUFFER;

fn confirmed_report(lock_time: LockTime) -> DepositRequestReport {
    DepositRequestReport {
        status: DepositRequestStatus::Confirmed(0, BitcoinBlockHash::from([0; 32])),
        can_sign: Some(true),
        is_accepted: Some(true),
        amount: 0,
        lock_time,
        outpoint: OutPoint::null(),
    }
}

#[test]
fn deposit_reorged() {
    let report = DepositRequestReport {
        status: DepositRequestStatus::Unconfirmed,
        ..confirmed_report(LockTime::from_height(u16::MAX))
    };
    let error = report.validate(2).unwrap_err();
    assert_eq!(error, BitcoinDepositInputError::TxNotOnBestChain(OutPoint::null()));
}

#[test]
fn deposit_spent() {
    let report = DepositRequestReport {
        status: DepositRequestStatus::Spent(BitcoinTxId::from([1; 32])),
        ..confirmed_report(LockTime::from_height(u16::MAX))
    };
    let error = report.validate(2).unwrap_err();
    assert_eq!(
        error,
        BitcoinDepositInputError::DepositUtxoSpent(OutPoint::null(), BitcoinTxId::from([1; 32]))
    );
}

#[test]
fn deposit_no_vote() {
    let report = DepositRequestReport {
        can_sign: None,
        ..confirmed_report(LockTime::from_height(u16::MAX))
    };
    let error = report.validate(2).unwrap_err();
    assert_eq!(error, BitcoinDepositInputError::NoVote(OutPoint::null()));
}

#[test]
fn cannot_sign_for_deposit() {
    let report = DepositRequestReport {
        can_sign: Some(false),
        ..confirmed_report(LockTime::from_height(u16::MAX))
    };
    let error = report.validate(2).unwrap_err();
    assert_eq!(error, BitcoinDepositInputError::CannotSignUtxo(OutPoint::null()));
}

#[test]
fn rejected_deposit() {
    let report = DepositRequestReport {
        is_accepted: Some(false),
        ..confirmed_report(LockTime::from_height(u16::MAX))
    };
    let error = report.validate(2).unwrap_err();
    assert_eq!(error, BitcoinDepositInputError::RejectedRequest(OutPoint::null()));
}

#[test]
fn missing_acceptance_is_a_rejection() {
    let report = DepositRequestReport {
        is_accepted: None,
        ..confirmed_report(LockTime::from_height(u16::MAX))
    };
    let error = report.validate(2).unwrap_err();
    assert_eq!(error, BitcoinDepositInputError::RejectedRequest(OutPoint::null()));
}

#[test]
fn lock_time_expires_soon_1() {
    let report = confirmed_report(LockTime::from_height(DEPOSIT_LOCKTIME_BLOCK_BUFFER + 1));
    let error = report.validate(2).unwrap_err();
    assert_eq!(error, BitcoinDepositInputError::LockTimeExpiry(OutPoint::null()));
}

#[test]
fn lock_time_expires_soon_2() {
    let report = confirmed_report(LockTime::from_height(DEPOSIT_LOCKTIME_BLOCK_BUFFER + 2));
    let error = report.validate(2).unwrap_err();
    assert_eq!(error, BitcoinDepositInputError::LockTimeExpiry(OutPoint::null()));
}

#[test]
fn lock_time_in_time_units_2() {
    let report = confirmed_report(LockTime::from_512_second_intervals(u16::MAX));
    let error = report.validate(2).unwrap_err();
    assert_eq!(error, BitcoinDepositInputError::UnsupportedLockTime(OutPoint::null()));
}

#[test]
fn happy_path() {
    let report = confirmed_report(LockTime::from_height(DEPOSIT_LOCKTIME_BLOCK_BUFFER + 3));
    report.validate(2).unwrap();
}

#[test]
fn lock_time_boundary_at_other_heights() {
    // Confirmed at 100, lock-time of 10 blocks: the greatest allowed age is 6.
    let report = DepositRequestReport {
        status: DepositRequestStatus::Confirmed(100, BitcoinBlockHash::from([7; 32])),
        ..confirmed_report(LockTime::from_height(10))
    };
    assert_eq!(report.validate(106), Ok(()));
    assert_eq!(
        report.validate(107),
        Err(BitcoinDepositInputError::LockTimeExpiry(OutPoint::null()))
    );
    assert_eq!(
        report.validate(500),
        Err(BitcoinDepositInputError::LockTimeExpiry(OutPoint::null()))
    );
}

#[test]
fn tip_below_confirmation_counts_as_age_zero() {
    let report = DepositRequestReport {
        status: DepositRequestStatus::Confirmed(50, BitcoinBlockHash::from([7; 32])),
        ..confirmed_report(LockTime::from_height(DEPOSIT_LOCKTIME_BLOCK_BUFFER + 1))
    };
    assert_eq!(report.validate(10), Ok(()));
}

#[test]
fn lock_time_within_buffer_is_always_refused() {
    for blocks in 0..=DEPOSIT_LOCKTIME_BLOCK_BUFFER {
        let report = confirmed_report(LockTime::from_height(blocks));
        assert_eq!(
            report.validate(0),
            Err(BitcoinDepositInputError::LockTimeExpiry(OutPoint::null()))
        );
    }
}

#[test]
fn time_lock_refused_at_any_age() {
    let report = confirmed_report(LockTime::from_512_second_intervals(1));
    for tip in [0u64, 1, 2, 1000, u64::MAX] {
        assert_eq!(
            report.validate(tip),
            Err(BitcoinDepositInputError::UnsupportedLockTime(OutPoint::null()))
        );
    }
}

#[test]
fn unconfirmed_wins_over_every_other_field() {
    let report = DepositRequestReport {
        status: DepositRequestStatus::Unconfirmed,
        can_sign: None,
        is_accepted: Some(false),
        amount: 5,
        lock_time: LockTime::from_512_second_intervals(3),
        outpoint: OutPoint::null(),
    };
    assert_eq!(
        report.validate(0),
        Err(BitcoinDepositInputError::TxNotOnBestChain(OutPoint::null()))
    );
}

#[test]
fn validation_is_repeatable() {
    let report = confirmed_report(LockTime::from_height(DEPOSIT_LOCKTIME_BLOCK_BUFFER + 1));
    assert_eq!(report.validate(2), report.validate(2));
    let report = confirmed_report(LockTime::from_height(DEPOSIT_LOCKTIME_BLOCK_BUFFER + 3));
    assert_eq!(report.validate(2), report.validate(2));
}

#[test]
fn deposit_error_converts_to_sweep_error() {
    let err = BitcoinDepositInputError::NoVote(OutPoint::null());
    assert_eq!(BitcoinSweepErrorMsg::from(err), BitcoinSweepErrorMsg::Deposit(err));
}
