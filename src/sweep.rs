//! The ordered validation of a whole sweep transaction, as a state machine.
//!
//! Each step but the deposit step reads ledger state that only the caller
//! can reach, so the caller performs the step that the machine asks for and
//! hands back its result. The machine decides what comes next: the steps run
//! in a fixed order, signer input, deposits, signer outputs, withdrawals and
//! fees, and the first failure ends the validation.
//!
//! For the fee step, `implied_fee` gives what a transaction pays, and
//! `first_fee_violation` applies the apportionment rule: the fee is split
//! equally over all requests that the transaction serves, rounded up, and a
//! request whose share exceeds its max-fee is refused.

use vstd::prelude::*;

use crate::validation::deposit_decision;
use crate::validation::BitcoinDepositInputError;
use crate::validation::BitcoinSweepErrorMsg;
use crate::validation::BitcoinTxContext;
use bitcoin::OutPoint;
use crate::validation::DepositRequestReport;

verus! {

/// Why a sweep transaction is refused. `E` is the error type of the steps
/// that the caller performs.
#[derive(Debug, PartialEq, Eq)]
pub enum TxValidationError<E> {
    /// A deposit input, or another part of the transaction, failed
    /// validation.
    Sweep(BitcoinSweepErrorMsg),
    /// The input amounts add up to more than a `u64` holds.
    AmountOverflow,
    /// A step that the caller performed failed with this error.
    Step(E),
}

/// The stage that a validation has reached.
#[derive(Debug, Clone, Copy, PartialEq, Eq, Structural)]
pub enum ValidationStage {
    /// Waiting for the validation of the signers' input.
    SignerInput,
    /// Waiting for the reports on the deposit inputs.
    Deposits,
    /// Waiting for the validation of the two signer outputs.
    SignerOutputs,
    /// Waiting for the validation of the withdrawal outputs.
    Withdrawals,
    /// Waiting for the validation of the fees.
    Fees,
    /// The validation is over; its result came with the last action.
    Finished,
}

/// The result of a step, handed back by the caller.
#[derive(Debug)]
pub enum StepOutcome<E> {
    /// The validated amount of the signers' input, or why it failed.
    SignerInput(Result<u64, E>),
    /// The reports on every deposit input, in input order.
    Deposits(Vec<DepositRequestReport>),
    /// Whether the two signer outputs are valid.
    SignerOutputs(Result<(), E>),
    /// Whether the withdrawal outputs are valid.
    Withdrawals(Result<(), E>),
    /// Whether the fees are within the requests' bounds.
    Fees(Result<(), E>),
}

/// What the caller is to do next.
#[derive(Debug, PartialEq, Eq)]
pub enum TxValidationAction<E> {
    /// Validate the signers' input and report its amount.
    ValidateSignerInput,
    /// Build a report for each deposit input.
    ReportDeposits,
    /// Validate the two signer outputs.
    ValidateSignerOutputs,
    /// Validate the withdrawal outputs against `request_ids`.
    ValidateWithdrawals,
    /// Validate the fees, given the total amount of the inputs.
    ValidateFees(u64),
    /// The validation is over, with this result.
    Finish(Result<(), TxValidationError<E>>),
}

/// The state of the validation of one sweep transaction.
#[derive(Debug, Clone, Copy, PartialEq, Eq, Structural)]
pub struct TxValidation {
    /// The stage reached.
    pub stage: ValidationStage,
    /// The height of the chain tip that deposits are judged against.
    pub chain_tip_height: u64,
    /// The validated amount of the signers' input.
    pub signer_amount: u64,
    /// The total amount of all inputs, once the deposits are validated.
    pub input_amount: u64,
}

/// The total amount of the deposits in `s`.
pub open spec fn sum_amounts(s: Seq<DepositRequestReport>) -> nat
    decreases s.len(),
{
    if s.len() == 0 {
        0
    } else {
        sum_amounts(s.drop_last()) + s.last().amount as nat
    }
}

/// Whether every deposit in `s` may be swept at a tip of height `tip`.
pub open spec fn all_eligible(s: Seq<DepositRequestReport>, tip: u64) -> bool {
    forall|i: int| 0 <= i < s.len() ==> (#[trigger] deposit_decision(s[i], tip)) is Ok
}

/// Whether `i` is the first deposit in `s` that may not be swept at a tip
/// of height `tip`.
pub open spec fn first_ineligible(s: Seq<DepositRequestReport>, tip: u64, i: int) -> bool {
    &&& 0 <= i < s.len()
    &&& deposit_decision(s[i], tip) is Err
    &&& forall|j: int| 0 <= j < i ==> (#[trigger] deposit_decision(s[j], tip)) is Ok
}

/// The result of the deposit step on the reports `s`: the first ineligible
/// deposit's error, else the total amount, unless it overflows.
pub open spec fn deposits_result_spec<E>(s: Seq<DepositRequestReport>, tip: u64, r: Result<
    u64,
    TxValidationError<E>,
>) -> bool {
    match r {
        Ok(total) => all_eligible(s, tip) && total == sum_amounts(s),
        Err(TxValidationError::Sweep(BitcoinSweepErrorMsg::Deposit(e))) => exists|i: int|
            first_ineligible(s, tip, i) && deposit_decision(s[i], tip) == Err::<
                (),
                BitcoinDepositInputError,
            >(e),
        Err(TxValidationError::AmountOverflow) => all_eligible(s, tip) && sum_amounts(s)
            > u64::MAX,
        Err(TxValidationError::Step(_)) => false,
    }
}

/// Validate every deposit report, in order, and add up their amounts.
pub fn validate_deposits<E>(reports: &Vec<DepositRequestReport>, chain_tip_height: u64) -> (r:
    Result<u64, TxValidationError<E>>)
    ensures
        deposits_result_spec(reports@, chain_tip_height, r),
{
    let mut total: u128 = 0;
    let mut i: usize = 0;
    while i < reports.len()
        invariant
            i <= reports@.len(),
            total == sum_amounts(reports@.subrange(0, i as int)),
            total <= i * 0xffff_ffff_ffff_ffff,
            forall|j: int| 0 <= j < i ==> (#[trigger] deposit_decision(reports@[j], chain_tip_height)) is Ok,
        decreases reports@.len() - i,
    {
        let report = reports[i];
        match report.validate(chain_tip_height) {
            Err(e) => {
                assert(first_ineligible(reports@, chain_tip_height, i as int));
                return Err(TxValidationError::Sweep(BitcoinSweepErrorMsg::Deposit(e)));
            },
            Ok(()) => {},
        }
        assert(reports@.subrange(0, i + 1).drop_last() =~= reports@.subrange(0, i as int));
        assert(total + report.amount <= (i + 1) * 0xffff_ffff_ffff_ffffu128) by (nonlinear_arith)
            requires
                total <= i * 0xffff_ffff_ffff_ffff,
                report.amount <= 0xffff_ffff_ffff_ffffu64,
        ;
        assert((i + 1) * 0xffff_ffff_ffff_ffff <= 0xffff_ffff_ffff_ffff * 0xffff_ffff_ffff_ffffu128)
            by (nonlinear_arith)
            requires
                i < 0xffff_ffff_ffff_ffffu64,
        ;
        total = total + report.amount as u128;
        i = i + 1;
    }
    assert(reports@.subrange(0, i as int) =~= reports@);
    if total > u64::MAX as u128 {
        Err(TxValidationError::AmountOverflow)
    } else {
        Ok(total as u64)
    }
}

/// The action that asks for the step that a validation at `s` waits for.
pub open spec fn request_of<E>(s: TxValidation) -> TxValidationAction<E> {
    match s.stage {
        ValidationStage::SignerInput => TxValidationAction::ValidateSignerInput,
        ValidationStage::Deposits => TxValidationAction::ReportDeposits,
        ValidationStage::SignerOutputs => TxValidationAction::ValidateSignerOutputs,
        ValidationStage::Withdrawals => TxValidationAction::ValidateWithdrawals,
        ValidationStage::Fees => TxValidationAction::ValidateFees(s.input_amount),
        ValidationStage::Finished => TxValidationAction::Finish(Ok(())),
    }
}

/// The position of a stage in the fixed order of the steps.
pub open spec fn stage_rank(stage: ValidationStage) -> nat {
    match stage {
        ValidationStage::SignerInput => 0,
        ValidationStage::Deposits => 1,
        ValidationStage::SignerOutputs => 2,
        ValidationStage::Withdrawals => 3,
        ValidationStage::Fees => 4,
        ValidationStage::Finished => 5,
    }
}

/// The validation ends, at `post`, with the error `e`.
pub open spec fn fails_with<E>(
    pre: TxValidation,
    post: TxValidation,
    r: TxValidationAction<E>,
    e: TxValidationError<E>,
) -> bool {
    &&& post == TxValidation { stage: ValidationStage::Finished, ..pre }
    &&& r == TxValidationAction::<E>::Finish(Err(e))
}

/// The validation goes on, at `post`, to the stage `next`.
pub open spec fn advances<E>(
    pre: TxValidation,
    post: TxValidation,
    r: TxValidationAction<E>,
    next: ValidationStage,
) -> bool {
    &&& post == TxValidation { stage: next, ..pre }
    &&& r == request_of::<E>(post)
}

/// One step of the validation: from the state `pre` and the outcome
/// `event` of the step that it waits for, the state `post` and the action
/// `r`. An outcome of another step than the one waited for changes nothing
/// and asks again.
pub open spec fn step_spec<E>(
    pre: TxValidation,
    event: StepOutcome<E>,
    post: TxValidation,
    r: TxValidationAction<E>,
) -> bool {
    match (pre.stage, event) {
        (ValidationStage::SignerInput, StepOutcome::SignerInput(Ok(amount))) => {
            &&& post == TxValidation {
                stage: ValidationStage::Deposits,
                signer_amount: amount,
                ..pre
            }
            &&& r == TxValidationAction::<E>::ReportDeposits
        },
        (ValidationStage::SignerInput, StepOutcome::SignerInput(Err(e))) => fails_with(
            pre,
            post,
            r,
            TxValidationError::Step(e),
        ),
        (ValidationStage::Deposits, StepOutcome::Deposits(reports)) => {
            let s = reports@;
            let tip = pre.chain_tip_height;
            &&& forall|i: int|
                #![trigger first_ineligible(s, tip, i)]
                first_ineligible(s, tip, i) ==> fails_with(
                    pre,
                    post,
                    r,
                    TxValidationError::Sweep(
                        BitcoinSweepErrorMsg::Deposit(deposit_decision(s[i], tip)->Err_0),
                    ),
                )
            &&& all_eligible(s, tip) && pre.signer_amount + sum_amounts(s) > u64::MAX
                ==> fails_with(pre, post, r, TxValidationError::AmountOverflow)
            &&& all_eligible(s, tip) && pre.signer_amount + sum_amounts(s) <= u64::MAX ==> {
                &&& post == TxValidation {
                    stage: ValidationStage::SignerOutputs,
                    input_amount: (pre.signer_amount + sum_amounts(s)) as u64,
                    ..pre
                }
                &&& r == TxValidationAction::<E>::ValidateSignerOutputs
            }
        },
        (ValidationStage::SignerOutputs, StepOutcome::SignerOutputs(Ok(()))) => advances(
            pre,
            post,
            r,
            ValidationStage::Withdrawals,
        ),
        (ValidationStage::SignerOutputs, StepOutcome::SignerOutputs(Err(e))) => fails_with(
            pre,
            post,
            r,
            TxValidationError::Step(e),
        ),
        (ValidationStage::Withdrawals, StepOutcome::Withdrawals(Ok(()))) => advances(
            pre,
            post,
            r,
            ValidationStage::Fees,
        ),
        (ValidationStage::Withdrawals, StepOutcome::Withdrawals(Err(e))) => fails_with(
            pre,
            post,
            r,
            TxValidationError::Step(e),
        ),
        (ValidationStage::Fees, StepOutcome::Fees(Ok(()))) => {
            &&& post == TxValidation { stage: ValidationStage::Finished, ..pre }
            &&& r == TxValidationAction::<E>::Finish(Ok(()))
        },
        (ValidationStage::Fees, StepOutcome::Fees(Err(e))) => fails_with(
            pre,
            post,
            r,
            TxValidationError::Step(e),
        ),
        _ => post == pre && r == request_of::<E>(pre),
    }
}

impl TxValidation {
    /// A validation that judges deposits against a chain tip of height
    /// `chain_tip_height` and waits for the signers' input.
    pub fn new(chain_tip_height: u64) -> (r: TxValidation)
        ensures
            r.stage == ValidationStage::SignerInput,
            r.chain_tip_height == chain_tip_height,
            r.signer_amount == 0,
            r.input_amount == 0,
    {
        TxValidation {
            stage: ValidationStage::SignerInput,
            chain_tip_height,
            signer_amount: 0,
            input_amount: 0,
        }
    }

    /// Whether the validation is over.
    pub fn is_finished(&self) -> (r: bool)
        ensures
            r == (self.stage == ValidationStage::Finished),
    {
        match self.stage {
            ValidationStage::Finished => true,
            _ => false,
        }
    }

    /// The action that asks for the step that this validation waits for.
    pub fn request<E>(&self) -> (r: TxValidationAction<E>)
        requires
            self.stage != ValidationStage::Finished,
        ensures
            r == request_of::<E>(*self),
    {
        match self.stage {
            ValidationStage::SignerInput => TxValidationAction::ValidateSignerInput,
            ValidationStage::Deposits => TxValidationAction::ReportDeposits,
            ValidationStage::SignerOutputs => TxValidationAction::ValidateSignerOutputs,
            ValidationStage::Withdrawals => TxValidationAction::ValidateWithdrawals,
            ValidationStage::Fees => TxValidationAction::ValidateFees(self.input_amount),
            ValidationStage::Finished => TxValidationAction::Finish(Ok(())),
        }
    }

    /// Take the outcome of the step that the validation waits for, and say
    /// what to do next.
    pub fn step<E>(&mut self, event: StepOutcome<E>) -> (r: TxValidationAction<E>)
        requires
            old(self).stage != ValidationStage::Finished,
        ensures
            step_spec(*old(self), event, *final(self), r),
            stage_rank(final(self).stage) >= stage_rank(old(self).stage),
            (r is Finish) == (final(self).stage == ValidationStage::Finished),
    {
        let pre = *self;
        match (self.stage, event) {
            (ValidationStage::SignerInput, StepOutcome::SignerInput(Ok(amount))) => {
                self.stage = ValidationStage::Deposits;
                self.signer_amount = amount;
                TxValidationAction::ReportDeposits
            },
            (ValidationStage::SignerInput, StepOutcome::SignerInput(Err(e))) => {
                self.stage = ValidationStage::Finished;
                TxValidationAction::Finish(Err(TxValidationError::Step(e)))
            },
            (ValidationStage::Deposits, StepOutcome::Deposits(reports)) => {
                let result = validate_deposits::<E>(&reports, self.chain_tip_height);
                proof {
                    lemma_first_ineligible_unique(reports@, self.chain_tip_height);
                }
                match result {
                    Err(e) => {
                        self.stage = ValidationStage::Finished;
                        TxValidationAction::Finish(Err(e))
                    },
                    Ok(total) => {
                        if total > u64::MAX - self.signer_amount {
                            self.stage = ValidationStage::Finished;
                            TxValidationAction::Finish(Err(TxValidationError::AmountOverflow))
                        } else {
                            self.stage = ValidationStage::SignerOutputs;
                            self.input_amount = self.signer_amount + total;
                            TxValidationAction::ValidateSignerOutputs
                        }
                    },
                }
            },
            (ValidationStage::SignerOutputs, StepOutcome::SignerOutputs(Ok(()))) => {
                self.stage = ValidationStage::Withdrawals;
                TxValidationAction::ValidateWithdrawals
            },
            (ValidationStage::Withdrawals, StepOutcome::Withdrawals(Ok(()))) => {
                self.stage = ValidationStage::Fees;
                TxValidationAction::ValidateFees(self.input_amount)
            },
            (ValidationStage::Fees, StepOutcome::Fees(Ok(()))) => {
                self.stage = ValidationStage::Finished;
                TxValidationAction::Finish(Ok(()))
            },
            (ValidationStage::SignerOutputs, StepOutcome::SignerOutputs(Err(e)))
            | (ValidationStage::Withdrawals, StepOutcome::Withdrawals(Err(e)))
            | (ValidationStage::Fees, StepOutcome::Fees(Err(e))) => {
                self.stage = ValidationStage::Finished;
                TxValidationAction::Finish(Err(TxValidationError::Step(e)))
            },
            _ => pre.request(),
        }
    }
}

/// The sum of `amounts`.
pub open spec fn sum_of(amounts: Seq<u64>) -> nat
    decreases amounts.len(),
{
    if amounts.len() == 0 {
        0
    } else {
        sum_of(amounts.drop_last()) + amounts.last() as nat
    }
}

/// The fee that a transaction with inputs worth `input_amount` and outputs
/// worth `output_amounts` pays, if the outputs are not worth more.
pub fn implied_fee(input_amount: u64, output_amounts: &Vec<u64>) -> (r: Option<u64>)
    ensures
        sum_of(output_amounts@) <= input_amount ==> r == Some((input_amount - sum_of(
            output_amounts@,
        )) as u64),
        sum_of(output_amounts@) > input_amount ==> r is None,
{
    let mut total: u64 = 0;
    let mut i: usize = 0;
    while i < output_amounts.len()
        invariant
            i <= output_amounts@.len(),
            total == sum_of(output_amounts@.subrange(0, i as int)),
            total <= input_amount,
        decreases output_amounts@.len() - i,
    {
        assert(output_amounts@.subrange(0, i + 1).drop_last() =~= output_amounts@.subrange(
            0,
            i as int,
        ));
        if output_amounts[i] > input_amount - total {
            proof {
                lemma_sum_of_prefix_grows(output_amounts@, i + 1);
            }
            return None;
        }
        total = total + output_amounts[i];
        i = i + 1;
    }
    assert(output_amounts@.subrange(0, i as int) =~= output_amounts@);
    Some(input_amount - total)
}

/// The sum of a sequence is at least the sum of any of its prefixes.
proof fn lemma_sum_of_prefix_grows(s: Seq<u64>, n: int)
    requires
        0 <= n <= s.len(),
    ensures
        sum_of(s.subrange(0, n)) <= sum_of(s),
    decreases s.len() - n,
{
    if n < s.len() {
        lemma_sum_of_prefix_grows(s, n + 1);
        assert(s.subrange(0, n + 1).drop_last() =~= s.subrange(0, n));
    } else {
        assert(s.subrange(0, n) =~= s);
    }
}

/// The share of a fee of `total_fee` that each of `n` requests bears: the
/// fee split equally, rounded up, so that the shares cover the fee.
pub open spec fn fee_share(total_fee: u64, n: nat) -> nat {
    if n == 0 {
        0
    } else {
        (total_fee as nat / n) + if total_fee as nat % n == 0 {
            0nat
        } else {
            1nat
        }
    }
}

/// The first request, among those whose max-fees are `max_fees`, whose
/// share of the fee `total_fee` exceeds its max-fee; `None` if there is
/// none. Every request bears the same share, as `fee_share` says.
pub fn first_fee_violation(total_fee: u64, max_fees: &Vec<u64>) -> (r: Option<usize>)
    ensures
        match r {
            None => forall|i: int|
                0 <= i < max_fees@.len() ==> fee_share(total_fee, max_fees@.len()) <= (
                #[trigger] max_fees@[i]),
            Some(i) => {
                &&& i < max_fees@.len()
                &&& max_fees@[i as int] < fee_share(total_fee, max_fees@.len())
                &&& forall|j: int|
                    0 <= j < i ==> fee_share(total_fee, max_fees@.len()) <= (
                    #[trigger] max_fees@[j])
            },
        },
{
    let n = max_fees.len();
    if n == 0 {
        return None;
    }
    let share = share_of(total_fee, n as u128);
    let mut i: usize = 0;
    while i < n
        invariant
            n == max_fees@.len(),
            i <= n,
            share == fee_share(total_fee, n as nat),
            forall|j: int| 0 <= j < i ==> share <= (#[trigger] max_fees@[j]),
        decreases n - i,
    {
        if max_fees[i] < share {
            return Some(i);
        }
        i = i + 1;
    }
    None
}

/// The value of each output of `tx`, in satoshis, in output order.
pub uninterp spec fn output_values(tx: bitcoin::Transaction) -> Seq<u64>;

/// Relies on the `output` field of `bitcoin::Transaction` and
/// `bitcoin::Amount::to_sat`: the value of each output, in satoshis, in
/// output order, which depends on the transaction alone.
#[verifier::external_body]
fn output_amounts(tx: &bitcoin::Transaction) -> (r: Vec<u64>)
    ensures
        r@ == output_values(*tx),
{
    let mut amounts = Vec::new();
    for out in tx.output.iter() {
        amounts.push(out.value.to_sat());
    }
    amounts
}

/// The share of the fee `total_fee` that each of `n` requests bears.
fn share_of(total_fee: u64, n: u128) -> (r: u64)
    ensures
        r == fee_share(total_fee, n as nat),
{
    if n == 0 {
        return 0;
    }
    let fee = total_fee as u128;
    let quotient = fee / n;
    let remainder = fee % n;
    assert(remainder != 0 ==> quotient < u64::MAX) by (nonlinear_arith)
        requires
            n >= 1,
            quotient == fee / n,
            remainder == fee % n,
            fee <= u64::MAX,
    ;
    assert(quotient <= fee) by (nonlinear_arith)
        requires
            n >= 1,
            quotient == fee / n,
    ;
    if remainder == 0 {
        quotient as u64
    } else {
        (quotient + 1) as u64
    }
}

/// The result of the fee step for the deposits `deposits` (each an
/// outpoint and its max-fee) of a transaction that also serves
/// `num_withdrawals` withdrawals and pays `fee`: every request bears the
/// same share, as `fee_share` says, and the first deposit whose share
/// exceeds its max-fee is refused.
pub open spec fn deposit_fees_result(
    fee: u64,
    deposits: Seq<(OutPoint, u64)>,
    num_withdrawals: usize,
    r: Result<(), BitcoinDepositInputError>,
) -> bool {
    let share = fee_share(fee, (deposits.len() + num_withdrawals) as nat);
    match r {
        Ok(()) => forall|i: int| 0 <= i < deposits.len() ==> share <= (#[trigger] deposits[i]).1,
        Err(e) => exists|i: int|
            #![trigger deposits[i]]
            0 <= i < deposits.len() && deposits[i].1 < share && (forall|j: int|
                0 <= j < i ==> share <= (#[trigger] deposits[j]).1) && e
                == BitcoinDepositInputError::AssessedFeeTooHigh(deposits[i].0),
    }
}

/// Refuse the first deposit whose share of the fee `fee` exceeds its
/// max-fee, the fee being split equally, rounded up, over the deposits and
/// the `num_withdrawals` withdrawals.
pub fn assess_deposit_fees(fee: u64, deposits: &Vec<(OutPoint, u64)>, num_withdrawals: usize) -> (r:
    Result<(), BitcoinDepositInputError>)
    ensures
        deposit_fees_result(fee, deposits@, num_withdrawals, r),
{
    let n = deposits.len();
    let share = share_of(fee, n as u128 + num_withdrawals as u128);
    let mut i: usize = 0;
    while i < n
        invariant
            n == deposits@.len(),
            i <= n,
            share == fee_share(fee, (deposits@.len() + num_withdrawals) as nat),
            forall|j: int| 0 <= j < i ==> share <= (#[trigger] deposits@[j]).1,
        decreases n - i,
    {
        if deposits[i].1 < share {
            let outpoint = deposits[i].0;
            assert(deposits@[i as int].1 < share);
            return Err(BitcoinDepositInputError::AssessedFeeTooHigh(outpoint));
        }
        i = i + 1;
    }
    Ok(())
}

impl BitcoinTxContext {
    /// The fee that the transaction pays when its inputs are worth
    /// `input_amount`; `None` if its outputs are worth more.
    pub fn implied_fee(&self, input_amount: u64) -> (r: Option<u64>)
        ensures
            sum_of(output_values(self.tx)) <= input_amount ==> r == Some(
                (input_amount - sum_of(output_values(self.tx))) as u64,
            ),
            sum_of(output_values(self.tx)) > input_amount ==> r is None,
    {
        let amounts = output_amounts(&self.tx);
        implied_fee(input_amount, &amounts)
    }

    /// Whether there is one withdrawal request id for each output after
    /// the two signer outputs; a transaction where this fails is
    /// malformed.
    pub fn request_ids_match_outputs(&self) -> (r: bool)
        ensures
            r == (output_values(self.tx).len() == self.request_ids@.len() + 2),
    {
        let amounts = output_amounts(&self.tx);
        amounts.len() >= 2 && amounts.len() - 2 == self.request_ids.len()
    }

    /// The fee step for the deposits: the fee that the transaction pays,
    /// when its inputs are worth `input_amount`, split over its deposits
    /// `deposits` (each an outpoint and its max-fee) and its
    /// `num_withdrawals` withdrawals as `assess_deposit_fees` says. `None`
    /// when the outputs are worth more than the inputs.
    pub fn validate_deposit_fees(
        &self,
        input_amount: u64,
        deposits: &Vec<(OutPoint, u64)>,
        num_withdrawals: usize,
    ) -> (r: Option<Result<(), BitcoinDepositInputError>>)
        ensures
            sum_of(output_values(self.tx)) > input_amount ==> r is None,
            sum_of(output_values(self.tx)) <= input_amount ==> ({
                let fee = (input_amount - sum_of(output_values(self.tx))) as u64;
                r matches Some(res) && deposit_fees_result(fee, deposits@, num_withdrawals, res)
            }),
    {
        match self.implied_fee(input_amount) {
            None => None,
            Some(fee) => Some(assess_deposit_fees(fee, deposits, num_withdrawals)),
        }
    }
    /// Begin the validation of this transaction: deposits are judged
    /// against this context's chain tip height, and the signers' input is
    /// validated first.
    pub fn start_validation(&self) -> (r: TxValidation)
        ensures
            r.stage == ValidationStage::SignerInput,
            r.chain_tip_height == self.chain_tip_height,
            r.signer_amount == 0,
            r.input_amount == 0,
    {
        TxValidation::new(self.chain_tip_height)
    }
}

/// At most one deposit is the first ineligible one.
proof fn lemma_first_ineligible_unique(s: Seq<DepositRequestReport>, tip: u64)
    ensures
        forall|i: int, j: int|
            first_ineligible(s, tip, i) && first_ineligible(s, tip, j) ==> i == j,
        forall|i: int| first_ineligible(s, tip, i) ==> !all_eligible(s, tip),
{
    assert forall|i: int, j: int|
        first_ineligible(s, tip, i) && first_ineligible(s, tip, j) implies i == j by {
        if i < j {
            assert(deposit_decision(s[i], tip) is Ok);
        } else if j < i {
            assert(deposit_decision(s[j], tip) is Ok);
        }
    }
    assert forall|i: int| first_ineligible(s, tip, i) implies !all_eligible(s, tip) by {
        assert(deposit_decision(s[i], tip) is Err);
    }
}

/// A deposit that may not be swept ends the whole validation at the deposit
/// step, with that deposit's error: the signer outputs, the withdrawals and
/// the fees are never asked for.
pub proof fn lemma_ineligible_deposit_ends_validation<E>(
    pre: TxValidation,
    reports: Vec<DepositRequestReport>,
    post: TxValidation,
    r: TxValidationAction<E>,
    i: int,
)
    requires
        pre.stage == ValidationStage::Deposits,
        0 <= i < reports@.len(),
        deposit_decision(reports@[i], pre.chain_tip_height) is Err,
        step_spec(pre, StepOutcome::Deposits(reports), post, r),
    ensures
        post.stage == ValidationStage::Finished,
        exists|k: int|
            0 <= k <= i && r == TxValidationAction::<E>::Finish(
                Err(
                    TxValidationError::Sweep(
                        BitcoinSweepErrorMsg::Deposit(
                            deposit_decision(reports@[k], pre.chain_tip_height)->Err_0,
                        ),
                    ),
                ),
            ),
        !(r is ValidateSignerOutputs),
        !(r is ValidateWithdrawals),
        !(r is ValidateFees),
{
    let s = reports@;
    let tip = pre.chain_tip_height;
    let k = choose_first_ineligible(s, tip, i);
    assert(first_ineligible(s, tip, k));
}

/// Validation is deterministic: from the same state and the same step
/// outcome, a step always reaches the same state and asks for the same
/// action, so a whole run over the same outcomes gives the same result.
pub proof fn lemma_step_is_deterministic<E>(
    pre: TxValidation,
    event: StepOutcome<E>,
    post1: TxValidation,
    r1: TxValidationAction<E>,
    post2: TxValidation,
    r2: TxValidationAction<E>,
)
    requires
        step_spec(pre, event, post1, r1),
        step_spec(pre, event, post2, r2),
    ensures
        post1 == post2,
        r1 == r2,
{
    match (pre.stage, event) {
        (ValidationStage::Deposits, StepOutcome::Deposits(reports)) => {
            let s = reports@;
            let tip = pre.chain_tip_height;
            if !all_eligible(s, tip) {
                let i = choose|i: int| 0 <= i < s.len() && !(deposit_decision(s[i], tip) is Ok);
                let k = choose_first_ineligible(s, tip, i);
                assert(first_ineligible(s, tip, k));
            }
        },
        _ => {},
    }
}

/// The first ineligible deposit, given that the one at `i` is ineligible.
proof fn choose_first_ineligible(s: Seq<DepositRequestReport>, tip: u64, i: int) -> (k: int)
    requires
        0 <= i < s.len(),
        deposit_decision(s[i], tip) is Err,
    ensures
        0 <= k <= i,
        first_ineligible(s, tip, k),
    decreases i,
{
    if exists|j: int| 0 <= j < i && (#[trigger] deposit_decision(s[j], tip)) is Err {
        let j = choose|j: int| 0 <= j < i && (#[trigger] deposit_decision(s[j], tip)) is Err;
        choose_first_ineligible(s, tip, j)
    } else {
        i
    }
}

} // verus!
