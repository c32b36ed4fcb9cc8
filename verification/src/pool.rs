//! The lending pool: one-time configuration, a pause switch that gates every
//! state-changing operation, and the loan lifecycle
//! (`Active -> Repaid` via [`LendingPool::repay_loan`],
//! `Active -> Defaulted` via [`LendingPool::liquidate`], both terminal).
//!
//! The pool decides; the host acts. Each operation takes the facts only the
//! host can establish — the authenticated caller, the current ledger time,
//! the relevant token balance — and returns either the amount the host must
//! transfer on the ledger asset, or the error that aborts the operation with
//! no state change.

use crate::AccountId;
use vstd::prelude::*;

verus! {

/// Seconds in the year the interest rate is quoted over.
pub const SECONDS_PER_YEAR: u64 = 31_536_000;

/// Fixed annual interest rate, in basis points.
pub const APY_BPS: u64 = 500;

/// Interest accrued by `principal` from `start_time` to `end_time`:
/// `principal * APY_BPS * duration / (10_000 * SECONDS_PER_YEAR)` with
/// truncating integer division, and zero when the duration is not positive.
pub open spec fn interest_at(principal: i128, start_time: u64, end_time: u64) -> int {
    if end_time <= start_time {
        0
    } else {
        principal * (APY_BPS as int) * (end_time - start_time) / (10_000 * (SECONDS_PER_YEAR as int))
    }
}

/// The interest computation stays within `i128`.
pub open spec fn accrual_fits(principal: i128, start_time: u64, end_time: u64) -> bool {
    start_time < end_time ==> principal * (APY_BPS as int) * (end_time - start_time) <= i128::MAX
}

/// A borrowing record against pool liquidity.
#[derive(Clone, Copy, PartialEq, Eq, Structural, Debug)]
pub struct Loan {
    pub id: u64,
    pub borrower: AccountId,
    pub invoice_id: u64,
    pub principal: i128,
    pub interest: i128,
    pub start_time: u64,
    pub due_date: u64,
    pub is_repaid: bool,
    pub is_defaulted: bool,
}

/// Where a loan stands in its lifecycle.
#[derive(Clone, Copy, PartialEq, Eq, Structural, Debug)]
pub enum LoanStatus {
    Active,
    Repaid,
    Defaulted,
}

impl Loan {
    /// A loan never ends up both repaid and defaulted; its principal is a
    /// non-negative amount; its stored interest is the snapshot the pool
    /// computed over the loan's full term at creation.
    pub open spec fn wf(self) -> bool {
        &&& !(self.is_repaid && self.is_defaulted)
        &&& 0 <= self.principal
        &&& self.interest == interest_at(self.principal, self.start_time, self.due_date)
    }

    pub open spec fn spec_status(self) -> LoanStatus {
        if self.is_repaid {
            LoanStatus::Repaid
        } else if self.is_defaulted {
            LoanStatus::Defaulted
        } else {
            LoanStatus::Active
        }
    }

    pub fn status(&self) -> (r: LoanStatus)
        ensures
            r == self.spec_status(),
    {
        if self.is_repaid {
            LoanStatus::Repaid
        } else if self.is_defaulted {
            LoanStatus::Defaulted
        } else {
            LoanStatus::Active
        }
    }
}

/// `l` with the repaid flag set; every other field stands.
pub open spec fn mark_repaid(l: Loan) -> Loan {
    Loan { is_repaid: true, ..l }
}

/// `l` with the defaulted flag set; every other field stands.
pub open spec fn mark_defaulted(l: Loan) -> Loan {
    Loan { is_defaulted: true, ..l }
}

/// A pool instance: the one-time admin/asset configuration, the pause
/// switch, the attestation key, and every loan it has created, held densely
/// (the loan with id `i` sits at index `i - 1`).
pub struct LendingPool {
    pub admin: Option<AccountId>,
    pub token_address: Option<AccountId>,
    pub paused: bool,
    pub backend_pubkey: Option<Vec<u8>>,
    pub loans: Vec<Loan>,
}

/// Reasons a pool operation aborts; no failing operation changes state.
#[derive(Clone, Copy, PartialEq, Eq, Structural, Debug)]
pub enum Error {
    NotInitialized,
    AlreadyInitialized,
    ContractPaused,
    InsufficientLiquidity,
    LoanNotFound,
    LoanAlreadyRepaid,
    LoanDefaulted,
    InsufficientBalance,
    CannotLiquidateHealthyLoan,
    Unauthorized,
}

impl LendingPool {
    /// Admin and asset are configured together; the attestation key is 32
    /// bytes; loan ids are the dense sequence 1, 2, 3, ... and every stored
    /// loan is well formed.
    pub open spec fn wf(self) -> bool {
        &&& self.admin is Some <==> self.token_address is Some
        &&& (self.backend_pubkey matches Some(k) ==> k@.len() == 32)
        &&& forall|i: int|
            0 <= i < self.loans@.len() ==> (#[trigger] self.loans@[i]).id == i + 1
        &&& forall|i: int| 0 <= i < self.loans@.len() ==> (#[trigger] self.loans@[i]).wf()
    }

    pub open spec fn initialized(self) -> bool {
        self.admin is Some
    }

    pub open spec fn has_loan(self, loan_id: u64) -> bool {
        1 <= loan_id && loan_id <= self.loans@.len()
    }

    pub open spec fn loan_at(self, loan_id: u64) -> Loan
        recommends
            self.has_loan(loan_id),
    {
        self.loans@[loan_id - 1]
    }

    /// A fresh, unconfigured pool.
    pub fn new() -> (r: LendingPool)
        ensures
            r.wf(),
            !r.initialized(),
            r.admin is None,
            r.token_address is None,
            !r.paused,
            r.backend_pubkey is None,
            r.loans@.len() == 0,
    {
        LendingPool {
            admin: None,
            token_address: None,
            paused: false,
            backend_pubkey: None,
            loans: Vec::new(),
        }
    }

    pub open spec fn init_outcome(self) -> Result<(), Error> {
        if self.initialized() {
            Err(Error::AlreadyInitialized)
        } else {
            Ok(())
        }
    }

    /// One-time configuration of the admin identity and the lent asset;
    /// fails on a pool that already has them, leaving the first
    /// configuration standing.
    pub fn init(&mut self, admin: AccountId, token_address: AccountId) -> (r: Result<(), Error>)
        requires
            old(self).wf(),
        ensures
            final(self).wf(),
            r == old(self).init_outcome(),
            r is Ok ==> final(self).admin == Some(admin)
                && final(self).token_address == Some(token_address)
                && !final(self).paused,
            r is Err ==> *final(self) == *old(self),
            final(self).backend_pubkey == old(self).backend_pubkey,
            final(self).loans == old(self).loans,
    {
        if self.admin.is_some() {
            return Err(Error::AlreadyInitialized);
        }
        self.admin = Some(admin);
        self.token_address = Some(token_address);
        self.paused = false;
        Ok(())
    }

    pub open spec fn admin_gate(self, caller: AccountId) -> Result<(), Error> {
        if !self.initialized() {
            Err(Error::NotInitialized)
        } else if self.admin != Some(caller) {
            Err(Error::Unauthorized)
        } else {
            Ok(())
        }
    }

    /// Flip the pause switch that gates deposits, borrows and the loan
    /// lifecycle; only the configured admin may do so.
    pub fn set_paused(&mut self, caller: AccountId, paused: bool) -> (r: Result<(), Error>)
        requires
            old(self).wf(),
        ensures
            final(self).wf(),
            r == old(self).admin_gate(caller),
            r is Ok ==> final(self).paused == paused,
            r is Err ==> *final(self) == *old(self),
            final(self).admin == old(self).admin,
            final(self).token_address == old(self).token_address,
            final(self).backend_pubkey == old(self).backend_pubkey,
            final(self).loans == old(self).loans,
    {
        match self.admin {
            None => Err(Error::NotInitialized),
            Some(admin) => {
                if admin != caller {
                    return Err(Error::Unauthorized);
                }
                self.paused = paused;
                Ok(())
            },
        }
    }

    /// Whether the pool is paused; false on a fresh pool.
    pub fn is_paused(&self) -> (r: bool)
        ensures
            r == self.paused,
    {
        self.paused
    }

    pub open spec fn deposit_outcome(self, caller: AccountId, from: AccountId) -> Result<
        (),
        Error,
    > {
        if self.paused {
            Err(Error::ContractPaused)
        } else if caller != from {
            Err(Error::Unauthorized)
        } else if !self.initialized() {
            Err(Error::NotInitialized)
        } else {
            Ok(())
        }
    }

    /// Gate a deposit of `amount` from `from` into the pool's custody.
    /// On `Ok` the caller owes a transfer of `amount` from `from` to the
    /// pool on the ledger asset; on `Err` nothing moves.
    pub fn deposit(&self, caller: AccountId, from: AccountId, amount: i128) -> (r: Result<
        (),
        Error,
    >)
        ensures
            r == self.deposit_outcome(caller, from),
    {
        if self.paused {
            return Err(Error::ContractPaused);
        }
        if caller != from {
            return Err(Error::Unauthorized);
        }
        if self.admin.is_none() {
            return Err(Error::NotInitialized);
        }
        let _ = amount;
        Ok(())
    }

    pub open spec fn borrow_outcome(
        self,
        caller: AccountId,
        borrower: AccountId,
        amount: i128,
        pool_balance: i128,
    ) -> Result<(), Error> {
        if self.paused {
            Err(Error::ContractPaused)
        } else if caller != borrower {
            Err(Error::Unauthorized)
        } else if !self.initialized() {
            Err(Error::NotInitialized)
        } else if amount > pool_balance {
            Err(Error::InsufficientLiquidity)
        } else {
            Ok(())
        }
    }

    /// Gate an unsecured draw of `amount` against the pool's liquidity,
    /// `pool_balance` being the pool's current holding of the lent asset.
    /// On `Ok` the caller owes a transfer of `amount` from the pool to
    /// `borrower`; on `Err` nothing moves. This path creates no loan record.
    pub fn borrow(
        &self,
        caller: AccountId,
        borrower: AccountId,
        amount: i128,
        pool_balance: i128,
    ) -> (r: Result<(), Error>)
        ensures
            r == self.borrow_outcome(caller, borrower, amount, pool_balance),
    {
        if self.paused {
            return Err(Error::ContractPaused);
        }
        if caller != borrower {
            return Err(Error::Unauthorized);
        }
        if self.admin.is_none() {
            return Err(Error::NotInitialized);
        }
        if amount > pool_balance {
            return Err(Error::InsufficientLiquidity);
        }
        Ok(())
    }

    /// Interest the pool charges on `principal` over
    /// `[start_time, end_time]`, truncated to whole units and clamped to
    /// zero for a non-positive duration.
    pub fn calculate_interest(principal: i128, start_time: u64, end_time: u64) -> (r: i128)
        requires
            0 <= principal,
            accrual_fits(principal, start_time, end_time),
        ensures
            r == interest_at(principal, start_time, end_time),
            0 <= r,
    {
        if end_time <= start_time {
            return 0;
        }
        let duration: u64 = end_time - start_time;
        proof {
            assert(principal * (APY_BPS as int) <= principal * (APY_BPS as int) * (duration as int)
                && 0 <= principal * (APY_BPS as int)
                && 0 <= principal * (APY_BPS as int) * (duration as int)) by (nonlinear_arith)
                requires
                    0 <= principal,
                    1 <= duration,
            ;
        }
        let scaled: i128 = principal * (APY_BPS as i128);
        let accrued: i128 = scaled * (duration as i128);
        accrued / (10_000 * (SECONDS_PER_YEAR as i128))
    }

    /// Store the 32-byte key mint attestations are verified against;
    /// only the configured admin may set it.
    pub fn set_backend_pubkey(&mut self, caller: AccountId, pubkey: Vec<u8>) -> (r: Result<
        (),
        Error,
    >)
        requires
            old(self).wf(),
            pubkey@.len() == 32,
        ensures
            final(self).wf(),
            r == old(self).admin_gate(caller),
            r is Ok ==> final(self).backend_pubkey == Some(pubkey),
            r is Err ==> *final(self) == *old(self),
            final(self).admin == old(self).admin,
            final(self).token_address == old(self).token_address,
            final(self).paused == old(self).paused,
            final(self).loans == old(self).loans,
    {
        match self.admin {
            None => Err(Error::NotInitialized),
            Some(admin) => {
                if admin != caller {
                    return Err(Error::Unauthorized);
                }
                self.backend_pubkey = Some(pubkey);
                Ok(())
            },
        }
    }

    pub open spec fn create_loan_outcome(self, caller: AccountId, borrower: AccountId) -> Result<
        u64,
        Error,
    > {
        if self.paused {
            Err(Error::ContractPaused)
        } else if caller != borrower {
            Err(Error::Unauthorized)
        } else {
            Ok((self.loans@.len() + 1) as u64)
        }
    }

    /// The record a successful `create_loan` appends: the next dense id,
    /// with the interest snapshot computed over the full term from `now`.
    pub open spec fn created_loan(
        self,
        borrower: AccountId,
        invoice_id: u64,
        principal: i128,
        due_date: u64,
        now: u64,
    ) -> Loan {
        Loan {
            id: (self.loans@.len() + 1) as u64,
            borrower,
            invoice_id,
            principal,
            interest: interest_at(principal, now, due_date) as i128,
            start_time: now,
            due_date,
            is_repaid: false,
            is_defaulted: false,
        }
    }

    /// Record a loan of `principal` to `borrower`, due at `due_date`, with
    /// its interest snapshot taken at `now`. `invoice_id` is an opaque
    /// reference: the pool does not validate it against the registry.
    /// Returns the new loan's id; a paused pool or a caller other than the
    /// borrower aborts with no state change.
    pub fn create_loan(
        &mut self,
        caller: AccountId,
        borrower: AccountId,
        invoice_id: u64,
        principal: i128,
        due_date: u64,
        now: u64,
    ) -> (r: Result<u64, Error>)
        requires
            old(self).wf(),
            old(self).loans@.len() < u64::MAX,
            old(self).create_loan_outcome(caller, borrower) is Ok ==> 0 <= principal
                && accrual_fits(principal, now, due_date),
        ensures
            final(self).wf(),
            r == old(self).create_loan_outcome(caller, borrower),
            r is Ok ==> final(self).loans@ == old(self).loans@.push(
                old(self).created_loan(borrower, invoice_id, principal, due_date, now),
            ),
            r is Err ==> *final(self) == *old(self),
            final(self).admin == old(self).admin,
            final(self).token_address == old(self).token_address,
            final(self).paused == old(self).paused,
            final(self).backend_pubkey == old(self).backend_pubkey,
    {
        if self.paused {
            return Err(Error::ContractPaused);
        }
        if caller != borrower {
            return Err(Error::Unauthorized);
        }
        let interest: i128 = Self::calculate_interest(principal, now, due_date);
        let loan_id: u64 = (self.loans.len() as u64) + 1;
        let loan = Loan {
            id: loan_id,
            borrower,
            invoice_id,
            principal,
            interest,
            start_time: now,
            due_date,
            is_repaid: false,
            is_defaulted: false,
        };
        self.loans.push(loan);
        Ok(loan_id)
    }

    pub open spec fn repay_loan_outcome(
        self,
        caller: AccountId,
        loan_id: u64,
        borrower_balance: i128,
        now: u64,
    ) -> Result<i128, Error> {
        if self.paused {
            Err(Error::ContractPaused)
        } else if !self.has_loan(loan_id) {
            Err(Error::LoanNotFound)
        } else if self.loan_at(loan_id).is_repaid {
            Err(Error::LoanAlreadyRepaid)
        } else if self.loan_at(loan_id).is_defaulted {
            Err(Error::LoanDefaulted)
        } else if caller != self.loan_at(loan_id).borrower {
            Err(Error::Unauthorized)
        } else if !self.initialized() {
            Err(Error::NotInitialized)
        } else if borrower_balance < self.loan_at(loan_id).principal + interest_at(
            self.loan_at(loan_id).principal,
            self.loan_at(loan_id).start_time,
            now,
        ) {
            Err(Error::InsufficientBalance)
        } else {
            Ok(
                (self.loan_at(loan_id).principal + interest_at(
                    self.loan_at(loan_id).principal,
                    self.loan_at(loan_id).start_time,
                    now,
                )) as i128,
            )
        }
    }

    /// The interest recomputed at repayment time, and the repayment total,
    /// stay within `i128` whenever `repay_loan` reaches them.
    pub open spec fn repay_accrual_fits(self, caller: AccountId, loan_id: u64, now: u64) -> bool {
        (!self.paused && self.has_loan(loan_id) && !self.loan_at(loan_id).is_repaid
            && !self.loan_at(loan_id).is_defaulted && caller == self.loan_at(loan_id).borrower
            && self.initialized()) ==> {
            let l = self.loan_at(loan_id);
            &&& accrual_fits(l.principal, l.start_time, now)
            &&& l.principal + interest_at(l.principal, l.start_time, now) <= i128::MAX
        }
    }

    /// Repay the active loan `loan_id` in full. The total owed is the
    /// principal plus interest recomputed at `now` (not the stored
    /// snapshot); `borrower_balance` is the borrower's current holding of
    /// the lent asset. On `Ok(total)` the loan is marked repaid and the
    /// caller owes a transfer of `total` from the borrower to the pool; on
    /// `Err` nothing changes and nothing moves.
    pub fn repay_loan(
        &mut self,
        caller: AccountId,
        loan_id: u64,
        borrower_balance: i128,
        now: u64,
    ) -> (r: Result<i128, Error>)
        requires
            old(self).wf(),
            old(self).repay_accrual_fits(caller, loan_id, now),
        ensures
            final(self).wf(),
            r == old(self).repay_loan_outcome(caller, loan_id, borrower_balance, now),
            r is Ok ==> final(self).loans@ == old(self).loans@.update(
                loan_id - 1,
                mark_repaid(old(self).loan_at(loan_id)),
            ),
            r is Err ==> *final(self) == *old(self),
            final(self).admin == old(self).admin,
            final(self).token_address == old(self).token_address,
            final(self).paused == old(self).paused,
            final(self).backend_pubkey == old(self).backend_pubkey,
    {
        if self.paused {
            return Err(Error::ContractPaused);
        }
        if loan_id < 1 || (self.loans.len() as u64) < loan_id {
            return Err(Error::LoanNotFound);
        }
        let idx: usize = (loan_id - 1) as usize;
        let loan = self.loans[idx];
        if loan.is_repaid {
            return Err(Error::LoanAlreadyRepaid);
        }
        if loan.is_defaulted {
            return Err(Error::LoanDefaulted);
        }
        if caller != loan.borrower {
            return Err(Error::Unauthorized);
        }
        if self.admin.is_none() {
            return Err(Error::NotInitialized);
        }
        let current_interest: i128 = Self::calculate_interest(loan.principal, loan.start_time, now);
        let total_repayment: i128 = loan.principal + current_interest;
        if borrower_balance < total_repayment {
            return Err(Error::InsufficientBalance);
        }
        self.loans[idx] = Loan { is_repaid: true, ..loan };
        Ok(total_repayment)
    }

    pub open spec fn liquidate_outcome(self, loan_id: u64, now: u64) -> Result<i128, Error> {
        if self.paused {
            Err(Error::ContractPaused)
        } else if !self.has_loan(loan_id) {
            Err(Error::LoanNotFound)
        } else if self.loan_at(loan_id).is_repaid {
            Err(Error::LoanAlreadyRepaid)
        } else if self.loan_at(loan_id).is_defaulted {
            Err(Error::LoanDefaulted)
        } else if now <= self.loan_at(loan_id).due_date {
            Err(Error::CannotLiquidateHealthyLoan)
        } else if !self.initialized() {
            Err(Error::NotInitialized)
        } else {
            Ok(self.loan_at(loan_id).principal)
        }
    }

    /// Liquidate the active loan `loan_id`, permitted only strictly past its
    /// due date. On `Ok(principal)` the loan is marked defaulted and the
    /// caller owes a transfer of `principal` from the self-authorized
    /// liquidator to the pool, against which the liquidator takes over the
    /// claim on the collateral; on `Err` nothing changes and nothing moves.
    pub fn liquidate(&mut self, loan_id: u64, now: u64) -> (r: Result<i128, Error>)
        requires
            old(self).wf(),
        ensures
            final(self).wf(),
            r == old(self).liquidate_outcome(loan_id, now),
            r is Ok ==> final(self).loans@ == old(self).loans@.update(
                loan_id - 1,
                mark_defaulted(old(self).loan_at(loan_id)),
            ),
            r is Err ==> *final(self) == *old(self),
            final(self).admin == old(self).admin,
            final(self).token_address == old(self).token_address,
            final(self).paused == old(self).paused,
            final(self).backend_pubkey == old(self).backend_pubkey,
    {
        if self.paused {
            return Err(Error::ContractPaused);
        }
        if loan_id < 1 || (self.loans.len() as u64) < loan_id {
            return Err(Error::LoanNotFound);
        }
        let idx: usize = (loan_id - 1) as usize;
        let loan = self.loans[idx];
        if loan.is_repaid {
            return Err(Error::LoanAlreadyRepaid);
        }
        if loan.is_defaulted {
            return Err(Error::LoanDefaulted);
        }
        if now <= loan.due_date {
            return Err(Error::CannotLiquidateHealthyLoan);
        }
        if self.admin.is_none() {
            return Err(Error::NotInitialized);
        }
        self.loans[idx] = Loan { is_defaulted: true, ..loan };
        Ok(loan.principal)
    }

    pub open spec fn spec_get_loan(self, loan_id: u64) -> Option<Loan> {
        if self.has_loan(loan_id) {
            Some(self.loan_at(loan_id))
        } else {
            None
        }
    }

    /// The loan stored under `loan_id`, if any.
    pub fn get_loan(&self, loan_id: u64) -> (r: Option<Loan>)
        ensures
            r == self.spec_get_loan(loan_id),
    {
        if 1 <= loan_id && loan_id <= (self.loans.len() as u64) {
            Some(self.loans[(loan_id - 1) as usize])
        } else {
            None
        }
    }
}

/// Law: loan ids are the dense sequence 1, 2, 3, ... — strictly increasing,
/// unique, and starting at 1, over any run of successful creations.
pub proof fn lemma_loan_ids_sequential(p: LendingPool)
    requires
        p.wf(),
    ensures
        p.loans@.len() > 0 ==> p.loans@[0].id == 1,
        forall|i: int, j: int|
            0 <= i < j < p.loans@.len() ==> (#[trigger] p.loans@[i]).id < (
            #[trigger] p.loans@[j]).id,
{
}

/// Law: while the pool is paused, every gated operation fails with
/// `ContractPaused`, whatever its other arguments.
pub proof fn lemma_pause_gates_operations(
    p: LendingPool,
    caller: AccountId,
    counterparty: AccountId,
    amount: i128,
    balance: i128,
    loan_id: u64,
    now: u64,
)
    requires
        p.paused,
    ensures
        p.deposit_outcome(caller, counterparty) == Err::<(), Error>(Error::ContractPaused),
        p.borrow_outcome(caller, counterparty, amount, balance) == Err::<(), Error>(
            Error::ContractPaused,
        ),
        p.create_loan_outcome(caller, counterparty) == Err::<u64, Error>(Error::ContractPaused),
        p.repay_loan_outcome(caller, loan_id, balance, now) == Err::<i128, Error>(
            Error::ContractPaused,
        ),
        p.liquidate_outcome(loan_id, now) == Err::<i128, Error>(Error::ContractPaused),
{
}

/// Law: a successful `init` is final. On the state it leaves, a second
/// `init` fails with `AlreadyInitialized`, and the admin and asset the first
/// call stored still stand.
pub proof fn lemma_init_is_single_shot(
    pre: LendingPool,
    post: LendingPool,
    admin: AccountId,
    token_address: AccountId,
)
    requires
        pre.init_outcome() is Ok,
        post.admin == Some(admin),
        post.token_address == Some(token_address),
    ensures
        post.init_outcome() == Err::<(), Error>(Error::AlreadyInitialized),
        post.admin == Some(admin),
        post.token_address == Some(token_address),
{
}

/// Law: the interest snapshot stored at creation is informational, not
/// authoritative — repayment recomputes — but the two agree on the full
/// term: a repayment falling exactly on the due date owes exactly the
/// principal plus the stored snapshot.
pub proof fn lemma_snapshot_matches_full_term_repayment(
    p: LendingPool,
    caller: AccountId,
    loan_id: u64,
    borrower_balance: i128,
)
    requires
        p.wf(),
        p.has_loan(loan_id),
        p.repay_accrual_fits(caller, loan_id, p.loan_at(loan_id).due_date),
        p.repay_loan_outcome(caller, loan_id, borrower_balance, p.loan_at(loan_id).due_date)
            is Ok,
    ensures
        p.repay_loan_outcome(caller, loan_id, borrower_balance, p.loan_at(loan_id).due_date)
            matches Ok(total) && total == p.loan_at(loan_id).principal + p.loan_at(
            loan_id,
        ).interest,
{
}

/// Law: repayment is single-use. After a successful `repay_loan` on
/// `loan_id` (`post` being the state it leaves), every further `repay_loan`
/// on that loan fails with `LoanAlreadyRepaid` and every `liquidate` on it
/// fails the same way — so nothing is transferred twice.
pub proof fn lemma_repaid_loan_is_terminal(
    pre: LendingPool,
    post: LendingPool,
    caller: AccountId,
    loan_id: u64,
    borrower_balance: i128,
    now: u64,
)
    requires
        pre.wf(),
        pre.repay_loan_outcome(caller, loan_id, borrower_balance, now) is Ok,
        post.loans@ == pre.loans@.update(loan_id - 1, mark_repaid(pre.loan_at(loan_id))),
        post.paused == pre.paused,
    ensures
        forall|c2: AccountId, b2: i128, n2: u64|
            post.repay_loan_outcome(c2, loan_id, b2, n2) == Err::<i128, Error>(
                Error::LoanAlreadyRepaid,
            ),
        forall|n2: u64|
            post.liquidate_outcome(loan_id, n2) == Err::<i128, Error>(Error::LoanAlreadyRepaid),
{
}

/// Law: liquidation is terminal. After a successful `liquidate` on
/// `loan_id` (`post` being the state it leaves), every further `repay_loan`
/// or `liquidate` on that loan fails with `LoanDefaulted`.
pub proof fn lemma_defaulted_loan_is_terminal(
    pre: LendingPool,
    post: LendingPool,
    loan_id: u64,
    now: u64,
)
    requires
        pre.wf(),
        pre.liquidate_outcome(loan_id, now) is Ok,
        post.loans@ == pre.loans@.update(loan_id - 1, mark_defaulted(pre.loan_at(loan_id))),
        post.paused == pre.paused,
    ensures
        forall|c2: AccountId, b2: i128, n2: u64|
            post.repay_loan_outcome(c2, loan_id, b2, n2) == Err::<i128, Error>(
                Error::LoanDefaulted,
            ),
        forall|n2: u64|
            post.liquidate_outcome(loan_id, n2) == Err::<i128, Error>(Error::LoanDefaulted),
{
}

} // verus!
