//! Flashloan token: uncollateralised loans that must be repaid, with a fee,
//! within the transaction that takes them.
//!
//! Security invariants:
//! 1. Atomicity: borrow and repay happen in one transaction; a failed step
//!    aborts the transaction, so its storage changes are discarded.
//! 2. Fee enforcement: the contract checks `repaid >= borrowed + fee`.
//! 3. Re-entrancy guard: a lock prevents a loan from starting while another
//!    is in progress.
//! 4. Admin auth: only the admin can change the fee rate or pause.
//!
//! The contract's storage is `FlashloanToken`; each entry point is a
//! transition of it. Token transfers, the receiver callback, balance reads,
//! authorisation and events are the host's work, done between the steps.
use vstd::prelude::*;
use crate::account::AccountId;

verus! {

/// Default fee: 9 basis points (0.09 %).
pub const DEFAULT_FEE_BPS: u32 = 9;

/// Maximum allowed fee: 100 bps (1 %).
pub const MAX_FEE_BPS: u32 = 100;

/// Basis-point denominator.
pub const BPS_DENOM: i128 = 10_000;

/// Why a flashloan operation fails.
#[derive(Clone, Copy, Debug, PartialEq, Eq, Structural)]
pub enum FlashloanError {
    /// Contract is paused by admin.
    Paused,
    /// A flashloan is already in progress (re-entrancy guard).
    Locked,
    /// Requested amount is zero.
    ZeroAmount,
    /// Repayment is less than borrowed + fee.
    InsufficientRepayment,
    /// Fee rate exceeds the allowed maximum.
    FeeTooHigh,
    /// Contract not yet initialised.
    NotInitialised,
}

/// The contract's storage entries (absent ones are `None`).
pub struct FlashloanToken {
    /// Contract administrator.
    pub admin: Option<AccountId>,
    /// Fee in basis points.
    pub fee_bps: Option<u32>,
    /// Emergency pause flag.
    pub paused: Option<bool>,
    /// Re-entrancy mutex.
    pub locked: Option<bool>,
    /// Accumulated fees collected.
    pub total_fees: Option<i128>,
    /// Total number of flashloans.
    pub total_loans: Option<u32>,
}

/// The storage as plain values.
pub struct FlashloanState {
    pub admin: Option<Seq<u8>>,
    pub fee_bps: Option<u32>,
    pub paused: Option<bool>,
    pub locked: Option<bool>,
    pub total_fees: Option<i128>,
    pub total_loans: Option<u32>,
}

impl View for FlashloanToken {
    type V = FlashloanState;

    open spec fn view(&self) -> FlashloanState {
        FlashloanState {
            admin: match self.admin {
                Some(a) => Some(a@),
                None => None,
            },
            fee_bps: self.fee_bps,
            paused: self.paused,
            locked: self.locked,
            total_fees: self.total_fees,
            total_loans: self.total_loans,
        }
    }
}

/// The fee rate in force (the default when none is stored).
pub open spec fn fee_rate(s: FlashloanState) -> u32 {
    match s.fee_bps {
        Some(f) => f,
        None => DEFAULT_FEE_BPS,
    }
}

/// Whether the contract is paused (not when no flag is stored).
pub open spec fn paused_flag(s: FlashloanState) -> bool {
    match s.paused {
        Some(p) => p,
        None => false,
    }
}

/// Whether a flashloan is in progress (not when no flag is stored).
pub open spec fn locked_flag(s: FlashloanState) -> bool {
    match s.locked {
        Some(l) => l,
        None => false,
    }
}

/// `x`, clamped to the range of `i128`.
pub open spec fn clamp_i128(x: int) -> i128 {
    if x > i128::MAX {
        i128::MAX
    } else if x < i128::MIN {
        i128::MIN
    } else {
        x as i128
    }
}

/// `x`, clamped to the range of `u32`.
pub open spec fn clamp_u32(x: int) -> u32 {
    if x > u32::MAX {
        u32::MAX
    } else {
        x as u32
    }
}

/// The fee charged on a loan of `amount` at `rate` basis points (rounded
/// toward zero).
pub open spec fn loan_fee(amount: i128, rate: u32) -> int {
    (amount * rate) / (BPS_DENOM as int)
}

/// The state after `initialize`, or the error.
pub open spec fn initialize_result(s: FlashloanState, admin: Seq<u8>, fee_bps: u32) -> Result<
    FlashloanState,
    FlashloanError,
> {
    if fee_bps > MAX_FEE_BPS {
        Err(FlashloanError::FeeTooHigh)
    } else {
        Ok(
            FlashloanState {
                admin: Some(admin),
                fee_bps: Some(fee_bps),
                paused: Some(false),
                locked: Some(false),
                total_fees: Some(0),
                total_loans: Some(0),
            },
        )
    }
}

/// The state after `set_fee`, or the error.
pub open spec fn set_fee_result(s: FlashloanState, new_fee_bps: u32) -> Result<FlashloanState, FlashloanError> {
    if s.admin is None {
        Err(FlashloanError::NotInitialised)
    } else if new_fee_bps > MAX_FEE_BPS {
        Err(FlashloanError::FeeTooHigh)
    } else {
        Ok(FlashloanState { fee_bps: Some(new_fee_bps), ..s })
    }
}

/// The state after `set_paused`, or the error.
pub open spec fn set_paused_result(s: FlashloanState, paused: bool) -> Result<FlashloanState, FlashloanError> {
    if s.admin is None {
        Err(FlashloanError::NotInitialised)
    } else {
        Ok(FlashloanState { paused: Some(paused), ..s })
    }
}

/// The fee and the state once a loan of `amount` has started, or the error.
pub open spec fn flashloan_result(s: FlashloanState, amount: i128) -> Result<(i128, FlashloanState), FlashloanError> {
    if paused_flag(s) {
        Err(FlashloanError::Paused)
    } else if locked_flag(s) {
        Err(FlashloanError::Locked)
    } else if amount <= 0 {
        Err(FlashloanError::ZeroAmount)
    } else {
        Ok((loan_fee(amount, fee_rate(s)) as i128, FlashloanState { locked: Some(true), ..s }))
    }
}

/// The fee collected and the state once a loan is settled, or the error.
pub open spec fn settle_result(s: FlashloanState, fee: i128, balance_before: i128, balance_after: i128) -> Result<
    (i128, FlashloanState),
    FlashloanError,
> {
    if balance_after < balance_before + fee {
        Err(FlashloanError::InsufficientRepayment)
    } else {
        let collected = (balance_after - balance_before) as i128;
        let fees = match s.total_fees {
            Some(f) => f,
            None => 0,
        };
        let loans = match s.total_loans {
            Some(n) => n,
            None => 0,
        };
        Ok(
            (
                collected,
                FlashloanState {
                    total_fees: Some(clamp_i128(fees + collected)),
                    total_loans: Some(clamp_u32(loans + 1)),
                    locked: Some(false),
                    ..s
                },
            ),
        )
    }
}

/// `a + b` for `i128`, saturating at the bounds.
fn saturating_add_i128(a: i128, b: i128) -> (r: i128)
    ensures
        r == clamp_i128(a + b),
{
    match a.checked_add(b) {
        Some(x) => x,
        None => if b > 0 {
            i128::MAX
        } else {
            i128::MIN
        },
    }
}

impl FlashloanToken {
    /// Storage of a contract that was never initialised.
    pub fn empty() -> (r: Self)
        ensures
            r@ == (FlashloanState {
                admin: None,
                fee_bps: None,
                paused: None,
                locked: None,
                total_fees: None,
                total_loans: None,
            }),
    {
        FlashloanToken {
            admin: None,
            fee_bps: None,
            paused: None,
            locked: None,
            total_fees: None,
            total_loans: None,
        }
    }

    /// Initialise the contract. Can only be called once (the caller aborts
    /// when an admin is already stored).
    pub fn initialize(&mut self, admin: AccountId, fee_bps: u32) -> (r: Result<(), FlashloanError>)
        requires
            old(self).admin is None,
        ensures
            match initialize_result(old(self)@, admin@, fee_bps) {
                Ok(s) => r is Ok && final(self)@ == s,
                Err(e) => r == Err::<(), FlashloanError>(e) && final(self)@ == old(self)@,
            },
    {
        if fee_bps > MAX_FEE_BPS {
            return Err(FlashloanError::FeeTooHigh);
        }
        self.admin = Some(admin);
        self.fee_bps = Some(fee_bps);
        self.paused = Some(false);
        self.locked = Some(false);
        self.total_fees = Some(0);
        self.total_loans = Some(0);
        Ok(())
    }

    /// The admin who must authorise an admin operation.
    pub fn require_admin(&self) -> (r: Result<AccountId, FlashloanError>)
        ensures
            match self.admin {
                Some(a) => r matches Ok(x) && x@ == a@,
                None => r == Err::<AccountId, FlashloanError>(FlashloanError::NotInitialised),
            },
    {
        match &self.admin {
            Some(a) => Ok(a.duplicate()),
            None => Err(FlashloanError::NotInitialised),
        }
    }

    /// Change the fee rate. Only the admin may call it.
    pub fn set_fee(&mut self, new_fee_bps: u32) -> (r: Result<(), FlashloanError>)
        ensures
            match set_fee_result(old(self)@, new_fee_bps) {
                Ok(s) => r is Ok && final(self)@ == s,
                Err(e) => r == Err::<(), FlashloanError>(e) && final(self)@ == old(self)@,
            },
    {
        let _admin = self.require_admin()?;
        if new_fee_bps > MAX_FEE_BPS {
            return Err(FlashloanError::FeeTooHigh);
        }
        self.fee_bps = Some(new_fee_bps);
        Ok(())
    }

    /// Pause / unpause the contract. Only the admin may call it.
    pub fn set_paused(&mut self, paused: bool) -> (r: Result<(), FlashloanError>)
        ensures
            match set_paused_result(old(self)@, paused) {
                Ok(s) => r is Ok && final(self)@ == s,
                Err(e) => r == Err::<(), FlashloanError>(e) && final(self)@ == old(self)@,
            },
    {
        let _admin = self.require_admin()?;
        self.paused = Some(paused);
        Ok(())
    }

    /// Fails when the contract is paused.
    pub fn assert_not_paused(&self) -> (r: Result<(), FlashloanError>)
        ensures
            r == if paused_flag(self@) {
                Err::<(), FlashloanError>(FlashloanError::Paused)
            } else {
                Ok(())
            },
    {
        let paused = match self.paused {
            Some(p) => p,
            None => false,
        };
        if paused {
            Err(FlashloanError::Paused)
        } else {
            Ok(())
        }
    }

    /// Takes the re-entrancy lock; fails when it is already held.
    pub fn acquire_lock(&mut self) -> (r: Result<(), FlashloanError>)
        ensures
            locked_flag(old(self)@) ==> r == Err::<(), FlashloanError>(FlashloanError::Locked)
                && final(self)@ == old(self)@,
            !locked_flag(old(self)@) ==> r is Ok && final(self)@ == (FlashloanState {
                locked: Some(true),
                ..old(self)@
            }),
    {
        let locked = match self.locked {
            Some(l) => l,
            None => false,
        };
        if locked {
            return Err(FlashloanError::Locked);
        }
        self.locked = Some(true);
        Ok(())
    }

    /// Releases the re-entrancy lock.
    pub fn release_lock(&mut self)
        ensures
            final(self)@ == (FlashloanState { locked: Some(false), ..old(self)@ }),
    {
        self.locked = Some(false);
    }

    /// Start a flashloan of `amount`: checks the pause flag, takes the lock
    /// and returns the fee the receiver must pay on top of the loan. The
    /// caller then transfers the loan, calls the receiver and settles with
    /// `settle_flashloan`. (The caller aborts with "fee overflow" when
    /// `amount * fee rate` does not fit in `i128`.)
    pub fn flashloan(&mut self, amount: i128) -> (r: Result<i128, FlashloanError>)
        requires
            !paused_flag(old(self)@) && !locked_flag(old(self)@) && amount > 0 ==> amount * fee_rate(
                old(self)@,
            ) <= i128::MAX,
        ensures
            match flashloan_result(old(self)@, amount) {
                Ok((fee, s)) => r == Ok::<i128, FlashloanError>(fee) && final(self)@ == s,
                Err(e) => r == Err::<i128, FlashloanError>(e) && final(self)@ == old(self)@,
            },
    {
        self.assert_not_paused()?;
        let locked = match self.locked {
            Some(l) => l,
            None => false,
        };
        if locked {
            return Err(FlashloanError::Locked);
        }
        if amount <= 0 {
            return Err(FlashloanError::ZeroAmount);
        }
        self.acquire_lock()?;
        let fee_bps: u32 = self.fee_bps();
        let rate: i128 = fee_bps as i128;
        assert(amount * rate >= 0) by (nonlinear_arith)
            requires
                amount > 0,
                rate >= 0,
        ;
        let fee: i128 = amount * rate / BPS_DENOM;
        Ok(fee)
    }

    /// Settle a flashloan: with the contract's token balance before the loan
    /// and after the receiver returned, checks that at least the fee came
    /// back, records the collected fee and the loan, and releases the lock.
    /// Returns the fee collected. (The caller aborts with "repayment
    /// overflow" when `balance_before + fee` does not fit in `i128`.)
    pub fn settle_flashloan(&mut self, fee: i128, balance_before: i128, balance_after: i128) -> (r: Result<
        i128,
        FlashloanError,
    >)
        requires
            i128::MIN <= balance_before + fee <= i128::MAX,
            balance_after >= balance_before + fee ==> balance_after - balance_before <= i128::MAX,
        ensures
            match settle_result(old(self)@, fee, balance_before, balance_after) {
                Ok((c, s)) => r == Ok::<i128, FlashloanError>(c) && final(self)@ == s,
                Err(e) => r == Err::<i128, FlashloanError>(e) && final(self)@ == old(self)@,
            },
    {
        let required_repayment = balance_before + fee;
        if balance_after < required_repayment {
            return Err(FlashloanError::InsufficientRepayment);
        }
        let collected_fee = balance_after - balance_before;
        let prev_fees: i128 = match self.total_fees {
            Some(f) => f,
            None => 0,
        };
        self.total_fees = Some(saturating_add_i128(prev_fees, collected_fee));
        let prev_loans: u32 = match self.total_loans {
            Some(n) => n,
            None => 0,
        };
        self.total_loans = Some(prev_loans.saturating_add(1));
        self.release_lock();
        Ok(collected_fee)
    }

    /// Returns the current fee rate in basis points.
    pub fn fee_bps(&self) -> (r: u32)
        ensures
            r == fee_rate(self@),
    {
        match self.fee_bps {
            Some(f) => f,
            None => DEFAULT_FEE_BPS,
        }
    }

    /// Returns whether the contract is paused.
    pub fn is_paused(&self) -> (r: bool)
        ensures
            r == paused_flag(self@),
    {
        match self.paused {
            Some(p) => p,
            None => false,
        }
    }

    /// Returns `(total_fees_collected, total_loans_count)`.
    pub fn stats(&self) -> (r: (i128, u32))
        ensures
            r.0 == (match self.total_fees {
                Some(f) => f,
                None => 0,
            }),
            r.1 == (match self.total_loans {
                Some(n) => n,
                None => 0,
            }),
    {
        let fees: i128 = match self.total_fees {
            Some(f) => f,
            None => 0,
        };
        let loans: u32 = match self.total_loans {
            Some(n) => n,
            None => 0,
        };
        (fees, loans)
    }
}

/// The stored fee rate, if any, is within the maximum.
pub open spec fn fee_within_max(s: FlashloanState) -> bool {
    match s.fee_bps {
        Some(f) => f <= MAX_FEE_BPS,
        None => true,
    }
}

/// The fee rate never exceeds the maximum: every operation keeps a stored
/// rate within `MAX_FEE_BPS`, and the rate in force is then at most the
/// maximum.
pub proof fn law_fee_rate_stays_within_maximum(
    s: FlashloanState,
    admin: Seq<u8>,
    fee_bps: u32,
    paused: bool,
    amount: i128,
    fee: i128,
    balance_before: i128,
    balance_after: i128,
)
    requires
        fee_within_max(s),
    ensures
        fee_rate(s) <= MAX_FEE_BPS,
        initialize_result(s, admin, fee_bps) matches Ok(t) ==> fee_within_max(t),
        set_fee_result(s, fee_bps) matches Ok(t) ==> fee_within_max(t),
        set_paused_result(s, paused) matches Ok(t) ==> fee_within_max(t),
        flashloan_result(s, amount) matches Ok((_, t)) ==> fee_within_max(t),
        settle_result(s, fee, balance_before, balance_after) matches Ok((_, t)) ==> fee_within_max(t),
{
}

/// While a loan is in progress no other loan can start: the re-entrancy
/// guard refuses it.
pub proof fn law_loan_in_progress_blocks_new_loans(s: FlashloanState, amount: i128, other_amount: i128)
    ensures
        flashloan_result(s, amount) matches Ok((_, t)) ==> flashloan_result(t, other_amount)
            == Err::<(i128, FlashloanState), FlashloanError>(FlashloanError::Locked),
{
}

/// A started loan charges the rate's share of the amount: a fee between 0
/// and 1 % of the amount when the rate is within the maximum.
pub proof fn law_fee_is_the_rate_share_of_the_amount(s: FlashloanState, amount: i128)
    requires
        fee_within_max(s),
        amount * fee_rate(s) <= i128::MAX,
    ensures
        flashloan_result(s, amount) matches Ok((fee, _)) ==> {
            &&& fee == (amount * fee_rate(s)) / 10_000
            &&& 0 <= fee
            &&& fee * 100 <= amount
        },
{
    if flashloan_result(s, amount) is Ok {
        let r = fee_rate(s);
        assert(0 <= (amount * r) / 10_000) by (nonlinear_arith)
            requires
                amount > 0,
                r >= 0,
        ;
        assert(((amount * r) / 10_000) * 100 <= amount) by (nonlinear_arith)
            requires
                amount > 0,
                0 <= r <= 100,
        ;
    }
}

/// A settled loan has been repaid with at least the fee, the collected fee
/// is what came back on top of the balance before, one more loan is
/// counted (up to the counter's maximum), and the lock is free again so the
/// next loan can start.
pub proof fn law_settled_loans_are_repaid(
    s: FlashloanState,
    fee: i128,
    balance_before: i128,
    balance_after: i128,
    next_amount: i128,
)
    requires
        next_amount > 0,
        !paused_flag(s),
        balance_after - balance_before <= i128::MAX,
    ensures
        settle_result(s, fee, balance_before, balance_after) matches Ok((collected, t)) ==> {
            &&& balance_after >= balance_before + fee
            &&& collected == balance_after - balance_before
            &&& collected >= fee
            &&& !locked_flag(t)
            &&& flashloan_result(t, next_amount) is Ok
            &&& t.total_loans == Some(
                clamp_u32(
                    match s.total_loans {
                        Some(n) => n as int,
                        None => 0,
                    } + 1,
                ),
            )
        },
        balance_after < balance_before + fee ==> settle_result(s, fee, balance_before, balance_after)
            == Err::<(i128, FlashloanState), FlashloanError>(FlashloanError::InsufficientRepayment),
{
}

/// Admin settings take effect: a successful fee change makes the requested
/// rate the one in force, so the next loan of `amount` is charged that
/// rate's share; a successful pause change sets the flag to the requested
/// value. Neither touches anything else, and initialisation puts the
/// requested rate in force.
pub proof fn law_settings_take_effect(
    s: FlashloanState,
    admin: Seq<u8>,
    new_fee_bps: u32,
    paused: bool,
    amount: i128,
)
    ensures
        set_fee_result(s, new_fee_bps) matches Ok(t) ==> {
            &&& fee_rate(t) == new_fee_bps
            &&& t.admin == s.admin && t.paused == s.paused && t.locked == s.locked
            &&& t.total_fees == s.total_fees && t.total_loans == s.total_loans
            &&& (amount * new_fee_bps <= i128::MAX ==> (flashloan_result(t, amount) matches Ok((fee, _)) ==> fee
                == (amount * new_fee_bps) / 10_000))
        },
        s.admin is Some && new_fee_bps <= MAX_FEE_BPS ==> set_fee_result(s, new_fee_bps) is Ok,
        set_paused_result(s, paused) matches Ok(t) ==> {
            &&& paused_flag(t) == paused
            &&& t.admin == s.admin && t.fee_bps == s.fee_bps && t.locked == s.locked
            &&& t.total_fees == s.total_fees && t.total_loans == s.total_loans
        },
        s.admin is Some ==> set_paused_result(s, paused) is Ok,
        initialize_result(s, admin, new_fee_bps) matches Ok(t) ==> fee_rate(t) == new_fee_bps && !paused_flag(
            t,
        ) && !locked_flag(t),
{
}

/// Admin operations never change who the admin is, and fail on a contract
/// without an admin.
pub proof fn law_admin_operations_keep_the_admin(s: FlashloanState, fee_bps: u32, paused: bool)
    ensures
        set_fee_result(s, fee_bps) matches Ok(t) ==> t.admin == s.admin,
        set_paused_result(s, paused) matches Ok(t) ==> t.admin == s.admin,
        s.admin is None ==> set_fee_result(s, fee_bps) == Err::<FlashloanState, FlashloanError>(
            FlashloanError::NotInitialised,
        ),
        s.admin is None ==> set_paused_result(s, paused) == Err::<FlashloanState, FlashloanError>(
            FlashloanError::NotInitialised,
        ),
{
}

} // verus!
