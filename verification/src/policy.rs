//! The borrow-limit policy: a cap on each loan and a cap on what is borrowed
//! within a time window, for one account and rule.

use vstd::prelude::*;
use crate::math::fits_i128;

verus! {

/// Why the policy refuses.
#[derive(Copy, Clone, Debug, PartialEq, Eq, Structural)]
pub enum PolicyError {
    /// The caller may not do this.
    Unauthorized,
    /// The loan exceeds the cap on one transaction.
    ExceedsPerTxLimit,
    /// The loan would exceed the cap on the window.
    ExceedsCumulativeLimit,
    /// A limit or the window is not positive, or the loan is not.
    InvalidParams,
    /// The policy is not installed for this account and rule.
    NotInstalled,
    /// The call is no loan: it has fewer than two arguments, or its second
    /// is no amount.
    InvalidFunction,
    /// The contract is initialised already.
    AlreadyInitialized,
}

impl PolicyError {
    /// The number by which the error is known outside.
    pub fn code(&self) -> (r: u32)
        ensures
            r == match *self {
                PolicyError::Unauthorized => 1u32,
                PolicyError::ExceedsPerTxLimit => 2u32,
                PolicyError::ExceedsCumulativeLimit => 3u32,
                PolicyError::InvalidParams => 4u32,
                PolicyError::NotInstalled => 5u32,
                PolicyError::InvalidFunction => 6u32,
                PolicyError::AlreadyInitialized => 7u32,
            },
    {
        match self {
            PolicyError::Unauthorized => 1,
            PolicyError::ExceedsPerTxLimit => 2,
            PolicyError::ExceedsCumulativeLimit => 3,
            PolicyError::InvalidParams => 4,
            PolicyError::NotInstalled => 5,
            PolicyError::InvalidFunction => 6,
            PolicyError::AlreadyInitialized => 7,
        }
    }
}

/// The limits of one account and rule.
#[derive(Copy, Clone, Debug, PartialEq, Eq, Structural)]
pub struct BorrowLimitConfig {
    /// The most that one loan may be.
    pub max_per_tx: i128,
    /// The most that may be borrowed within one window.
    pub max_cumulative: i128,
    /// The length of the window in seconds.
    pub time_window: u64,
}

/// What has been borrowed in the current window.
#[derive(Copy, Clone, Debug, PartialEq, Eq, Structural)]
pub struct BorrowUsage {
    pub cumulative_borrowed: i128,
    /// When the current window began.
    pub window_start: u64,
}

impl Default for BorrowUsage {
    fn default() -> (r: BorrowUsage)
        ensures
            r == (BorrowUsage { cumulative_borrowed: 0, window_start: 0 }),
    {
        BorrowUsage { cumulative_borrowed: 0, window_start: 0 }
    }
}

/// The limits asked for at installation.
#[derive(Copy, Clone, Debug, PartialEq, Eq, Structural)]
pub struct InstallParams {
    pub max_per_tx: i128,
    pub max_cumulative: i128,
    pub time_window: u64,
}

/// Both limits and the window are positive.
pub open spec fn params_valid(params: InstallParams) -> bool {
    params.max_per_tx > 0 && params.max_cumulative > 0 && params.time_window != 0
}

/// The limits that `params` asks for.
pub open spec fn config_of(params: InstallParams) -> BorrowLimitConfig {
    BorrowLimitConfig {
        max_per_tx: params.max_per_tx,
        max_cumulative: params.max_cumulative,
        time_window: params.time_window,
    }
}

/// The usage on record, or an empty one from time 0 where none is.
pub open spec fn usage_or_default(usage: Option<BorrowUsage>) -> BorrowUsage {
    match usage {
        Some(u) => u,
        None => BorrowUsage { cumulative_borrowed: 0, window_start: 0 },
    }
}

/// The window of `usage` is over at `now`.
pub open spec fn window_expired(config: BorrowLimitConfig, usage: BorrowUsage, now: u64) -> bool {
    now >= usage.window_start + config.time_window
}

/// What counts as borrowed at `now`: nothing once the window is over.
pub open spec fn borrowed_in_window(config: BorrowLimitConfig, usage: BorrowUsage, now: u64) -> int {
    if window_expired(config, usage, now) {
        0
    } else {
        usage.cumulative_borrowed as int
    }
}

/// The amount of the loan that a call asks for.
///
/// `args_len` is the number of the call's arguments and `amount` its second
/// argument read as an amount, if it is one.
pub open spec fn borrow_amount(args_len: u32, amount: Option<i128>) -> Result<i128, PolicyError> {
    if args_len < 2 || amount.is_none() {
        Err(PolicyError::InvalidFunction)
    } else if amount.unwrap() <= 0 {
        Err(PolicyError::InvalidParams)
    } else {
        Ok(amount.unwrap())
    }
}

/// Whether the policy would let the call pass, or why it cannot say.
pub open spec fn can_enforce_answer(
    config: Option<BorrowLimitConfig>,
    usage: Option<BorrowUsage>,
    args_len: u32,
    amount: Option<i128>,
    now: u64,
) -> Result<bool, PolicyError> {
    if config.is_none() {
        Err(PolicyError::NotInstalled)
    } else if borrow_amount(args_len, amount).is_err() {
        Err(borrow_amount(args_len, amount).unwrap_err())
    } else if amount.unwrap() > config.unwrap().max_per_tx {
        Ok(false)
    } else {
        Ok(
            borrowed_in_window(config.unwrap(), usage_or_default(usage), now) + amount.unwrap()
                <= config.unwrap().max_cumulative,
        )
    }
}

/// The usage after the call has passed, or why it did not.
pub open spec fn enforce_answer(
    config: Option<BorrowLimitConfig>,
    usage: Option<BorrowUsage>,
    args_len: u32,
    amount: Option<i128>,
    now: u64,
) -> Result<BorrowUsage, PolicyError> {
    let previous = usage_or_default(usage);
    if config.is_none() {
        Err(PolicyError::NotInstalled)
    } else if borrow_amount(args_len, amount).is_err() {
        Err(borrow_amount(args_len, amount).unwrap_err())
    } else if amount.unwrap() > config.unwrap().max_per_tx {
        Err(PolicyError::ExceedsPerTxLimit)
    } else if borrowed_in_window(config.unwrap(), previous, now) + amount.unwrap()
        > config.unwrap().max_cumulative {
        Err(PolicyError::ExceedsCumulativeLimit)
    } else {
        Ok(
            BorrowUsage {
                cumulative_borrowed: (borrowed_in_window(config.unwrap(), previous, now)
                    + amount.unwrap()) as i128,
                window_start: if window_expired(config.unwrap(), previous, now) {
                    now
                } else {
                    previous.window_start
                },
            },
        )
    }
}

/// What may still be borrowed in one loan at `now`.
pub open spec fn remaining(config: BorrowLimitConfig, usage: BorrowUsage, now: u64) -> int {
    let left = config.max_cumulative - borrowed_in_window(config, usage, now);
    let capped = if left < config.max_per_tx {
        left
    } else {
        config.max_per_tx as int
    };
    if capped > 0 {
        capped
    } else {
        0
    }
}

/// A loan can be decided: where the policy gets as far as the window, the
/// window's end can be held in a `u64` and the sum with the loan in an
/// `i128`.
pub open spec fn loan_computes(
    config: Option<BorrowLimitConfig>,
    usage: Option<BorrowUsage>,
    args_len: u32,
    amount: Option<i128>,
    now: u64,
) -> bool {
    config.is_some() && borrow_amount(args_len, amount).is_ok() && amount.unwrap()
        <= config.unwrap().max_per_tx ==> usage_or_default(usage).window_start
        + config.unwrap().time_window <= u64::MAX && fits_i128(
        borrowed_in_window(config.unwrap(), usage_or_default(usage), now) + amount.unwrap(),
    )
}

/// What is left can be computed: the window's end can be held in a `u64`
/// and what is left of the cap in an `i128`.
pub open spec fn capacity_computes(config: Option<BorrowLimitConfig>, usage: Option<BorrowUsage>, now: u64) -> bool {
    config.is_some() ==> usage_or_default(usage).window_start + config.unwrap().time_window
        <= u64::MAX && fits_i128(
        config.unwrap().max_cumulative - borrowed_in_window(
            config.unwrap(),
            usage_or_default(usage),
            now,
        ),
    )
}

/// The namespace of the policy's rules.
pub struct BorrowLimitPolicy;

impl BorrowLimitPolicy {
    /// Whether the contract may be initialised: only once.
    pub fn initialize(initialized: bool) -> (r: Result<(), PolicyError>)
        ensures
            r == if initialized {
                Err::<(), PolicyError>(PolicyError::AlreadyInitialized)
            } else {
                Ok::<(), PolicyError>(())
            },
    {
        if initialized {
            Err(PolicyError::AlreadyInitialized)
        } else {
            Ok(())
        }
    }

    /// Installs the policy at `now`: the limits become the configuration and
    /// the usage starts empty. Limits and window must be positive.
    pub fn install(params: InstallParams, now: u64) -> (r: Result<
        (BorrowLimitConfig, BorrowUsage),
        PolicyError,
    >)
        ensures
            !params_valid(params) ==> r == Err::<(BorrowLimitConfig, BorrowUsage), PolicyError>(
                PolicyError::InvalidParams,
            ),
            params_valid(params) ==> r == Ok::<(BorrowLimitConfig, BorrowUsage), PolicyError>(
                (config_of(params), BorrowUsage { cumulative_borrowed: 0, window_start: now }),
            ),
    {
        if params.max_per_tx <= 0 || params.max_cumulative <= 0 || params.time_window == 0 {
            return Err(PolicyError::InvalidParams);
        }
        let config = BorrowLimitConfig {
            max_per_tx: params.max_per_tx,
            max_cumulative: params.max_cumulative,
            time_window: params.time_window,
        };
        let usage = BorrowUsage { cumulative_borrowed: 0, window_start: now };
        Ok((config, usage))
    }

    /// Replaces the limits; the usage is not touched. Limits and window must
    /// be positive.
    pub fn update_config(params: InstallParams) -> (r: Result<BorrowLimitConfig, PolicyError>)
        ensures
            !params_valid(params) ==> r == Err::<BorrowLimitConfig, PolicyError>(
                PolicyError::InvalidParams,
            ),
            params_valid(params) ==> r == Ok::<BorrowLimitConfig, PolicyError>(config_of(params)),
    {
        if params.max_per_tx <= 0 || params.max_cumulative <= 0 || params.time_window == 0 {
            return Err(PolicyError::InvalidParams);
        }
        Ok(
            BorrowLimitConfig {
                max_per_tx: params.max_per_tx,
                max_cumulative: params.max_cumulative,
                time_window: params.time_window,
            },
        )
    }

    /// The amount of the loan that a call asks for.
    pub fn extract_borrow_amount(args_len: u32, amount: Option<i128>) -> (r: Result<i128, PolicyError>)
        ensures
            r == borrow_amount(args_len, amount),
    {
        if args_len < 2 {
            return Err(PolicyError::InvalidFunction);
        }
        match amount {
            None => Err(PolicyError::InvalidFunction),
            Some(value) => {
                if value <= 0 {
                    Err(PolicyError::InvalidParams)
                } else {
                    Ok(value)
                }
            },
        }
    }

    /// Whether a loan can be decided: whether `can_enforce` and `enforce`
    /// may be called.
    pub fn loan_computable(
        config: Option<BorrowLimitConfig>,
        usage: Option<BorrowUsage>,
        args_len: u32,
        amount: Option<i128>,
        now: u64,
    ) -> (ok: bool)
        ensures
            ok == loan_computes(config, usage, args_len, amount, now),
    {
        let limits = match config {
            Some(c) => c,
            None => {
                return true;
            },
        };
        let value: i128 = match Self::extract_borrow_amount(args_len, amount) {
            Ok(v) => v,
            Err(_) => {
                return true;
            },
        };
        if value > limits.max_per_tx {
            return true;
        }
        let current = match usage {
            Some(u) => u,
            None => BorrowUsage { cumulative_borrowed: 0, window_start: 0 },
        };
        match current.window_start.checked_add(limits.time_window) {
            Some(end) => {
                let borrowed: i128 = if now >= end { 0 } else { current.cumulative_borrowed };
                borrowed.checked_add(value).is_some()
            },
            None => false,
        }
    }

    /// Whether what is left can be computed: whether `remaining_capacity`
    /// may be called.
    pub fn capacity_computable(
        config: Option<BorrowLimitConfig>,
        usage: Option<BorrowUsage>,
        now: u64,
    ) -> (ok: bool)
        ensures
            ok == capacity_computes(config, usage, now),
    {
        let limits = match config {
            Some(c) => c,
            None => {
                return true;
            },
        };
        let current = match usage {
            Some(u) => u,
            None => BorrowUsage { cumulative_borrowed: 0, window_start: 0 },
        };
        match current.window_start.checked_add(limits.time_window) {
            Some(end) => {
                let borrowed: i128 = if now >= end { 0 } else { current.cumulative_borrowed };
                limits.max_cumulative.checked_sub(borrowed).is_some()
            },
            None => false,
        }
    }

    /// Whether the loan would pass, without recording it.
    pub fn can_enforce(
        config: Option<BorrowLimitConfig>,
        usage: Option<BorrowUsage>,
        args_len: u32,
        amount: Option<i128>,
        now: u64,
    ) -> (r: Result<bool, PolicyError>)
        requires
            loan_computes(config, usage, args_len, amount, now),
        ensures
            r == can_enforce_answer(config, usage, args_len, amount, now),
    {
        let limits = match config {
            Some(c) => c,
            None => {
                return Err(PolicyError::NotInstalled);
            },
        };
        let value: i128 = match Self::extract_borrow_amount(args_len, amount) {
            Ok(v) => v,
            Err(e) => {
                return Err(e);
            },
        };
        if value > limits.max_per_tx {
            return Ok(false);
        }
        let mut current = match usage {
            Some(u) => u,
            None => BorrowUsage { cumulative_borrowed: 0, window_start: 0 },
        };
        if now >= current.window_start + limits.time_window {
            current.cumulative_borrowed = 0;
        }
        if current.cumulative_borrowed + value > limits.max_cumulative {
            return Ok(false);
        }
        Ok(true)
    }

    /// Lets the loan pass and records it, or refuses it. An expired window
    /// starts anew at `now`. The usage to store comes back.
    pub fn enforce(
        config: Option<BorrowLimitConfig>,
        usage: Option<BorrowUsage>,
        args_len: u32,
        amount: Option<i128>,
        now: u64,
    ) -> (r: Result<BorrowUsage, PolicyError>)
        requires
            loan_computes(config, usage, args_len, amount, now),
        ensures
            r == enforce_answer(config, usage, args_len, amount, now),
    {
        let limits = match config {
            Some(c) => c,
            None => {
                return Err(PolicyError::NotInstalled);
            },
        };
        let value: i128 = match Self::extract_borrow_amount(args_len, amount) {
            Ok(v) => v,
            Err(e) => {
                return Err(e);
            },
        };
        if value > limits.max_per_tx {
            return Err(PolicyError::ExceedsPerTxLimit);
        }
        let mut current = match usage {
            Some(u) => u,
            None => BorrowUsage { cumulative_borrowed: 0, window_start: 0 },
        };
        if now >= current.window_start + limits.time_window {
            current.cumulative_borrowed = 0;
            current.window_start = now;
        }
        if current.cumulative_borrowed + value > limits.max_cumulative {
            return Err(PolicyError::ExceedsCumulativeLimit);
        }
        current.cumulative_borrowed = current.cumulative_borrowed + value;
        Ok(current)
    }

    /// What one loan may still be at `now`: what is left of the window's
    /// cap, held to the cap on one transaction and to zero from below.
    pub fn remaining_capacity(
        config: Option<BorrowLimitConfig>,
        usage: Option<BorrowUsage>,
        now: u64,
    ) -> (r: Result<i128, PolicyError>)
        requires
            capacity_computes(config, usage, now),
        ensures
            config.is_none() ==> r == Err::<i128, PolicyError>(PolicyError::NotInstalled),
            config.is_some() ==> r.is_ok() && r.unwrap() == remaining(
                config.unwrap(),
                usage_or_default(usage),
                now,
            ),
    {
        let limits = match config {
            Some(c) => c,
            None => {
                return Err(PolicyError::NotInstalled);
            },
        };
        let mut current = match usage {
            Some(u) => u,
            None => BorrowUsage { cumulative_borrowed: 0, window_start: 0 },
        };
        if now >= current.window_start + limits.time_window {
            current.cumulative_borrowed = 0;
        }
        let left: i128 = limits.max_cumulative - current.cumulative_borrowed;
        let capped: i128 = if left < limits.max_per_tx { left } else { limits.max_per_tx };
        Ok(if capped > 0 { capped } else { 0 })
    }
}

} // verus!
