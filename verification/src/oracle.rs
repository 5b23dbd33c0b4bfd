//! The price and volatility tracker: a bounded history of prices per asset,
//! the annualised volatility over its last 7 and 30 samples, and the rules
//! under which a stored price is handed out.
//!
//! The history is a host vector of `soroban_sdk`; what this module knows of
//! it comes from the contracts of the functions that call it, which are
//! stated here and not proved.

use vstd::prelude::*;
use vstd::arithmetic::power::pow;
use crate::math::{
    fits_i128, fits_u32, floor_sqrt, lemma_floor_sqrt_bound, min_int, pow10, trunc_div,
};
use crate::volatility::{adjusted_ltv, calculate_adjusted_ltv};

verus! {

/// The most prices that a history keeps.
pub const MAX_HISTORY: u32 = 30;

/// The samples that the short volatility window needs.
pub const SHORT_WINDOW: u32 = 7;

/// The samples that the long volatility window needs.
pub const LONG_WINDOW: u32 = 30;

/// The floor of the loan-to-value ratio that the oracle applies (30%).
pub const ORACLE_MIN_LTV: u32 = 3000;

/// What a host vector shows at one position.
#[derive(Copy, Clone, Debug, PartialEq, Eq, Structural)]
enum HostRead {
    /// An item that is an `i128`.
    Item(i128),
    /// No item: the position is past the end.
    End,
    /// An item that is no `i128`.
    Foreign,
}

/// The items of a host vector that is held as one of `i128`, first to last:
/// the number where the item is an `i128`, `None` where it is something
/// else. The host does not look at the items of a vector that it hands over,
/// so either can be there.
pub uninterp spec fn host_items(prices: soroban_sdk::Vec<i128>) -> Seq<Option<i128>>;

/// The number that an item stands for; 0 for an item that is no number.
pub open spec fn price_of(item: Option<i128>) -> i128 {
    match item {
        Some(price) => price,
        None => 0,
    }
}

/// The numbers that the items stand for.
pub open spec fn prices_of(items: Seq<Option<i128>>) -> Seq<i128> {
    items.map_values(|item: Option<i128>| price_of(item))
}

/// The numbers that a host vector holds, first to last.
pub open spec fn price_items(prices: soroban_sdk::Vec<i128>) -> Seq<i128> {
    prices_of(host_items(prices))
}

/// Every item from position `from` on is a number.
pub open spec fn readable_from(items: Seq<Option<i128>>, from: int) -> bool {
    forall|i: int| from <= i < items.len() && 0 <= i ==> (#[trigger] items[i]).is_some()
}

/// `soroban_sdk::Vec::len`: the number of items in the vector.
#[verifier::external_body]
fn host_len(prices: &soroban_sdk::Vec<i128>) -> (n: u32)
    ensures
        n == host_items(*prices).len(),
{
    prices.len()
}

/// `soroban_sdk::Vec::try_get`: the item at position `i` where it is an
/// `i128`, the end past the last item, and a foreign item where the host's
/// conversion to `i128` fails.
#[verifier::external_body]
fn host_try_get(prices: &soroban_sdk::Vec<i128>, i: u32) -> (r: HostRead)
    ensures
        r == if i >= host_items(*prices).len() {
            HostRead::End
        } else {
            match host_items(*prices)[i as int] {
                Some(price) => HostRead::Item(price),
                None => HostRead::Foreign,
            }
        },
{
    match prices.try_get(i) {
        Ok(Some(price)) => HostRead::Item(price),
        Ok(None) => HostRead::End,
        Err(_) => HostRead::Foreign,
    }
}

/// `soroban_sdk::Vec::push_back`: the item is added behind the last one and
/// the length grows by one. The host counts items in a `u32`.
#[verifier::external_body]
fn host_push_back(prices: &mut soroban_sdk::Vec<i128>, price: i128)
    requires
        host_items(*old(prices)).len() < u32::MAX,
    ensures
        host_items(*final(prices)) == host_items(*old(prices)).push(Some(price)),
{
    prices.push_back(price)
}

/// `soroban_sdk::Vec::try_pop_front`: the first item is removed and
/// returned where it is an `i128`; an empty vector, and one whose first item
/// is foreign, stays as it is.
#[verifier::external_body]
fn host_try_pop_front(prices: &mut soroban_sdk::Vec<i128>) -> (r: HostRead)
    ensures
        r == if host_items(*old(prices)).len() == 0 {
            HostRead::End
        } else {
            match host_items(*old(prices))[0] {
                Some(price) => HostRead::Item(price),
                None => HostRead::Foreign,
            }
        },
        host_items(*final(prices)) == if r is Item {
            host_items(*old(prices)).subrange(1, host_items(*old(prices)).len() as int)
        } else {
            host_items(*old(prices))
        },
{
    match prices.try_pop_front() {
        Ok(Some(price)) => HostRead::Item(price),
        Ok(None) => HostRead::End,
        Err(_) => HostRead::Foreign,
    }
}

/// `soroban_sdk::Vec::new`, in the environment of `prices` (`Vec::env`): a
/// vector without items.
#[verifier::external_body]
fn host_empty_like(prices: &soroban_sdk::Vec<i128>) -> (r: soroban_sdk::Vec<i128>)
    ensures
        host_items(r) == Seq::<Option<i128>>::empty(),
{
    soroban_sdk::Vec::new(prices.env())
}

/// `Clone::clone` of `soroban_sdk::Vec`: a second handle to the same host
/// object, so it holds the same items.
#[verifier::external_body]
fn host_clone(prices: &soroban_sdk::Vec<i128>) -> (r: soroban_sdk::Vec<i128>)
    ensures
        host_items(r) == host_items(*prices),
{
    prices.clone()
}

/// Adds a price behind the last item.
fn push_price(prices: &mut soroban_sdk::Vec<i128>, price: i128)
    requires
        host_items(*old(prices)).len() < u32::MAX,
    ensures
        host_items(*final(prices)) == host_items(*old(prices)).push(Some(price)),
        price_items(*final(prices)) == price_items(*old(prices)).push(price),
{
    host_push_back(prices, price);
    proof {
        assert(price_items(*prices) =~= price_items(*old(prices)).push(price));
    }
}

/// The price at a position that holds one.
fn price_at(prices: &soroban_sdk::Vec<i128>, i: u32) -> (r: i128)
    requires
        i < host_items(*prices).len(),
        host_items(*prices)[i as int].is_some(),
    ensures
        r == price_items(*prices)[i as int],
{
    match host_try_get(prices, i) {
        HostRead::Item(price) => price,
        _ => vstd::pervasive::unreached(),
    }
}

/// Why the oracle refuses a request.
#[derive(Copy, Clone, Debug, PartialEq, Eq, Structural)]
pub enum OracleError {
    /// The caller may not do this.
    Unauthorized,
    /// The asset is not registered.
    AssetNotSupported,
    /// The stored price is older than the staleness threshold.
    StalePrice,
    /// No oracle contract is set.
    OracleNotSet,
    /// The price is not positive, or none is stored.
    InvalidPrice,
    /// No volatility record exists for the asset.
    InsufficientHistory,
    /// The contract is initialised already.
    AlreadyInitialized,
}

impl OracleError {
    /// The number by which the error is known outside.
    pub fn code(&self) -> (r: u32)
        ensures
            r == match *self {
                OracleError::Unauthorized => 1u32,
                OracleError::AssetNotSupported => 2u32,
                OracleError::StalePrice => 3u32,
                OracleError::OracleNotSet => 4u32,
                OracleError::InvalidPrice => 5u32,
                OracleError::InsufficientHistory => 6u32,
                OracleError::AlreadyInitialized => 7u32,
            },
    {
        match self {
            OracleError::Unauthorized => 1,
            OracleError::AssetNotSupported => 2,
            OracleError::StalePrice => 3,
            OracleError::OracleNotSet => 4,
            OracleError::InvalidPrice => 5,
            OracleError::InsufficientHistory => 6,
            OracleError::AlreadyInitialized => 7,
        }
    }
}

/// Where a price came from.
#[derive(Copy, Clone, Debug, PartialEq, Eq, Structural)]
pub enum PriceSource {
    /// The Reflector oracle.
    Reflector,
}

/// A price of one asset in USD with 14 decimals, and when it was set.
#[derive(Copy, Clone, Debug, PartialEq, Eq, Structural)]
pub struct PriceData {
    pub price: i128,
    pub timestamp: u64,
    pub source: PriceSource,
}

/// The volatility record of one asset.
pub struct VolatilityData {
    /// Annualised volatility over the last 30 samples, in basis points; 0
    /// until 30 samples exist.
    pub volatility_30d: u32,
    /// Annualised volatility over the last 7 samples, in basis points; 0
    /// until 7 samples exist.
    pub volatility_7d: u32,
    /// When the record last changed.
    pub last_updated: u64,
    /// The most recent prices, oldest first, at most 30 of them.
    pub price_history: soroban_sdk::Vec<i128>,
}

impl VolatilityData {
    /// The history holds at most 30 items, each of them a positive price.
    pub open spec fn well_formed(&self) -> bool {
        &&& price_items(self.price_history).len() <= 30
        &&& readable_from(host_items(self.price_history), 0)
        &&& forall|i: int|
            0 <= i < price_items(self.price_history).len() ==> (#[trigger] price_items(
                self.price_history,
            )[i]) > 0
    }
}

/// The return from `prev` to `curr` in basis points of `prev`.
pub open spec fn simple_return(prev: int, curr: int) -> int {
    trunc_div((curr - prev) * 10000, prev)
}

/// The last `period` items of `prices`, or all of them if they are fewer.
pub open spec fn window<T>(prices: Seq<T>, period: int) -> Seq<T> {
    let n = min_int(prices.len() as int, period);
    if n <= 0 {
        Seq::empty()
    } else {
        prices.subrange(prices.len() - n, prices.len() as int)
    }
}

/// The returns between neighbours in `samples`, in order; a step from a
/// price that is not positive has no return and is left out.
pub open spec fn returns_of(samples: Seq<i128>) -> Seq<i128>
    decreases samples.len(),
{
    if samples.len() < 2 {
        Seq::empty()
    } else {
        let rest = returns_of(samples.drop_last());
        let prev = samples[samples.len() - 2];
        let curr = samples[samples.len() - 1];
        if prev > 0 {
            rest.push(simple_return(prev as int, curr as int) as i128)
        } else {
            rest
        }
    }
}

/// The sum of the items of `values`.
pub open spec fn sum_of(values: Seq<i128>) -> int
    decreases values.len(),
{
    if values.len() == 0 {
        0
    } else {
        sum_of(values.drop_last()) + values.last()
    }
}

/// The sum of the squared distances of the items of `values` from `mean`.
pub open spec fn squared_deviations(values: Seq<i128>, mean: int) -> int
    decreases values.len(),
{
    if values.len() == 0 {
        0
    } else {
        squared_deviations(values.drop_last(), mean) + (values.last() - mean) * (values.last()
            - mean)
    }
}

/// The mean of `values`, rounded toward zero.
pub open spec fn mean_of(values: Seq<i128>) -> int {
    trunc_div(sum_of(values), values.len() as int)
}

/// The variance of `values`: the mean of the squared deviations from the
/// mean, rounded down.
pub open spec fn variance_of(values: Seq<i128>) -> int {
    trunc_div(squared_deviations(values, mean_of(values)), values.len() as int)
}

/// The annualised volatility over the last `period` prices, in basis points:
/// the standard deviation of their returns times 19, which stands for the
/// root of 365. It is 0 for fewer than two prices and where no step has a
/// return.
pub open spec fn annualized_volatility(prices: Seq<i128>, period: int) -> int {
    let changes = returns_of(window(prices, period));
    if prices.len() < 2 || changes.len() == 0 {
        0
    } else {
        floor_sqrt(variance_of(changes)) * 19
    }
}

/// Every return between neighbours in `samples` can be computed in `i128`.
pub open spec fn returns_fit(samples: Seq<i128>) -> bool {
    forall|i: int|
        1 <= i < samples.len() && samples[i - 1] > 0 ==> fits_i128(
            #[trigger] samples[i] - samples[i - 1],
        ) && fits_i128((samples[i] - samples[i - 1]) * 10000)
}

/// Every running sum of `values` can be held in an `i128`.
pub open spec fn sums_fit(values: Seq<i128>) -> bool {
    forall|k: int| 0 <= k <= values.len() ==> fits_i128(#[trigger] sum_of(values.take(k)))
}

/// Every deviation from `mean`, its square and every running sum of the
/// squares can be held in an `i128`.
pub open spec fn deviations_fit(values: Seq<i128>, mean: int) -> bool {
    &&& forall|k: int|
        0 <= k < values.len() ==> fits_i128(#[trigger] values[k] - mean) && fits_i128(
            (values[k] - mean) * (values[k] - mean),
        )
    &&& forall|k: int|
        0 <= k <= values.len() ==> fits_i128(#[trigger] squared_deviations(values.take(k), mean))
}

/// No step on the way to `annualized_volatility` leaves `i128`.
pub open spec fn volatility_fits(prices: Seq<i128>, period: int) -> bool {
    let samples = window(prices, period);
    let changes = returns_of(samples);
    prices.len() >= 2 ==> {
        &&& returns_fit(samples)
        &&& sums_fit(changes)
        &&& deviations_fit(changes, mean_of(changes))
    }
}

/// `price` moved from `from_decimals` to `to_decimals` decimals.
pub open spec fn converted_price(price: int, from_decimals: nat, to_decimals: nat) -> int {
    if from_decimals == to_decimals {
        price
    } else if from_decimals < to_decimals {
        let scaled = price * pow(10, (to_decimals - from_decimals) as nat);
        if scaled > i128::MAX {
            i128::MAX as int
        } else if scaled < i128::MIN {
            i128::MIN as int
        } else {
            scaled
        }
    } else {
        trunc_div(price, pow(10, (from_decimals - to_decimals) as nat))
    }
}

/// What a request for a price is answered with.
pub open spec fn price_answer(supported: bool, stored: Option<PriceData>, staleness_threshold: u64, now: u64) -> Result<PriceData, OracleError> {
    if !supported {
        Err(OracleError::AssetNotSupported)
    } else if stored.is_none() {
        Err(OracleError::InvalidPrice)
    } else if now - stored.unwrap().timestamp > staleness_threshold {
        Err(OracleError::StalePrice)
    } else {
        Ok(stored.unwrap())
    }
}

/// The adjusted loan-to-value ratio with the oracle's floor of 30%.
pub open spec fn oracle_ltv(base_ltv: int, sigma: int, k_factor: int, days: int) -> int {
    adjusted_ltv(base_ltv, sigma, k_factor, days, ORACLE_MIN_LTV as int)
}

/// A history after `price` came in: the price is appended and only the last
/// 30 items stay.
pub open spec fn history_after(history: Seq<i128>, price: i128) -> Seq<i128> {
    window(history.push(price), 30)
}

/// Every item of the window that a volatility over `period` reads is a
/// number. A window of fewer than two items is not read.
pub open spec fn window_readable(items: Seq<Option<i128>>, period: int) -> bool {
    min_int(items.len() as int, period) >= 2 ==> readable_from(
        items,
        items.len() - min_int(items.len() as int, period),
    )
}

/// The volatility over the last `period` items can be computed: the items
/// that it reads are numbers, and no step on the way leaves `i128`.
pub open spec fn volatility_computes(items: Seq<Option<i128>>, period: int) -> bool {
    &&& window_readable(items, period)
    &&& volatility_fits(prices_of(items), period)
}

/// Every item that leaves when only the last 30 stay is a number: the host
/// reads an item as it removes it.
pub open spec fn evictable(items: Seq<Option<i128>>) -> bool {
    forall|i: int| 0 <= i < items.len() - 30 ==> (#[trigger] items[i]).is_some()
}

/// A history can take `price`: it has room in the host's count of items,
/// what leaves it can be removed, and each volatility that is due afterwards
/// can be computed.
pub open spec fn history_takes(history: Seq<Option<i128>>, price: i128) -> bool {
    let after = window(history.push(Some(price)), 30);
    &&& history.len() < u32::MAX
    &&& evictable(history.push(Some(price)))
    &&& after.len() >= 7 ==> volatility_computes(after, 7)
    &&& after.len() >= 30 ==> volatility_computes(after, 30)
}

/// The numbers of a window are the window of the numbers.
proof fn lemma_prices_of_window(items: Seq<Option<i128>>, period: int)
    ensures
        prices_of(window(items, period)) == window(prices_of(items), period),
{
    assert(prices_of(window(items, period)) =~= window(prices_of(items), period));
}

proof fn lemma_returns_len(samples: Seq<i128>)
    ensures
        returns_of(samples).len() < samples.len() || samples.len() == 0,
        returns_of(samples).len() <= samples.len(),
    decreases samples.len(),
{
    if samples.len() >= 2 {
        lemma_returns_len(samples.drop_last());
    }
}

/// The namespace of the oracle's rules.
pub struct OracleAdapterContract;

impl OracleAdapterContract {
    /// Whether the contract may be initialised: only once.
    pub fn initialize(initialized: bool) -> (r: Result<(), OracleError>)
        ensures
            r == if initialized {
                Err::<(), OracleError>(OracleError::AlreadyInitialized)
            } else {
                Ok::<(), OracleError>(())
            },
    {
        if initialized {
            Err(OracleError::AlreadyInitialized)
        } else {
            Ok(())
        }
    }

    /// Integer square root by Newton's method.
    pub fn integer_sqrt(n: i128) -> (r: i128)
        ensures
            r == floor_sqrt(n as int),
            n <= 0 ==> r == 0,
            n >= 0 ==> crate::math::is_floor_sqrt(n as int, r as int),
    {
        crate::math::integer_sqrt(n)
    }

    /// The annualised volatility over the last `period` prices of a history,
    /// in basis points. A volatility outside `u32` keeps its low 32 bits.
    pub fn calculate_volatility(prices: &soroban_sdk::Vec<i128>, period: u32) -> (r: u32)
        requires
            volatility_computes(host_items(*prices), period as int),
        ensures
            r == annualized_volatility(price_items(*prices), period as int) as u32,
            fits_u32(annualized_volatility(price_items(*prices), period as int)) ==> r
                == annualized_volatility(price_items(*prices), period as int),
    {
        if host_len(prices) < 2 {
            return 0;
        }
        let changes = Self::checked_returns(prices, period).unwrap();
        let count: u32 = host_len(&changes);
        if count == 0 {
            return 0;
        }
        let sum: i128 = Self::checked_sum(&changes).unwrap();
        let mean: i128 = sum / count as i128;
        let variance_sum: i128 = Self::checked_squared_deviations(&changes, mean).unwrap();
        let variance: i128 = variance_sum / count as i128;
        let std_dev: i128 = crate::math::integer_sqrt(variance);
        proof {
            if variance >= 0 {
                lemma_floor_sqrt_bound(variance as int, std_dev as int, 0x1_0000_0000_0000_0000);
            }
        }
        let annualized: i128 = std_dev * 19;
        #[verifier::truncate]
        (annualized as u32)
    }

    /// Drops the oldest items until at most 30 are left, and gives their
    /// number; `None` where an item that has to leave is no number, which
    /// the host does not remove.
    fn trim_history(history: &mut soroban_sdk::Vec<i128>) -> (r: Option<u32>)
        ensures
            r.is_some() == evictable(host_items(*old(history))),
            r.is_some() ==> {
                &&& host_items(*final(history)) == window(host_items(*old(history)), 30)
                &&& price_items(*final(history)) == window(price_items(*old(history)), 30)
                &&& r.unwrap() == host_items(*final(history)).len()
            },
    {
        let ghost grown = host_items(*history);
        let mut len: u32 = host_len(history);
        proof {
            assert(grown.subrange(0, grown.len() as int) == grown);
        }
        while len > MAX_HISTORY
            invariant
                grown == host_items(*old(history)),
                len == host_items(*history).len(),
                len <= grown.len(),
                len >= 30 || len == grown.len(),
                host_items(*history) == grown.subrange(grown.len() - len, grown.len() as int),
                forall|i: int| 0 <= i < grown.len() - len ==> (#[trigger] grown[i]).is_some(),
            decreases len,
        {
            let ghost kept = host_items(*history);
            match host_try_pop_front(history) {
                HostRead::Item(_) => {},
                _ => {
                    proof {
                        assert(kept[0] == grown[grown.len() - len]);
                        assert(!grown[grown.len() - len].is_some());
                    }
                    return None;
                },
            }
            proof {
                assert(kept[0] == grown[grown.len() - len]);
                assert(kept.subrange(1, kept.len() as int) == grown.subrange(
                    grown.len() - (len - 1),
                    grown.len() as int,
                ));
            }
            len = host_len(history);
        }
        proof {
            if len == grown.len() {
                assert(grown.subrange(0, grown.len() as int) == grown);
            }
            assert(host_items(*history) == window(grown, 30));
            lemma_prices_of_window(grown, 30);
        }
        Some(len)
    }

    /// The returns over the last `period` prices, or `None` where one of
    /// them cannot be computed in `i128`.
    fn checked_returns(prices: &soroban_sdk::Vec<i128>, period: u32) -> (r: Option<
        soroban_sdk::Vec<i128>,
    >)
        requires
            price_items(*prices).len() >= 2,
        ensures
            r.is_some() == (window_readable(host_items(*prices), period as int) && returns_fit(
                window(price_items(*prices), period as int),
            )),
            r.is_some() ==> price_items(r.unwrap()) == returns_of(
                window(price_items(*prices), period as int),
            ) && readable_from(host_items(r.unwrap()), 0),
    {
        let total: u32 = host_len(prices);
        let len: u32 = if total < period { total } else { period };
        let ghost samples = window(price_items(*prices), period as int);
        let mut changes = host_empty_like(prices);
        let mut i: u32 = 1;
        proof {
            assert(samples.len() == len);
            if len > 0 {
                assert(samples.take(1).len() == 1);
            }
        }
        while i < len
            invariant
                1 <= i,
                i <= len || len == 0,
                len <= total,
                total == price_items(*prices).len(),
                samples == window(price_items(*prices), period as int),
                samples.len() == len,
                forall|m: int|
                    1 <= m < i && m < samples.len() && samples[m - 1] > 0 ==> fits_i128(
                        #[trigger] samples[m] - samples[m - 1],
                    ) && fits_i128((samples[m] - samples[m - 1]) * 10000),
                len > 0 ==> price_items(changes) == returns_of(samples.take(i as int)),
                len == 0 ==> price_items(changes) == Seq::<i128>::empty(),
                len == min_int(total as int, period as int),
                readable_from(host_items(changes), 0),
                i >= 2 ==> forall|m: int|
                    total - len <= m < total - len + i && 0 <= m ==> (#[trigger] host_items(
                        *prices,
                    )[m]).is_some(),
            decreases len - i,
        {
            let prev: i128 = match host_try_get(prices, total - len + i - 1) {
                HostRead::Item(price) => price,
                _ => {
                    proof {
                        assert(!host_items(*prices)[total - len + i - 1].is_some());
                    }
                    return None;
                },
            };
            let curr: i128 = match host_try_get(prices, total - len + i) {
                HostRead::Item(price) => price,
                _ => {
                    proof {
                        assert(!host_items(*prices)[total - len + i].is_some());
                    }
                    return None;
                },
            };
            proof {
                assert(host_items(*prices)[total - len + i - 1].is_some());
                assert(host_items(*prices)[total - len + i].is_some());
                assert(prev == samples[i - 1]);
                assert(curr == samples[i as int]);
                let next = samples.take(i + 1);
                assert(next.drop_last() == samples.take(i as int));
                assert(next[next.len() - 2] == prev);
                assert(next[next.len() - 1] == curr);
                lemma_returns_len(samples.take(i as int));
            }
            if prev > 0 {
                let step: i128 = match curr.checked_sub(prev) {
                    Some(d) => d,
                    None => {
                        proof {
                            assert(!fits_i128(samples[i as int] - samples[i - 1]));
                        }
                        return None;
                    },
                };
                let scaled: i128 = match step.checked_mul(10000) {
                    Some(d) => d,
                    None => {
                        proof {
                            assert(!fits_i128(samples[i as int] - samples[i - 1]) || !fits_i128(
                                (samples[i as int] - samples[i - 1]) * 10000,
                            ));
                        }
                        return None;
                    },
                };
                push_price(&mut changes, scaled / prev);
            }
            i = i + 1;
        }
        proof {
            if len > 0 {
                assert(samples.take(len as int) == samples);
            }
        }
        Some(changes)
    }

    /// The sum of `values`, or `None` where a running sum leaves `i128`.
    fn checked_sum(values: &soroban_sdk::Vec<i128>) -> (r: Option<i128>)
        requires
            readable_from(host_items(*values), 0),
        ensures
            r.is_some() == sums_fit(price_items(*values)),
            r.is_some() ==> r.unwrap() == sum_of(price_items(*values)),
    {
        let count: u32 = host_len(values);
        let ghost items = price_items(*values);
        let mut sum: i128 = 0;
        let mut j: u32 = 0;
        proof {
            assert(items.take(0).len() == 0);
        }
        while j < count
            invariant
                j <= count,
                count == items.len(),
                items == price_items(*values),
                readable_from(host_items(*values), 0),
                forall|m: int| 0 <= m <= j ==> fits_i128(#[trigger] sum_of(items.take(m))),
                sum == sum_of(items.take(j as int)),
            decreases count - j,
        {
            let value: i128 = price_at(values, j);
            proof {
                let next = items.take(j + 1);
                assert(next.drop_last() == items.take(j as int));
                assert(next.last() == value);
            }
            sum = match sum.checked_add(value) {
                Some(d) => d,
                None => {
                    proof {
                        assert(!fits_i128(sum_of(items.take(j + 1))));
                    }
                    return None;
                },
            };
            j = j + 1;
        }
        proof {
            assert(items.take(count as int) == items);
        }
        Some(sum)
    }

    /// The sum of the squared deviations of `values` from `mean`, or `None`
    /// where a step leaves `i128`.
    fn checked_squared_deviations(values: &soroban_sdk::Vec<i128>, mean: i128) -> (r: Option<i128>)
        requires
            readable_from(host_items(*values), 0),
        ensures
            r.is_some() == deviations_fit(price_items(*values), mean as int),
            r.is_some() ==> r.unwrap() == squared_deviations(price_items(*values), mean as int),
    {
        let count: u32 = host_len(values);
        let ghost items = price_items(*values);
        let mut variance_sum: i128 = 0;
        let mut k: u32 = 0;
        proof {
            assert(items.take(0).len() == 0);
        }
        while k < count
            invariant
                k <= count,
                count == items.len(),
                items == price_items(*values),
                readable_from(host_items(*values), 0),
                forall|m: int|
                    0 <= m < k ==> fits_i128(#[trigger] items[m] - mean) && fits_i128(
                        (items[m] - mean) * (items[m] - mean),
                    ),
                forall|m: int|
                    0 <= m <= k ==> fits_i128(#[trigger] squared_deviations(items.take(m), mean as int)),
                variance_sum == squared_deviations(items.take(k as int), mean as int),
            decreases count - k,
        {
            let value: i128 = price_at(values, k);
            proof {
                let next = items.take(k + 1);
                assert(next.drop_last() == items.take(k as int));
                assert(next.last() == value);
                assert(value == items[k as int]);
            }
            let diff: i128 = match value.checked_sub(mean) {
                Some(d) => d,
                None => {
                    proof {
                        assert(!fits_i128(items[k as int] - mean));
                    }
                    return None;
                },
            };
            let square: i128 = match diff.checked_mul(diff) {
                Some(d) => d,
                None => {
                    proof {
                        assert(!fits_i128(items[k as int] - mean) || !fits_i128(
                            (items[k as int] - mean) * (items[k as int] - mean),
                        ));
                    }
                    return None;
                },
            };
            variance_sum = match variance_sum.checked_add(square) {
                Some(d) => d,
                None => {
                    proof {
                        assert(!fits_i128(squared_deviations(items.take(k + 1), mean as int)));
                    }
                    return None;
                },
            };
            k = k + 1;
        }
        proof {
            assert(items.take(count as int) == items);
        }
        Some(variance_sum)
    }

    /// Whether the volatility over the last `period` prices can be computed
    /// without leaving `i128` on the way.
    pub fn volatility_computable(prices: &soroban_sdk::Vec<i128>, period: u32) -> (ok: bool)
        ensures
            ok == volatility_computes(host_items(*prices), period as int),
    {
        if host_len(prices) < 2 {
            return true;
        }
        let changes = match Self::checked_returns(prices, period) {
            Some(c) => c,
            None => {
                return false;
            },
        };
        let sum: i128 = match Self::checked_sum(&changes) {
            Some(total) => total,
            None => {
                return false;
            },
        };
        let count: u32 = host_len(&changes);
        if count == 0 {
            proof {
                let items = price_items(changes);
                assert forall|k: int| 0 <= k <= items.len() implies fits_i128(
                    #[trigger] squared_deviations(items.take(k), mean_of(items)),
                ) by {
                    assert(items.take(k).len() == 0);
                }
            }
            return true;
        }
        let mean: i128 = sum / count as i128;
        Self::checked_squared_deviations(&changes, mean).is_some()
    }

    /// The annualised volatility over the last `period` prices, or `None`
    /// where a step of the computation would leave `i128`.
    pub fn try_calculate_volatility(prices: &soroban_sdk::Vec<i128>, period: u32) -> (r: Option<u32>)
        ensures
            r.is_some() == volatility_computes(host_items(*prices), period as int),
            r.is_some() ==> r.unwrap() == annualized_volatility(price_items(*prices), period as int) as u32,
    {
        if Self::volatility_computable(prices, period) {
            Some(Self::calculate_volatility(prices, period))
        } else {
            None
        }
    }

    /// Whether the record can take `price` into its history: the history has
    /// room in the host's count, and each volatility that is due afterwards
    /// can be computed.
    pub fn history_accepts(data: &VolatilityData, price: i128) -> (ok: bool)
        ensures
            ok == history_takes(host_items(data.price_history), price),
    {
        if host_len(&data.price_history) == u32::MAX {
            return false;
        }
        let mut next = host_clone(&data.price_history);
        push_price(&mut next, price);
        let len: u32 = match Self::trim_history(&mut next) {
            Some(kept) => kept,
            None => {
                return false;
            },
        };
        if len >= SHORT_WINDOW && !Self::volatility_computable(&next, SHORT_WINDOW) {
            return false;
        }
        if len >= LONG_WINDOW && !Self::volatility_computable(&next, LONG_WINDOW) {
            return false;
        }
        true
    }

    /// Takes a new price into the record where `history_accepts` it, and
    /// says whether it did; a record that does not accept the price stays as
    /// it is.
    pub fn try_update_price_history(data: &mut VolatilityData, price: i128, now: u64) -> (done: bool)
        ensures
            done == history_takes(host_items(old(data).price_history), price),
            !done ==> *final(data) == *old(data),
            done ==> {
                &&& price_items(final(data).price_history) == history_after(
                    price_items(old(data).price_history),
                    price,
                )
                &&& final(data).last_updated == now
                &&& final(data).volatility_7d == if price_items(final(data).price_history).len()
                    >= 7 {
                    annualized_volatility(price_items(final(data).price_history), 7) as u32
                } else {
                    old(data).volatility_7d
                }
                &&& final(data).volatility_30d == if price_items(final(data).price_history).len()
                    >= 30 {
                    annualized_volatility(price_items(final(data).price_history), 30) as u32
                } else {
                    old(data).volatility_30d
                }
            },
    {
        if !Self::history_accepts(data, price) {
            return false;
        }
        Self::update_price_history(data, price, now);
        true
    }

    /// Takes a price pushed for an asset at `now`, as `update_price` does,
    /// where the record can take it; `None`, and nothing changed, where
    /// `update_price` would have to leave `i128`.
    pub fn try_update_price(supported: bool, data: &mut VolatilityData, price: i128, now: u64) -> (r:
        Option<Result<PriceData, OracleError>>)
        ensures
            r.is_none() == (supported && price > 0 && !history_takes(
                host_items(old(data).price_history),
                price,
            )),
            r.is_none() ==> *final(data) == *old(data),
            r.is_some() ==> {
                &&& !supported ==> r.unwrap() == Err::<PriceData, OracleError>(
                    OracleError::AssetNotSupported,
                )
                &&& supported && price <= 0 ==> r.unwrap() == Err::<PriceData, OracleError>(
                    OracleError::InvalidPrice,
                )
                &&& supported && price > 0 ==> r.unwrap() == Ok::<PriceData, OracleError>(
                    PriceData { price, timestamp: now, source: PriceSource::Reflector },
                )
                &&& r.unwrap().is_err() ==> *final(data) == *old(data)
                &&& r.unwrap().is_ok() ==> {
                    &&& price_items(final(data).price_history) == history_after(
                        price_items(old(data).price_history),
                        price,
                    )
                    &&& final(data).last_updated == now
                    &&& final(data).volatility_7d == if price_items(
                        final(data).price_history,
                    ).len() >= 7 {
                        annualized_volatility(price_items(final(data).price_history), 7) as u32
                    } else {
                        old(data).volatility_7d
                    }
                    &&& final(data).volatility_30d == if price_items(
                        final(data).price_history,
                    ).len() >= 30 {
                        annualized_volatility(price_items(final(data).price_history), 30) as u32
                    } else {
                        old(data).volatility_30d
                    }
                }
            },
    {
        if supported && price > 0 && !Self::history_accepts(data, price) {
            return None;
        }
        Some(Self::update_price(supported, data, price, now))
    }

    /// Takes a new price into the record: the price joins the history, of
    /// which the last 30 samples stay; each volatility is computed anew once
    /// the history has enough samples for it, and stays as it was before
    /// that; the time of the change is noted.
    pub fn update_price_history(data: &mut VolatilityData, price: i128, now: u64)
        requires
            history_takes(host_items(old(data).price_history), price),
        ensures
            price_items(final(data).price_history) == history_after(
                price_items(old(data).price_history),
                price,
            ),
            price_items(final(data).price_history).len() <= 30,
            old(data).well_formed() && price > 0 ==> final(data).well_formed(),
            final(data).last_updated == now,
            final(data).volatility_7d == if price_items(final(data).price_history).len() >= 7 {
                annualized_volatility(price_items(final(data).price_history), 7) as u32
            } else {
                old(data).volatility_7d
            },
            final(data).volatility_30d == if price_items(final(data).price_history).len() >= 30 {
                annualized_volatility(price_items(final(data).price_history), 30) as u32
            } else {
                old(data).volatility_30d
            },
    {
        push_price(&mut data.price_history, price);
        let len: u32 = Self::trim_history(&mut data.price_history).unwrap();
        if len >= SHORT_WINDOW {
            data.volatility_7d = Self::calculate_volatility(&data.price_history, SHORT_WINDOW);
        }
        if len >= LONG_WINDOW {
            data.volatility_30d = Self::calculate_volatility(&data.price_history, LONG_WINDOW);
        }
        data.last_updated = now;
    }

    /// A price moved from `from_decimals` to `to_decimals` decimals: scaled
    /// up by a power of ten, held at the ends of `i128`, or scaled down,
    /// rounded toward zero.
    pub fn convert_price_decimals(price: i128, from_decimals: u32, to_decimals: u32) -> (r: i128)
        requires
            to_decimals - from_decimals <= 38,
            from_decimals - to_decimals <= 38,
        ensures
            r == converted_price(price as int, from_decimals as nat, to_decimals as nat),
    {
        if from_decimals == to_decimals {
            return price;
        }
        if from_decimals < to_decimals {
            let multiplier: i128 = pow10(to_decimals - from_decimals);
            match price.checked_mul(multiplier) {
                Some(scaled) => scaled,
                None => {
                    proof {
                        assert(price < 0 ==> price * multiplier < 0) by (nonlinear_arith)
                            requires
                                multiplier >= 1,
                        ;
                        assert(price >= 0 ==> price * multiplier >= 0) by (nonlinear_arith)
                            requires
                                multiplier >= 1,
                        ;
                    }
                    if price < 0 {
                        i128::MIN
                    } else {
                        i128::MAX
                    }
                },
            }
        } else {
            let divisor: i128 = pow10(from_decimals - to_decimals);
            price / divisor
        }
    }

    /// The converted price, or `None` where the two numbers of decimals are
    /// more than 38 apart, so that the power of ten between them leaves
    /// `i128`.
    pub fn try_convert_price_decimals(price: i128, from_decimals: u32, to_decimals: u32) -> (r:
        Option<i128>)
        ensures
            r.is_none() == (to_decimals - from_decimals > 38 || from_decimals - to_decimals > 38),
            r.is_some() ==> r.unwrap() == converted_price(
                price as int,
                from_decimals as nat,
                to_decimals as nat,
            ),
    {
        if from_decimals < to_decimals && to_decimals - from_decimals > 38 {
            return None;
        }
        if to_decimals < from_decimals && from_decimals - to_decimals > 38 {
            return None;
        }
        Some(Self::convert_price_decimals(price, from_decimals, to_decimals))
    }

    /// The stored price of an asset as `get_price` hands it out, or `None`
    /// for a stored price from after `now`, whose age has no value.
    pub fn try_get_price(
        supported: bool,
        stored: Option<PriceData>,
        staleness_threshold: u64,
        now: u64,
    ) -> (r: Option<Result<PriceData, OracleError>>)
        ensures
            r.is_none() == (supported && stored.is_some() && stored.unwrap().timestamp > now),
            r.is_some() ==> r.unwrap() == price_answer(supported, stored, staleness_threshold, now),
    {
        if supported {
            match stored {
                Some(data) => {
                    if data.timestamp > now {
                        return None;
                    }
                },
                None => {},
            }
        }
        Some(Self::get_price(supported, stored, staleness_threshold, now))
    }

    /// Hands out the stored price of an asset.
    ///
    /// The asset must be registered (`supported`), a price must be stored,
    /// and it must not be older than `staleness_threshold` seconds at `now`.
    /// A stored price is never from after `now`.
    pub fn get_price(
        supported: bool,
        stored: Option<PriceData>,
        staleness_threshold: u64,
        now: u64,
    ) -> (r: Result<PriceData, OracleError>)
        requires
            supported && stored.is_some() ==> stored.unwrap().timestamp <= now,
        ensures
            r == price_answer(supported, stored, staleness_threshold, now),
    {
        if !supported {
            return Err(OracleError::AssetNotSupported);
        }
        match stored {
            Some(data) => {
                if now - data.timestamp > staleness_threshold {
                    return Err(OracleError::StalePrice);
                }
                Ok(data)
            },
            None => Err(OracleError::InvalidPrice),
        }
    }

    /// Takes a price pushed for an asset at `now`.
    ///
    /// An unregistered asset and a price that is not positive are refused
    /// and change nothing. Else the price goes into the history of `data`
    /// and the price record to store comes back.
    pub fn update_price(supported: bool, data: &mut VolatilityData, price: i128, now: u64) -> (r:
        Result<PriceData, OracleError>)
        requires
            supported && price > 0 ==> history_takes(host_items(old(data).price_history), price),
        ensures
            !supported ==> r == Err::<PriceData, OracleError>(OracleError::AssetNotSupported),
            supported && price <= 0 ==> r == Err::<PriceData, OracleError>(
                OracleError::InvalidPrice,
            ),
            supported && price > 0 ==> r == Ok::<PriceData, OracleError>(
                PriceData { price, timestamp: now, source: PriceSource::Reflector },
            ),
            r.is_err() ==> *final(data) == *old(data),
            old(data).well_formed() ==> final(data).well_formed(),
            r.is_ok() ==> {
                &&& price_items(final(data).price_history) == history_after(
                    price_items(old(data).price_history),
                    price,
                )
                &&& final(data).last_updated == now
                &&& final(data).volatility_7d == if price_items(final(data).price_history).len()
                    >= 7 {
                    annualized_volatility(price_items(final(data).price_history), 7) as u32
                } else {
                    old(data).volatility_7d
                }
                &&& final(data).volatility_30d == if price_items(final(data).price_history).len()
                    >= 30 {
                    annualized_volatility(price_items(final(data).price_history), 30) as u32
                } else {
                    old(data).volatility_30d
                }
            },
    {
        if !supported {
            return Err(OracleError::AssetNotSupported);
        }
        if price <= 0 {
            return Err(OracleError::InvalidPrice);
        }
        Self::update_price_history(data, price, now);
        Ok(PriceData { price, timestamp: now, source: PriceSource::Reflector })
    }

    /// Hands out the volatility record of an asset: the asset must be
    /// registered and a record must exist.
    pub fn get_volatility(supported: bool, stored: Option<VolatilityData>) -> (r: Result<
        VolatilityData,
        OracleError,
    >)
        ensures
            !supported ==> r == Err::<VolatilityData, OracleError>(OracleError::AssetNotSupported),
            supported && stored.is_none() ==> r == Err::<VolatilityData, OracleError>(
                OracleError::InsufficientHistory,
            ),
            supported && stored.is_some() ==> r == Ok::<VolatilityData, OracleError>(
                stored.unwrap(),
            ),
    {
        if !supported {
            return Err(OracleError::AssetNotSupported);
        }
        match stored {
            Some(data) => Ok(data),
            None => Err(OracleError::InsufficientHistory),
        }
    }

    /// The safe borrow against `collateral_value` at the 30-day volatility
    /// `sigma`, with the oracle's own floor of 30% under the adjusted ratio.
    pub fn calculate_safe_borrow(
        sigma: u32,
        collateral_value: i128,
        base_ltv: u32,
        k_factor: u32,
        time_horizon_days: u32,
    ) -> (r: i128)
        requires
            fits_i128(
                collateral_value * oracle_ltv(
                    base_ltv as int,
                    sigma as int,
                    k_factor as int,
                    time_horizon_days as int,
                ),
            ),
        ensures
            r == trunc_div(
                collateral_value * oracle_ltv(
                    base_ltv as int,
                    sigma as int,
                    k_factor as int,
                    time_horizon_days as int,
                ),
                10000,
            ),
    {
        let final_ltv: u32 = calculate_adjusted_ltv(
            base_ltv,
            sigma,
            k_factor,
            time_horizon_days,
            ORACLE_MIN_LTV,
        );
        collateral_value * final_ltv as i128 / 10000
    }

    /// The safe borrow at the oracle's floor, or `None` where scaling the
    /// collateral value would leave `i128`.
    pub fn try_calculate_safe_borrow(
        sigma: u32,
        collateral_value: i128,
        base_ltv: u32,
        k_factor: u32,
        time_horizon_days: u32,
    ) -> (r: Option<i128>)
        ensures
            r.is_none() == !fits_i128(
                collateral_value * oracle_ltv(
                    base_ltv as int,
                    sigma as int,
                    k_factor as int,
                    time_horizon_days as int,
                ),
            ),
            r.is_some() ==> r.unwrap() == trunc_div(
                collateral_value * oracle_ltv(
                    base_ltv as int,
                    sigma as int,
                    k_factor as int,
                    time_horizon_days as int,
                ),
                10000,
            ),
    {
        let final_ltv: u32 = calculate_adjusted_ltv(
            base_ltv,
            sigma,
            k_factor,
            time_horizon_days,
            ORACLE_MIN_LTV,
        );
        crate::volatility::try_calculate_safe_borrow(collateral_value, final_ltv)
    }
}

} // verus!
