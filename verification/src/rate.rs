use vstd::prelude::*;

verus! {

/// A rate as an exact fraction: `transactions` per `seconds`.
#[derive(Clone, Copy, Debug, PartialEq, Eq, Structural)]
pub struct Rate {
    pub transactions: u64,
    pub seconds: u64,
}

/// Seconds from `oldest` to `newest`: zero where `newest` is not later, and
/// never more than the largest `i64`.
pub open spec fn elapsed(oldest: int, newest: int) -> int {
    if newest <= oldest {
        0
    } else if newest - oldest > i64::MAX {
        i64::MAX as int
    } else {
        newest - oldest
    }
}

/// The rate of `count` transactions between two timestamps. A span of no
/// seconds gives the zero rate, so that the denominator is never zero.
pub open spec fn rate_of(oldest: int, newest: int, count: int) -> (int, int) {
    if elapsed(oldest, newest) == 0 {
        (0, 1)
    } else {
        (count, elapsed(oldest, newest))
    }
}

impl Rate {
    /// The fraction as a pair of numerator and denominator.
    pub open spec fn fraction(&self) -> (int, int) {
        (self.transactions as int, self.seconds as int)
    }
}

/// Seconds covered by the window: the difference of the two timestamps,
/// held between zero and the largest `i64`.
pub fn elapsed_seconds(oldest_timestamp: i64, newest_timestamp: i64) -> (r: u64)
    ensures
        r as int == elapsed(oldest_timestamp as int, newest_timestamp as int),
{
    if newest_timestamp <= oldest_timestamp {
        0
    } else {
        match newest_timestamp.checked_sub(oldest_timestamp) {
            Some(seconds) => seconds as u64,
            None => i64::MAX as u64,
        }
    }
}

/// Transactions per second over the span from `oldest_timestamp` to
/// `newest_timestamp`.
pub fn calculate_tps(oldest_timestamp: i64, newest_timestamp: i64, transaction_count: u64) -> (r:
    Rate)
    ensures
        r.fraction() == rate_of(
            oldest_timestamp as int,
            newest_timestamp as int,
            transaction_count as int,
        ),
        r.seconds > 0,
{
    let seconds: u64 = elapsed_seconds(oldest_timestamp, newest_timestamp);
    if seconds == 0 {
        Rate { transactions: 0, seconds: 1 }
    } else {
        Rate { transactions: transaction_count, seconds }
    }
}

/// A window that covers no time has the zero rate, whatever was counted.
pub proof fn zero_span_gives_zero_rate(timestamp: int, count: int)
    ensures
        rate_of(timestamp, timestamp, count) == (0int, 1int),
{
}

/// A window in which nothing was counted has a zero numerator, and its
/// denominator is positive.
pub proof fn zero_count_gives_zero_rate(oldest: int, newest: int)
    ensures
        rate_of(oldest, newest, 0).0 == 0,
        rate_of(oldest, newest, 0).1 > 0,
{
}

} // verus!
