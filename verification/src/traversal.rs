use vstd::prelude::*;
use crate::block::{chain_view, Block, BlockView};
use crate::classify::{all_well_formed, classify, count_user_transactions, user_count};
use crate::decode::{decode_block, decoded_block, EncodedBlock};
use crate::error::TpsError;
use crate::rate::{calculate_tps, rate_of, Rate};

verus! {

/// What a finished walk hands to the rate calculation.
#[derive(Clone, Copy, Debug, PartialEq, Eq, Structural)]
pub struct WindowTotals {
    pub oldest_timestamp: i64,
    pub newest_timestamp: i64,
    pub total_user_transactions: u64,
}

/// The running state of a walk: the only state that changes while blocks are
/// visited.
#[derive(Clone, Copy, Debug, PartialEq, Eq, Structural)]
pub struct Accumulator {
    /// Timestamp of the tip, where the walk began.
    pub newest_timestamp: i64,
    /// A block at or before this timestamp ends the walk.
    pub timestamp_threshold: i64,
    /// User transactions counted so far.
    pub total: u64,
}

/// What to do after a block was counted.
#[derive(Clone, Copy, Debug, PartialEq, Eq, Structural)]
pub enum Step {
    /// Go on: the parent becomes the current block, and its own parent is
    /// to be fetched next.
    Continue(Accumulator),
    /// The walk is over.
    Done(WindowTotals),
}

/// True where a parent with this timestamp and height ends the walk: its
/// timestamp is at or before the threshold, or it is the first block of the
/// chain.
pub open spec fn stops_at(timestamp: int, height: int, threshold: int) -> bool {
    timestamp <= threshold || height == 0
}

/// True where `block`, met as a parent, ends the walk.
pub open spec fn ends_walk(block: BlockView, threshold: int) -> bool {
    stops_at(block.timestamp as int, block.height as int, threshold)
}

/// The state of a walk that begins at a tip with timestamp `newest`, or an
/// overflow where the threshold does not fit.
pub open spec fn begin_spec(newest: i64, threshold_seconds: i64) -> Result<Accumulator, TpsError> {
    if i64::MIN <= newest - threshold_seconds <= i64::MAX {
        Ok(
            Accumulator {
                newest_timestamp: newest,
                timestamp_threshold: (newest - threshold_seconds) as i64,
                total: 0,
            },
        )
    } else {
        Err(TpsError::Overflow)
    }
}

/// One step of the walk. The current block is counted, never its parent:
/// of the parent only the timestamp and the height are looked at, so the
/// block that ends the walk adds nothing to the total.
pub open spec fn advance_spec(
    acc: Accumulator,
    current: BlockView,
    parent_timestamp: i64,
    parent_height: u64,
) -> Result<Step, TpsError> {
    match classify(current) {
        Err(e) => Err(e),
        Ok(n) => if acc.total + n > u64::MAX {
            Err(TpsError::Overflow)
        } else if stops_at(
            parent_timestamp as int,
            parent_height as int,
            acc.timestamp_threshold as int,
        ) {
            Ok(
                Step::Done(
                    WindowTotals {
                        oldest_timestamp: parent_timestamp,
                        newest_timestamp: acc.newest_timestamp,
                        total_user_transactions: (acc.total + n) as u64,
                    },
                ),
            )
        } else {
            Ok(
                Step::Continue(
                    Accumulator {
                        newest_timestamp: acc.newest_timestamp,
                        timestamp_threshold: acc.timestamp_threshold,
                        total: (acc.total + n) as u64,
                    },
                ),
            )
        },
    }
}

/// The walk over `chain` from position `i` on, where `chain[i]` is the
/// current block and `chain[i + 1]` the block that the source gave for its
/// parent. A chain that ends before the walk does is a source that had no
/// block to give.
pub open spec fn walk_from(chain: Seq<BlockView>, i: int, acc: Accumulator) -> Result<
    WindowTotals,
    TpsError,
>
    decreases chain.len() - i,
{
    if i < 0 || i + 1 >= chain.len() {
        Err(TpsError::SourceUnavailable)
    } else {
        match advance_spec(acc, chain[i], chain[i + 1].timestamp, chain[i + 1].height) {
            Err(e) => Err(e),
            Ok(Step::Done(totals)) => Ok(totals),
            Ok(Step::Continue(next)) => walk_from(chain, i + 1, next),
        }
    }
}

/// The whole walk over `chain`, tip first.
pub open spec fn accumulate_spec(chain: Seq<BlockView>, threshold_seconds: i64) -> Result<
    WindowTotals,
    TpsError,
> {
    if chain.len() == 0 {
        Err(TpsError::SourceUnavailable)
    } else {
        match begin_spec(chain[0].timestamp, threshold_seconds) {
            Err(e) => Err(e),
            Ok(acc) => walk_from(chain, 0, acc),
        }
    }
}

/// Begins a walk at a tip with timestamp `tip_timestamp`: records it as the
/// newest and sets the threshold `threshold_seconds` before it.
pub fn begin(tip_timestamp: i64, threshold_seconds: i64) -> (r: Result<Accumulator, TpsError>)
    ensures
        r == begin_spec(tip_timestamp, threshold_seconds),
{
    match tip_timestamp.checked_sub(threshold_seconds) {
        Some(timestamp_threshold) => Ok(
            Accumulator { newest_timestamp: tip_timestamp, timestamp_threshold, total: 0 },
        ),
        None => Err(TpsError::Overflow),
    }
}

/// Counts `current` into the running total and decides, from the timestamp
/// and height of its parent, whether the walk goes on.
pub fn advance(acc: Accumulator, current: &Block, parent_timestamp: i64, parent_height: u64) -> (r:
    Result<Step, TpsError>)
    ensures
        r == advance_spec(acc, current@, parent_timestamp, parent_height),
{
    let count: u64 = match count_user_transactions(current) {
        Ok(count) => count,
        Err(e) => {
            return Err(e);
        },
    };
    let total: u64 = match acc.total.checked_add(count) {
        Some(total) => total,
        None => {
            return Err(TpsError::Overflow);
        },
    };
    if parent_timestamp <= acc.timestamp_threshold || parent_height == 0 {
        Ok(
            Step::Done(
                WindowTotals {
                    oldest_timestamp: parent_timestamp,
                    newest_timestamp: acc.newest_timestamp,
                    total_user_transactions: total,
                },
            ),
        )
    } else {
        Ok(
            Step::Continue(
                Accumulator {
                    newest_timestamp: acc.newest_timestamp,
                    timestamp_threshold: acc.timestamp_threshold,
                    total,
                },
            ),
        )
    }
}

/// As [`advance`], on a current block whose transactions are still encoded.
/// They are decoded only now, so a parent that ends the walk is never
/// decoded. A transaction that does not decode fails the step.
pub fn advance_encoded(
    acc: Accumulator,
    current: &EncodedBlock,
    parent_timestamp: i64,
    parent_height: u64,
) -> (r: Result<Step, TpsError>)
    ensures
        match decoded_block(current@) {
            Some(block) => r == advance_spec(acc, block, parent_timestamp, parent_height),
            None => r == Err::<Step, TpsError>(TpsError::Decode),
        },
{
    match decode_block(current) {
        Ok(block) => advance(acc, &block, parent_timestamp, parent_height),
        Err(e) => Err(e),
    }
}

/// Walks `chain` backward from its tip, `chain[0]`, where each block is
/// followed by the block that the source gave for its parent, and returns
/// the totals of the window.
pub fn accumulate(chain: &Vec<Block>, threshold_seconds: i64) -> (r: Result<WindowTotals, TpsError>)
    ensures
        r == accumulate_spec(chain_view(chain@), threshold_seconds),
{
    if chain.len() == 0 {
        return Err(TpsError::SourceUnavailable);
    }
    let ghost blocks = chain_view(chain@);
    let mut acc = match begin(chain[0].timestamp, threshold_seconds) {
        Ok(acc) => acc,
        Err(e) => {
            return Err(e);
        },
    };
    let mut i: usize = 0;
    loop
        invariant
            blocks == chain_view(chain@),
            i < chain.len(),
            accumulate_spec(blocks, threshold_seconds) == walk_from(blocks, i as int, acc),
        decreases chain.len() - i,
    {
        if i + 1 >= chain.len() {
            return Err(TpsError::SourceUnavailable);
        }
        assert(blocks[i as int] == chain@[i as int]@);
        assert(blocks[i + 1] == chain@[i + 1]@);
        match advance(acc, &chain[i], chain[i + 1].timestamp, chain[i + 1].height) {
            Err(e) => {
                return Err(e);
            },
            Ok(Step::Done(totals)) => {
                return Ok(totals);
            },
            Ok(Step::Continue(next)) => {
                acc = next;
                i = i + 1;
            },
        }
    }
}

/// The rate that the window of `totals` gives.
pub open spec fn rate_of_totals(totals: WindowTotals) -> (int, int) {
    rate_of(
        totals.oldest_timestamp as int,
        totals.newest_timestamp as int,
        totals.total_user_transactions as int,
    )
}

/// Transactions per second over the trailing window of `threshold_seconds`
/// in `chain`, tip first.
pub fn calculate_for_range(chain: &Vec<Block>, threshold_seconds: i64) -> (r: Result<
    Rate,
    TpsError,
>)
    ensures
        match accumulate_spec(chain_view(chain@), threshold_seconds) {
            Ok(totals) => r is Ok && r->Ok_0.fraction() == rate_of_totals(totals),
            Err(e) => r == Err::<Rate, TpsError>(e),
        },
{
    match accumulate(chain, threshold_seconds) {
        Ok(totals) => Ok(
            calculate_tps(
                totals.oldest_timestamp,
                totals.newest_timestamp,
                totals.total_user_transactions,
            ),
        ),
        Err(e) => Err(e),
    }
}

/// The user transactions of the first `k` blocks of `chain`.
pub open spec fn counted_total(chain: Seq<BlockView>, k: int) -> nat
    decreases k,
{
    if k <= 0 {
        0
    } else {
        counted_total(chain, k - 1) + user_count(chain[k - 1].transactions)
    }
}

/// Every transaction of the first `k` blocks of `chain` is well formed.
pub open spec fn counted_well_formed(chain: Seq<BlockView>, k: int) -> bool {
    forall|j: int| 0 <= j < k ==> all_well_formed((#[trigger] chain[j]).transactions)
}

/// `k` is the first position behind the tip whose block ends the walk.
pub open spec fn first_boundary(chain: Seq<BlockView>, threshold: int, k: int) -> bool {
    &&& 0 < k < chain.len()
    &&& ends_walk(chain[k], threshold)
    &&& forall|j: int| 0 < j < k ==> !ends_walk(#[trigger] chain[j], threshold)
}

proof fn counted_total_grows(chain: Seq<BlockView>, i: int, k: int)
    requires
        i <= k,
    ensures
        counted_total(chain, i) <= counted_total(chain, k),
    decreases k - i,
{
    if i < k {
        counted_total_grows(chain, i, k - 1);
    }
}

proof fn walk_reaches_boundary(chain: Seq<BlockView>, i: int, acc: Accumulator, k: int)
    requires
        0 <= i < k < chain.len(),
        ends_walk(chain[k], acc.timestamp_threshold as int),
        forall|j: int| i < j < k ==> !ends_walk(#[trigger] chain[j], acc.timestamp_threshold as int),
        counted_well_formed(chain, k),
        counted_total(chain, k) <= u64::MAX,
        acc.total == counted_total(chain, i),
    ensures
        walk_from(chain, i, acc) == Ok::<WindowTotals, TpsError>(
            WindowTotals {
                oldest_timestamp: chain[k].timestamp,
                newest_timestamp: acc.newest_timestamp,
                total_user_transactions: counted_total(chain, k) as u64,
            },
        ),
    decreases k - i,
{
    assert(all_well_formed(chain[i].transactions));
    counted_total_grows(chain, i + 1, k);
    if i + 1 < k {
        assert(!ends_walk(chain[i + 1], acc.timestamp_threshold as int));
        let next = Accumulator {
            newest_timestamp: acc.newest_timestamp,
            timestamp_threshold: acc.timestamp_threshold,
            total: counted_total(chain, i + 1) as u64,
        };
        walk_reaches_boundary(chain, i + 1, next, k);
    }
}

/// The walk ends at the first parent that is at or before the threshold or
/// is the first block of the chain. That block's timestamp is the oldest of
/// the window, and its own transactions are not counted: the total is that
/// of the blocks before it.
pub proof fn walk_stops_at_first_boundary(chain: Seq<BlockView>, threshold_seconds: i64, k: int)
    requires
        chain.len() > 0,
        i64::MIN <= chain[0].timestamp - threshold_seconds <= i64::MAX,
        first_boundary(chain, chain[0].timestamp - threshold_seconds, k),
        counted_well_formed(chain, k),
        counted_total(chain, k) <= u64::MAX,
    ensures
        accumulate_spec(chain, threshold_seconds) == Ok::<WindowTotals, TpsError>(
            WindowTotals {
                oldest_timestamp: chain[k].timestamp,
                newest_timestamp: chain[0].timestamp,
                total_user_transactions: counted_total(chain, k) as u64,
            },
        ),
{
    let acc = begin_spec(chain[0].timestamp, threshold_seconds)->Ok_0;
    walk_reaches_boundary(chain, 0, acc, k);
}

/// A chain that reaches its first block, of height 0, before any parent is
/// at or before the threshold ends there without an error, and the first
/// block's timestamp is the oldest of the window.
pub proof fn walk_ends_at_first_block(chain: Seq<BlockView>, threshold_seconds: i64, k: int)
    requires
        0 < k < chain.len(),
        i64::MIN <= chain[0].timestamp - threshold_seconds <= i64::MAX,
        chain[k].height == 0,
        forall|j: int|
            0 < j < k ==> (#[trigger] chain[j]).height > 0 && chain[j].timestamp > chain[0].timestamp
                - threshold_seconds,
        counted_well_formed(chain, k),
        counted_total(chain, k) <= u64::MAX,
    ensures
        accumulate_spec(chain, threshold_seconds) is Ok,
        accumulate_spec(chain, threshold_seconds)->Ok_0.oldest_timestamp == chain[k].timestamp,
        accumulate_spec(chain, threshold_seconds)->Ok_0.total_user_transactions == counted_total(
            chain,
            k,
        ),
{
    walk_stops_at_first_boundary(chain, threshold_seconds, k);
}

proof fn walk_finds_a_block(chain: Seq<BlockView>, i: int, acc: Accumulator)
    requires
        0 <= i < chain.len() - 1,
        chain.last().height == 0,
    ensures
        walk_from(chain, i, acc) != Err::<WindowTotals, TpsError>(TpsError::SourceUnavailable),
    decreases chain.len() - i,
{
    match advance_spec(acc, chain[i], chain[i + 1].timestamp, chain[i + 1].height) {
        Ok(Step::Continue(next)) => {
            walk_finds_a_block(chain, i + 1, next);
        },
        _ => {},
    }
}

/// A chain that is handed over down to its first block, of height 0, never
/// leaves the walk without a block to look at: the walk ends at that block
/// at the latest.
pub proof fn walk_never_passes_the_first_block(chain: Seq<BlockView>, threshold_seconds: i64)
    requires
        chain.len() >= 2,
        chain.last().height == 0,
    ensures
        accumulate_spec(chain, threshold_seconds) != Err::<WindowTotals, TpsError>(
            TpsError::SourceUnavailable,
        ),
{
    match begin_spec(chain[0].timestamp, threshold_seconds) {
        Ok(acc) => {
            walk_finds_a_block(chain, 0, acc);
        },
        Err(_) => {},
    }
}

} // verus!
