//! Properties of the counter model that hold over whole sequences of
//! recorded outcomes, stated and proved once for all inputs.

use crate::entity::RequestResult;
use crate::histogram::CodeHistogram;
use crate::stats::{avg_milli, rate_milli, StatsModel};
use vstd::arithmetic::div_mod::{lemma_div_pos_is_pos, lemma_multiply_divide_lt};
use vstd::prelude::*;

verus! {

/// One recorded outcome: its terminal classification, its signed
/// latency, and the status code it carried.
pub ghost struct RecordEvent {
    pub result: RequestResult,
    pub latency: int,
    pub code: u16,
}

/// Counter model after recording `events` in order, starting from `m`.
pub open spec fn apply_records(m: StatsModel, events: Seq<RecordEvent>) -> StatsModel
    decreases events.len(),
{
    if events.len() == 0 {
        m
    } else {
        apply_records(m, events.drop_last()).step(
            events.last().result,
            events.last().latency,
            events.last().code,
        )
    }
}

/// Number of events classified as a plain success, without a cache hit.
pub open spec fn count_plain_success(events: Seq<RecordEvent>) -> int
    decreases events.len(),
{
    if events.len() == 0 {
        0
    } else {
        count_plain_success(events.drop_last()) + if events.last().result
            is Successful {
            1int
        } else {
            0int
        }
    }
}

/// Number of events carrying status code `code`.
pub open spec fn count_code(events: Seq<RecordEvent>, code: u16) -> int
    decreases events.len(),
{
    if events.len() == 0 {
        0
    } else {
        count_code(events.drop_last(), code) + if events.last().code == code {
            1int
        } else {
            0int
        }
    }
}

/// After recording any n outcomes on a fresh store, the total is
/// exactly n, and the five mutually exclusive category counters sum to
/// exactly n: no outcome is lost, double-counted, or counted in two
/// categories.
pub proof fn lemma_total_is_event_count(events: Seq<RecordEvent>)
    ensures
        apply_records(StatsModel::empty(), events).total == events.len(),
        apply_records(StatsModel::empty(), events).successful + apply_records(
            StatsModel::empty(),
            events,
        ).errors() == events.len(),
    decreases events.len(),
{
    if events.len() > 0 {
        lemma_total_is_event_count(events.drop_last());
    }
}

/// Cache hits never exceed successful requests, and the two are equal
/// exactly when no success was recorded without a cache hit.
pub proof fn lemma_cache_hits_bounded(events: Seq<RecordEvent>)
    ensures
        apply_records(StatsModel::empty(), events).cache <= apply_records(
            StatsModel::empty(),
            events,
        ).successful,
        apply_records(StatsModel::empty(), events).successful - apply_records(
            StatsModel::empty(),
            events,
        ).cache == count_plain_success(events),
        apply_records(StatsModel::empty(), events).cache == apply_records(
            StatsModel::empty(),
            events,
        ).successful <==> (forall|i: int|
            0 <= i < events.len() ==> !((#[trigger] events[i]).result is Successful)),
    decreases events.len(),
{
    lemma_count_plain_success_zero(events);
    lemma_cache_gap(events);
}

/// The gap between successes and cache hits is the number of plain
/// successes, and both counters only grow.
proof fn lemma_cache_gap(events: Seq<RecordEvent>)
    ensures
        apply_records(StatsModel::empty(), events).cache >= 0,
        apply_records(StatsModel::empty(), events).successful - apply_records(
            StatsModel::empty(),
            events,
        ).cache == count_plain_success(events),
        count_plain_success(events) >= 0,
    decreases events.len(),
{
    if events.len() > 0 {
        lemma_cache_gap(events.drop_last());
    }
}

/// No plain success was counted exactly when no event is one.
proof fn lemma_count_plain_success_zero(events: Seq<RecordEvent>)
    ensures
        count_plain_success(events) >= 0,
        count_plain_success(events) == 0 <==> (forall|i: int|
            0 <= i < events.len() ==> !((#[trigger] events[i]).result is Successful)),
    decreases events.len(),
{
    if events.len() > 0 {
        lemma_count_plain_success_zero(events.drop_last());
        if count_plain_success(events) == 0 {
            assert forall|i: int|
                0 <= i < events.len() implies !((#[trigger] events[i]).result
                is Successful) by {
                if i < events.len() - 1 {
                    assert(events.drop_last()[i] == events[i]);
                }
            }
        } else {
            if !(events.last().result is Successful) {
                let i = choose|i: int|
                    0 <= i < events.drop_last().len() && (#[trigger] events.drop_last()[i]).result
                        is Successful;
                assert(events[i].result is Successful);
            }
        }
    }
}

/// The sentinel status code `0` never enters the histogram, and any
/// other code supplied n times is counted exactly n times.
pub proof fn lemma_histogram_counts(events: Seq<RecordEvent>)
    ensures
        !apply_records(StatsModel::empty(), events).hist.contains_key(0),
        forall|c: u16|
            c != 0 ==> CodeHistogram::spec_count(
                apply_records(StatsModel::empty(), events).hist,
                c,
            ) == count_code(events, c),
    decreases events.len(),
{
    if events.len() > 0 {
        lemma_histogram_counts(events.drop_last());
        let prev = apply_records(StatsModel::empty(), events.drop_last());
        let last = events.last();
        assert forall|c: u16|
            c != 0 implies CodeHistogram::spec_count(
            apply_records(StatsModel::empty(), events).hist,
            c,
        ) == count_code(events, c) by {
            assert(apply_records(StatsModel::empty(), events) == prev.step(
                last.result,
                last.latency,
                last.code,
            ));
            assert(count_code(events, c) == count_code(events.drop_last(), c) + if last.code
                == c {
                1int
            } else {
                0int
            });
            if last.code != 0 && last.code != c {
                assert(CodeHistogram::spec_count(
                    prev.hist.insert(last.code, CodeHistogram::spec_count(prev.hist, last.code) + 1),
                    c,
                ) == CodeHistogram::spec_count(prev.hist, c));
            }
        }
    }
}

/// Both reported rates are ratios of a part to a whole, so their
/// rounded thousandths always land in `0 ..= 1000`.
pub proof fn lemma_rate_milli_range(num: int, den: int)
    requires
        0 <= num <= den,
    ensures
        0 <= rate_milli(num, den) <= 1000,
{
    if den > 0 {
        lemma_div_pos_is_pos(2000 * num + den, 2 * den);
        lemma_multiply_divide_lt(2000 * num + den, 2 * den, 1001);
    }
}

/// A snapshot taken immediately after a reset reports zero requests and
/// zero rates: the derived metrics of the fresh counter store are all
/// zero.
pub proof fn lemma_snapshot_after_reset_is_zero()
    ensures
        StatsModel::empty().total == 0,
        StatsModel::empty().cache == 0,
        rate_milli(StatsModel::empty().errors(), StatsModel::empty().total) == 0,
        rate_milli(StatsModel::empty().cache, StatsModel::empty().successful) == 0,
        avg_milli(StatsModel::empty().latency, StatsModel::empty().total) == 0,
        StatsModel::empty().hist =~= Map::<u16, int>::empty(),
{
}

} // verus!
