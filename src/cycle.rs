//! What holds of whole backup cycles: sequences of polls after a start.
use vstd::prelude::*;
use crate::schedule::{
    ScheduleConfig, Scheduler, TimeSelection, day_start, hour_of, lemma_step_bound, valid_time,
};

verus! {

/// The state after polling at each of `times` in turn, and how many of those
/// polls found a backup due.
pub open spec fn run(s: Scheduler, times: Seq<int>) -> (Scheduler, nat)
    decreases times.len(),
{
    if times.len() == 0 {
        (s, 0)
    } else {
        let (s1, due) = s.polled(times[0]);
        let (s2, n) = run(s1, times.drop_first());
        (s2, n + if due { 1nat } else { 0nat })
    }
}

/// The times never go backwards.
pub open spec fn ascending(times: Seq<int>) -> bool {
    forall|i: int, j: int| 0 <= i <= j < times.len() ==> times[i] <= times[j]
}

/// Every time is one the scheduler accepts.
pub open spec fn all_valid(times: Seq<int>) -> bool {
    forall|i: int| 0 <= i < times.len() ==> valid_time(#[trigger] times[i])
}

/// Start of window `j` of a cycle whose first poll came at `t0`: the span of
/// the `j`-th interval after it.
pub open spec fn window_start(t0: int, i: int, j: int) -> int {
    t0 + j * i
}

/// Some poll falls in window `j`.
pub open spec fn polled_in_window(times: Seq<int>, t0: int, i: int, j: int) -> bool {
    exists|k: int|
        0 <= k < times.len() && window_start(t0, i, j) <= #[trigger] times[k] < window_start(t0, i, j + 1)
}

/// Every window that begins no later than the last poll holds a poll.
pub open spec fn every_window_polled(times: Seq<int>, t0: int, i: int) -> bool {
    forall|j: int|
        0 <= j && window_start(t0, i, j) <= times.last() ==> #[trigger] polled_in_window(times, t0, i, j)
}

/// Between the polls at `a` and then `b`, window `j` passes with no poll in it.
pub open spec fn skips(a: int, b: int, t0: int, i: int, j: int) -> bool {
    a < window_start(t0, i, j) && window_start(t0, i, j + 1) <= b
}

/// No window passes between the poll at `prev` and the first of `times`, nor
/// between two consecutive ones of `times`.
pub open spec fn no_window_skipped(times: Seq<int>, prev: int, t0: int, i: int) -> bool {
    &&& times.len() > 0 ==> forall|j: int| !#[trigger] skips(prev, times[0], t0, i, j)
    &&& forall|k: int, j: int| 0 < k < times.len() ==> !#[trigger] skips(times[k - 1], times[k], t0, i, j)
}

proof fn lemma_first_fire_bounds(c: ScheduleConfig, now: int)
    requires
        c.wf(),
        valid_time(now),
    ensures
        now - 86400 < c.first_fire(now) <= now + 0x8000_0000 * 3600,
        c.unit != TimeSelection::Day ==> c.first_fire(now) == now + c.step(),
        0 <= c.step() <= 0x8000_0000 * 3600,
{
    lemma_step_bound(c);
}

proof fn lemma_polled_wf(s: Scheduler, now: int)
    requires
        s.wf(),
        valid_time(now),
    ensures
        s.polled(now).0.wf(),
        s.polled(now).0.config == s.config,
        s.polled(now).0.running == s.running,
{
    lemma_first_fire_bounds(s.config, now);
}

/// What holds of a sequence of poll times holds of its tail.
proof fn lemma_tail(times: Seq<int>, prev: int, t0: int, i: int)
    requires
        times.len() > 0,
        all_valid(times),
        ascending(times),
    ensures
        all_valid(times.drop_first()),
        ascending(times.drop_first()),
        times.len() > 1 ==> times.drop_first()[0] == times[1] && times.drop_first().last() == times.last(),
        no_window_skipped(times, prev, t0, i) ==> no_window_skipped(times.drop_first(), times[0], t0, i),
{
    let rest = times.drop_first();
    assert forall|j: int| 0 <= j < rest.len() implies valid_time(#[trigger] rest[j]) by {
        assert(rest[j] == times[j + 1]);
    }
    assert forall|a: int, b: int| 0 <= a <= b < rest.len() implies rest[a] <= rest[b] by {
        assert(rest[a] == times[a + 1] && rest[b] == times[b + 1]);
    }
    if no_window_skipped(times, prev, t0, i) {
        if rest.len() > 0 {
            assert forall|j: int| !#[trigger] skips(times[0], rest[0], t0, i, j) by {
                assert(rest[0] == times[1]);
                assert(!skips(times[1 - 1], times[1], t0, i, j));
            }
        }
        assert forall|k: int, j: int| 0 < k < rest.len() implies !#[trigger] skips(rest[k - 1], rest[k], t0, i, j) by {
            assert(rest[k] == times[k + 1] && rest[k - 1] == times[k]);
            assert(!skips(times[(k + 1) - 1], times[k + 1], t0, i, j));
        }
    }
}

proof fn lemma_run_interval(s: Scheduler, times: Seq<int>, t0: int, k: nat, prev: int)
    requires
        s.wf(),
        s.running,
        s.config.unit != TimeSelection::Day,
        s.config.magnitude >= 1,
        s.next_fire matches Some(f) && f == t0 + (k + 1) * s.config.step(),
        k * s.config.step() <= prev - t0,
        all_valid(times),
        ascending(times),
        times.len() > 0 ==> prev <= times[0],
    ensures
        ({
            let (end, n) = run(s, times);
            let last = if times.len() == 0 { prev } else { times.last() };
            let i = s.config.step();
            &&& end.wf()
            &&& end.running
            &&& end.config == s.config
            &&& end.next_fire matches Some(f) && f == t0 + (k + n + 1) * i
            &&& (k + n) * i <= last - t0
            &&& (prev < t0 + (k + 1) * i && no_window_skipped(times, prev, t0, i))
                ==> last < t0 + (k + n + 1) * i
        }),
    decreases times.len(),
{
    let i = s.config.step();
    if times.len() > 0 {
        let now = times[0];
        assert(valid_time(now));
        lemma_first_fire_bounds(s.config, now);
        lemma_polled_wf(s, now);
        let (s1, due) = s.polled(now);
        let rest = times.drop_first();
        let k1: nat = k + if due { 1nat } else { 0nat };
        assert((k + 1) * i == k * i + i) by (nonlinear_arith);
        assert((k + 2) * i == k * i + 2 * i) by (nonlinear_arith);
        assert(s1.next_fire matches Some(f) && f == t0 + (k1 + 1) * i);
        assert(k1 * i <= now - t0);
        lemma_tail(times, prev, t0, i);
        lemma_run_interval(s1, rest, t0, k1, now);
        let (end, n1) = run(s1, rest);
        assert(run(s, times) == (end, n1 + if due { 1nat } else { 0nat }));
        if prev < t0 + (k + 1) * i && no_window_skipped(times, prev, t0, i) {
            let j: int = k as int + 1;
            assert(!skips(prev, now, t0, i, j));
            assert(window_start(t0, i, j) == t0 + (k + 1) * i);
            assert(window_start(t0, i, j + 1) == t0 + (k + 2) * i);
            assert(now < t0 + (k1 + 1) * i);
        }
    }
}

/// Where every window up to the last poll holds a poll, no poll passes a
/// whole window since the one before it.
proof fn lemma_windows_not_skipped(times: Seq<int>, t0: int, i: int)
    requires
        times.len() >= 1,
        t0 == times[0],
        i >= 1,
        ascending(times),
        every_window_polled(times, t0, i),
    ensures
        no_window_skipped(times.drop_first(), t0, t0, i),
{
    let rest = times.drop_first();
    assert forall|a: int, b: int, j: int|
        0 <= a < b < times.len() && b == a + 1 implies !#[trigger] skips(times[a], times[b], t0, i, j) by {
        if skips(times[a], times[b], t0, i, j) {
            assert(t0 <= times[a]);
            assert(j * i > 0);
            assert(j >= 1) by (nonlinear_arith)
                requires j * i > 0, i >= 1;
            assert(window_start(t0, i, j) <= window_start(t0, i, j + 1)) by (nonlinear_arith)
                requires i >= 1;
            assert(times[b] <= times.last());
            assert(polled_in_window(times, t0, i, j));
            let c = choose|c: int|
                0 <= c < times.len() && window_start(t0, i, j) <= #[trigger] times[c] < window_start(t0, i, j + 1);
            if c <= a {
                assert(times[c] <= times[a]);
            } else {
                assert(times[b] <= times[c]);
            }
        }
    }
    if rest.len() > 0 {
        assert forall|j: int| !#[trigger] skips(t0, rest[0], t0, i, j) by {
            assert(rest[0] == times[1]);
            assert(!skips(times[0], times[1], t0, i, j));
        }
    }
    assert forall|k: int, j: int| 0 < k < rest.len() implies !#[trigger] skips(rest[k - 1], rest[k], t0, i, j) by {
        assert(rest[k] == times[k + 1] && rest[k - 1] == times[k]);
        assert(!skips(times[k], times[k + 1], t0, i, j));
    }
}

/// Under an interval schedule of at least one second, polls at times that
/// never go backwards, the first coming at the start, fire only once a whole
/// interval has passed for each fire so far, and the next fire always lies a
/// whole number of intervals after the first poll. Where every interval up to
/// the last poll holds a poll, none is missed nor doubled: the number of fires
/// is the number of whole intervals that have passed.
pub proof fn law_interval_cycle(s: Scheduler, config: ScheduleConfig, times: Seq<int>)
    requires
        s.wf(),
        config.wf(),
        config.unit != TimeSelection::Day,
        config.magnitude >= 1,
        times.len() >= 1,
        all_valid(times),
        ascending(times),
    ensures
        ({
            let t0 = times[0];
            let (end, fires) = run(s.started(config), times);
            let i = config.step();
            &&& end.running
            &&& end.next_fire matches Some(f) && f == t0 + (fires + 1) * i
            &&& fires * i <= times.last() - t0
            &&& every_window_polled(times, t0, i) ==> fires == (times.last() - t0) / i
        }),
{
    let t0 = times[0];
    let st = s.started(config);
    let i = config.step();
    assert(valid_time(t0));
    lemma_first_fire_bounds(config, t0);
    lemma_polled_wf(st, t0);
    let (s1, due) = st.polled(t0);
    assert(!due);
    assert(config.first_fire(t0) == t0 + i);
    assert(s1.next_fire == Some((t0 + i) as i64));
    assert((0 + 1) * i == i) by (nonlinear_arith);
    assert(s1.next_fire matches Some(f) && f == t0 + (0 + 1) * i);
    let rest = times.drop_first();
    lemma_tail(times, t0, t0, i);
    assert(1 <= i) by (nonlinear_arith)
        requires i == config.magnitude * config.unit.unit_seconds(), config.magnitude >= 1,
            config.unit.unit_seconds() >= 1;
    lemma_run_interval(s1, rest, t0, 0, t0);
    let (end, fires) = run(s1, rest);
    assert(run(st, times) == (end, fires));
    if rest.len() == 0 {
        assert(times.last() == t0);
    }
    if every_window_polled(times, t0, i) {
        lemma_windows_not_skipped(times, t0, i);
        let d = times.last() - t0;
        assert(fires * i <= d < (fires + 1) * i);
        assert(fires == d / i) by (nonlinear_arith)
            requires fires * i <= d, d < (fires + 1) * i, i >= 1, fires >= 0;
    }
}

/// Under a daily schedule at hour `h`, the first poll after a start at `now`
/// finds nothing due and sets the first fire to today at h:00:00 when the
/// current hour is before `h`, and to tomorrow at h:00:00 otherwise. That fire
/// lies in the future and on the hour `h`.
pub proof fn law_daily_first_fire(s: Scheduler, config: ScheduleConfig, now: int)
    requires
        s.wf(),
        config.wf(),
        config.unit == TimeSelection::Day,
        valid_time(now),
    ensures
        ({
            let (p, due) = s.started(config).polled(now);
            let h = config.daily_hour as int;
            &&& !due
            &&& p.next_fire is Some
            &&& hour_of(now) < h ==> p.next_fire->0 == day_start(now) + h * 3600
            &&& hour_of(now) >= h ==> p.next_fire->0 == day_start(now) + 86400 + h * 3600
            &&& now < p.next_fire->0
            &&& p.next_fire->0 % 86400 == h * 3600
        }),
{
    lemma_first_fire_bounds(config, now);
}

/// Under a daily schedule, a poll that finds the fire at `f` due moves the
/// next fire to exactly one day later, on the same hour of the day.
pub proof fn law_daily_repeat(s: Scheduler, now: int)
    requires
        s.wf(),
        s.running,
        s.config.unit == TimeSelection::Day,
        s.next_fire is Some,
        valid_time(now),
        now >= s.next_fire->0,
    ensures
        ({
            let f = s.next_fire->0;
            &&& s.polled(now) == (Scheduler { next_fire: Some((f + 86400) as i64), ..s }, true)
            &&& f + 86400 <= i64::MAX
            &&& (f + 86400) % 86400 == f % 86400
        }),
{
}

/// Stopping a cycle and starting again discards the old countdown: the first
/// poll after the restart computes the next fire from that poll's time alone.
pub proof fn law_restart_recomputes(s: Scheduler, config: ScheduleConfig, now: int)
    requires
        s.wf(),
        config.wf(),
        valid_time(now),
    ensures
        ({
            let (p, due) = s.stopped().started(config).polled(now);
            &&& !due
            &&& p.running
            &&& p.config == config
            &&& p.next_fire matches Some(f) && f == config.first_fire(now)
        }),
{
    lemma_first_fire_bounds(config, now);
}

} // verus!
