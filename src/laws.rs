use vstd::prelude::*;

use crate::error::TimerError;
use crate::interval::TimerInterval;
use crate::lifecycle::{
    fresh_state, next, valid_state, TimerAction, TimerEvent, TimerPhase, TimerState,
};

verus! {

/// The state a timer reaches from `s` through `events`, in order.
pub open spec fn run(s: TimerState, events: Seq<TimerEvent>) -> TimerState
    decreases events.len(),
{
    if events.len() == 0 {
        s
    } else {
        run(next(s, events[0]).0, events.drop_first())
    }
}

/// How many kernel timer objects the timer comes to hold on the way from `s`
/// through `events`: the creations that the operating system reported done.
pub open spec fn acquisitions(s: TimerState, events: Seq<TimerEvent>) -> nat
    decreases events.len(),
{
    if events.len() == 0 {
        0
    } else {
        let here: nat = if s.phase is Creating && events[0] is Created {
            1
        } else {
            0
        };
        here + acquisitions(next(s, events[0]).0, events.drop_first())
    }
}

/// How many times the timer asks for its kernel timer object to be released
/// on the way from `s` through `events`.
pub open spec fn releases(s: TimerState, events: Seq<TimerEvent>) -> nat
    decreases events.len(),
{
    if events.len() == 0 {
        0
    } else {
        let here: nat = if next(s, events[0]).1 is ReleaseTimer {
            1
        } else {
            0
        };
        here + releases(next(s, events[0]).0, events.drop_first())
    }
}

/// The threads that the timer asks kernel timer objects to be aimed at, in
/// order, on the way from `s` through `events`.
pub open spec fn create_targets(s: TimerState, events: Seq<TimerEvent>) -> Seq<i32>
    decreases events.len(),
{
    if events.len() == 0 {
        Seq::empty()
    } else {
        let rest = create_targets(next(s, events[0]).0, events.drop_first());
        match next(s, events[0]).1 {
            TimerAction::CreateTimer { thread_id } => seq![thread_id] + rest,
            _ => rest,
        }
    }
}

/// The first thread identity reported among `events`, if any.
pub open spec fn first_identified(events: Seq<TimerEvent>) -> Option<i32>
    decreases events.len(),
{
    if events.len() == 0 {
        None
    } else {
        match events[0] {
            TimerEvent::ThreadIdentified(tid) => Some(tid),
            _ => first_identified(events.drop_first()),
        }
    }
}

/// Whether a timer in this phase holds a kernel timer object.
pub open spec fn holds_timer(p: TimerPhase) -> bool {
    p is Arming || p is Live
}

/// Whether a timer in this phase is done with: set up failed, or released.
pub open spec fn is_finished(p: TimerPhase) -> bool {
    p is Failed || p is Released
}

/// How many kernel timer objects a timer in this phase has held so far.
pub open spec fn acquired_by(p: TimerPhase) -> nat {
    match p {
        TimerPhase::Arming | TimerPhase::Live | TimerPhase::Released => 1,
        TimerPhase::Failed(TimerError::TimerArmFailed(_)) => 1,
        _ => 0,
    }
}

/// How many releases a timer in this phase has asked for so far.
pub open spec fn released_by(p: TimerPhase) -> nat {
    match p {
        TimerPhase::Released => 1,
        TimerPhase::Failed(TimerError::TimerArmFailed(_)) => 1,
        _ => 0,
    }
}

/// Any run from a valid state stays valid, keeps the frequency and period,
/// and its counts of acquisitions and releases are told by the phases at its
/// two ends.
proof fn lemma_run_counts(s: TimerState, events: Seq<TimerEvent>)
    requires
        valid_state(s),
    ensures
        valid_state(run(s, events)),
        run(s, events).frequency == s.frequency,
        run(s, events).interval == s.interval,
        acquisitions(s, events) + acquired_by(s.phase) == acquired_by(run(s, events).phase),
        releases(s, events) + released_by(s.phase) == released_by(run(s, events).phase),
        s.owner_thread is Some ==> run(s, events).owner_thread == s.owner_thread,
        s.owner_thread is None ==> run(s, events).owner_thread == first_identified(events),
        s.owner_thread is Some ==> create_targets(s, events) == Seq::<i32>::empty(),
        s.owner_thread is None ==> create_targets(s, events) == match first_identified(events) {
            Some(tid) => seq![tid],
            None => Seq::<i32>::empty(),
        },
    decreases events.len(),
{
    if events.len() > 0 {
        let s1 = next(s, events[0]).0;
        lemma_run_counts(s1, events.drop_first());
    }
}

/// Destroying a timer asks for its kernel timer object to be released
/// exactly once, and a timer that never came to hold one never asks for a
/// release: over any events, from the moment a timer is made, the releases
/// asked for are the objects acquired less the one still held, if any. So
/// there is never more than one release, there is one once the timer is
/// released, and none when creating the object failed.
pub proof fn lemma_release_once(frequency: i32, interval: TimerInterval, events: Seq<TimerEvent>)
    requires
        interval.is_period_of(frequency as int),
    ensures
        ({
            let s = fresh_state(frequency, interval);
            let fin = run(s, events).phase;
            &&& releases(s, events) + (if holds_timer(fin) { 1int } else { 0 }) == acquisitions(s, events)
            &&& releases(s, events) <= 1
            &&& acquisitions(s, events) <= 1
            &&& fin is Released ==> releases(s, events) == 1
            &&& fin matches TimerPhase::Failed(TimerError::TimerCreationFailed(_)) ==> releases(s, events) == 0
            &&& acquisitions(s, events) == 0 ==> releases(s, events) == 0
        }),
{
    lemma_run_counts(fresh_state(frequency, interval), events);
}

/// A live timer that is destroyed asks for one release and is then released;
/// after that no event makes it ask for another.
pub proof fn lemma_destroy_live(s: TimerState, later: Seq<TimerEvent>)
    requires
        valid_state(s),
        s.phase is Live,
    ensures
        next(s, TimerEvent::Destroy).1 is ReleaseTimer,
        next(s, TimerEvent::Destroy).0.phase is Released,
        releases(next(s, TimerEvent::Destroy).0, later) == 0,
{
    lemma_run_counts(next(s, TimerEvent::Destroy).0, later);
}

/// A timer that has finished, by failing or by being released, holds no
/// kernel timer object: it asked for exactly as many releases as it acquired
/// objects.
pub proof fn lemma_no_leak(frequency: i32, interval: TimerInterval, events: Seq<TimerEvent>)
    requires
        interval.is_period_of(frequency as int),
        is_finished(run(fresh_state(frequency, interval), events).phase),
    ensures
        releases(fresh_state(frequency, interval), events) == acquisitions(
            fresh_state(frequency, interval),
            events,
        ),
{
    lemma_run_counts(fresh_state(frequency, interval), events);
}

/// Acquisitions over a sequence of timers, one made after another with the
/// same frequency, each run through its own events.
pub open spec fn total_acquisitions(
    frequency: i32,
    interval: TimerInterval,
    cycles: Seq<Seq<TimerEvent>>,
) -> nat
    decreases cycles.len(),
{
    if cycles.len() == 0 {
        0
    } else {
        acquisitions(fresh_state(frequency, interval), cycles[0]) + total_acquisitions(
            frequency,
            interval,
            cycles.drop_first(),
        )
    }
}

/// Releases over a sequence of timers, one made after another with the same
/// frequency, each run through its own events.
pub open spec fn total_releases(
    frequency: i32,
    interval: TimerInterval,
    cycles: Seq<Seq<TimerEvent>>,
) -> nat
    decreases cycles.len(),
{
    if cycles.len() == 0 {
        0
    } else {
        releases(fresh_state(frequency, interval), cycles[0]) + total_releases(
            frequency,
            interval,
            cycles.drop_first(),
        )
    }
}

/// Making and finishing timers over and over does not leak: once every timer
/// of the sequence has finished, the releases asked for equal the kernel
/// timer objects acquired.
pub proof fn lemma_cycles_balance(
    frequency: i32,
    interval: TimerInterval,
    cycles: Seq<Seq<TimerEvent>>,
)
    requires
        interval.is_period_of(frequency as int),
        forall|i: int|
            0 <= i < cycles.len() ==> is_finished(
                #[trigger] run(fresh_state(frequency, interval), cycles[i]).phase,
            ),
    ensures
        total_releases(frequency, interval, cycles) == total_acquisitions(
            frequency,
            interval,
            cycles,
        ),
    decreases cycles.len(),
{
    if cycles.len() > 0 {
        lemma_no_leak(frequency, interval, cycles[0]);
        let rest = cycles.drop_first();
        assert forall|i: int| 0 <= i < rest.len() implies is_finished(
            #[trigger] run(fresh_state(frequency, interval), rest[i]).phase,
        ) by {
            assert(rest[i] == cycles[i + 1]);
        }
        lemma_cycles_balance(frequency, interval, rest);
    }
}

/// A timer is aimed at the thread that made it: from the moment a timer is
/// made, over any events, it asks for at most one kernel timer object, aimed
/// at the first thread identity reported, and that identity is the owner it
/// records.
pub proof fn lemma_owner_thread(frequency: i32, interval: TimerInterval, events: Seq<TimerEvent>)
    requires
        interval.is_period_of(frequency as int),
    ensures
        ({
            let s = fresh_state(frequency, interval);
            &&& run(s, events).owner_thread == first_identified(events)
            &&& create_targets(s, events).len() <= 1
            &&& forall|j: int|
                0 <= j < create_targets(s, events).len() ==> run(s, events).owner_thread == Some(
                    #[trigger] create_targets(s, events)[j],
                )
        }),
{
    lemma_run_counts(fresh_state(frequency, interval), events);
}

} // verus!
