use vstd::prelude::*;

use crate::error::TimerError;
use crate::interval::{timer_interval, TimerInterval};

verus! {

/// Where a timer stands in its life.
#[derive(Clone, Copy, Debug, PartialEq, Eq, Structural)]
pub enum TimerPhase {
    /// The period is known; the identity of the calling thread is wanted.
    AwaitingThread,
    /// The kernel timer object has been asked for, aimed at the owner thread.
    Creating,
    /// The kernel timer object exists and is being armed.
    Arming,
    /// The kernel timer object exists and ticks.
    Live,
    /// Setting up failed; no kernel timer object is held.
    Failed(TimerError),
    /// The kernel timer object has been released.
    Released,
}

/// What the operating system reported back to the timer.
#[derive(Clone, Copy, Debug, PartialEq, Eq, Structural)]
pub enum TimerEvent {
    /// The identity of the calling thread.
    ThreadIdentified(i32),
    /// The kernel timer object was created.
    Created,
    /// Creating the kernel timer object failed, with this error code.
    CreateFailed(i32),
    /// The kernel timer object was armed.
    Armed,
    /// Arming the kernel timer object failed, with this error code.
    ArmFailed(i32),
    /// The owner of the timer is done with it.
    Destroy,
}

/// What the timer asks of the operating system next.
#[derive(Clone, Copy, Debug, PartialEq, Eq, Structural)]
pub enum TimerAction {
    /// Read the identity of the calling thread.
    IdentifyThread,
    /// Create a kernel timer object on the realtime clock whose expirations
    /// are delivered as the alarm signal to this thread alone.
    CreateTimer { thread_id: i32 },
    /// Arm the timer object relatively, with this period both as the first
    /// expiration and as the repeating interval.
    ArmTimer { interval: TimerInterval },
    /// Release the timer object.
    ReleaseTimer,
    /// Nothing to do.
    Nothing,
}

/// The state of a timer, as contracts see it.
pub struct TimerState {
    pub frequency: i32,
    pub interval: TimerInterval,
    pub owner_thread: Option<i32>,
    pub phase: TimerPhase,
}

/// One timer: its frequency and period, the thread that owns it, and where it
/// stands in its life. Frequency and period never change after creation.
pub struct ThreadTimer {
    frequency: i32,
    interval: TimerInterval,
    owner_thread: Option<i32>,
    phase: TimerPhase,
}

impl View for ThreadTimer {
    type V = TimerState;

    closed spec fn view(&self) -> TimerState {
        TimerState {
            frequency: self.frequency,
            interval: self.interval,
            owner_thread: self.owner_thread,
            phase: self.phase,
        }
    }
}

/// The states a timer can be in: a positive frequency with its period, an
/// owner known once the thread has been identified, and a failure only of
/// creating or of arming.
pub open spec fn valid_state(s: TimerState) -> bool {
    &&& s.interval.is_period_of(s.frequency as int)
    &&& (s.phase is AwaitingThread <==> s.owner_thread is None)
    &&& (s.phase matches TimerPhase::Failed(e) ==> (e is TimerCreationFailed || e is TimerArmFailed))
}

/// A timer as it is first made for `frequency`: nothing asked of the
/// operating system yet.
pub open spec fn fresh_state(frequency: i32, interval: TimerInterval) -> TimerState {
    TimerState { frequency, interval, owner_thread: None, phase: TimerPhase::AwaitingThread }
}

/// The new state, and the action asked for, when `event` reaches a timer in
/// state `s`. An event that does not fit the phase changes nothing.
pub open spec fn next(s: TimerState, event: TimerEvent) -> (TimerState, TimerAction) {
    match (s.phase, event) {
        (TimerPhase::AwaitingThread, TimerEvent::ThreadIdentified(tid)) => (
            TimerState { owner_thread: Some(tid), phase: TimerPhase::Creating, ..s },
            TimerAction::CreateTimer { thread_id: tid },
        ),
        (TimerPhase::Creating, TimerEvent::Created) => (
            TimerState { phase: TimerPhase::Arming, ..s },
            TimerAction::ArmTimer { interval: s.interval },
        ),
        (TimerPhase::Creating, TimerEvent::CreateFailed(code)) => (
            TimerState { phase: TimerPhase::Failed(TimerError::TimerCreationFailed(code)), ..s },
            TimerAction::Nothing,
        ),
        (TimerPhase::Arming, TimerEvent::Armed) => (
            TimerState { phase: TimerPhase::Live, ..s },
            TimerAction::Nothing,
        ),
        (TimerPhase::Arming, TimerEvent::ArmFailed(code)) => (
            TimerState { phase: TimerPhase::Failed(TimerError::TimerArmFailed(code)), ..s },
            TimerAction::ReleaseTimer,
        ),
        (TimerPhase::Arming, TimerEvent::Destroy) => (
            TimerState { phase: TimerPhase::Released, ..s },
            TimerAction::ReleaseTimer,
        ),
        (TimerPhase::Live, TimerEvent::Destroy) => (
            TimerState { phase: TimerPhase::Released, ..s },
            TimerAction::ReleaseTimer,
        ),
        _ => (s, TimerAction::Nothing),
    }
}

impl ThreadTimer {
    /// Whether the fields describe a state a timer can be in.
    pub open spec fn wf(&self) -> bool {
        valid_state(self@)
    }

    /// Starts a timer for `frequency` ticks a second, and asks for the
    /// identity of the calling thread. A frequency that is zero or negative
    /// is refused before anything is asked of the operating system.
    pub fn start(frequency: i32) -> (r: Result<(ThreadTimer, TimerAction), TimerError>)
        ensures
            frequency <= 0 <==> r is Err,
            frequency <= 0 ==> r == Err::<(ThreadTimer, TimerAction), TimerError>(
                TimerError::InvalidFrequency,
            ),
            r matches Ok((t, a)) ==> {
                &&& t.wf()
                &&& t@.interval.is_period_of(frequency as int)
                &&& t@ == fresh_state(frequency, t@.interval)
                &&& a == TimerAction::IdentifyThread
            },
    {
        match timer_interval(frequency) {
            Err(e) => Err(e),
            Ok(interval) => {
                let t = ThreadTimer {
                    frequency,
                    interval,
                    owner_thread: None,
                    phase: TimerPhase::AwaitingThread,
                };
                Ok((t, TimerAction::IdentifyThread))
            },
        }
    }

    /// Moves the timer on by one event, and says what to ask of the operating
    /// system next.
    pub fn step(&mut self, event: TimerEvent) -> (action: TimerAction)
        requires
            old(self).wf(),
        ensures
            final(self).wf(),
            (final(self)@, action) == next(old(self)@, event),
    {
        match (self.phase, event) {
            (TimerPhase::AwaitingThread, TimerEvent::ThreadIdentified(tid)) => {
                self.owner_thread = Some(tid);
                self.phase = TimerPhase::Creating;
                TimerAction::CreateTimer { thread_id: tid }
            },
            (TimerPhase::Creating, TimerEvent::Created) => {
                self.phase = TimerPhase::Arming;
                TimerAction::ArmTimer { interval: self.interval }
            },
            (TimerPhase::Creating, TimerEvent::CreateFailed(code)) => {
                self.phase = TimerPhase::Failed(TimerError::TimerCreationFailed(code));
                TimerAction::Nothing
            },
            (TimerPhase::Arming, TimerEvent::Armed) => {
                self.phase = TimerPhase::Live;
                TimerAction::Nothing
            },
            (TimerPhase::Arming, TimerEvent::ArmFailed(code)) => {
                self.phase = TimerPhase::Failed(TimerError::TimerArmFailed(code));
                TimerAction::ReleaseTimer
            },
            (TimerPhase::Arming, TimerEvent::Destroy) => {
                self.phase = TimerPhase::Released;
                TimerAction::ReleaseTimer
            },
            (TimerPhase::Live, TimerEvent::Destroy) => {
                self.phase = TimerPhase::Released;
                TimerAction::ReleaseTimer
            },
            _ => TimerAction::Nothing,
        }
    }

    /// Ticks a second that the timer was made for.
    pub fn frequency(&self) -> (r: i32)
        ensures
            r == self@.frequency,
    {
        self.frequency
    }

    /// The tick period: the first expiration and the repeating interval.
    pub fn interval(&self) -> (r: TimerInterval)
        ensures
            r == self@.interval,
    {
        self.interval
    }

    /// The thread that the timer's signal is aimed at, once identified.
    pub fn owner_thread(&self) -> (r: Option<i32>)
        ensures
            r == self@.owner_thread,
    {
        self.owner_thread
    }

    /// Where the timer stands in its life.
    pub fn phase(&self) -> (r: TimerPhase)
        ensures
            r == self@.phase,
    {
        self.phase
    }

    /// Whether the timer is armed and ticking.
    pub fn is_live(&self) -> (r: bool)
        ensures
            r == (self@.phase is Live),
    {
        match self.phase {
            TimerPhase::Live => true,
            _ => false,
        }
    }

    /// Why setting the timer up failed, if it did.
    pub fn failure(&self) -> (r: Option<TimerError>)
        ensures
            self@.phase matches TimerPhase::Failed(e) ==> r == Some(e),
            !(self@.phase is Failed) ==> r is None,
    {
        match self.phase {
            TimerPhase::Failed(e) => Some(e),
            _ => None,
        }
    }
}

impl TimerEvent {
    /// The event for what the call that creates a kernel timer object
    /// returned: a status of 0 is success, any other a failure with the error
    /// code `errno`.
    pub fn from_create_status(status: i32, errno: i32) -> (e: TimerEvent)
        ensures
            status == 0 ==> e == TimerEvent::Created,
            status != 0 ==> e == TimerEvent::CreateFailed(errno),
    {
        if status == 0 {
            TimerEvent::Created
        } else {
            TimerEvent::CreateFailed(errno)
        }
    }

    /// The event for what the call that arms a kernel timer object returned:
    /// a status of 0 is success, any other a failure with the error code
    /// `errno`.
    pub fn from_arm_status(status: i32, errno: i32) -> (e: TimerEvent)
        ensures
            status == 0 ==> e == TimerEvent::Armed,
            status != 0 ==> e == TimerEvent::ArmFailed(errno),
    {
        if status == 0 {
            TimerEvent::Armed
        } else {
            TimerEvent::ArmFailed(errno)
        }
    }
}

/// What the call that releases a kernel timer object returned, as a result:
/// a status of 0 is success, any other the failure to report, with the error
/// code `errno`.
pub fn release_outcome(status: i32, errno: i32) -> (r: Result<(), TimerError>)
    ensures
        status == 0 ==> r == Ok::<(), TimerError>(()),
        status != 0 ==> r == Err::<(), TimerError>(TimerError::TimerReleaseFailed(errno)),
{
    if status == 0 {
        Ok(())
    } else {
        Err(TimerError::TimerReleaseFailed(errno))
    }
}

} // verus!
