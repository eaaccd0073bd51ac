use vstd::prelude::*;

verus! {

/// Why a timer could not be set up, or could not be released.
#[derive(Clone, Copy, Debug, PartialEq, Eq, Structural)]
pub enum TimerError {
    /// The requested frequency was zero or negative; nothing was asked of the
    /// operating system.
    InvalidFrequency,
    /// The operating system refused to create the timer object (the error
    /// code it gave); no kernel resource is held.
    TimerCreationFailed(i32),
    /// The timer object was created but could not be armed (the error code it
    /// gave); the object is released as part of reporting this.
    TimerArmFailed(i32),
    /// Releasing the timer object failed (the error code it gave). Reported
    /// only: nothing can be done about it at teardown.
    TimerReleaseFailed(i32),
}

} // verus!
