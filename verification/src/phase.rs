//! The closed sets of values that the engine moves between.

use vstd::prelude::*;

verus! {

/// Whether the timer is counting, held, or at rest.
#[derive(Debug, PartialEq, Eq, Clone, Copy, Structural)]
pub enum TimerState {
    Running,
    Paused,
    Stopped,
}

/// The kind of interval that is being timed.
#[derive(Debug, PartialEq, Eq, Clone, Copy, Structural)]
pub enum TimerPhase {
    Pomodoro,
    ShortBreak,
    LongBreak,
}

/// Why a command was turned down. A command that is turned down changes nothing.
#[derive(Debug, PartialEq, Eq, Clone, Copy, Structural)]
pub enum TimerError {
    /// The command is not allowed in the state the timer is in.
    InvalidStateTransition,
    /// A phase was about to begin whose length is not positive, or the number
    /// of cycles is below one.
    InvalidConfiguration,
}

impl TimerError {
    /// A short sentence for the error, for a host that wants to show or log it.
    pub fn message(&self) -> (text: &'static str)
        ensures
            text@ == (match *self {
                TimerError::InvalidStateTransition => "the timer is not in a state that allows this"@,
                TimerError::InvalidConfiguration => "a phase length or the cycle count is not positive"@,
            }),
    {
        match self {
            TimerError::InvalidStateTransition => "the timer is not in a state that allows this",
            TimerError::InvalidConfiguration => "a phase length or the cycle count is not positive",
        }
    }
}

} // verus!
