//! Error taxonomy of the buzzer engine.
//!
//! Failures of the timer and channel collaborators are wrapped verbatim,
//! never swallowed or retried; the remaining variants are conditions the
//! engine detects itself.

use vstd::prelude::*;

verus! {

/// A failure reported by the PWM timer collaborator when it is asked to
/// reconfigure itself.
#[derive(Clone, Copy, Debug, PartialEq, Eq, Structural)]
pub enum TimerError {
    /// The requested frequency and resolution yield an invalid clock divisor.
    Divisor,

    /// The timer was asked to work without a frequency having been set.
    FrequencyUnset,
}

/// A failure reported by the PWM channel collaborator when it is asked to
/// bind a timer's waveform to an output pin.
#[derive(Clone, Copy, Debug, PartialEq, Eq, Structural)]
pub enum ChannelError {
    /// The requested duty percentage is invalid.
    Duty,

    /// The backing timer is not configured.
    Timer,

    /// The channel itself is not configured.
    Channel,
}

/// Errors from the buzzer engine.
#[derive(Clone, Copy, Debug, PartialEq, Eq, Structural)]
pub enum Error {
    /// A channel-configuration failure, surfaced verbatim.
    Channel(ChannelError),

    /// A timer-configuration failure, surfaced verbatim.
    Timer(TimerError),

    /// A volume operation was attempted, but no volume control is attached.
    VolumeNotSet,

    /// The requested volume level is outside the strategy's valid range.
    VolumeOutOfRange,

    /// The frequency and timing slices handed to the sequence player have
    /// different lengths.
    LengthMismatch,
}

impl From<ChannelError> for Error {
    /// Wraps a channel-configuration failure.
    fn from(error: ChannelError) -> (r: Error) {
        Error::Channel(error)
    }
}

impl vstd::std_specs::convert::FromSpecImpl<ChannelError> for Error {
    open spec fn obeys_from_spec() -> bool {
        true
    }

    open spec fn from_spec(error: ChannelError) -> Error {
        Error::Channel(error)
    }
}

impl From<TimerError> for Error {
    /// Wraps a timer-configuration failure.
    fn from(error: TimerError) -> (r: Error) {
        Error::Timer(error)
    }
}

impl vstd::std_specs::convert::FromSpecImpl<TimerError> for Error {
    open spec fn obeys_from_spec() -> bool {
        true
    }

    open spec fn from_spec(error: TimerError) -> Error {
        Error::Timer(error)
    }
}

} // verus!
