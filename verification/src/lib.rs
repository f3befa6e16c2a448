//! Tone-generation engine for a PWM buzzer.
//!
//! The engine turns a target audio frequency into a PWM timer configuration,
//! reprograms a shared timer/channel pair between successive tones, shapes
//! loudness through one of two volume strategies, and plays blocking
//! (frequency, duration) sequences with guaranteed silence afterwards.
//!
//! The engine itself never touches a peripheral: every hardware request it
//! decides on is appended to a command trace, and a thin platform adapter
//! replays that trace against the real timer, channel, GPIO and delay
//! drivers.

pub mod engine;
pub mod errors;
pub mod laws;
pub mod resolution;

pub use engine::{
    Buzzer, ChannelBinding, Command, EngineState, TimerConfig, ToneValue, Volume, VolumeType,
};
pub use errors::{ChannelError, Error, TimerError};
pub use resolution::duty_resolution;
