//! Laws of the engine: properties relating several operations, stated over
//! the spec-level transitions and proved once and for all.

use crate::engine::{
    ChannelBinding, Command, EngineState, ToneValue, Volume, after_delay, after_mute, after_play,
    after_sequence, after_set_volume, after_tone, after_tones, command_valid, mute_commands,
    set_volume_result, sound_duty, tone_commands, trace_valid, volume_commands,
};
use crate::errors::Error;
use vstd::prelude::*;

verus! {

/// Playing frequency 0 is observably equivalent to a mute: the same
/// commands are issued (a 0%-duty channel rebind exactly when the timer was
/// ever configured) and the timer configuration is left untouched.
pub proof fn lemma_play_zero_is_mute(s: EngineState)
    ensures
        after_play(s, 0) == after_mute(s),
{
}

/// A mute before anything has configured the timer is a no-op: zero
/// commands reach any collaborator and the engine is unchanged.
pub proof fn lemma_mute_unconfigured_is_noop(s: EngineState)
    requires
        s.timer is None,
    ensures
        after_mute(s) == s,
{
    assert(after_mute(s) =~= s);
}

/// Setting the volume on an engine without an attached volume control
/// always fails with `VolumeNotSet`, whatever the level, and issues no
/// command.
pub proof fn lemma_set_volume_unattached(s: EngineState, level: u8)
    requires
        s.volume is None,
    ensures
        set_volume_result(s, level) == Err::<(), Error>(Error::VolumeNotSet),
        after_set_volume(s, level) == s,
{
}

/// A duty-strategy volume at level 100 drives the volume pin
/// unconditionally high: the single command issued is a pin drive, not a
/// duty-percentage channel configuration, and neither the timer nor the
/// stored level changes.
pub proof fn lemma_duty_volume_full_level(s: EngineState, v: Volume)
    requires
        s.volume == Some(v),
        v.volume_type is Duty,
    ensures
        set_volume_result(s, 100) == Ok::<(), Error>(()),
        volume_commands(s, 100) == seq![Command::DrivePin { pin: v.volume_pin, high: true }],
        after_set_volume(s, 100) == (EngineState {
            trace: s.trace + volume_commands(s, 100),
            ..s
        }),
{
}

/// A duty-strategy volume rejects every level above 100 with
/// `VolumeOutOfRange` and leaves the engine unchanged.
pub proof fn lemma_duty_volume_out_of_range(s: EngineState, v: Volume, level: u8)
    requires
        s.volume == Some(v),
        v.volume_type is Duty,
        level > 100,
    ensures
        set_volume_result(s, level) == Err::<(), Error>(Error::VolumeOutOfRange),
        after_set_volume(s, level) == s,
{
}

/// A duty-strategy volume accepts every level from 0 to 99 and stores it:
/// subsequent tones sound at exactly that duty percentage.
pub proof fn lemma_duty_volume_stores_level(s: EngineState, v: Volume, level: u8)
    requires
        s.volume == Some(v),
        v.volume_type is Duty,
        level <= 99,
    ensures
        set_volume_result(s, level) == Ok::<(), Error>(()),
        after_set_volume(s, level).volume == Some(Volume { level, ..v }),
        sound_duty(after_set_volume(s, level)) == level,
{
}

/// The duty strategy's lazy carrier setup never clobbers an
/// already-configured timer: for every level, setting the volume leaves a
/// configured timer exactly as it was.
pub proof fn lemma_set_volume_keeps_configured_timer(s: EngineState, level: u8)
    requires
        s.timer is Some,
    ensures
        after_set_volume(s, level).timer == s.timer,
{
}

/// Appending commands within hardware bounds to a trace within hardware
/// bounds keeps the whole trace within them.
pub proof fn lemma_trace_valid_app(a: Seq<Command>, b: Seq<Command>)
    requires
        trace_valid(a),
        trace_valid(b),
    ensures
        trace_valid(a + b),
{
    assert forall|i: int| 0 <= i < (a + b).len() implies command_valid(#[trigger] (a + b)[i]) by {
        if i < a.len() {
            assert(command_valid(a[i]));
        } else {
            assert(command_valid(b[i - a.len()]));
        }
    }
}

/// A mute preserves well-formedness.
pub proof fn lemma_mute_preserves_wf(s: EngineState)
    requires
        s.wf(),
    ensures
        after_mute(s).wf(),
{
    lemma_trace_valid_app(s.trace, mute_commands(s));
}

/// Playing any frequency preserves well-formedness: in particular the
/// chosen resolution respects the 14-bit ceiling and the sound duty is a
/// valid percentage.
pub proof fn lemma_play_preserves_wf(s: EngineState, frequency: u32)
    requires
        s.wf(),
    ensures
        after_play(s, frequency).wf(),
{
    if frequency == 0 {
        lemma_mute_preserves_wf(s);
    } else {
        lemma_trace_valid_app(s.trace, tone_commands(s, frequency));
    }
}

/// A delay preserves well-formedness.
pub proof fn lemma_delay_preserves_wf(s: EngineState, ms: u32)
    requires
        s.wf(),
    ensures
        after_delay(s, ms).wf(),
{
    lemma_trace_valid_app(s.trace, seq![Command::DelayMs { ms }]);
}

/// Setting the volume to any level preserves well-formedness: stored levels
/// stay at most 100, and the lazy default carrier respects the resolution
/// ceiling.
pub proof fn lemma_set_volume_preserves_wf(s: EngineState, level: u8)
    requires
        s.wf(),
    ensures
        after_set_volume(s, level).wf(),
{
    lemma_trace_valid_app(s.trace, volume_commands(s, level));
}

/// One sequence-player step preserves well-formedness.
pub proof fn lemma_tone_preserves_wf(s: EngineState, tone: ToneValue)
    requires
        s.wf(),
    ensures
        after_tone(s, tone).wf(),
{
    lemma_play_preserves_wf(s, tone.frequency);
    lemma_delay_preserves_wf(after_play(s, tone.frequency), tone.duration);
    lemma_mute_preserves_wf(after_delay(after_play(s, tone.frequency), tone.duration));
}

/// Playing the steps of a whole sequence preserves well-formedness.
pub proof fn lemma_tones_preserve_wf(s: EngineState, tones: Seq<ToneValue>)
    requires
        s.wf(),
    ensures
        after_tones(s, tones).wf(),
    decreases tones.len(),
{
    if tones.len() > 0 {
        lemma_tone_preserves_wf(s, tones[0]);
        lemma_tones_preserve_wf(after_tone(s, tones[0]), tones.skip(1));
    }
}

/// A whole sequence, final mute included, preserves well-formedness, and
/// afterwards the channel is silenced: it sits on the sound pin at 0% duty
/// whenever anything at all has configured the timer.
pub proof fn lemma_sequence_preserves_wf(s: EngineState, tones: Seq<ToneValue>)
    requires
        s.wf(),
    ensures
        after_sequence(s, tones).wf(),
        after_tones(s, tones).timer is Some ==> after_sequence(s, tones).binding
            == (ChannelBinding::BoundToSound { duty_pct: 0u8 }),
    decreases tones.len(),
{
    lemma_tones_preserve_wf(s, tones);
    lemma_mute_preserves_wf(after_tones(s, tones));
}

} // verus!
