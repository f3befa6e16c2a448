//! The tone engine: state, hardware-command trace, and playback operations.
//!
//! The engine owns the identifiers of one PWM timer/channel pair and one
//! sound pin, plus an optional volume control. It decides which hardware
//! requests to make, records every request in order in its command trace,
//! and tracks the configuration the hardware ends up in. A platform adapter
//! replays the trace against the real timer, channel, GPIO and delay
//! drivers.
//!
//! Every operation's contract states the exact commands it appends and the
//! exact configuration it leaves behind, over the spec-level transitions
//! `after_play`, `after_mute`, `after_set_volume` and `after_sequence`.

use crate::errors::Error;
use crate::resolution::{MAX_DUTY_RESOLUTION, duty_resolution, resolution_for};
use vstd::prelude::*;

verus! {

/// A tone to play through the buzzer: a frequency in Hz (0 means silence
/// for this slot) and a duration in milliseconds.
#[derive(Clone, Copy, Debug, PartialEq, Eq, Structural)]
pub struct ToneValue {
    /// Frequency of the tone in Hz. 0 denotes a silent slot.
    pub frequency: u32,

    /// Duration of the tone in ms.
    pub duration: u32,
}

/// Strategy by which loudness is realized.
///
/// - `OnOff` drives a second, independent pin fully high or low; only level
///   0 (off) and levels 1 and above (on) are distinct.
/// - `Duty` drives the volume pin as a second PWM channel sharing the tone
///   timer; the duty percentage equals the level.
#[derive(Clone, Copy, Debug, PartialEq, Eq, Structural)]
pub enum VolumeType {
    /// An on/off based volume.
    OnOff,

    /// A duty based volume where 0% is the lowest and 100% the highest.
    Duty,
}

/// Volume configuration attached to the engine: the pin it owns, the
/// strategy fixed at attachment time, and the current level in [0, 100].
#[derive(Clone, Copy, Debug, PartialEq, Eq, Structural)]
pub struct Volume {
    /// Output pin (GPIO number) for the volume.
    pub volume_pin: u8,

    /// Strategy of the volume control.
    pub volume_type: VolumeType,

    /// Current level: 0 for off or 1 and more for on under `OnOff`;
    /// 0 to 100 under `Duty`.
    pub level: u8,
}

/// The configuration currently programmed into the shared timer: a duty
/// resolution in [0, 14] bits and a frequency in Hz. The clock source is
/// always the peripheral clock.
#[derive(Clone, Copy, Debug, PartialEq, Eq, Structural)]
pub struct TimerConfig {
    /// Duty-resolution bit width, at most `MAX_DUTY_RESOLUTION`.
    pub resolution: u8,

    /// PWM frequency in Hz.
    pub frequency_hz: u32,
}

/// One request to a hardware collaborator, recorded in the order the engine
/// decides on it.
#[derive(Clone, Copy, Debug, PartialEq, Eq, Structural)]
pub enum Command {
    /// Reprogram the shared timer with a duty resolution, the peripheral
    /// clock as its source, and a frequency in Hz.
    ConfigureTimer {
        /// Duty-resolution bit width.
        resolution: u8,
        /// PWM frequency in Hz.
        frequency_hz: u32,
    },

    /// Bind the shared channel to `pin` at `duty_pct` percent duty,
    /// push-pull drive, reading the timer's current configuration.
    ConfigureChannel {
        /// Output pin (GPIO number) the channel serves.
        pin: u8,
        /// Duty percentage, 0 to 100.
        duty_pct: u8,
    },

    /// Drive `pin` to a fixed level, bypassing PWM.
    DrivePin {
        /// Output pin (GPIO number) to drive.
        pin: u8,
        /// The level: high when true, low when false.
        high: bool,
    },

    /// Block the calling context for `ms` milliseconds.
    DelayMs {
        /// The delay in milliseconds.
        ms: u32,
    },
}

/// Which pin the single shared channel currently serves. Configuring a new
/// tone or a new duty-volume level implicitly rebinds the channel away from
/// whichever pin it last served.
#[derive(Clone, Copy, Debug, PartialEq, Eq, Structural)]
pub enum ChannelBinding {
    /// The channel has never been configured.
    Idle,

    /// The channel is bound to the sound pin at this duty percentage.
    BoundToSound {
        /// Duty percentage of the sound channel.
        duty_pct: u8,
    },

    /// The channel is bound to the volume pin at this duty percentage.
    BoundToVolume {
        /// Duty percentage of the volume channel.
        duty_pct: u8,
    },
}

/// Fixed default carrier frequency for the lazily configured duty-volume
/// timer. Its resolution is chosen by the same clock-division logic as a
/// tone's.
pub const VOLUME_CARRIER_HZ: u32 = 20000;

/// Default duty percentage for the sound channel when no duty-strategy
/// volume is attached.
pub const DEFAULT_DUTY_PCT: u8 = 50;

/// Initial level of a freshly attached volume control.
pub const INITIAL_VOLUME_LEVEL: u8 = 50;

/// Mathematical model of the engine: its configuration plus the full trace
/// of hardware commands issued so far.
#[verifier::ext_equal]
pub struct EngineState {
    /// The platform's peripheral clock frequency in Hz.
    pub clock_hz: u32,

    /// Identifier of the timer the engine owns.
    pub timer_number: u8,

    /// Identifier of the channel the engine owns.
    pub channel_number: u8,

    /// Output pin (GPIO number) the tones sound on.
    pub sound_pin: u8,

    /// The attached volume control, if any.
    pub volume: Option<Volume>,

    /// The configuration the shared timer holds, or `None` if it has never
    /// been configured.
    pub timer: Option<TimerConfig>,

    /// Which pin the shared channel currently serves.
    pub binding: ChannelBinding,

    /// Every hardware command issued so far, in order.
    pub trace: Seq<Command>,
}

/// A command is within hardware bounds: resolutions of at most 14 bits and
/// duty percentages of at most 100.
pub open spec fn command_valid(c: Command) -> bool {
    match c {
        Command::ConfigureTimer { resolution, .. } => resolution <= MAX_DUTY_RESOLUTION,
        Command::ConfigureChannel { duty_pct, .. } => duty_pct <= 100,
        Command::DrivePin { .. } => true,
        Command::DelayMs { .. } => true,
    }
}

/// Every command of the trace is within hardware bounds.
pub open spec fn trace_valid(t: Seq<Command>) -> bool {
    forall|i: int| 0 <= i < t.len() ==> command_valid(#[trigger] t[i])
}

impl EngineState {
    /// Well-formedness of the engine: the channel is only ever bound over a
    /// configured timer, the timer's resolution respects the hardware
    /// ceiling, a volume level never exceeds 100, a bound channel's duty is
    /// a valid percentage, and every command issued so far was within
    /// hardware bounds.
    pub open spec fn wf(self) -> bool {
        &&& self.binding !is Idle ==> self.timer is Some
        &&& self.timer matches Some(t) ==> t.resolution <= MAX_DUTY_RESOLUTION
        &&& self.volume matches Some(v) ==> v.level <= 100
        &&& self.binding matches ChannelBinding::BoundToSound { duty_pct } ==> duty_pct <= 100
        &&& self.binding matches ChannelBinding::BoundToVolume { duty_pct } ==> duty_pct <= 100
        &&& trace_valid(self.trace)
    }
}

/// Duty percentage used for the sound channel: the attached volume's
/// current level if a duty-strategy volume is attached, else the fixed
/// default of 50%.
pub open spec fn sound_duty(s: EngineState) -> u8 {
    match s.volume {
        Some(v) => if v.volume_type is Duty {
            v.level
        } else {
            DEFAULT_DUTY_PCT
        },
        None => DEFAULT_DUTY_PCT,
    }
}

/// Commands issued by a mute: one 0%-duty rebind of the sound channel if
/// the timer has ever been configured, and nothing at all otherwise.
pub open spec fn mute_commands(s: EngineState) -> Seq<Command> {
    if s.timer is Some {
        seq![Command::ConfigureChannel { pin: s.sound_pin, duty_pct: 0 }]
    } else {
        Seq::empty()
    }
}

/// The engine after a mute: the timer is left untouched; if it was ever
/// configured, the sound channel is rebound at 0% duty.
pub open spec fn after_mute(s: EngineState) -> EngineState {
    EngineState {
        binding: if s.timer is Some {
            ChannelBinding::BoundToSound { duty_pct: 0 }
        } else {
            s.binding
        },
        trace: s.trace + mute_commands(s),
        ..s
    }
}

/// The timer configuration chosen for an audible frequency: the largest
/// duty resolution the divided clock supports, and the frequency itself.
pub open spec fn timer_config_for(clock_hz: u32, frequency: u32) -> TimerConfig
    recommends
        frequency > 0,
{
    TimerConfig {
        resolution: resolution_for((clock_hz / frequency) as nat) as u8,
        frequency_hz: frequency,
    }
}

/// Commands issued by playing a frequency: nothing but a mute for frequency
/// 0; otherwise the timer is reprogrammed first, then the channel is
/// rebound to the sound pin.
pub open spec fn tone_commands(s: EngineState, frequency: u32) -> Seq<Command> {
    if frequency == 0 {
        mute_commands(s)
    } else {
        seq![
            Command::ConfigureTimer {
                resolution: timer_config_for(s.clock_hz, frequency).resolution,
                frequency_hz: frequency,
            },
            Command::ConfigureChannel { pin: s.sound_pin, duty_pct: sound_duty(s) },
        ]
    }
}

/// The engine after playing a frequency. Frequency 0 short-circuits into a
/// mute and touches no timer configuration.
pub open spec fn after_play(s: EngineState, frequency: u32) -> EngineState {
    if frequency == 0 {
        after_mute(s)
    } else {
        EngineState {
            timer: Some(timer_config_for(s.clock_hz, frequency)),
            binding: ChannelBinding::BoundToSound { duty_pct: sound_duty(s) },
            trace: s.trace + tone_commands(s, frequency),
            ..s
        }
    }
}

/// The engine after blocking for `ms` milliseconds.
pub open spec fn after_delay(s: EngineState, ms: u32) -> EngineState {
    EngineState { trace: s.trace.push(Command::DelayMs { ms }), ..s }
}

/// One sequence-player step: play the tone, hold it for its duration,
/// silence it.
pub open spec fn after_tone(s: EngineState, tone: ToneValue) -> EngineState {
    after_mute(after_delay(after_play(s, tone.frequency), tone.duration))
}

/// The player steps folded over a whole sequence, without the final
/// unconditional mute.
pub open spec fn after_tones(s: EngineState, tones: Seq<ToneValue>) -> EngineState
    decreases tones.len(),
{
    if tones.len() == 0 {
        s
    } else {
        after_tones(after_tone(s, tones[0]), tones.skip(1))
    }
}

/// The engine after playing a whole sequence: every step in order, then one
/// final unconditional mute, so the engine never remains sounding.
pub open spec fn after_sequence(s: EngineState, tones: Seq<ToneValue>) -> EngineState {
    after_mute(after_tones(s, tones))
}

/// Playing a concatenation of tone sequences is playing one after the
/// other.
pub proof fn lemma_after_tones_app(s: EngineState, a: Seq<ToneValue>, b: Seq<ToneValue>)
    ensures
        after_tones(s, a + b) == after_tones(after_tones(s, a), b),
    decreases a.len(),
{
    if a.len() == 0 {
        assert(a + b =~= b);
    } else {
        assert((a + b)[0] == a[0]);
        assert((a + b).skip(1) =~= a.skip(1) + b);
        lemma_after_tones_app(after_tone(s, a[0]), a.skip(1), b);
    }
}

/// Playing a one-tone sequence is one player step.
pub proof fn lemma_after_tones_single(s: EngineState, t: ToneValue)
    ensures
        after_tones(s, seq![t]) == after_tone(s, t),
{
    let single = seq![t];
    assert(single[0] == t);
    assert(single.skip(1) =~= Seq::<ToneValue>::empty());
    assert(after_tones(after_tone(s, t), Seq::<ToneValue>::empty()) == after_tone(s, t));
    assert(after_tones(s, single) == after_tones(after_tone(s, t), single.skip(1)));
}

/// Extending a played prefix of a sequence by its next tone.
pub proof fn lemma_after_tones_snoc(s: EngineState, tones: Seq<ToneValue>, i: int)
    requires
        0 <= i < tones.len(),
    ensures
        after_tones(s, tones.take(i + 1)) == after_tone(
            after_tones(s, tones.take(i)),
            tones[i],
        ),
{
    let a = tones.take(i);
    let single = seq![tones[i]];
    assert(tones.take(i + 1) =~= a + single);
    lemma_after_tones_app(s, a, single);
    lemma_after_tones_single(after_tones(s, a), tones[i]);
}

/// Parallel frequency and timing sequences paired into tones.
pub open spec fn zip_tones(frequencies: Seq<u32>, timings: Seq<u32>) -> Seq<ToneValue> {
    Seq::new(
        frequencies.len(),
        |i: int| ToneValue { frequency: frequencies[i], duration: timings[i] },
    )
}

/// Result of setting the volume to `level`: fails with `VolumeNotSet` when
/// no volume control is attached, and with `VolumeOutOfRange` when a
/// duty-strategy control is asked for more than 100%; succeeds otherwise.
pub open spec fn set_volume_result(s: EngineState, level: u8) -> Result<(), Error> {
    match s.volume {
        None => Err(Error::VolumeNotSet),
        Some(v) => match v.volume_type {
            VolumeType::OnOff => Ok(()),
            VolumeType::Duty => if level <= 100 {
                Ok(())
            } else {
                Err(Error::VolumeOutOfRange)
            },
        },
    }
}

/// Commands issued by setting the volume to `level`. An on/off control
/// drives its pin low exactly on level 0. A duty control at level 0 to 99
/// lazily programs the default carrier into the timer if and only if the
/// timer was never configured — at the resolution the clock-division logic
/// chooses for the carrier — then rebinds the channel to the volume pin at
/// `level` percent; level 100 bypasses PWM and holds the pin high.
pub open spec fn volume_commands(s: EngineState, level: u8) -> Seq<Command> {
    match s.volume {
        None => Seq::empty(),
        Some(v) => match v.volume_type {
            VolumeType::OnOff => seq![
                Command::DrivePin { pin: v.volume_pin, high: level != 0 },
            ],
            VolumeType::Duty => if level <= 99 {
                (if s.timer is Some {
                    Seq::<Command>::empty()
                } else {
                    seq![
                        Command::ConfigureTimer {
                            resolution: timer_config_for(s.clock_hz, VOLUME_CARRIER_HZ).resolution,
                            frequency_hz: VOLUME_CARRIER_HZ,
                        },
                    ]
                }) + seq![Command::ConfigureChannel { pin: v.volume_pin, duty_pct: level }]
            } else if level == 100 {
                seq![Command::DrivePin { pin: v.volume_pin, high: true }]
            } else {
                Seq::empty()
            },
        },
    }
}

/// The engine after setting the volume to `level`. Only a duty-strategy
/// control at level 0 to 99 stores the level and rebinds the channel; its
/// lazy carrier setup never clobbers an already-configured timer.
pub open spec fn after_set_volume(s: EngineState, level: u8) -> EngineState {
    match s.volume {
        None => s,
        Some(v) => match v.volume_type {
            VolumeType::OnOff => EngineState { trace: s.trace + volume_commands(s, level), ..s },
            VolumeType::Duty => if level <= 99 {
                EngineState {
                    volume: Some(Volume { level, ..v }),
                    timer: if s.timer is Some {
                        s.timer
                    } else {
                        Some(timer_config_for(s.clock_hz, VOLUME_CARRIER_HZ))
                    },
                    binding: ChannelBinding::BoundToVolume { duty_pct: level },
                    trace: s.trace + volume_commands(s, level),
                    ..s
                }
            } else if level == 100 {
                EngineState { trace: s.trace + volume_commands(s, level), ..s }
            } else {
                s
            },
        },
    }
}

/// A buzzer engine driving one PWM timer/channel pair and one sound pin,
/// with an optional volume control on a second pin.
pub struct Buzzer {
    /// The platform's peripheral clock frequency in Hz, read once from the
    /// clock registry by the caller.
    pub clock_hz: u32,

    /// Identifier of the timer the engine owns.
    pub timer_number: u8,

    /// Identifier of the channel the engine owns.
    pub channel_number: u8,

    /// Output pin (GPIO number) the tones sound on.
    pub sound_pin: u8,

    /// The attached volume control, if any.
    pub volume: Option<Volume>,

    /// The configuration the shared timer holds, or `None` if it has never
    /// been configured.
    pub timer: Option<TimerConfig>,

    /// Which pin the shared channel currently serves.
    pub binding: ChannelBinding,

    /// Every hardware command issued so far, in order.
    pub trace: Vec<Command>,
}

impl View for Buzzer {
    type V = EngineState;

    open spec fn view(&self) -> EngineState {
        EngineState {
            clock_hz: self.clock_hz,
            timer_number: self.timer_number,
            channel_number: self.channel_number,
            sound_pin: self.sound_pin,
            volume: self.volume,
            timer: self.timer,
            binding: self.binding,
            trace: self.trace@,
        }
    }
}

impl Buzzer {
    /// Create a new buzzer for the given timer/channel pair and sound pin,
    /// on a platform whose peripheral clock runs at `clock_hz`. No hardware
    /// is touched until the first playback or volume operation.
    pub fn new(clock_hz: u32, timer_number: u8, channel_number: u8, output_pin: u8) -> (r: Buzzer)
        ensures
            r@ == (EngineState {
                clock_hz,
                timer_number,
                channel_number,
                sound_pin: output_pin,
                volume: None,
                timer: None,
                binding: ChannelBinding::Idle,
                trace: Seq::empty(),
            }),
            r@.wf(),
    {
        let r = Buzzer {
            clock_hz,
            timer_number,
            channel_number,
            sound_pin: output_pin,
            volume: None,
            timer: None,
            binding: ChannelBinding::Idle,
            trace: Vec::new(),
        };
        proof {
            assert(r@ =~= EngineState {
                clock_hz,
                timer_number,
                channel_number,
                sound_pin: output_pin,
                volume: None,
                timer: None,
                binding: ChannelBinding::Idle,
                trace: Seq::empty(),
            });
        }
        r
    }

    /// Attach a volume control on `volume_pin` with the given strategy. The
    /// strategy is fixed at attachment time and the level starts at 50.
    pub fn with_volume(self, volume_pin: u8, volume_type: VolumeType) -> (r: Buzzer)
        ensures
            r@ == (EngineState {
                volume: Some(
                    Volume { volume_pin, volume_type, level: INITIAL_VOLUME_LEVEL },
                ),
                ..self@
            }),
    {
        let mut r = self;
        r.volume = Some(Volume { volume_pin, volume_type, level: INITIAL_VOLUME_LEVEL });
        r
    }

    /// Mute the buzzer by rebinding the sound channel to 0% duty on the
    /// same timer. If the timer has never been configured, nothing is
    /// sounding and no command reaches any collaborator.
    pub fn mute(&mut self)
        ensures
            final(self)@ == after_mute(old(self)@),
    {
        if self.timer.is_some() {
            self.trace.push(Command::ConfigureChannel { pin: self.sound_pin, duty_pct: 0 });
            self.binding = ChannelBinding::BoundToSound { duty_pct: 0 };
        }
        proof {
            assert(self@ =~= after_mute(old(self)@));
        }
    }

    /// Play a frequency through the buzzer. Frequency 0 is equivalent to a
    /// mute and touches no timer configuration. An audible frequency
    /// reprograms the shared timer at the chosen resolution first, then
    /// rebinds the channel to the sound pin at the volume-shaped duty.
    pub fn play(&mut self, frequency: u32) -> (r: Result<(), Error>)
        ensures
            r == Ok::<(), Error>(()),
            final(self)@ == after_play(old(self)@, frequency),
    {
        if frequency == 0 {
            self.mute();
            return Ok(());
        }

        let resolution = duty_resolution(self.clock_hz, frequency);
        self.timer = Some(TimerConfig { resolution, frequency_hz: frequency });
        self.trace.push(Command::ConfigureTimer { resolution, frequency_hz: frequency });

        let duty_pct = match self.volume {
            Some(v) => match v.volume_type {
                VolumeType::Duty => v.level,
                VolumeType::OnOff => DEFAULT_DUTY_PCT,
            },
            None => DEFAULT_DUTY_PCT,
        };
        self.trace.push(Command::ConfigureChannel { pin: self.sound_pin, duty_pct });
        self.binding = ChannelBinding::BoundToSound { duty_pct };

        proof {
            assert(self@ =~= after_play(old(self)@, frequency));
        }
        Ok(())
    }

    /// Block the calling context for `ms` milliseconds: one command for the
    /// delay collaborator; nothing else changes.
    fn delay_ms(&mut self, ms: u32)
        ensures
            final(self)@ == after_delay(old(self)@, ms),
    {
        self.trace.push(Command::DelayMs { ms });
        proof {
            assert(self@ =~= after_delay(old(self)@, ms));
        }
    }

    /// Play a sound sequence through the buzzer: for each tone in order,
    /// play its frequency, hold it for its duration, then mute; after the
    /// final tone, mute once more unconditionally, so the engine never
    /// remains sounding.
    pub fn play_song(&mut self, tones: &[ToneValue]) -> (r: Result<(), Error>)
        ensures
            r == Ok::<(), Error>(()),
            final(self)@ == after_sequence(old(self)@, tones@),
    {
        let ghost pre = self@;
        let mut i: usize = 0;
        while i < tones.len()
            invariant
                i <= tones@.len(),
                self@ == after_tones(pre, tones@.take(i as int)),
            decreases tones@.len() - i,
        {
            let tone = tones[i];
            match self.play(tone.frequency) {
                Ok(()) => {},
                Err(e) => {
                    return Err(e);
                },
            }
            self.delay_ms(tone.duration);
            self.mute();
            proof {
                lemma_after_tones_snoc(pre, tones@, i as int);
            }
            i = i + 1;
        }
        proof {
            assert(tones@.take(tones@.len() as int) =~= tones@);
        }
        self.mute();
        Ok(())
    }

    /// Play a sound sequence given as parallel frequency and timing slices.
    /// The slices must have equal lengths: on a mismatch the player fails
    /// fast with `LengthMismatch` and performs no hardware access at all.
    pub fn play_tones_from_slice(&mut self, sequence: &[u32], timings: &[u32]) -> (r: Result<
        (),
        Error,
    >)
        ensures
            sequence@.len() == timings@.len() ==> r == Ok::<(), Error>(()) && final(self)@
                == after_sequence(old(self)@, zip_tones(sequence@, timings@)),
            sequence@.len() != timings@.len() ==> r == Err::<(), Error>(Error::LengthMismatch)
                && final(self)@ == old(self)@,
    {
        if sequence.len() != timings.len() {
            return Err(Error::LengthMismatch);
        }

        let ghost pre = self@;
        let ghost tones = zip_tones(sequence@, timings@);
        let mut i: usize = 0;
        while i < sequence.len()
            invariant
                i <= sequence@.len(),
                sequence@.len() == timings@.len(),
                tones == zip_tones(sequence@, timings@),
                self@ == after_tones(pre, tones.take(i as int)),
            decreases sequence@.len() - i,
        {
            let frequency = sequence[i];
            let timing = timings[i];
            match self.play(frequency) {
                Ok(()) => {},
                Err(e) => {
                    return Err(e);
                },
            }
            self.delay_ms(timing);
            self.mute();
            proof {
                assert(tones[i as int] == (ToneValue { frequency, duration: timing }));
                lemma_after_tones_snoc(pre, tones, i as int);
            }
            i = i + 1;
        }
        proof {
            assert(tones.take(sequence@.len() as int) =~= tones);
        }
        self.mute();
        Ok(())
    }

    /// Play a sound sequence given as a pair of fixed-size frequency and
    /// timing arrays; the lengths agree by construction.
    pub fn play_tones<const T: usize>(&mut self, sequence: [u32; T], timings: [u32; T]) -> (r:
        Result<(), Error>)
        ensures
            r == Ok::<(), Error>(()),
            final(self)@ == after_sequence(old(self)@, zip_tones(sequence@, timings@)),
    {
        match self.play_tones_from_slice(sequence.as_slice(), timings.as_slice()) {
            Ok(()) => Ok(()),
            Err(e) => Err(e),
        }
    }

    /// Hand off the commands issued so far and clear the trace, leaving
    /// the engine's configuration untouched. An adapter performs the
    /// returned commands in order; draining them keeps a long-running
    /// engine from accumulating commands without bound.
    pub fn take_commands(&mut self) -> (commands: Vec<Command>)
        ensures
            commands@ == old(self)@.trace,
            final(self)@ == (EngineState { trace: Seq::empty(), ..old(self)@ }),
    {
        let mut commands: Vec<Command> = Vec::new();
        core::mem::swap(&mut commands, &mut self.trace);
        proof {
            assert(self@ =~= (EngineState { trace: Seq::empty(), ..old(self)@ }));
        }
        commands
    }

    /// Set the volume of the buzzer.
    ///
    /// Fails with `VolumeNotSet` when no volume control is attached. An
    /// on/off control drives its pin low on level 0 and high on any other
    /// level. A duty control stores levels 0 to 99 and rebinds the channel
    /// to the volume pin at that duty, lazily giving the timer its default
    /// carrier — at the resolution the clock-division logic chooses — only
    /// if it was never configured; level 100 holds the pin unconditionally
    /// high; higher levels fail with `VolumeOutOfRange`.
    pub fn set_volume(&mut self, level: u8) -> (r: Result<(), Error>)
        ensures
            r == set_volume_result(old(self)@, level),
            final(self)@ == after_set_volume(old(self)@, level),
    {
        match self.volume {
            None => {
                proof {
                    assert(self@ =~= after_set_volume(old(self)@, level));
                }
                Err(Error::VolumeNotSet)
            },
            Some(v) => match v.volume_type {
                VolumeType::OnOff => {
                    self.trace.push(
                        Command::DrivePin { pin: v.volume_pin, high: level != 0 },
                    );
                    proof {
                        assert(self@ =~= after_set_volume(old(self)@, level));
                    }
                    Ok(())
                },
                VolumeType::Duty => {
                    if level <= 99 {
                        self.volume = Some(Volume { level, ..v });

                        // Put the default carrier in the timer only if it
                        // is not already configured, at the resolution the
                        // clock-division logic picks for the carrier.
                        if self.timer.is_none() {
                            let resolution: u8 = duty_resolution(
                                self.clock_hz,
                                VOLUME_CARRIER_HZ,
                            );
                            self.timer = Some(
                                TimerConfig { resolution, frequency_hz: VOLUME_CARRIER_HZ },
                            );
                            self.trace.push(
                                Command::ConfigureTimer {
                                    resolution,
                                    frequency_hz: VOLUME_CARRIER_HZ,
                                },
                            );
                        }
                        self.trace.push(
                            Command::ConfigureChannel { pin: v.volume_pin, duty_pct: level },
                        );
                        self.binding = ChannelBinding::BoundToVolume { duty_pct: level };
                        proof {
                            assert(self@ =~= after_set_volume(old(self)@, level));
                        }
                        Ok(())
                    } else if level == 100 {
                        // Level 100 bypasses PWM and holds the pin high.
                        self.trace.push(
                            Command::DrivePin { pin: v.volume_pin, high: true },
                        );
                        proof {
                            assert(self@ =~= after_set_volume(old(self)@, level));
                        }
                        Ok(())
                    } else {
                        proof {
                            assert(self@ =~= after_set_volume(old(self)@, level));
                        }
                        Err(Error::VolumeOutOfRange)
                    }
                },
            },
        }
    }
}

} // verus!
