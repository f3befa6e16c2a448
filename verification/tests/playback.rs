use buzzer::{Buzzer, ChannelBinding, Command, Error, TimerConfig, ToneValue};

const CLOCK_HZ: u32 = 80_000_000;

fn engine() -> Buzzer {
    Buzzer::new(CLOCK_HZ, 0, 1, 4)
}

fn timer_reconfigurations(b: &Buzzer) -> usize {
    b.trace
        .iter()
        .filter(|c| matches!(c, Command::ConfigureTimer { .. }))
        .count()
}

fn channel_reconfigurations(b: &Buzzer) -> usize {
    b.trace
        .iter()
        .filter(|c| matches!(c, Command::ConfigureChannel { .. }))
        .count()
}

#[test]
fn mute_before_any_play_is_a_noop() {
    let mut b = engine();
    b.mute();
    assert!(b.trace.is_empty());
    assert_eq!(b.binding, ChannelBinding::Idle);
}

#[test]
fn play_zero_equals_mute_on_fresh_engine() {
    let mut played = engine();
    assert!(played.play(0).is_ok());
    let mut muted = engine();
    muted.mute();
    assert_eq!(played.trace, muted.trace);
    assert_eq!(played.timer, muted.timer);
    assert_eq!(played.binding, muted.binding);
}

#[test]
fn play_zero_equals_mute_on_configured_engine() {
    let mut played = engine();
    played.play(1_000).unwrap();
    let mut muted = engine();
    muted.play(1_000).unwrap();

    assert!(played.play(0).is_ok());
    muted.mute();

    // Both rebind the channel to 0% duty and leave the timer untouched.
    assert_eq!(played.trace, muted.trace);
    assert_eq!(
        played.trace[2],
        Command::ConfigureChannel { pin: 4, duty_pct: 0 }
    );
    assert_eq!(
        played.timer,
        Some(TimerConfig { resolution: 14, frequency_hz: 1_000 })
    );
    assert_eq!(played.binding, ChannelBinding::BoundToSound { duty_pct: 0 });
}

#[test]
fn play_reprograms_timer_then_channel() {
    let mut b = engine();
    assert!(b.play(1_000).is_ok());
    assert_eq!(
        b.trace,
        vec![
            Command::ConfigureTimer { resolution: 14, frequency_hz: 1_000 },
            Command::ConfigureChannel { pin: 4, duty_pct: 50 },
        ]
    );
    assert_eq!(b.binding, ChannelBinding::BoundToSound { duty_pct: 50 });
}

#[test]
fn slice_length_mismatch_fails_without_hardware_access() {
    let mut b = engine();
    let result = b.play_tones_from_slice(&[100, 200], &[10, 20, 30]);
    assert!(matches!(result, Err(Error::LengthMismatch)));
    // No timer, channel or delay call reaches any collaborator.
    assert!(b.trace.is_empty());
    assert!(b.timer.is_none());
}

#[test]
fn play_song_three_tones_trace() {
    let song = [
        ToneValue { frequency: 100, duration: 100 },
        ToneValue { frequency: 200, duration: 100 },
        ToneValue { frequency: 300, duration: 100 },
    ];
    let mut b = engine();
    assert!(b.play_song(&song).is_ok());

    // Three timer reconfigurations (one per tone) and three 100 ms delays;
    // each tone also rebinds the channel once for the tone and once for the
    // per-tone mute, plus one final unconditional mute.
    assert_eq!(timer_reconfigurations(&b), 3);
    assert_eq!(channel_reconfigurations(&b), 7);
    let delays: Vec<&Command> = b
        .trace
        .iter()
        .filter(|c| matches!(c, Command::DelayMs { .. }))
        .collect();
    assert_eq!(delays.len(), 3);
    assert!(delays.iter().all(|c| matches!(c, Command::DelayMs { ms: 100 })));

    // The strict order, tone by tone.
    let expected: Vec<Command> = vec![
        Command::ConfigureTimer { resolution: 14, frequency_hz: 100 },
        Command::ConfigureChannel { pin: 4, duty_pct: 50 },
        Command::DelayMs { ms: 100 },
        Command::ConfigureChannel { pin: 4, duty_pct: 0 },
        Command::ConfigureTimer { resolution: 14, frequency_hz: 200 },
        Command::ConfigureChannel { pin: 4, duty_pct: 50 },
        Command::DelayMs { ms: 100 },
        Command::ConfigureChannel { pin: 4, duty_pct: 0 },
        Command::ConfigureTimer { resolution: 14, frequency_hz: 300 },
        Command::ConfigureChannel { pin: 4, duty_pct: 50 },
        Command::DelayMs { ms: 100 },
        Command::ConfigureChannel { pin: 4, duty_pct: 0 },
        Command::ConfigureChannel { pin: 4, duty_pct: 0 },
    ];
    assert_eq!(b.trace, expected);

    // The channel is left at 0% duty.
    assert_eq!(b.binding, ChannelBinding::BoundToSound { duty_pct: 0 });
}

#[test]
fn play_tones_silent_middle_slot_skips_timer() {
    let mut b = engine();
    assert!(b.play_tones([300, 0, 300], [200, 50, 200]).is_ok());

    let expected: Vec<Command> = vec![
        Command::ConfigureTimer { resolution: 14, frequency_hz: 300 },
        Command::ConfigureChannel { pin: 4, duty_pct: 50 },
        Command::DelayMs { ms: 200 },
        Command::ConfigureChannel { pin: 4, duty_pct: 0 },
        // The middle slot: frequency 0 short-circuits into a mute, so the
        // timer is not reconfigured and the channel goes to 0% duty.
        Command::ConfigureChannel { pin: 4, duty_pct: 0 },
        Command::DelayMs { ms: 50 },
        Command::ConfigureChannel { pin: 4, duty_pct: 0 },
        Command::ConfigureTimer { resolution: 14, frequency_hz: 300 },
        Command::ConfigureChannel { pin: 4, duty_pct: 50 },
        Command::DelayMs { ms: 200 },
        Command::ConfigureChannel { pin: 4, duty_pct: 0 },
        Command::ConfigureChannel { pin: 4, duty_pct: 0 },
    ];
    assert_eq!(b.trace, expected);
    // The timer keeps the last audible tone's configuration.
    assert_eq!(
        b.timer,
        Some(TimerConfig { resolution: 14, frequency_hz: 300 })
    );
}

#[test]
fn empty_sequences_only_mute() {
    let mut b = engine();
    assert!(b.play_song(&[]).is_ok());
    assert!(b.play_tones::<0>([], []).is_ok());
    assert!(b.play_tones_from_slice(&[], &[]).is_ok());
    // Nothing had configured the timer, so even the final mutes are no-ops.
    assert!(b.trace.is_empty());
}

#[test]
fn take_commands_drains_trace_and_keeps_configuration() {
    let mut b = engine();
    b.play(1_000).unwrap();
    let expected = b.trace.clone();
    let drained = b.take_commands();
    assert_eq!(drained, expected);
    assert!(b.trace.is_empty());
    // The configuration survives the drain: the next mute still sees a
    // configured timer and issues exactly one 0%-duty rebind.
    assert_eq!(
        b.timer,
        Some(TimerConfig { resolution: 14, frequency_hz: 1_000 })
    );
    b.mute();
    assert_eq!(
        b.trace,
        vec![Command::ConfigureChannel { pin: 4, duty_pct: 0 }]
    );
}

#[test]
fn sequence_players_agree() {
    let song = [
        ToneValue { frequency: 440, duration: 30 },
        ToneValue { frequency: 0, duration: 10 },
        ToneValue { frequency: 880, duration: 30 },
    ];
    let mut by_song = engine();
    by_song.play_song(&song).unwrap();

    let mut by_arrays = engine();
    by_arrays.play_tones([440, 0, 880], [30, 10, 30]).unwrap();

    let mut by_slices = engine();
    by_slices
        .play_tones_from_slice(&[440, 0, 880], &[30, 10, 30])
        .unwrap();

    assert_eq!(by_song.trace, by_arrays.trace);
    assert_eq!(by_song.trace, by_slices.trace);
}
