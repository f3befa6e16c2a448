use buzzer::{Buzzer, ChannelError, Command, Error, TimerConfig, TimerError, VolumeType};

const CLOCK_HZ: u32 = 80_000_000;

fn engine() -> Buzzer {
    Buzzer::new(CLOCK_HZ, 0, 1, 4)
}

#[test]
fn set_volume_unattached_fails_for_every_level() {
    let mut b = engine();
    for level in 0..=u8::MAX {
        assert!(matches!(b.set_volume(level), Err(Error::VolumeNotSet)));
    }
    assert!(b.trace.is_empty());
}

#[test]
fn on_off_volume_drives_pin() {
    let mut b = engine().with_volume(5, VolumeType::OnOff);
    assert!(b.set_volume(0).is_ok());
    assert!(b.set_volume(1).is_ok());
    assert!(b.set_volume(200).is_ok());
    assert_eq!(
        b.trace,
        vec![
            Command::DrivePin { pin: 5, high: false },
            Command::DrivePin { pin: 5, high: true },
            Command::DrivePin { pin: 5, high: true },
        ]
    );
    // The on/off strategy is independent of the tone timer.
    assert!(b.timer.is_none());
}

#[test]
fn on_off_volume_leaves_sound_duty_at_default() {
    let mut b = engine().with_volume(5, VolumeType::OnOff);
    b.set_volume(0).unwrap();
    b.play(1_000).unwrap();
    assert_eq!(
        b.trace[2],
        Command::ConfigureChannel { pin: 4, duty_pct: 50 }
    );
}

#[test]
fn duty_volume_full_level_holds_pin_high() {
    let mut b = engine().with_volume(5, VolumeType::Duty);
    assert!(b.set_volume(100).is_ok());
    // One pin drive, no duty-percentage channel configuration, no timer touch.
    assert_eq!(b.trace, vec![Command::DrivePin { pin: 5, high: true }]);
    assert!(b.timer.is_none());
}

#[test]
fn duty_volume_above_hundred_is_out_of_range() {
    let mut b = engine().with_volume(5, VolumeType::Duty);
    for level in 101..=u8::MAX {
        assert!(matches!(b.set_volume(level), Err(Error::VolumeOutOfRange)));
    }
    assert!(b.trace.is_empty());
}

#[test]
fn duty_volume_stores_level_and_configures_carrier() {
    let mut b = engine().with_volume(5, VolumeType::Duty);
    assert!(b.set_volume(70).is_ok());
    // At an 80 MHz clock the 20 kHz carrier divides to ratio 4000, so the
    // clock-division logic picks 11 bits.
    assert_eq!(
        b.trace,
        vec![
            Command::ConfigureTimer { resolution: 11, frequency_hz: 20_000 },
            Command::ConfigureChannel { pin: 5, duty_pct: 70 },
        ]
    );
    // The stored level shapes the next tone's duty.
    b.play(1_000).unwrap();
    assert_eq!(
        b.trace[3],
        Command::ConfigureChannel { pin: 4, duty_pct: 70 }
    );
}

#[test]
fn duty_volume_accepts_every_level_up_to_ninety_nine() {
    for level in 0..=99 {
        let mut b = engine().with_volume(5, VolumeType::Duty);
        assert!(b.set_volume(level).is_ok());
        assert_eq!(
            b.trace[1],
            Command::ConfigureChannel { pin: 5, duty_pct: level }
        );
    }
}

#[test]
fn duty_volume_carrier_resolution_follows_clock() {
    // At a 40 MHz clock the same carrier divides to ratio 2000, so the
    // clock-division logic picks 10 bits, not 11.
    let mut b = Buzzer::new(40_000_000, 0, 1, 4).with_volume(5, VolumeType::Duty);
    assert!(b.set_volume(30).is_ok());
    assert_eq!(
        b.trace[0],
        Command::ConfigureTimer { resolution: 10, frequency_hz: 20_000 }
    );
}

#[test]
fn duty_volume_keeps_configured_timer() {
    let mut b = engine().with_volume(5, VolumeType::Duty);
    b.play(1_000).unwrap();
    let configured = b.timer;
    assert_eq!(
        configured,
        Some(TimerConfig { resolution: 14, frequency_hz: 1_000 })
    );
    b.set_volume(30).unwrap();
    // The lazy carrier setup must not clobber the playing tone's timer:
    // only a channel rebind is issued.
    assert_eq!(b.timer, configured);
    assert_eq!(
        b.trace[2],
        Command::ConfigureChannel { pin: 5, duty_pct: 30 }
    );
    assert_eq!(b.trace.len(), 3);
}

#[test]
fn duty_volume_full_level_keeps_stored_level() {
    let mut b = engine().with_volume(5, VolumeType::Duty);
    b.set_volume(20).unwrap();
    // Level 100 bypasses PWM entirely and leaves the stored level alone.
    b.set_volume(100).unwrap();
    b.play(1_000).unwrap();
    assert_eq!(
        b.trace.last(),
        Some(&Command::ConfigureChannel { pin: 4, duty_pct: 20 })
    );
}

#[test]
fn collaborator_errors_wrap_verbatim() {
    assert_eq!(
        Error::from(ChannelError::Duty),
        Error::Channel(ChannelError::Duty)
    );
    assert_eq!(
        Error::from(TimerError::Divisor),
        Error::Timer(TimerError::Divisor)
    );
}
