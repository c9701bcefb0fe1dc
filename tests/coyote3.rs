use dungeonctl::coyote3::{
    is_subscribed, select_characteristics, Command, DecodeError, DeviceSettings, IntensityChange,
    MissingCharacteristic, Notification, Pulse, Pulses, State, BATTERY_CHARACTERISTIC,
    NOTIFY_CHARACTERISTIC, WRITE_CHARACTERISTIC,
};
use dungeonctl::Stereo;

fn pulses_with_intensity(intensity: u8) -> Pulses {
    Pulses {
        intensity: Stereo {
            a: IntensityChange::AbsoluteChange(10),
            b: IntensityChange::AbsoluteChange(0),
        },
        pulses: [Stereo {
            a: Pulse {
                frequency: 100,
                intensity,
            },
            b: Pulse {
                frequency: 30,
                intensity,
            },
        }; 4],
    }
}

#[test]
fn test_b0_command() {
    assert_eq!(
        Command::SendPulses(pulses_with_intensity(0)).to_bytes(),
        vec![
            0xb0, 0x0f, 0x0a, 0x00, 0x0a, 0x0a, 0x0a, 0x0a, 0x00, 0x00, 0x00, 0x00, 0x21, 0x21,
            0x21, 0x21, 0x00, 0x00, 0x00, 0x00
        ]
    );
    assert_eq!(
        Command::SendPulses(pulses_with_intensity(100)).to_bytes(),
        vec![
            0xb0, 0x0f, 0x0a, 0x00, 0x0a, 0x0a, 0x0a, 0x0a, 0x64, 0x64, 0x64, 0x64, 0x21, 0x21,
            0x21, 0x21, 0x64, 0x64, 0x64, 0x64
        ]
    );
}

#[test]
fn test_bf_command() {
    assert_eq!(
        Command::UpdateSettings(DeviceSettings {
            limit: Stereo { a: 200, b: 200 },
            frequency_balance: Stereo { a: 160, b: 160 },
            intensity_balance: Stereo { a: 0, b: 0 },
        })
        .to_bytes(),
        vec![0xbf, 0xc8, 0xc8, 0xa0, 0xa0, 0x00, 0x00]
    );
}

#[test]
fn intensity_above_limit_is_capped_in_frame() {
    let bytes = Command::SendPulses(pulses_with_intensity(250)).to_bytes();
    assert_eq!(bytes.len(), 20);
    assert_eq!(&bytes[8..12], &[100, 100, 100, 100]);
    assert_eq!(&bytes[16..20], &[100, 100, 100, 100]);
}

#[test]
fn mode_byte_packs_both_channels() {
    let p = Pulses {
        intensity: Stereo {
            a: IntensityChange::RelativeIncrease(3),
            b: IntensityChange::RelativeDecrease(7),
        },
        pulses: [Stereo::symmetric(Pulse {
            frequency: 0,
            intensity: 0,
        }); 4],
    };
    let bytes = Command::SendPulses(p).to_bytes();
    assert_eq!(&bytes[0..4], &[0xb0, 0b0110, 3, 7]);
    let q = Pulses {
        intensity: Stereo::symmetric(IntensityChange::DoNotChange),
        ..p
    };
    assert_eq!(&Command::SendPulses(q).to_bytes()[0..4], &[0xb0, 0, 0, 0]);
}

#[test]
fn slots_are_laid_out_per_channel() {
    let mut pulses = [Stereo::symmetric(Pulse {
        frequency: 0,
        intensity: 0,
    }); 4];
    for (k, slot) in pulses.iter_mut().enumerate() {
        slot.a = Pulse {
            frequency: 1,
            intensity: k as u8,
        };
        slot.b = Pulse {
            frequency: 250,
            intensity: 10 + k as u8,
        };
    }
    let rows = Pulses::convert_pulses(&pulses);
    assert_eq!(rows, [[240; 4], [0, 1, 2, 3], [5; 4], [10, 11, 12, 13]]);
}

#[test]
fn compressed_frequency_values() {
    let c = |f: u8| {
        Pulse {
            frequency: f,
            intensity: 0,
        }
        .compressed_frequency_value()
    };
    assert_eq!(c(0), 0);
    assert_eq!(c(1), 240);
    assert_eq!(c(2), 180);
    assert_eq!(c(3), 146);
    assert_eq!(c(7), 108);
    assert_eq!(c(10), 100);
    assert_eq!(c(11), 90);
    assert_eq!(c(30), 33);
    assert_eq!(c(100), 10);
    assert_eq!(c(200), 5);
    assert_eq!(c(201), 5);
    assert_eq!(c(255), 5);
}

#[test]
fn compressed_frequency_range_and_order() {
    let c = |f: u8| {
        Pulse {
            frequency: f,
            intensity: 0,
        }
        .compressed_frequency_value()
    };
    for f in 1..=200u8 {
        assert!((5..=240).contains(&c(f)));
    }
    for f in 1..255u8 {
        assert!(c(f) >= c(f + 1));
    }
}

#[test]
fn clamped_intensity_values() {
    let c = |i: u8| {
        Pulse {
            frequency: 0,
            intensity: i,
        }
        .clamped_intensity()
    };
    assert_eq!(c(0), 0);
    assert_eq!(c(55), 55);
    assert_eq!(c(100), 100);
    assert_eq!(c(101), 100);
    assert_eq!(c(255), 100);
}

#[test]
fn intensity_change_modes_and_values() {
    assert_eq!(IntensityChange::DoNotChange.mode(), 0);
    assert_eq!(IntensityChange::DoNotChange.value(), 0);
    assert_eq!(IntensityChange::RelativeIncrease(5).mode(), 1);
    assert_eq!(IntensityChange::RelativeIncrease(5).value(), 5);
    assert_eq!(IntensityChange::RelativeDecrease(6).mode(), 2);
    assert_eq!(IntensityChange::RelativeDecrease(6).value(), 6);
    assert_eq!(IntensityChange::AbsoluteChange(7).mode(), 3);
    assert_eq!(IntensityChange::AbsoluteChange(7).value(), 7);
}

#[test]
fn decode_intensity_notification() {
    assert_eq!(
        Notification::decode(&[0xb1, 9, 20, 30]),
        Ok(Notification::IntensityChange {
            serial: 9,
            intensity: Stereo { a: 20, b: 30 },
        })
    );
}

#[test]
fn decode_settings_notification() {
    assert_eq!(
        Notification::decode(&[0xbe, 1, 2, 3, 4, 5, 6, 99]),
        Ok(Notification::DeviceSettingsChange(DeviceSettings {
            limit: Stereo { a: 1, b: 2 },
            frequency_balance: Stereo { a: 3, b: 4 },
            intensity_balance: Stereo { a: 5, b: 6 },
        }))
    );
}

#[test]
fn decode_unknown_magic() {
    assert_eq!(
        Notification::decode(&[0xff, 1, 2, 3]),
        Err(DecodeError::UnknownMagic(0xff))
    );
}

#[test]
fn decode_truncated() {
    assert_eq!(Notification::decode(&[]), Err(DecodeError::Truncated));
    assert_eq!(Notification::decode(&[0xb1, 1, 2]), Err(DecodeError::Truncated));
    assert_eq!(
        Notification::decode(&[0xbe, 1, 2, 3, 4, 5]),
        Err(DecodeError::Truncated)
    );
}

#[test]
fn default_settings_and_state() {
    let d = DeviceSettings::default();
    assert_eq!(d.limit, Stereo { a: 70, b: 70 });
    assert_eq!(d.frequency_balance, Stereo { a: 160, b: 160 });
    assert_eq!(d.intensity_balance, Stereo { a: 0, b: 0 });
    let s = State::default();
    assert_eq!(s.battery, 0);
    assert_eq!(s.intensity, Stereo { a: 0, b: 0 });
    assert_eq!(s.settings, d);
}

#[test]
fn updates_fold_into_state() {
    let mut s = State::default();
    let r = s.apply_update(NOTIFY_CHARACTERISTIC, &[0xb1, 1, 12, 34]);
    assert_eq!(s.intensity, Stereo { a: 12, b: 34 });
    assert_eq!(r, Some(s));
    let r = s.apply_update(BATTERY_CHARACTERISTIC, &[87]);
    assert_eq!(s.battery, 87);
    assert_eq!(r, Some(s));
    let r = s.apply_update(NOTIFY_CHARACTERISTIC, &[0xbe, 1, 2, 3, 4, 5, 6]);
    assert_eq!(s.settings.intensity_balance, Stereo { a: 5, b: 6 });
    assert_eq!(s.intensity, Stereo { a: 12, b: 34 });
    assert_eq!(r, Some(s));
}

#[test]
fn malformed_update_keeps_state() {
    let mut s = State::default();
    s.apply_update(BATTERY_CHARACTERISTIC, &[50]);
    let before = s;
    assert_eq!(s.apply_update(NOTIFY_CHARACTERISTIC, &[0xff, 1, 2, 3]), None);
    assert_eq!(s, before);
    assert_eq!(s.apply_update(NOTIFY_CHARACTERISTIC, &[0xb1]), None);
    assert_eq!(s.apply_update(BATTERY_CHARACTERISTIC, &[]), None);
    assert_eq!(s.apply_update(WRITE_CHARACTERISTIC, &[0xb1, 1, 2, 3]), None);
    assert_eq!(s, before);
}

#[test]
fn subscribed_characteristics() {
    assert!(is_subscribed(BATTERY_CHARACTERISTIC));
    assert!(is_subscribed(NOTIFY_CHARACTERISTIC));
    assert!(!is_subscribed(WRITE_CHARACTERISTIC));
    assert!(!is_subscribed(0));
}

#[test]
fn characteristics_are_found() {
    let ids = [
        7,
        BATTERY_CHARACTERISTIC,
        WRITE_CHARACTERISTIC,
        NOTIFY_CHARACTERISTIC,
        WRITE_CHARACTERISTIC,
    ];
    let c = select_characteristics(&ids).unwrap();
    assert_eq!(c.battery, 1);
    assert_eq!(c.write, 4);
}

#[test]
fn missing_characteristics_are_named() {
    assert_eq!(
        select_characteristics(&[WRITE_CHARACTERISTIC, NOTIFY_CHARACTERISTIC]),
        Err(MissingCharacteristic {
            uuid: BATTERY_CHARACTERISTIC
        })
    );
    assert_eq!(
        select_characteristics(&[BATTERY_CHARACTERISTIC]),
        Err(MissingCharacteristic {
            uuid: WRITE_CHARACTERISTIC
        })
    );
    assert_eq!(
        select_characteristics(&[]),
        Err(MissingCharacteristic {
            uuid: BATTERY_CHARACTERISTIC
        })
    );
}

#[test]
fn characteristic_identifiers() {
    assert_eq!(WRITE_CHARACTERISTIC, 0x0000150a_0000_1000_8000_00805f9b34fb);
    assert_eq!(NOTIFY_CHARACTERISTIC, 0x0000150b_0000_1000_8000_00805f9b34fb);
    assert_eq!(BATTERY_CHARACTERISTIC, 0x00001500_0000_1000_8000_00805f9b34fb);
}
