use rov_control::components::motor::{GenericMotorId, MotorRawSignalRange, MotorSignal};
use rov_control::hardware::motor_id_map::{DcChannel, LocalMotorId, PwmChannel};

#[test]
fn pwm_channel_keeps_its_number() {
    for id in 0..16u8 {
        assert_eq!(PwmChannel::new(id).id(), id);
    }
}

#[test]
fn pwm_channel_sixteen_does_not_exist() {
    assert!(PwmChannel::try_new(15).is_some());
    assert!(PwmChannel::try_new(16).is_none());
    assert!(PwmChannel::try_new(255).is_none());
}

#[test]
fn dc_channel_keeps_its_number() {
    for id in 0..4u8 {
        assert_eq!(DcChannel::new(id).id(), id);
    }
    assert!(DcChannel::try_new(4).is_none());
}

#[test]
fn pwm_default_range_is_servo_pulse_widths() {
    let range = PwmChannel::new(3).default_signal_range();
    assert_eq!(range, MotorRawSignalRange { min: 1100, center: 1500, max: 1900 });
}

#[test]
fn dc_default_range_is_signed_sixteen_bits() {
    let range = DcChannel::new(2).default_signal_range();
    assert_eq!(range, MotorRawSignalRange { min: -32768, center: 0, max: 32767 });
}

#[test]
fn local_id_default_range_follows_its_kind() {
    let pwm = LocalMotorId::PwmChannel(PwmChannel::new(0));
    let dc = LocalMotorId::DcChannel(DcChannel::new(0));
    assert_eq!(pwm.default_signal_range(), PwmChannel::new(0).default_signal_range());
    assert_eq!(dc.default_signal_range(), DcChannel::new(0).default_signal_range());
}

#[test]
fn pwm_channels_encode_as_their_number() {
    for id in 0..16u8 {
        let local = LocalMotorId::PwmChannel(PwmChannel::new(id));
        assert_eq!(local.to_generic(), GenericMotorId(id));
        assert_eq!(GenericMotorId::from(local), GenericMotorId(id));
    }
}

#[test]
fn dc_channels_encode_with_the_top_bit() {
    for id in 0..4u8 {
        let local = LocalMotorId::DcChannel(DcChannel::new(id));
        assert_eq!(local.to_generic(), GenericMotorId(0x80 | id));
    }
    assert_eq!(
        LocalMotorId::DcChannel(DcChannel::new(3)).to_generic(),
        GenericMotorId(131)
    );
}

#[test]
fn encoding_round_trips_for_every_channel() {
    for id in 0..16u8 {
        let local = LocalMotorId::PwmChannel(PwmChannel::new(id));
        assert_eq!(LocalMotorId::try_from_generic(local.to_generic()), Some(local));
        assert_eq!(LocalMotorId::from_generic(local.to_generic()), local);
    }
    for id in 0..4u8 {
        let local = LocalMotorId::DcChannel(DcChannel::new(id));
        assert_eq!(LocalMotorId::try_from_generic(local.to_generic()), Some(local));
        assert_eq!(LocalMotorId::from_generic(local.to_generic()), local);
    }
}

#[test]
fn exactly_twenty_bytes_stand_for_a_channel() {
    let mut count = 0;
    for byte in 0..=255u8 {
        match LocalMotorId::try_from_generic(GenericMotorId(byte)) {
            Some(local) => {
                count += 1;
                assert_eq!(local.to_generic(), GenericMotorId(byte));
                assert!(byte < 16 || (128..132).contains(&byte));
            }
            None => assert!((16..128).contains(&byte) || byte >= 132),
        }
    }
    assert_eq!(count, 20);
}

#[test]
fn bytes_just_outside_the_channels_are_refused() {
    assert_eq!(LocalMotorId::try_from_generic(GenericMotorId(16)), None);
    assert_eq!(LocalMotorId::try_from_generic(GenericMotorId(0x7F)), None);
    assert_eq!(LocalMotorId::try_from_generic(GenericMotorId(0x84)), None);
    assert_eq!(LocalMotorId::try_from_generic(GenericMotorId(0xFF)), None);
}

#[test]
fn clamp_raw_holds_to_the_range() {
    let range = MotorRawSignalRange { min: 1100, center: 1500, max: 1900 };
    assert_eq!(range.clamp_raw(1000), 1100);
    assert_eq!(range.clamp_raw(1100), 1100);
    assert_eq!(range.clamp_raw(1500), 1500);
    assert_eq!(range.clamp_raw(1899), 1899);
    assert_eq!(range.clamp_raw(1900), 1900);
    assert_eq!(range.clamp_raw(5000), 1900);
    assert_eq!(range.clamp_raw(i32::MIN), 1100);
    assert_eq!(range.clamp_raw(i32::MAX), 1900);
}

#[test]
fn clamp_raw_agrees_with_the_standard_clamp() {
    let range = MotorRawSignalRange { min: -32768, center: 0, max: 32767 };
    for raw in [-100000, -32769, -32768, -1, 0, 1, 32767, 32768, 100000] {
        assert_eq!(range.clamp_raw(raw), raw.clamp(range.min, range.max));
    }
}

#[test]
fn range_order_is_tested() {
    assert!(MotorRawSignalRange { min: 1, center: 2, max: 3 }.is_ordered());
    assert!(MotorRawSignalRange { min: 2, center: 2, max: 2 }.is_ordered());
    assert!(!MotorRawSignalRange { min: 3, center: 2, max: 3 }.is_ordered());
    assert!(!MotorRawSignalRange { min: 1, center: 4, max: 3 }.is_ordered());
}

#[test]
fn percent_ratio_is_distance_over_span() {
    let range = MotorRawSignalRange { min: 1100, center: 1500, max: 1900 };
    assert_eq!(range.percent_ratio(1900), (400, 400));
    assert_eq!(range.percent_ratio(1700), (200, 400));
    assert_eq!(range.percent_ratio(1500), (0, 1));
    assert_eq!(range.percent_ratio(1300), (200, -400));
    assert_eq!(range.percent_ratio(1100), (400, -400));
    assert_eq!(range.percent_ratio(2300), (800, 400));
}

#[test]
fn percent_ratio_gives_the_fractions_of_the_ends() {
    for range in [
        MotorRawSignalRange { min: 1100, center: 1500, max: 1900 },
        MotorRawSignalRange { min: -32768, center: 0, max: 32767 },
        MotorRawSignalRange { min: 1300, center: 1500, max: 1600 },
    ] {
        let fraction = |raw: i32| {
            let (n, d) = range.percent_ratio(raw);
            n as f32 / d as f32
        };
        assert_eq!(fraction(range.max), 1.0);
        assert_eq!(fraction(range.center), 0.0);
        assert_eq!(fraction(range.min), -1.0);
    }
}

#[test]
fn percent_ratio_does_not_overflow_at_the_limits() {
    let range = MotorRawSignalRange { min: i32::MIN, center: 0, max: i32::MAX };
    assert_eq!(range.percent_ratio(i32::MIN), (2147483648, -2147483648));
    assert_eq!(range.percent_ratio(i32::MAX), (2147483647, 2147483647));
    let range = MotorRawSignalRange { min: i32::MIN, center: i32::MAX, max: i32::MAX };
    assert_eq!(range.percent_ratio(i32::MIN), (4294967295, -4294967295));
}

#[test]
fn only_a_raw_signal_has_a_raw_value() {
    assert_eq!(MotorSignal::<f32>::Raw(1600).raw(), Some(1600));
    assert_eq!(MotorSignal::Percent(0.5f32).raw(), None);
}
