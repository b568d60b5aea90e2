use hmc5883l_embed::codec::{extract, flag, flag_bits, pack, pack_setting, unpack, value_bits};
use hmc5883l_embed::{
    AveragedSamples, DecodeError, Gain, MeasurementModes, OperationModes, OutputRates, Registers,
    Setting,
};

const AVERAGES: [AveragedSamples; 4] = [
    AveragedSamples::One,
    AveragedSamples::Two,
    AveragedSamples::Four,
    AveragedSamples::Eight,
];

const RATES: [OutputRates; 7] = [
    OutputRates::Hz0_75,
    OutputRates::Hz1_5,
    OutputRates::Hz3_0,
    OutputRates::Hz7_5,
    OutputRates::Hz15_0,
    OutputRates::Hz30_0,
    OutputRates::Hz75_0,
];

const BIASES: [MeasurementModes; 3] = [
    MeasurementModes::Normal,
    MeasurementModes::PositiveBias,
    MeasurementModes::NegativeBias,
];

const MODES: [OperationModes; 3] = [
    OperationModes::Continuous,
    OperationModes::Single,
    OperationModes::Idle,
];

const GAINS: [Gain; 8] = [
    Gain::_1370,
    Gain::_1090,
    Gain::_820,
    Gain::_660,
    Gain::_440,
    Gain::_390,
    Gain::_330,
    Gain::_220,
];

#[test]
fn pack_clears_the_field_then_sets_the_value() {
    assert_eq!(pack(0b1111_1111, 0b0110_0000, 0b0010_0000), 0b1011_1111);
    assert_eq!(pack(0b0000_0000, 0b0110_0000, 0b0100_0000), 0b0100_0000);
    assert_eq!(pack(0b1010_1010, 0b0001_1100, 0b0001_0100), 0b1011_0110);
    assert_eq!(pack(0b1010_1010, 0b0000_0011, 0b0000_0000), 0b1010_1000);
}

#[test]
fn pack_sets_bits_that_were_clear() {
    // Combining with "and" in place of "or" could never do this.
    assert_eq!(pack(0x00, 0xe0, 0xe0), 0xe0);
    assert_eq!(pack(0x00, 0x03, 0x02), 0x02);
}

#[test]
fn extract_takes_the_field_out() {
    assert_eq!(extract(0b1011_0110, 0b0001_1100, 2), 0b101);
    assert_eq!(extract(0b1111_1111, 0b0110_0000, 5), 0b11);
    assert_eq!(extract(0b1110_0000, 0b1110_0000, 5), 0b111);
    assert_eq!(extract(0b1111_1100, 0b0000_0011, 0), 0);
}

#[test]
fn flag_tests_one_bit() {
    assert!(flag(0b0000_0010, 0x02));
    assert!(!flag(0b1111_1101, 0x02));
    assert!(flag(0x80, 0x80));
    assert!(!flag(0x7f, 0x80));
    assert_eq!(flag_bits(0x80, true), 0x80);
    assert_eq!(flag_bits(0x80, false), 0x00);
}

#[test]
fn settings_live_in_their_fields() {
    assert_eq!(AveragedSamples::register(), Registers::ConA);
    assert_eq!((AveragedSamples::mask(), AveragedSamples::shift()), (0b0110_0000, 5));
    assert_eq!(OutputRates::register(), Registers::ConA);
    assert_eq!((OutputRates::mask(), OutputRates::shift()), (0b0001_1100, 2));
    assert_eq!(MeasurementModes::register(), Registers::ConA);
    assert_eq!((MeasurementModes::mask(), MeasurementModes::shift()), (0b0000_0011, 0));
    assert_eq!(Gain::register(), Registers::ConB);
    assert_eq!((Gain::mask(), Gain::shift()), (0b1110_0000, 5));
    assert_eq!(OperationModes::register(), Registers::Mode);
    assert_eq!((OperationModes::mask(), OperationModes::shift()), (0b0000_0011, 0));
}

#[test]
fn members_have_their_codes() {
    for (code, member) in AVERAGES.iter().enumerate() {
        assert_eq!(member.bits() as usize, code);
    }
    for (code, member) in RATES.iter().enumerate() {
        assert_eq!(member.bits() as usize, code);
    }
    for (code, member) in BIASES.iter().enumerate() {
        assert_eq!(member.bits() as usize, code);
    }
    for (code, member) in MODES.iter().enumerate() {
        assert_eq!(member.bits() as usize, code);
    }
    for (code, member) in GAINS.iter().enumerate() {
        assert_eq!(member.bits() as usize, code);
    }
}

#[test]
fn value_bits_are_shifted_into_position() {
    assert_eq!(value_bits(AveragedSamples::Eight), 0b0110_0000);
    assert_eq!(value_bits(OutputRates::Hz15_0), 0b0001_0000);
    assert_eq!(value_bits(MeasurementModes::NegativeBias), 0b0000_0010);
    assert_eq!(value_bits(Gain::_1090), 0b0010_0000);
    assert_eq!(value_bits(Gain::_220), 0b1110_0000);
    assert_eq!(value_bits(OperationModes::Idle), 0b0000_0010);
}

#[test]
fn pack_setting_on_given_bytes() {
    assert_eq!(pack_setting(0xff, AveragedSamples::One), 0b1001_1111);
    assert_eq!(pack_setting(0x00, AveragedSamples::Four), 0b0100_0000);
    assert_eq!(pack_setting(0xff, OutputRates::Hz0_75), 0b1110_0011);
    assert_eq!(pack_setting(0x00, OutputRates::Hz75_0), 0b0001_1000);
    assert_eq!(pack_setting(0xff, MeasurementModes::PositiveBias), 0b1111_1101);
    assert_eq!(pack_setting(0x1f, Gain::_440), 0b1001_1111);
    assert_eq!(pack_setting(0xfc, OperationModes::Single), 0b1111_1101);
}

#[test]
fn unpack_on_given_bytes() {
    assert_eq!(unpack::<AveragedSamples>(0b0100_0000), Ok(AveragedSamples::Four));
    assert_eq!(unpack::<OutputRates>(0b1111_0011), Ok(OutputRates::Hz15_0));
    assert_eq!(unpack::<MeasurementModes>(0b1111_1101), Ok(MeasurementModes::PositiveBias));
    assert_eq!(unpack::<MeasurementModes>(0b0000_0001), Ok(MeasurementModes::PositiveBias));
    assert_eq!(unpack::<Gain>(0b1010_0000), Ok(Gain::_390));
    assert_eq!(unpack::<OperationModes>(0b1000_0010), Ok(OperationModes::Idle));
}

#[test]
fn reserved_output_rate_is_a_decode_error() {
    assert_eq!(
        unpack::<OutputRates>(0b0001_1100),
        Err(DecodeError { field_mask: 0b0001_1100, code: 7 })
    );
    assert_eq!(
        unpack::<OutputRates>(0xff),
        Err(DecodeError { field_mask: 0b0001_1100, code: 7 })
    );
}

#[test]
fn reserved_measurement_mode_is_a_decode_error() {
    assert_eq!(
        unpack::<MeasurementModes>(0b0000_0011),
        Err(DecodeError { field_mask: 0b0000_0011, code: 3 })
    );
    assert_eq!(
        unpack::<MeasurementModes>(0xff),
        Err(DecodeError { field_mask: 0b0000_0011, code: 3 })
    );
}

#[test]
fn reserved_operating_mode_is_a_decode_error() {
    assert_eq!(
        unpack::<OperationModes>(0b1000_0011),
        Err(DecodeError { field_mask: 0b0000_0011, code: 3 })
    );
}

#[test]
fn from_bits_refuses_codes_beyond_the_field() {
    assert_eq!(Gain::from_bits(7), Some(Gain::_220));
    assert_eq!(Gain::from_bits(8), None);
    assert_eq!(AveragedSamples::from_bits(4), None);
    assert_eq!(OutputRates::from_bits(7), None);
    assert_eq!(OutputRates::from_bits(255), None);
    assert_eq!(MeasurementModes::from_bits(3), None);
    assert_eq!(OperationModes::from_bits(3), None);
}

fn round_trips<S: Setting + Copy + PartialEq + std::fmt::Debug>(members: &[S]) {
    for current in 0..=255u8 {
        for &member in members {
            let packed = pack_setting(current, member);
            assert_eq!(unpack::<S>(packed), Ok(member));
            assert_eq!(packed & !S::mask(), current & !S::mask());
            assert_eq!(packed & S::mask(), member.bits() << S::shift());
        }
    }
}

#[test]
fn every_member_round_trips_over_every_byte() {
    round_trips(&AVERAGES);
    round_trips(&RATES);
    round_trips(&BIASES);
    round_trips(&MODES);
    round_trips(&GAINS);
}

fn fails_exactly_on_reserved<S: Setting + Copy + PartialEq + std::fmt::Debug>(members: &[S]) {
    for byte in 0..=255u8 {
        let code = (byte & S::mask()) >> S::shift();
        let member = members.iter().find(|member| member.bits() == code);
        match member {
            Some(&member) => assert_eq!(unpack::<S>(byte), Ok(member)),
            None => assert_eq!(
                unpack::<S>(byte),
                Err(DecodeError { field_mask: S::mask(), code })
            ),
        }
    }
}

#[test]
fn unpack_fails_exactly_on_reserved_codes() {
    fails_exactly_on_reserved(&AVERAGES);
    fails_exactly_on_reserved(&RATES);
    fails_exactly_on_reserved(&BIASES);
    fails_exactly_on_reserved(&MODES);
    fails_exactly_on_reserved(&GAINS);
}

#[test]
fn gain_and_averaging_decode_from_every_byte() {
    for byte in 0..=255u8 {
        assert!(unpack::<Gain>(byte).is_ok());
        assert!(unpack::<AveragedSamples>(byte).is_ok());
    }
}

#[test]
fn settings_of_one_register_do_not_disturb_each_other() {
    for current in 0..=255u8 {
        for amt in AVERAGES {
            let packed = pack_setting(current, amt);
            assert_eq!(unpack::<OutputRates>(packed), unpack::<OutputRates>(current));
            assert_eq!(unpack::<MeasurementModes>(packed), unpack::<MeasurementModes>(current));
        }
        for rate in RATES {
            let packed = pack_setting(current, rate);
            assert_eq!(unpack::<AveragedSamples>(packed), unpack::<AveragedSamples>(current));
            assert_eq!(unpack::<MeasurementModes>(packed), unpack::<MeasurementModes>(current));
        }
        for mode in BIASES {
            let packed = pack_setting(current, mode);
            assert_eq!(unpack::<AveragedSamples>(packed), unpack::<AveragedSamples>(current));
            assert_eq!(unpack::<OutputRates>(packed), unpack::<OutputRates>(current));
        }
    }
}

#[test]
fn operating_mode_and_high_speed_flag_do_not_disturb_each_other() {
    for current in 0..=255u8 {
        for mode in MODES {
            assert_eq!(flag(pack_setting(current, mode), 0x80), flag(current, 0x80));
        }
        for on in [false, true] {
            let packed = pack(current, 0x80, flag_bits(0x80, on));
            assert_eq!(flag(packed, 0x80), on);
            assert_eq!(unpack::<OperationModes>(packed), unpack::<OperationModes>(current));
        }
    }
}
