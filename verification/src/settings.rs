//! The settings of the device: which register and field holds each, and
//! the code of each of its members.

use vstd::prelude::*;
use crate::codec::{
    spec_extract, spec_flag, spec_flag_bits, spec_pack, spec_pack_setting, spec_unpack, DecodeError,
    Setting,
};
use crate::registers::{Registers, MODE_HS};

verus! {

/// How the device takes its measurements.
#[derive(Clone, Copy, Debug, PartialEq, Eq, Structural)]
pub enum OperationModes {
    Continuous,
    Single,
    Idle,
}

/// How many samples the device averages into one measurement.
#[derive(Clone, Copy, Debug, PartialEq, Eq, Structural)]
pub enum AveragedSamples {
    One,
    Two,
    Four,
    Eight,
}

/// How often, in continuous mode, the device writes a measurement to its
/// data registers.
#[derive(Clone, Copy, Debug, PartialEq, Eq, Structural)]
pub enum OutputRates {
    Hz0_75,
    Hz1_5,
    Hz3_0,
    Hz7_5,
    Hz15_0,
    Hz30_0,
    Hz75_0,
}

/// The bias that the device applies while it measures.
#[derive(Clone, Copy, Debug, PartialEq, Eq, Structural)]
pub enum MeasurementModes {
    Normal,
    PositiveBias,
    NegativeBias,
}

/// The gain of the device, named by its counts per gauss.
#[derive(Clone, Copy, Debug, PartialEq, Eq, Structural)]
pub enum Gain {
    _1370,
    _1090,
    _820,
    _660,
    _440,
    _390,
    _330,
    _220,
}

/// The mode select field: bits 1 and 0 of the mode register. The code 3 is
/// reserved.
impl Setting for OperationModes {
    open spec fn home() -> Registers {
        Registers::Mode
    }

    open spec fn field_mask() -> u8 {
        0x03
    }

    open spec fn field_shift() -> u8 {
        0
    }

    open spec fn code(self) -> u8 {
        match self {
            OperationModes::Continuous => 0,
            OperationModes::Single => 1,
            OperationModes::Idle => 2,
        }
    }

    open spec fn from_code(code: u8) -> Option<Self> {
        if code == 0 {
            Some(OperationModes::Continuous)
        } else if code == 1 {
            Some(OperationModes::Single)
        } else if code == 2 {
            Some(OperationModes::Idle)
        } else {
            None
        }
    }

    proof fn lemma_field() {
        assert(crate::codec::is_field(0x03, 0)) by (bit_vector);
    }

    proof fn lemma_code_decodes(self) {
        assert(0x03u8 >> 0u8 == 3) by (bit_vector);
    }

    proof fn lemma_decoded_has_code(code: u8) {
    }

    fn register() -> (register: Registers) {
        Registers::Mode
    }

    fn mask() -> (mask: u8) {
        0x03
    }

    fn shift() -> (shift: u8) {
        0
    }

    fn bits(self) -> (code: u8) {
        match self {
            OperationModes::Continuous => 0,
            OperationModes::Single => 1,
            OperationModes::Idle => 2,
        }
    }

    fn from_bits(code: u8) -> (member: Option<Self>) {
        match code {
            0 => Some(OperationModes::Continuous),
            1 => Some(OperationModes::Single),
            2 => Some(OperationModes::Idle),
            _ => None,
        }
    }
}

/// The averaging field: bits 6 and 5 of configuration register A. Every
/// code stands for a member.
impl Setting for AveragedSamples {
    open spec fn home() -> Registers {
        Registers::ConA
    }

    open spec fn field_mask() -> u8 {
        0x60
    }

    open spec fn field_shift() -> u8 {
        5
    }

    open spec fn code(self) -> u8 {
        match self {
            AveragedSamples::One => 0,
            AveragedSamples::Two => 1,
            AveragedSamples::Four => 2,
            AveragedSamples::Eight => 3,
        }
    }

    open spec fn from_code(code: u8) -> Option<Self> {
        if code == 0 {
            Some(AveragedSamples::One)
        } else if code == 1 {
            Some(AveragedSamples::Two)
        } else if code == 2 {
            Some(AveragedSamples::Four)
        } else if code == 3 {
            Some(AveragedSamples::Eight)
        } else {
            None
        }
    }

    proof fn lemma_field() {
        assert(crate::codec::is_field(0x60, 5)) by (bit_vector);
    }

    proof fn lemma_code_decodes(self) {
        assert(0x60u8 >> 5u8 == 3) by (bit_vector);
    }

    proof fn lemma_decoded_has_code(code: u8) {
    }

    fn register() -> (register: Registers) {
        Registers::ConA
    }

    fn mask() -> (mask: u8) {
        0x60
    }

    fn shift() -> (shift: u8) {
        5
    }

    fn bits(self) -> (code: u8) {
        match self {
            AveragedSamples::One => 0,
            AveragedSamples::Two => 1,
            AveragedSamples::Four => 2,
            AveragedSamples::Eight => 3,
        }
    }

    fn from_bits(code: u8) -> (member: Option<Self>) {
        match code {
            0 => Some(AveragedSamples::One),
            1 => Some(AveragedSamples::Two),
            2 => Some(AveragedSamples::Four),
            3 => Some(AveragedSamples::Eight),
            _ => None,
        }
    }
}

/// The output rate field: bits 4 to 2 of configuration register A. The
/// code 7 is reserved.
impl Setting for OutputRates {
    open spec fn home() -> Registers {
        Registers::ConA
    }

    open spec fn field_mask() -> u8 {
        0x1c
    }

    open spec fn field_shift() -> u8 {
        2
    }

    open spec fn code(self) -> u8 {
        match self {
            OutputRates::Hz0_75 => 0,
            OutputRates::Hz1_5 => 1,
            OutputRates::Hz3_0 => 2,
            OutputRates::Hz7_5 => 3,
            OutputRates::Hz15_0 => 4,
            OutputRates::Hz30_0 => 5,
            OutputRates::Hz75_0 => 6,
        }
    }

    open spec fn from_code(code: u8) -> Option<Self> {
        if code == 0 {
            Some(OutputRates::Hz0_75)
        } else if code == 1 {
            Some(OutputRates::Hz1_5)
        } else if code == 2 {
            Some(OutputRates::Hz3_0)
        } else if code == 3 {
            Some(OutputRates::Hz7_5)
        } else if code == 4 {
            Some(OutputRates::Hz15_0)
        } else if code == 5 {
            Some(OutputRates::Hz30_0)
        } else if code == 6 {
            Some(OutputRates::Hz75_0)
        } else {
            None
        }
    }

    proof fn lemma_field() {
        assert(crate::codec::is_field(0x1c, 2)) by (bit_vector);
    }

    proof fn lemma_code_decodes(self) {
        assert(0x1cu8 >> 2u8 == 7) by (bit_vector);
    }

    proof fn lemma_decoded_has_code(code: u8) {
    }

    fn register() -> (register: Registers) {
        Registers::ConA
    }

    fn mask() -> (mask: u8) {
        0x1c
    }

    fn shift() -> (shift: u8) {
        2
    }

    fn bits(self) -> (code: u8) {
        match self {
            OutputRates::Hz0_75 => 0,
            OutputRates::Hz1_5 => 1,
            OutputRates::Hz3_0 => 2,
            OutputRates::Hz7_5 => 3,
            OutputRates::Hz15_0 => 4,
            OutputRates::Hz30_0 => 5,
            OutputRates::Hz75_0 => 6,
        }
    }

    fn from_bits(code: u8) -> (member: Option<Self>) {
        match code {
            0 => Some(OutputRates::Hz0_75),
            1 => Some(OutputRates::Hz1_5),
            2 => Some(OutputRates::Hz3_0),
            3 => Some(OutputRates::Hz7_5),
            4 => Some(OutputRates::Hz15_0),
            5 => Some(OutputRates::Hz30_0),
            6 => Some(OutputRates::Hz75_0),
            _ => None,
        }
    }
}

/// The measurement mode field: bits 1 and 0 of configuration register A.
/// The code 3 is reserved.
impl Setting for MeasurementModes {
    open spec fn home() -> Registers {
        Registers::ConA
    }

    open spec fn field_mask() -> u8 {
        0x03
    }

    open spec fn field_shift() -> u8 {
        0
    }

    open spec fn code(self) -> u8 {
        match self {
            MeasurementModes::Normal => 0,
            MeasurementModes::PositiveBias => 1,
            MeasurementModes::NegativeBias => 2,
        }
    }

    open spec fn from_code(code: u8) -> Option<Self> {
        if code == 0 {
            Some(MeasurementModes::Normal)
        } else if code == 1 {
            Some(MeasurementModes::PositiveBias)
        } else if code == 2 {
            Some(MeasurementModes::NegativeBias)
        } else {
            None
        }
    }

    proof fn lemma_field() {
        assert(crate::codec::is_field(0x03, 0)) by (bit_vector);
    }

    proof fn lemma_code_decodes(self) {
        assert(0x03u8 >> 0u8 == 3) by (bit_vector);
    }

    proof fn lemma_decoded_has_code(code: u8) {
    }

    fn register() -> (register: Registers) {
        Registers::ConA
    }

    fn mask() -> (mask: u8) {
        0x03
    }

    fn shift() -> (shift: u8) {
        0
    }

    fn bits(self) -> (code: u8) {
        match self {
            MeasurementModes::Normal => 0,
            MeasurementModes::PositiveBias => 1,
            MeasurementModes::NegativeBias => 2,
        }
    }

    fn from_bits(code: u8) -> (member: Option<Self>) {
        match code {
            0 => Some(MeasurementModes::Normal),
            1 => Some(MeasurementModes::PositiveBias),
            2 => Some(MeasurementModes::NegativeBias),
            _ => None,
        }
    }
}

/// The gain field: bits 7 to 5 of configuration register B. Every code
/// stands for a member.
impl Setting for Gain {
    open spec fn home() -> Registers {
        Registers::ConB
    }

    open spec fn field_mask() -> u8 {
        0xe0
    }

    open spec fn field_shift() -> u8 {
        5
    }

    open spec fn code(self) -> u8 {
        match self {
            Gain::_1370 => 0,
            Gain::_1090 => 1,
            Gain::_820 => 2,
            Gain::_660 => 3,
            Gain::_440 => 4,
            Gain::_390 => 5,
            Gain::_330 => 6,
            Gain::_220 => 7,
        }
    }

    open spec fn from_code(code: u8) -> Option<Self> {
        if code == 0 {
            Some(Gain::_1370)
        } else if code == 1 {
            Some(Gain::_1090)
        } else if code == 2 {
            Some(Gain::_820)
        } else if code == 3 {
            Some(Gain::_660)
        } else if code == 4 {
            Some(Gain::_440)
        } else if code == 5 {
            Some(Gain::_390)
        } else if code == 6 {
            Some(Gain::_330)
        } else if code == 7 {
            Some(Gain::_220)
        } else {
            None
        }
    }

    proof fn lemma_field() {
        assert(crate::codec::is_field(0xe0, 5)) by (bit_vector);
    }

    proof fn lemma_code_decodes(self) {
        assert(0xe0u8 >> 5u8 == 7) by (bit_vector);
    }

    proof fn lemma_decoded_has_code(code: u8) {
    }

    fn register() -> (register: Registers) {
        Registers::ConB
    }

    fn mask() -> (mask: u8) {
        0xe0
    }

    fn shift() -> (shift: u8) {
        5
    }

    fn bits(self) -> (code: u8) {
        match self {
            Gain::_1370 => 0,
            Gain::_1090 => 1,
            Gain::_820 => 2,
            Gain::_660 => 3,
            Gain::_440 => 4,
            Gain::_390 => 5,
            Gain::_330 => 6,
            Gain::_220 => 7,
        }
    }

    fn from_bits(code: u8) -> (member: Option<Self>) {
        match code {
            0 => Some(Gain::_1370),
            1 => Some(Gain::_1090),
            2 => Some(Gain::_820),
            3 => Some(Gain::_660),
            4 => Some(Gain::_440),
            5 => Some(Gain::_390),
            6 => Some(Gain::_330),
            7 => Some(Gain::_220),
            _ => None,
        }
    }
}

/// Every byte of configuration register B holds a gain: the field has no
/// reserved code.
pub proof fn lemma_gain_always_decodes(byte: u8)
    ensures
        spec_unpack::<Gain>(byte) is Ok,
{
    assert(spec_extract(byte, 0xe0, 5) <= 7) by (bit_vector);
}

/// Every byte of configuration register A holds a number of averaged
/// samples: the field has no reserved code.
pub proof fn lemma_averaging_always_decodes(byte: u8)
    ensures
        spec_unpack::<AveragedSamples>(byte) is Ok,
{
    assert(spec_extract(byte, 0x60, 5) <= 3) by (bit_vector);
}

/// The fields with a reserved code: unpacking fails exactly on the bytes
/// that hold it, and the error names the field and the code.
pub proof fn lemma_reserved_codes(byte: u8)
    ensures
        spec_unpack::<OutputRates>(byte) is Err <==> byte & 0x1c == 0x1c,
        spec_unpack::<OutputRates>(byte) is Err ==> spec_unpack::<OutputRates>(byte)
            == Err::<OutputRates, DecodeError>(DecodeError { field_mask: 0x1c, code: 7 }),
        spec_unpack::<MeasurementModes>(byte) is Err <==> byte & 0x03 == 0x03,
        spec_unpack::<MeasurementModes>(byte) is Err ==> spec_unpack::<MeasurementModes>(byte)
            == Err::<MeasurementModes, DecodeError>(DecodeError { field_mask: 0x03, code: 3 }),
        spec_unpack::<OperationModes>(byte) is Err <==> byte & 0x03 == 0x03,
        spec_unpack::<OperationModes>(byte) is Err ==> spec_unpack::<OperationModes>(byte)
            == Err::<OperationModes, DecodeError>(DecodeError { field_mask: 0x03, code: 3 }),
{
    assert(spec_extract(byte, 0x1c, 2) <= 7 && (spec_extract(byte, 0x1c, 2) == 7 <==> byte & 0x1c
        == 0x1c)) by (bit_vector);
    assert(spec_extract(byte, 0x03, 0) <= 3 && (spec_extract(byte, 0x03, 0) == 3 <==> byte & 0x03
        == 0x03)) by (bit_vector);
}

/// The three settings of configuration register A lie apart: to pack a
/// member of one of them changes neither of the other two.
pub proof fn lemma_settings_of_configuration_a_stay_apart(
    current: u8,
    amt: AveragedSamples,
    rate: OutputRates,
    mode: MeasurementModes,
)
    ensures
        spec_unpack::<OutputRates>(spec_pack_setting(current, amt)) == spec_unpack::<OutputRates>(
            current,
        ),
        spec_unpack::<MeasurementModes>(spec_pack_setting(current, amt)) == spec_unpack::<
            MeasurementModes,
        >(current),
        spec_unpack::<AveragedSamples>(spec_pack_setting(current, rate)) == spec_unpack::<
            AveragedSamples,
        >(current),
        spec_unpack::<MeasurementModes>(spec_pack_setting(current, rate)) == spec_unpack::<
            MeasurementModes,
        >(current),
        spec_unpack::<AveragedSamples>(spec_pack_setting(current, mode)) == spec_unpack::<
            AveragedSamples,
        >(current),
        spec_unpack::<OutputRates>(spec_pack_setting(current, mode)) == spec_unpack::<OutputRates>(
            current,
        ),
{
    assert(0x60u8 & 0x1cu8 == 0 && 0x60u8 & 0x03u8 == 0 && 0x1cu8 & 0x03u8 == 0
        && 0x1cu8 & 0x60u8 == 0 && 0x03u8 & 0x60u8 == 0 && 0x03u8 & 0x1cu8 == 0) by (bit_vector);
    crate::codec::lemma_other_setting_stays::<AveragedSamples, OutputRates>(current, amt);
    crate::codec::lemma_other_setting_stays::<AveragedSamples, MeasurementModes>(current, amt);
    crate::codec::lemma_other_setting_stays::<OutputRates, AveragedSamples>(current, rate);
    crate::codec::lemma_other_setting_stays::<OutputRates, MeasurementModes>(current, rate);
    crate::codec::lemma_other_setting_stays::<MeasurementModes, AveragedSamples>(current, mode);
    crate::codec::lemma_other_setting_stays::<MeasurementModes, OutputRates>(current, mode);
}

/// In the mode register the operating mode and the high-speed flag lie
/// apart: to pack the one does not change the other.
pub proof fn lemma_mode_and_high_speed_stay_apart(current: u8, mode: OperationModes, is_hs: bool)
    ensures
        spec_flag(spec_pack_setting(current, mode), MODE_HS) == spec_flag(current, MODE_HS),
        spec_unpack::<OperationModes>(spec_pack(current, MODE_HS, spec_flag_bits(MODE_HS, is_hs)))
            == spec_unpack::<OperationModes>(current),
{
    assert(0x80u8 & 0x03u8 == 0) by (bit_vector);
    OperationModes::lemma_field();
    mode.lemma_code_decodes();
    crate::codec::lemma_shifted_code_stays_in_field(mode.code(), 0x03, 0);
    crate::codec::lemma_flag_and_field_stay_apart(
        current,
        MODE_HS,
        is_hs,
        0x03,
        0,
        mode.code() << 0u8,
    );
}

} // verus!
