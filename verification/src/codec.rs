//! Packing a field into a configuration byte and taking it out again.
//!
//! A field is a run of neighbouring bits of a register. It is given by its
//! mask, which has exactly the field's bits set, and by its shift, the
//! position of its lowest bit. A code is the number that the field holds.
//!
//! A setting is a small closed set of members, each with a code of its own
//! in one field of one register.

use vstd::prelude::*;
use crate::registers::Registers;

verus! {

/// A mask and a shift describe a field: the mask is a run of set bits that
/// starts at the shift.
pub open spec fn is_field(field_mask: u8, shift: u8) -> bool {
    &&& shift < 8
    &&& field_mask != 0
    &&& ((field_mask >> shift) << shift) == field_mask
    &&& (field_mask >> shift) & ((field_mask >> shift) + 1) as u8 == 0
}

/// The code fits into the field.
pub open spec fn fits(code: u8, field_mask: u8, shift: u8) -> bool {
    code <= field_mask >> shift
}

/// The byte with the bits under `field_mask` replaced by `value_bits`, which
/// are already in position.
pub open spec fn spec_pack(current: u8, field_mask: u8, value_bits: u8) -> u8 {
    (current & !field_mask) | value_bits
}

/// The code that the byte holds in the field.
pub open spec fn spec_extract(byte: u8, field_mask: u8, shift: u8) -> u8 {
    (byte & field_mask) >> shift
}

/// Whether the byte has a bit of `bit_mask` set.
pub open spec fn spec_flag(byte: u8, bit_mask: u8) -> bool {
    byte & bit_mask != 0
}

/// Tests the bits of `bit_mask` in a byte: whether any of them is set.
pub fn flag(byte: u8, bit_mask: u8) -> (set: bool)
    ensures
        set == spec_flag(byte, bit_mask),
{
    byte & bit_mask != 0
}

/// The bits that switch the flag under `bit_mask` on or off, for packing.
pub open spec fn spec_flag_bits(bit_mask: u8, on: bool) -> u8 {
    if on {
        bit_mask
    } else {
        0
    }
}

/// The bits that switch the flag under `bit_mask` on or off, for packing.
pub fn flag_bits(bit_mask: u8, on: bool) -> (bits: u8)
    ensures
        bits == spec_flag_bits(bit_mask, on),
        bits & !bit_mask == 0,
{
    proof {
        assert(bit_mask & !bit_mask == 0 && 0u8 & !bit_mask == 0) by (bit_vector);
    }
    if on {
        bit_mask
    } else {
        0
    }
}

/// Clears the bits under `field_mask` in `current` and sets those of
/// `value_bits`, which are already shifted into position. Where the value
/// has no bit outside the field, every bit outside the field stays as it
/// was.
pub fn pack(current: u8, field_mask: u8, value_bits: u8) -> (new: u8)
    ensures
        new == spec_pack(current, field_mask, value_bits),
        value_bits & !field_mask == 0 ==> new & !field_mask == current & !field_mask && new
            & field_mask == value_bits,
{
    proof {
        if value_bits & !field_mask == 0 {
            lemma_pack_keeps_other_bits(current, field_mask, value_bits);
        }
    }
    (current & !field_mask) | value_bits
}

/// Takes the code of a field out of a byte.
pub fn extract(byte: u8, field_mask: u8, shift: u8) -> (code: u8)
    requires
        shift < 8,
    ensures
        code == spec_extract(byte, field_mask, shift),
{
    (byte & field_mask) >> shift
}

/// Packing leaves every bit outside the field as it was, and puts exactly
/// the value's bits inside it, provided that the value has no bit outside
/// the field.
pub proof fn lemma_pack_keeps_other_bits(current: u8, field_mask: u8, value_bits: u8)
    requires
        value_bits & !field_mask == 0,
    ensures
        spec_pack(current, field_mask, value_bits) & !field_mask == current & !field_mask,
        spec_pack(current, field_mask, value_bits) & field_mask == value_bits,
{
    assert(((current & !field_mask) | value_bits) & !field_mask == current & !field_mask
        && ((current & !field_mask) | value_bits) & field_mask == value_bits) by (bit_vector)
        requires
            value_bits & !field_mask == 0,
    ;
}

/// A flag that was packed over any byte reads back as it was packed, and
/// packing it changed no other bit.
pub proof fn lemma_flag_of_pack(current: u8, bit_mask: u8, on: bool)
    requires
        bit_mask != 0,
    ensures
        spec_flag(spec_pack(current, bit_mask, spec_flag_bits(bit_mask, on)), bit_mask) == on,
        spec_pack(current, bit_mask, spec_flag_bits(bit_mask, on)) & !bit_mask == current
            & !bit_mask,
{
    let bits = spec_flag_bits(bit_mask, on);
    assert(bits & !bit_mask == 0) by (bit_vector)
        requires
            bits == bit_mask || bits == 0,
    ;
    lemma_pack_keeps_other_bits(current, bit_mask, bits);
    assert(spec_pack(current, bit_mask, bits) & bit_mask == bits);
}

/// A flag and a field that have no bit in common do not disturb each
/// other: packing the one leaves the other as it was.
pub proof fn lemma_flag_and_field_stay_apart(
    current: u8,
    bit_mask: u8,
    on: bool,
    field_mask: u8,
    shift: u8,
    value_bits: u8,
)
    requires
        bit_mask & field_mask == 0,
        value_bits & !field_mask == 0,
    ensures
        spec_extract(spec_pack(current, bit_mask, spec_flag_bits(bit_mask, on)), field_mask, shift)
            == spec_extract(current, field_mask, shift),
        spec_flag(spec_pack(current, field_mask, value_bits), bit_mask) == spec_flag(
            current,
            bit_mask,
        ),
{
    let bits = spec_flag_bits(bit_mask, on);
    assert((((current & !bit_mask) | bits) & field_mask) == current & field_mask) by (bit_vector)
        requires
            bits == bit_mask || bits == 0,
            bit_mask & field_mask == 0,
    ;
    assert((((current & !field_mask) | value_bits) & bit_mask) == current & bit_mask)
        by (bit_vector)
        requires
            value_bits & !field_mask == 0,
            bit_mask & field_mask == 0,
    ;
}

/// A code that fits into a field has, once shifted into position, no bit
/// outside the field.
pub proof fn lemma_shifted_code_stays_in_field(code: u8, field_mask: u8, shift: u8)
    requires
        is_field(field_mask, shift),
        fits(code, field_mask, shift),
    ensures
        (code << shift) & !field_mask == 0,
        (code << shift) >> shift == code,
{
    assert((code << shift) & !field_mask == 0 && (code << shift) >> shift == code) by (bit_vector)
        requires
            shift < 8,
            ((field_mask >> shift) << shift) == field_mask,
            (field_mask >> shift) & ((field_mask >> shift) + 1) as u8 == 0,
            code <= field_mask >> shift,
    ;
}

/// What was packed into a field is what comes out of it, whatever the other
/// bits of the byte are.
pub proof fn lemma_extract_of_pack(current: u8, field_mask: u8, shift: u8, code: u8)
    requires
        is_field(field_mask, shift),
        fits(code, field_mask, shift),
    ensures
        spec_extract(spec_pack(current, field_mask, code << shift), field_mask, shift) == code,
        spec_pack(current, field_mask, code << shift) & !field_mask == current & !field_mask,
{
    lemma_shifted_code_stays_in_field(code, field_mask, shift);
    lemma_pack_keeps_other_bits(current, field_mask, code << shift);
}

/// A register held, in the field under `field_mask`, a code that stands for
/// no member of the setting.
#[derive(Clone, Copy, Debug, PartialEq, Eq, Structural)]
pub struct DecodeError {
    pub field_mask: u8,
    pub code: u8,
}

/// A setting: its members, the field that holds it, and the code of each
/// member. The proof functions are what an implementation owes: the field
/// is a field, every member's code fits into it, and codes and members
/// correspond one to one.
pub trait Setting: Sized {
    /// The register that holds the setting.
    spec fn home() -> Registers;

    /// The mask of the setting's field.
    spec fn field_mask() -> u8;

    /// The position of the lowest bit of the setting's field.
    spec fn field_shift() -> u8;

    /// The code of a member.
    spec fn code(self) -> u8;

    /// The member that a code stands for, if there is one.
    spec fn from_code(code: u8) -> Option<Self>;

    proof fn lemma_field()
        ensures
            is_field(Self::field_mask(), Self::field_shift()),
    ;

    proof fn lemma_code_decodes(self)
        ensures
            fits(self.code(), Self::field_mask(), Self::field_shift()),
            Self::from_code(self.code()) == Some(self),
    ;

    proof fn lemma_decoded_has_code(code: u8)
        ensures
            Self::from_code(code) matches Some(member) ==> member.code() == code,
    ;

    fn register() -> (register: Registers)
        ensures
            register == Self::home(),
    ;

    fn mask() -> (mask: u8)
        ensures
            mask == Self::field_mask(),
    ;

    fn shift() -> (shift: u8)
        ensures
            shift == Self::field_shift(),
    ;

    fn bits(self) -> (code: u8)
        ensures
            code == self.code(),
    ;

    fn from_bits(code: u8) -> (member: Option<Self>)
        ensures
            member == Self::from_code(code),
    ;
}

/// The byte `current` with the member's code in the setting's field.
pub open spec fn spec_pack_setting<S: Setting>(current: u8, member: S) -> u8 {
    spec_pack(current, S::field_mask(), member.code() << S::field_shift())
}

/// The member that a register byte holds in the setting's field, or the
/// code that stands for none.
pub open spec fn spec_unpack<S: Setting>(byte: u8) -> Result<S, DecodeError> {
    let code = spec_extract(byte, S::field_mask(), S::field_shift());
    match S::from_code(code) {
        Some(member) => Ok(member),
        None => Err(DecodeError { field_mask: S::field_mask(), code }),
    }
}

/// The bits of a member, shifted into the position of its field.
pub fn value_bits<S: Setting>(member: S) -> (bits: u8)
    ensures
        bits == member.code() << S::field_shift(),
        bits & !S::field_mask() == 0,
{
    proof {
        S::lemma_field();
        member.lemma_code_decodes();
        lemma_shifted_code_stays_in_field(member.code(), S::field_mask(), S::field_shift());
    }
    let shift: u8 = S::shift();
    let code: u8 = member.bits();
    code << shift
}

/// Puts a member into its field of a register byte and leaves the other
/// bits of the byte alone. The new byte holds the member.
pub fn pack_setting<S: Setting>(current: u8, member: S) -> (new: u8)
    ensures
        new == spec_pack_setting(current, member),
        new & !S::field_mask() == current & !S::field_mask(),
        spec_unpack::<S>(new) == Ok::<S, DecodeError>(member),
{
    proof {
        lemma_unpack_of_pack(current, member);
    }
    let bits: u8 = value_bits(member);
    pack(current, S::mask(), bits)
}

/// Reads the member that a register byte holds. A code that stands for no
/// member is an error, never some member chosen in its place.
pub fn unpack<S: Setting>(byte: u8) -> (result: Result<S, DecodeError>)
    ensures
        result == spec_unpack::<S>(byte),
{
    proof {
        S::lemma_field();
    }
    let mask: u8 = S::mask();
    let code: u8 = extract(byte, mask, S::shift());
    match S::from_bits(code) {
        Some(member) => Ok(member),
        None => Err(DecodeError { field_mask: mask, code }),
    }
}

/// Round trip: a member that was packed over any byte is the member that
/// unpacking finds there, and packing changed no bit outside the field.
pub proof fn lemma_unpack_of_pack<S: Setting>(current: u8, member: S)
    ensures
        spec_unpack::<S>(spec_pack_setting(current, member)) == Ok::<S, DecodeError>(member),
        spec_pack_setting(current, member) & !S::field_mask() == current & !S::field_mask(),
{
    S::lemma_field();
    member.lemma_code_decodes();
    lemma_extract_of_pack(current, S::field_mask(), S::field_shift(), member.code());
}

/// Settings that share a register do not disturb each other: where the
/// fields of two settings have no bit in common, packing a member of the
/// one leaves what the byte holds of the other.
pub proof fn lemma_other_setting_stays<S: Setting, T: Setting>(current: u8, member: S)
    requires
        S::field_mask() & T::field_mask() == 0,
    ensures
        spec_unpack::<T>(spec_pack_setting(current, member)) == spec_unpack::<T>(current),
{
    lemma_unpack_of_pack(current, member);
    let new = spec_pack_setting(current, member);
    let mask = S::field_mask();
    let other = T::field_mask();
    assert(new & other == current & other) by (bit_vector)
        requires
            new & !mask == current & !mask,
            mask & other == 0,
    ;
}

/// Unpacking succeeds exactly on the codes of members, and then with the
/// member of that code. On every other code it is an error that names the
/// field and the code.
pub proof fn lemma_unpack_fails_on_reserved<S: Setting>(byte: u8)
    ensures
        spec_unpack::<S>(byte) matches Ok(member) ==> member.code() == spec_extract(
            byte,
            S::field_mask(),
            S::field_shift(),
        ),
        (forall|member: S| member.code() != spec_extract(byte, S::field_mask(), S::field_shift()))
            <==> spec_unpack::<S>(byte) == Err::<S, DecodeError>(
            DecodeError {
                field_mask: S::field_mask(),
                code: spec_extract(byte, S::field_mask(), S::field_shift()),
            },
        ),
{
    let code = spec_extract(byte, S::field_mask(), S::field_shift());
    S::lemma_decoded_has_code(code);
    assert forall|member: S| S::from_code(code) is None implies member.code() != code by {
        member.lemma_code_decodes();
    }
}

} // verus!
