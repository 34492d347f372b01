//! Sign-magnitude register fields.
//!
//! Some registers carry a direction bit and an unsigned magnitude instead of a
//! two's complement number. The measured speed uses bit 15 as its direction
//! bit, the measured load uses bit 10.

use vstd::prelude::*;

verus! {

/// Direction bit of the measured speed register.
pub const SPEED_SIGN_MASK: u16 = 0x8000;

/// Magnitude bits of the measured speed register.
pub const SPEED_MAGNITUDE_MASK: u16 = 0x7FFF;

/// Direction bit of the measured load register.
pub const LOAD_SIGN_MASK: u16 = 0x0400;

/// Magnitude bits of the measured load register.
pub const LOAD_MAGNITUDE_MASK: u16 = 0x03FF;

/// All bits of the measured load register that carry information.
pub const LOAD_FIELD_MASK: u16 = 0x07FF;

/// A decoded sign-magnitude field: the direction and the unsigned magnitude.
///
/// The pair is kept as read from the wire, so a negative zero stays
/// distinguishable from a positive one.
#[derive(Clone, Copy, Debug, PartialEq, Eq, Structural)]
pub struct SignMagnitude {
    pub negative: bool,
    pub magnitude: u16,
}

/// The direction bit at `sign_bit` and the bits below it, taken from `raw`.
pub open spec fn split(raw: u16, sign_bit: u16) -> SignMagnitude {
    SignMagnitude {
        negative: (raw >> sign_bit) & 1 == 1,
        magnitude: raw & (((1u16 << sign_bit) - 1) as u16),
    }
}

/// The register value that carries `field` with its direction bit at `sign_bit`.
pub open spec fn join(field: SignMagnitude, sign_bit: u16) -> u16 {
    if field.negative {
        field.magnitude | (1u16 << sign_bit)
    } else {
        field.magnitude
    }
}

/// The measured speed held by a raw register value.
pub open spec fn speed_of(raw: u16) -> SignMagnitude {
    split(raw, 15)
}

/// The measured load held by a raw register value.
pub open spec fn load_of(raw: u16) -> SignMagnitude {
    split(raw, 10)
}

impl SignMagnitude {
    /// The signed number the field stands for.
    pub open spec fn spec_value(self) -> int {
        if self.negative {
            -(self.magnitude as int)
        } else {
            self.magnitude as int
        }
    }

    /// The signed number the field stands for: the magnitude, negated when the
    /// direction bit was set.
    pub fn value(&self) -> (v: i32)
        ensures
            v == self.spec_value(),
    {
        let m: i32 = self.magnitude as i32;
        if self.negative {
            -m
        } else {
            m
        }
    }

    /// `'-'` for a field whose direction bit was set, `'+'` otherwise.
    pub fn sign_symbol(&self) -> (c: char)
        ensures
            c == if self.negative { '-' } else { '+' },
    {
        if self.negative {
            '-'
        } else {
            '+'
        }
    }
}

/// Decodes the measured speed register: direction in bit 15, magnitude in the
/// fifteen bits below.
pub fn decode_speed(raw: u16) -> (field: SignMagnitude)
    ensures
        field == speed_of(raw),
        field.negative == (raw >= 0x8000),
        field.magnitude == raw % 0x8000,
{
    assert(((raw >> 15u16) & 1 == 1) == (raw & 0x8000 != 0)) by (bit_vector);
    assert(raw & (((1u16 << 15u16) - 1) as u16) == raw & 0x7FFF) by (bit_vector);
    assert((raw & 0x8000 != 0) == (raw >= 0x8000)) by (bit_vector);
    assert(raw & 0x7FFF == raw % 0x8000) by (bit_vector);
    SignMagnitude {
        negative: raw & SPEED_SIGN_MASK != 0,
        magnitude: raw & SPEED_MAGNITUDE_MASK,
    }
}

/// Decodes the measured load register: direction in bit 10, magnitude in the
/// ten bits below. Bits above bit 10 carry nothing and are dropped.
pub fn decode_load(raw: u16) -> (field: SignMagnitude)
    ensures
        field == load_of(raw),
        field.negative == ((raw / 0x400) % 2 == 1),
        field.magnitude == raw % 0x400,
{
    assert(((raw >> 10u16) & 1 == 1) == (raw & 0x0400 != 0)) by (bit_vector);
    assert(raw & (((1u16 << 10u16) - 1) as u16) == raw & 0x03FF) by (bit_vector);
    assert((raw & 0x0400 != 0) == ((raw / 0x400) % 2 == 1)) by (bit_vector);
    assert(raw & 0x03FF == raw % 0x400) by (bit_vector);
    SignMagnitude {
        negative: raw & LOAD_SIGN_MASK != 0,
        magnitude: raw & LOAD_MAGNITUDE_MASK,
    }
}

/// Encodes a speed field back into its register value.
pub fn encode_speed(field: SignMagnitude) -> (raw: u16)
    ensures
        raw == join(field, 15),
{
    assert((1u16 << 15u16) == 0x8000u16) by (bit_vector);
    if field.negative {
        field.magnitude | SPEED_SIGN_MASK
    } else {
        field.magnitude
    }
}

/// Encodes a load field back into its register value.
pub fn encode_load(field: SignMagnitude) -> (raw: u16)
    ensures
        raw == join(field, 10),
{
    assert((1u16 << 10u16) == 0x0400u16) by (bit_vector);
    if field.negative {
        field.magnitude | LOAD_SIGN_MASK
    } else {
        field.magnitude
    }
}

/// Decoding a speed register and encoding the resulting pair gives back the
/// register value, for every 16-bit value.
pub proof fn speed_round_trip(raw: u16)
    ensures
        join(speed_of(raw), 15) == raw,
{
    assert(join(split(raw, 15), 15) == raw) by (bit_vector);
}

/// Decoding a load register and encoding the resulting pair gives back the
/// eleven bits of the load field; a value that fits the field comes back
/// unchanged.
pub proof fn load_round_trip(raw: u16)
    ensures
        join(load_of(raw), 10) == raw & LOAD_FIELD_MASK,
        raw < 0x800 ==> join(load_of(raw), 10) == raw,
{
    assert(join(split(raw, 10), 10) == raw & 0x07FF) by (bit_vector);
    assert(raw < 0x800 ==> raw & 0x07FF == raw) by (bit_vector);
}

/// A decoded speed never has a magnitude beyond fifteen bits, a decoded load
/// never one beyond ten bits.
pub proof fn magnitude_bounds(raw: u16)
    ensures
        speed_of(raw).magnitude <= 0x7FFF,
        load_of(raw).magnitude <= 0x3FF,
{
    assert(split(raw, 15).magnitude <= 0x7FFF) by (bit_vector);
    assert(split(raw, 10).magnitude <= 0x3FF) by (bit_vector);
}

} // verus!
