//! Differential-drive encoder: turns a two-axis stick reading into the one
//! wire byte the vehicle firmware decodes.
//!
//! The wire byte packs two 3-bit motor-speed codes: high 3 bits for the left
//! motor, low 3 bits for the right one, top two bits always zero. The analog
//! encoder mixes the lateral axis `x` (turn) with the longitudinal axis `y`
//! (throttle), rescales the mix so that neither side saturates, and
//! quantizes each side independently into one of 8 speed codes. The bucket
//! boundaries are a hard wire contract with the receiving firmware.

use vstd::arithmetic::div_mod::{
    lemma_div_is_ordered, lemma_div_multiples_vanish, lemma_div_of0, lemma_multiply_divide_le,
};
use vstd::arithmetic::mul::lemma_mul_inequality;
use vstd::prelude::*;

verus! {

pub const INPUT_DEADZONE_MIN: i8 = -63;
pub const INPUT_DEADZONE_MAX: i8 = 63;
pub const INPUT_ACTIVE_POS_MIN: i8 = 64;
pub const INPUT_ACTIVE_POS_MAX: i8 = 127;
pub const INPUT_ACTIVE_NEG_MIN: i8 = -128;
pub const INPUT_ACTIVE_NEG_MAX: i8 = -64;

/// One motor's speed code: stop, four forward levels, three reverse levels.
/// Exactly 3 bits of information on the wire.
#[derive(Debug, Clone, Copy, PartialEq, Eq, Structural)]
pub enum ThreeBitAnalogMotor {
    S0,
    S25,
    S50,
    S75,
    S100,
    R33,
    R66,
    R100,
}

/// The 3-bit wire encoding of a motor code.
pub open spec fn motor_bits(m: ThreeBitAnalogMotor) -> u8 {
    match m {
        ThreeBitAnalogMotor::S0 => 0,
        ThreeBitAnalogMotor::S25 => 1,
        ThreeBitAnalogMotor::S50 => 2,
        ThreeBitAnalogMotor::S75 => 3,
        ThreeBitAnalogMotor::S100 => 4,
        ThreeBitAnalogMotor::R33 => 5,
        ThreeBitAnalogMotor::R66 => 6,
        ThreeBitAnalogMotor::R100 => 7,
    }
}

/// The quantization buckets, fixed for wire compatibility: forward speeds
/// take four levels over `1..=127`, reverse speeds three levels over
/// `-128..=-1`.
pub open spec fn motor_level_spec(speed: int) -> ThreeBitAnalogMotor
    recommends
        -128 <= speed <= 127,
{
    if speed == 0 {
        ThreeBitAnalogMotor::S0
    } else if 1 <= speed <= 32 {
        ThreeBitAnalogMotor::S25
    } else if 33 <= speed <= 64 {
        ThreeBitAnalogMotor::S50
    } else if 65 <= speed <= 97 {
        ThreeBitAnalogMotor::S75
    } else if 98 <= speed {
        ThreeBitAnalogMotor::S100
    } else if -43 <= speed <= -1 {
        ThreeBitAnalogMotor::R33
    } else if -86 <= speed <= -44 {
        ThreeBitAnalogMotor::R66
    } else {
        ThreeBitAnalogMotor::R100
    }
}

impl ThreeBitAnalogMotor {
    /// Quantizes a signed speed into its bucket.
    pub fn from_speed(speed: i8) -> (m: Self)
        ensures
            m == motor_level_spec(speed as int),
    {
        if speed == 0 {
            Self::S0
        } else if 1 <= speed && speed <= 32 {
            Self::S25
        } else if 33 <= speed && speed <= 64 {
            Self::S50
        } else if 65 <= speed && speed <= 97 {
            Self::S75
        } else if 98 <= speed {
            Self::S100
        } else if -43 <= speed && speed <= -1 {
            Self::R33
        } else if -86 <= speed && speed <= -44 {
            Self::R66
        } else {
            Self::R100
        }
    }

    /// The 3-bit wire encoding of this code.
    pub fn bits(self) -> (b: u8)
        ensures
            b == motor_bits(self),
            b <= 7,
    {
        match self {
            Self::S0 => 0,
            Self::S25 => 1,
            Self::S50 => 2,
            Self::S75 => 3,
            Self::S100 => 4,
            Self::R33 => 5,
            Self::R66 => 6,
            Self::R100 => 7,
        }
    }
}

pub open spec fn abs_val(v: int) -> int {
    if v < 0 {
        -v
    } else {
        v
    }
}

pub open spec fn min_val(a: int, b: int) -> int {
    if a < b {
        a
    } else {
        b
    }
}

/// One mixed axis after rescaling: the exact value of `raw * m / s`
/// truncated toward zero, where `m` is the smaller and `s` the sum of the
/// two axis magnitudes.
pub open spec fn scaled_component(raw: int, m: int, s: int) -> int
    recommends
        0 < s,
{
    if raw >= 0 {
        (raw * m) / s
    } else {
        -(((-raw) * m) / s)
    }
}

/// A full drive command: independent speed codes for the two sides.
#[derive(Debug, Clone, Copy, PartialEq, Eq, Structural)]
pub struct SixBitAnalogFullDrive {
    pub left: ThreeBitAnalogMotor,
    pub right: ThreeBitAnalogMotor,
}

/// The analog mix. `left = y - x` and `right = y + x` are rescaled by
/// `m / s` (smaller axis magnitude over the sum of both), which keeps both
/// sides inside the quantizer's range while preserving their ratio. When
/// the smaller magnitude is zero — either axis at rest — both sides
/// collapse to stop; pure turn deliberately encodes as stop.
pub open spec fn drive_spec(x: int, y: int) -> SixBitAnalogFullDrive
    recommends
        -128 <= x <= 127,
        -128 <= y <= 127,
{
    let m = min_val(abs_val(x), abs_val(y));
    if m == 0 {
        SixBitAnalogFullDrive { left: ThreeBitAnalogMotor::S0, right: ThreeBitAnalogMotor::S0 }
    } else {
        let s = abs_val(x) + abs_val(y);
        SixBitAnalogFullDrive {
            left: motor_level_spec(scaled_component(y - x, m, s)),
            right: motor_level_spec(scaled_component(y + x, m, s)),
        }
    }
}

/// The packed wire byte of a drive command: left code in the high 3 bits of
/// the low 6, right code in the low 3, top two bits zero.
pub open spec fn pack_spec(d: SixBitAnalogFullDrive) -> u8 {
    (motor_bits(d.left) * 8 + motor_bits(d.right)) as u8
}

/// The whole analog encoding, stick reading to wire byte.
pub open spec fn encode_spec(x: int, y: int) -> u8
    recommends
        -128 <= x <= 127,
        -128 <= y <= 127,
{
    pack_spec(drive_spec(x, y))
}

/// Rescales one mixed axis and quantizes it.
fn scaled_level(raw: i32, m: u32, s: u32) -> (t: ThreeBitAnalogMotor)
    requires
        -256 <= raw <= 255,
        1 <= m <= 128,
        m <= s <= 256,
        abs_val(raw as int) <= s,
        raw > 0 ==> m <= 127,
    ensures
        t == motor_level_spec(scaled_component(raw as int, m as int, s as int)),
{
    let mag: u32 = if raw < 0 {
        (-raw) as u32
    } else {
        raw as u32
    };
    proof {
        assert(mag * m <= 32768) by (nonlinear_arith)
            requires
                mag <= 256u32 && m <= 128u32,
        ;
    }
    let q: u32 = (mag * m) / s;
    proof {
        lemma_mul_inequality(mag as int, s as int, m as int);
        lemma_multiply_divide_le((mag * m) as int, s as int, m as int);
        if raw >= 0 {
            lemma_div_is_ordered(0, (mag * m) as int, s as int);
        }
    }
    let v: i8 = if raw < 0 {
        (-(q as i32)) as i8
    } else {
        q as i8
    };
    ThreeBitAnalogMotor::from_speed(v)
}

impl SixBitAnalogFullDrive {
    /// Mixes and rescales a stick reading into per-side speed codes.
    pub fn from_stick(x: i8, y: i8) -> (d: Self)
        ensures
            d == drive_spec(x as int, y as int),
    {
        let xi: i32 = x as i32;
        let yi: i32 = y as i32;
        let ax: u32 = if xi < 0 {
            (-xi) as u32
        } else {
            xi as u32
        };
        let ay: u32 = if yi < 0 {
            (-yi) as u32
        } else {
            yi as u32
        };
        let m: u32 = if ax < ay {
            ax
        } else {
            ay
        };
        if m == 0 {
            return SixBitAnalogFullDrive {
                left: ThreeBitAnalogMotor::S0,
                right: ThreeBitAnalogMotor::S0,
            };
        }
        let s: u32 = ax + ay;
        let left = scaled_level(yi - xi, m, s);
        let right = scaled_level(yi + xi, m, s);
        SixBitAnalogFullDrive { left, right }
    }

    /// Packs the two codes into the wire byte.
    pub fn message(self) -> (r: u8)
        ensures
            r == pack_spec(self),
            r <= 63,
    {
        let l = self.left.bits();
        let r = self.right.bits();
        let b = (l << 3u32) | r;
        proof {
            assert((l << 3u32) | r == l * 8 + r) by (bit_vector)
                requires
                    l <= 7 && r <= 7,
            ;
        }
        b
    }
}

/// Encodes a stick reading as the analog wire byte. Total: every reading
/// in range yields a byte in `0..=63`.
pub fn input_to_message_analog(x: i8, y: i8) -> (r: u8)
    ensures
        r == encode_spec(x as int, y as int),
        r <= 63,
{
    let six_bit_analog = SixBitAnalogFullDrive::from_stick(x, y);
    six_bit_analog.message()
}

/// The quantizer's bucket table, written out: each of the 8 codes covers
/// exactly its documented range, so sweeping a speed across the
/// boundaries walks the codes in order, skipping and repeating none.
pub proof fn lemma_motor_level_buckets(speed: int)
    requires
        -128 <= speed <= 127,
    ensures
        (speed == 0) == (motor_level_spec(speed) == ThreeBitAnalogMotor::S0),
        (1 <= speed <= 32) == (motor_level_spec(speed) == ThreeBitAnalogMotor::S25),
        (33 <= speed <= 64) == (motor_level_spec(speed) == ThreeBitAnalogMotor::S50),
        (65 <= speed <= 97) == (motor_level_spec(speed) == ThreeBitAnalogMotor::S75),
        (98 <= speed <= 127) == (motor_level_spec(speed) == ThreeBitAnalogMotor::S100),
        (-43 <= speed <= -1) == (motor_level_spec(speed) == ThreeBitAnalogMotor::R33),
        (-86 <= speed <= -44) == (motor_level_spec(speed) == ThreeBitAnalogMotor::R66),
        (-128 <= speed <= -87) == (motor_level_spec(speed) == ThreeBitAnalogMotor::R100),
{
}

/// The zero-axis collapse rule: whenever either axis is at rest, the
/// smaller axis magnitude is zero and the whole reading encodes as stop.
/// In particular a pure turn — full lateral deflection with zero
/// throttle — deliberately encodes as stop.
pub proof fn lemma_zero_axis_collapse(x: int, y: int)
    requires
        -128 <= x <= 127,
        -128 <= y <= 127,
        x == 0 || y == 0,
    ensures
        encode_spec(x, y) == 0,
{
}

/// On a symmetric deflection of both axes the rescaling is exact: the
/// left side mixes to zero and the right side quantizes the raw axis
/// value itself, so sweeping the axis drives the right code through
/// every bucket boundary in order.
pub proof fn lemma_symmetric_deflection(y: int)
    requires
        -128 <= y <= 127,
    ensures
        drive_spec(y, y).left == ThreeBitAnalogMotor::S0,
        drive_spec(y, y).right == motor_level_spec(y),
{
    if y > 0 {
        lemma_div_of0(2 * y);
        lemma_div_multiples_vanish(y, 2 * y);
    } else if y < 0 {
        lemma_div_of0(-2 * y);
        lemma_div_multiples_vanish(-y, -2 * y);
    }
}

/// The digital five-direction encoding: both axes inside the deadzone mean
/// stop; a strong longitudinal deflection wins over a lateral one.
pub open spec fn digital_spec(x: int, y: int) -> u8
    recommends
        -128 <= x <= 127,
        -128 <= y <= 127,
{
    if INPUT_DEADZONE_MIN <= x <= INPUT_DEADZONE_MAX && INPUT_DEADZONE_MIN <= y
        <= INPUT_DEADZONE_MAX {
        115  // b's'
    } else if INPUT_ACTIVE_POS_MIN <= y <= INPUT_ACTIVE_POS_MAX {
        98  // b'b'
    } else if INPUT_ACTIVE_NEG_MIN <= y <= INPUT_ACTIVE_NEG_MAX {
        102  // b'f'
    } else if INPUT_ACTIVE_NEG_MIN <= x <= INPUT_ACTIVE_NEG_MAX {
        108  // b'l'
    } else {
        114  // b'r'
    }
}

/// Encodes a stick reading as one of the five digital direction bytes.
pub fn input_to_message_digital(x: i8, y: i8) -> (r: u8)
    ensures
        r == digital_spec(x as int, y as int),
{
    if INPUT_DEADZONE_MIN <= x && x <= INPUT_DEADZONE_MAX && INPUT_DEADZONE_MIN <= y && y
        <= INPUT_DEADZONE_MAX {
        115
    } else if INPUT_ACTIVE_POS_MIN <= y && y <= INPUT_ACTIVE_POS_MAX {
        98
    } else if INPUT_ACTIVE_NEG_MIN <= y && y <= INPUT_ACTIVE_NEG_MAX {
        102
    } else if INPUT_ACTIVE_NEG_MIN <= x && x <= INPUT_ACTIVE_NEG_MAX {
        108
    } else {
        114
    }
}

} // verus!

