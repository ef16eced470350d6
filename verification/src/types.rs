//! The packed value type and its operations.
use vstd::prelude::*;
use crate::shape::{Family, Shape, is_lane_count};

verus! {

/// The type of an SSA value.
///
/// The void type is only used for instructions that produce no value. It
/// cannot be part of a SIMD vector.
///
/// Integer lanes are 8, 16, 32 or 64 bits wide and sign-agnostic. Floating
/// point lanes are 32 or 64 bits wide. Boolean lanes are 1, 8, 16, 32 or 64
/// bits wide; the larger ones use redundant bits.
///
/// SIMD vector types have a power-of-two number of lanes, up to 256.
///
/// The low four bits of the byte hold the number of the lane type, the high
/// four bits the base-2 logarithm of the lane count.
#[derive(Clone, Copy, PartialEq, Eq, Structural)]
pub struct Type(u8);

const LANE_VOID: u8 = 0x0;
const LANE_B1: u8 = 0x1;
const LANE_B8: u8 = 0x2;
const LANE_B16: u8 = 0x3;
const LANE_B32: u8 = 0x4;
const LANE_B64: u8 = 0x5;
const LANE_I8: u8 = 0x6;
const LANE_I16: u8 = 0x7;
const LANE_I32: u8 = 0x8;
const LANE_I64: u8 = 0x9;
const LANE_F32: u8 = 0xa;
const LANE_F64: u8 = 0xb;

/// The family of the lane type with the given number.
spec fn family_of_lane(lane: int) -> Family {
    if lane == LANE_VOID {
        Family::Void
    } else if lane <= LANE_B64 {
        Family::Bool
    } else if lane <= LANE_I64 {
        Family::Int
    } else {
        Family::Float
    }
}

/// The width in bits of the lane type with the given number.
spec fn width_of_lane(lane: int) -> nat {
    if lane == LANE_VOID {
        0
    } else if lane == LANE_B1 {
        1
    } else if lane == LANE_B8 || lane == LANE_I8 {
        8
    } else if lane == LANE_B16 || lane == LANE_I16 {
        16
    } else if lane == LANE_B32 || lane == LANE_I32 || lane == LANE_F32 {
        32
    } else {
        64
    }
}

/// Two to the power of `log2`, for the exponents that a lane count can have.
spec fn lanes_of_log2(log2: int) -> nat {
    if log2 == 0 {
        1
    } else if log2 == 1 {
        2
    } else if log2 == 2 {
        4
    } else if log2 == 3 {
        8
    } else if log2 == 4 {
        16
    } else if log2 == 5 {
        32
    } else if log2 == 6 {
        64
    } else if log2 == 7 {
        128
    } else {
        256
    }
}

/// The bytes that encode a type: a known lane type, at most 256 lanes, and
/// no vector of void.
spec fn is_code(code: u8) -> bool {
    &&& code % 16 <= LANE_F64
    &&& code / 16 <= 8
    &&& code % 16 == LANE_VOID ==> code / 16 == 0
}

/// The shape that a byte stands for. A byte outside the encoding stands for
/// nothing: it is given a shape without lanes, which is not well-formed.
spec fn decode(code: u8) -> Shape {
    Shape {
        family: family_of_lane(code as int % 16),
        lane_bits: width_of_lane(code as int % 16),
        lanes: if is_code(code) {
            lanes_of_log2(code as int / 16)
        } else {
            0
        },
    }
}

impl View for Type {
    type V = Shape;

    closed spec fn view(&self) -> Shape {
        decode(self.0)
    }
}

/// What an optional type stands for: the shape of the type, if there is one.
pub open spec fn shape_of(t: Option<Type>) -> Option<Shape> {
    match t {
        Some(t) => Some(t@),
        None => None,
    }
}

/// The powers of two that fit in sixteen bits.
spec fn is_power_of_two_u16(n: u16) -> bool {
    n == 0x1 || n == 0x2 || n == 0x4 || n == 0x8 || n == 0x10 || n == 0x20 || n == 0x40 || n == 0x80
        || n == 0x100 || n == 0x200 || n == 0x400 || n == 0x800 || n == 0x1000 || n == 0x2000 || n
        == 0x4000 || n == 0x8000
}

impl Type {
    /// Every value of this type encodes a well-formed shape.
    #[verifier::type_invariant]
    pub open spec fn wf(self) -> bool {
        self@.wf()
    }

    /// Get the lane type of this SIMD vector type.
    ///
    /// A scalar type is the same as a SIMD vector type with one lane, so it
    /// returns itself.
    pub fn lane_type(self) -> (r: Type)
        ensures
            r@ == self@.lane(),
            r.wf(),
    {
        proof {
            use_type_invariant(&self);
            lemma_nibbles(self.0);
        }
        Type(self.0 & 0x0f)
    }

    /// Get log_2 of the number of bits in a lane.
    pub fn log2_lane_bits(self) -> (r: u8)
        ensures
            r == self@.log2_lane_bits(),
    {
        proof {
            use_type_invariant(&self);
            lemma_nibbles(self.0);
        }
        match self.0 & 0x0f {
            LANE_B1 => 0,
            LANE_B8 | LANE_I8 => 3,
            LANE_B16 | LANE_I16 => 4,
            LANE_B32 | LANE_I32 | LANE_F32 => 5,
            LANE_B64 | LANE_I64 | LANE_F64 => 6,
            _ => 0,
        }
    }

    /// Get the number of bits in a lane.
    pub fn lane_bits(self) -> (r: u8)
        ensures
            r == self@.lane_bits,
    {
        proof {
            use_type_invariant(&self);
            lemma_nibbles(self.0);
        }
        match self.0 & 0x0f {
            LANE_B1 => 1,
            LANE_B8 | LANE_I8 => 8,
            LANE_B16 | LANE_I16 => 16,
            LANE_B32 | LANE_I32 | LANE_F32 => 32,
            LANE_B64 | LANE_I64 | LANE_F64 => 64,
            _ => 0,
        }
    }

    /// Get a type with the same number of lanes as this type, but with the
    /// lanes replaced by booleans of the same size.
    ///
    /// Scalar types are treated as vectors with one lane, so they are
    /// converted to the multi-bit boolean types.
    pub fn as_bool_pedantic(self) -> (r: Type)
        ensures
            r@ == self@.as_bool_pedantic(),
            r.wf(),
    {
        // Replace the low 4 bits with the boolean version, preserve the high 4 bits.
        let lane: u8 = match self.0 & 0x0f {
            LANE_B8 | LANE_I8 => LANE_B8,
            LANE_B16 | LANE_I16 => LANE_B16,
            LANE_B32 | LANE_I32 | LANE_F32 => LANE_B32,
            LANE_B64 | LANE_I64 | LANE_F64 => LANE_B64,
            _ => LANE_B1,
        };
        proof {
            use_type_invariant(&self);
            lemma_nibbles(self.0);
            lemma_pack(lane, self.0);
        }
        Type(lane | (self.0 & 0xf0))
    }

    /// Get a type with the same number of lanes as this type, but with the
    /// lanes replaced by booleans of the same size.
    ///
    /// Scalar types are all converted to `b1` which is usually what you want.
    pub fn as_bool(self) -> (r: Type)
        ensures
            r@ == self@.as_bool(),
            r.wf(),
    {
        if self.is_scalar() {
            B1()
        } else {
            self.as_bool_pedantic()
        }
    }

    /// Get a type with the same number of lanes as this type, but with lanes
    /// that are half the number of bits.
    pub fn half_width(self) -> (r: Option<Type>)
        ensures
            shape_of(r) == self@.half_width(),
            r matches Some(t) ==> t.wf(),
    {
        proof {
            use_type_invariant(&self);
            lemma_nibbles(self.0);
        }
        let lane: u8 = match self.0 & 0x0f {
            LANE_I16 => LANE_I8,
            LANE_I32 => LANE_I16,
            LANE_I64 => LANE_I32,
            LANE_F64 => LANE_F32,
            LANE_B16 => LANE_B8,
            LANE_B32 => LANE_B16,
            LANE_B64 => LANE_B32,
            _ => return None,
        };
        proof {
            lemma_pack(lane, self.0);
        }
        Some(Type(lane | (self.0 & 0xf0)))
    }

    /// Get a type with the same number of lanes as this type, but with lanes
    /// that are twice the number of bits.
    pub fn double_width(self) -> (r: Option<Type>)
        ensures
            shape_of(r) == self@.double_width(),
            r matches Some(t) ==> t.wf(),
    {
        proof {
            use_type_invariant(&self);
            lemma_nibbles(self.0);
        }
        let lane: u8 = match self.0 & 0x0f {
            LANE_I8 => LANE_I16,
            LANE_I16 => LANE_I32,
            LANE_I32 => LANE_I64,
            LANE_F32 => LANE_F64,
            LANE_B8 => LANE_B16,
            LANE_B16 => LANE_B32,
            LANE_B32 => LANE_B64,
            _ => return None,
        };
        proof {
            lemma_pack(lane, self.0);
        }
        Some(Type(lane | (self.0 & 0xf0)))
    }

    /// Is this the void type?
    pub fn is_void(self) -> (r: bool)
        ensures
            r == (self@.family == Family::Void && self@.is_scalar()),
            r == (self@ == Shape::void()),
    {
        proof {
            use_type_invariant(&self);
        }
        self.0 == LANE_VOID
    }

    /// Is this a scalar boolean type?
    pub fn is_bool(self) -> (r: bool)
        ensures
            r == (self@.family == Family::Bool && self@.is_scalar()),
    {
        proof {
            use_type_invariant(&self);
        }
        match self.0 {
            LANE_B1 | LANE_B8 | LANE_B16 | LANE_B32 | LANE_B64 => true,
            _ => false,
        }
    }

    /// Is this a scalar integer type?
    pub fn is_int(self) -> (r: bool)
        ensures
            r == (self@.family == Family::Int && self@.is_scalar()),
    {
        proof {
            use_type_invariant(&self);
        }
        match self.0 {
            LANE_I8 | LANE_I16 | LANE_I32 | LANE_I64 => true,
            _ => false,
        }
    }

    /// Is this a scalar floating point type?
    pub fn is_float(self) -> (r: bool)
        ensures
            r == (self@.family == Family::Float && self@.is_scalar()),
    {
        proof {
            use_type_invariant(&self);
        }
        match self.0 {
            LANE_F32 | LANE_F64 => true,
            _ => false,
        }
    }

    /// Get log_2 of the number of lanes in this SIMD vector type.
    ///
    /// All SIMD types have a lane count that is a power of two and no larger
    /// than 256, so this will be a number in the range 0-8.
    ///
    /// A scalar type is the same as a SIMD vector type with one lane, so it
    /// returns 0.
    pub fn log2_lane_count(self) -> (r: u8)
        ensures
            r == self@.log2_lanes(),
            r <= 8,
    {
        proof {
            use_type_invariant(&self);
            lemma_nibbles(self.0);
        }
        self.0 >> 4
    }

    /// Is this a scalar type? (That is, not a SIMD vector type).
    ///
    /// A scalar type is the same as a SIMD vector type with one lane.
    pub fn is_scalar(self) -> (r: bool)
        ensures
            r == self@.is_scalar(),
            r == (self@.lanes == 1),
            r == (self@.log2_lanes() == 0),
    {
        proof {
            use_type_invariant(&self);
        }
        self.log2_lane_count() == 0
    }

    /// Get the number of lanes in this SIMD vector type.
    ///
    /// A scalar type is the same as a SIMD vector type with one lane, so it
    /// returns 1.
    pub fn lane_count(self) -> (r: u16)
        ensures
            r == self@.lanes,
            is_lane_count(r as nat),
    {
        let log2: u8 = self.log2_lane_count();
        proof {
            use_type_invariant(&self);
            lemma_shift_one(log2);
        }
        1u16 << log2
    }

    /// Get the total number of bits used to represent this type.
    pub fn bits(self) -> (r: u16)
        ensures
            r == self@.bits(),
            r == self@.lane_bits * self@.lanes,
    {
        let lane_bits: u8 = self.lane_bits();
        let lane_count: u16 = self.lane_count();
        proof {
            use_type_invariant(&self);
            assert(lane_bits * lane_count <= 64 * 256) by (nonlinear_arith)
                requires
                    lane_bits <= 64,
                    lane_count <= 256,
            ;
        }
        lane_bits as u16 * lane_count
    }

    /// Get a SIMD vector type with `n` times more lanes than this one.
    ///
    /// If this is a scalar type, this produces a SIMD type with this as a
    /// lane type and `n` lanes.
    ///
    /// If this is already a SIMD vector type, this produces a SIMD vector
    /// type with `n * self.lane_count()` lanes.
    ///
    /// There is no such type, and the result is `None`, for the void type,
    /// where `n` is not a power of two, and where the result would have more
    /// than 256 lanes.
    pub fn times(self, n: u16) -> (r: Option<Type>)
        ensures
            shape_of(r) == self@.times(n as nat),
            r matches Some(t) ==> t.wf(),
    {
        proof {
            use_type_invariant(&self);
        }
        if self.lane_bits() == 0 || !is_power_of_two(n) {
            return None;
        }
        let log2_lanes: u32 = n.trailing_zeros();
        proof {
            lemma_trailing_zeros_of_power(n);
            lemma_shift_four(log2_lanes);
        }
        let new_type: u32 = self.0 as u32 + (log2_lanes << 4);
        proof {
            lemma_lanes_multiply(self.0 as int / 16, log2_lanes as int);
        }
        if new_type < 0x90 {
            Some(Type(new_type as u8))
        } else {
            None
        }
    }

    /// Get a SIMD vector with half the number of lanes.
    pub fn half_vector(self) -> (r: Option<Type>)
        ensures
            shape_of(r) == self@.half_vector(),
            r matches Some(t) ==> t.wf(),
    {
        proof {
            use_type_invariant(&self);
        }
        if self.is_scalar() {
            None
        } else {
            Some(Type(self.0 - 0x10))
        }
    }

    /// Index of this type, for use with hash tables etc.
    pub fn index(self) -> (r: usize)
        ensures
            r == self@.code(),
            r < 0x90,
    {
        proof {
            use_type_invariant(&self);
        }
        self.0 as usize
    }
}

impl Default for Type {
    /// The void type.
    fn default() -> (r: Type)
        ensures
            r@ == Shape::void(),
    {
        VOID()
    }
}

/// Whether `n` is a power of two.
fn is_power_of_two(n: u16) -> (r: bool)
    ensures
        r == is_power_of_two_u16(n),
{
    if n == 0 {
        return false;
    }
    let rest: u16 = n & (n - 1);
    assert((rest == 0) == is_power_of_two_u16(n)) by (bit_vector)
        requires
            n != 0,
            rest == n & ((n - 1) as u16),
    ;
    rest == 0
}

/// How the masks and shifts on a code relate to its two halves.
proof fn lemma_nibbles(code: u8)
    by (bit_vector)
    ensures
        code & 0x0f == code % 16,
        code & 0xf0 == (code / 16) * 16,
        code >> 4 == code / 16,
        (code & 0x0f) % 16 == code & 0x0f,
        (code & 0x0f) / 16 == 0,
{
}

/// Putting a lane number below the high half of a code changes the low half
/// only.
proof fn lemma_pack(lane: u8, code: u8)
    by (bit_vector)
    requires
        lane < 16,
    ensures
        (lane | (code & 0xf0)) % 16 == lane,
        (lane | (code & 0xf0)) / 16 == code / 16,
{
}

/// One shifted left by the logarithm of a lane count is that lane count.
proof fn lemma_shift_one(log2: u8)
    by (bit_vector)
    requires
        log2 <= 8,
    ensures
        log2 == 0 ==> 1u16 << log2 == 1,
        log2 == 1 ==> 1u16 << log2 == 2,
        log2 == 2 ==> 1u16 << log2 == 4,
        log2 == 3 ==> 1u16 << log2 == 8,
        log2 == 4 ==> 1u16 << log2 == 16,
        log2 == 5 ==> 1u16 << log2 == 32,
        log2 == 6 ==> 1u16 << log2 == 64,
        log2 == 7 ==> 1u16 << log2 == 128,
        log2 == 8 ==> 1u16 << log2 == 256,
{
}

/// Shifting a small number left by four multiplies it by sixteen.
proof fn lemma_shift_four(log2: u32)
    by (bit_vector)
    requires
        log2 <= 16,
    ensures
        log2 << 4 == log2 * 16,
{
}

/// The number of trailing zeros of a power of two is its logarithm.
proof fn lemma_trailing_zeros_of_power(n: u16)
    requires
        is_power_of_two_u16(n),
    ensures
        n.trailing_zeros() < 16,
        n.trailing_zeros() <= 8 ==> n == lanes_of_log2(n.trailing_zeros() as int),
        n.trailing_zeros() > 8 ==> n > 256,
{
    vstd::std_specs::bits::axiom_u16_trailing_zeros(n);
    let log2: u16 = n.trailing_zeros() as u16;
    assert(log2 == 0 && n == 0x1 || log2 == 1 && n == 0x2 || log2 == 2 && n == 0x4 || log2 == 3
        && n == 0x8 || log2 == 4 && n == 0x10 || log2 == 5 && n == 0x20 || log2 == 6 && n == 0x40
        || log2 == 7 && n == 0x80 || log2 == 8 && n == 0x100 || log2 > 8 && n > 0x100)
        by (bit_vector)
        requires
            is_power_of_two_u16(n),
            log2 < 16,
            (n >> log2) & 1u16 == 1u16,
    ;
}

/// Lane counts multiply as their logarithms add.
proof fn lemma_lanes_multiply(a: int, b: int)
    requires
        0 <= a <= 8,
        0 <= b,
    ensures
        a + b <= 8 ==> lanes_of_log2(a + b) == lanes_of_log2(a) * lanes_of_log2(b),
        a + b > 8 && b <= 8 ==> lanes_of_log2(a) * lanes_of_log2(b) > 256,
{
}

/// Two types of the same shape are the same type: the packed code holds
/// nothing but the shape.
pub proof fn lemma_same_shape_same_type(a: Type, b: Type)
    requires
        a.wf(),
        b.wf(),
        a@ == b@,
    ensures
        a == b,
{
    assert(a.0 as int % 16 == b.0 as int % 16);
    assert(a.0 as int / 16 == b.0 as int / 16);
}

/// Two types with the same index are the same type.
pub proof fn lemma_same_index_same_type(a: Type, b: Type)
    requires
        a.wf(),
        b.wf(),
        a@.code() == b@.code(),
    ensures
        a == b,
{
    assert(a@.code() == a.0);
    assert(b@.code() == b.0);
}

/// Every well-formed shape is the shape of a type.
pub proof fn lemma_shape_has_type(s: Shape)
    requires
        s.wf(),
    ensures
        exists|t: Type| t.wf() && t@ == s,
{
    let t = Type(s.code() as u8);
    assert(t.wf() && t@ == s);
}

/// No type. Used for functions without a return value. Cannot be loaded or
/// stored, and cannot be part of a SIMD vector.
#[allow(non_snake_case)]
pub fn VOID() -> (r: Type)
    ensures
        r@ == Shape::void(),
{
    Type(LANE_VOID)
}

/// A boolean as a single bit.
#[allow(non_snake_case)]
pub fn B1() -> (r: Type)
    ensures
        r@ == Shape::scalar(Family::Bool, 1),
{
    Type(LANE_B1)
}

/// A boolean stored in 8 bits.
#[allow(non_snake_case)]
pub fn B8() -> (r: Type)
    ensures
        r@ == Shape::scalar(Family::Bool, 8),
{
    Type(LANE_B8)
}

/// A boolean stored in 16 bits.
#[allow(non_snake_case)]
pub fn B16() -> (r: Type)
    ensures
        r@ == Shape::scalar(Family::Bool, 16),
{
    Type(LANE_B16)
}

/// A boolean stored in 32 bits.
#[allow(non_snake_case)]
pub fn B32() -> (r: Type)
    ensures
        r@ == Shape::scalar(Family::Bool, 32),
{
    Type(LANE_B32)
}

/// A boolean stored in 64 bits.
#[allow(non_snake_case)]
pub fn B64() -> (r: Type)
    ensures
        r@ == Shape::scalar(Family::Bool, 64),
{
    Type(LANE_B64)
}

/// An integer of 8 bits.
#[allow(non_snake_case)]
pub fn I8() -> (r: Type)
    ensures
        r@ == Shape::scalar(Family::Int, 8),
{
    Type(LANE_I8)
}

/// An integer of 16 bits.
#[allow(non_snake_case)]
pub fn I16() -> (r: Type)
    ensures
        r@ == Shape::scalar(Family::Int, 16),
{
    Type(LANE_I16)
}

/// An integer of 32 bits.
#[allow(non_snake_case)]
pub fn I32() -> (r: Type)
    ensures
        r@ == Shape::scalar(Family::Int, 32),
{
    Type(LANE_I32)
}

/// An integer of 64 bits.
#[allow(non_snake_case)]
pub fn I64() -> (r: Type)
    ensures
        r@ == Shape::scalar(Family::Int, 64),
{
    Type(LANE_I64)
}

/// A floating point number of 32 bits: IEEE single precision.
#[allow(non_snake_case)]
pub fn F32() -> (r: Type)
    ensures
        r@ == Shape::scalar(Family::Float, 32),
{
    Type(LANE_F32)
}

/// A floating point number of 64 bits: IEEE double precision.
#[allow(non_snake_case)]
pub fn F64() -> (r: Type)
    ensures
        r@ == Shape::scalar(Family::Float, 64),
{
    Type(LANE_F64)
}

/// A SIMD vector of 64 bits: 8 lanes of 8-bit booleans.
#[allow(non_snake_case)]
pub fn B8X8() -> (r: Type)
    ensures
        r@ == Shape::vector(Family::Bool, 8, 8),
{
    Type(0x30 + LANE_B8)
}

/// A SIMD vector of 64 bits: 4 lanes of 16-bit booleans.
#[allow(non_snake_case)]
pub fn B16X4() -> (r: Type)
    ensures
        r@ == Shape::vector(Family::Bool, 16, 4),
{
    Type(0x20 + LANE_B16)
}

/// A SIMD vector of 64 bits: 2 lanes of 32-bit booleans.
#[allow(non_snake_case)]
pub fn B32X2() -> (r: Type)
    ensures
        r@ == Shape::vector(Family::Bool, 32, 2),
{
    Type(0x10 + LANE_B32)
}

/// A SIMD vector of 64 bits: 8 lanes of 8-bit integers.
#[allow(non_snake_case)]
pub fn I8X8() -> (r: Type)
    ensures
        r@ == Shape::vector(Family::Int, 8, 8),
{
    Type(0x30 + LANE_I8)
}

/// A SIMD vector of 64 bits: 4 lanes of 16-bit integers.
#[allow(non_snake_case)]
pub fn I16X4() -> (r: Type)
    ensures
        r@ == Shape::vector(Family::Int, 16, 4),
{
    Type(0x20 + LANE_I16)
}

/// A SIMD vector of 64 bits: 2 lanes of 32-bit integers.
#[allow(non_snake_case)]
pub fn I32X2() -> (r: Type)
    ensures
        r@ == Shape::vector(Family::Int, 32, 2),
{
    Type(0x10 + LANE_I32)
}

/// A SIMD vector of 64 bits: 2 lanes of 32-bit floating point numbers.
#[allow(non_snake_case)]
pub fn F32X2() -> (r: Type)
    ensures
        r@ == Shape::vector(Family::Float, 32, 2),
{
    Type(0x10 + LANE_F32)
}

/// A SIMD vector of 128 bits: 16 lanes of 8-bit booleans.
#[allow(non_snake_case)]
pub fn B8X16() -> (r: Type)
    ensures
        r@ == Shape::vector(Family::Bool, 8, 16),
{
    Type(0x40 + LANE_B8)
}

/// A SIMD vector of 128 bits: 8 lanes of 16-bit booleans.
#[allow(non_snake_case)]
pub fn B16X8() -> (r: Type)
    ensures
        r@ == Shape::vector(Family::Bool, 16, 8),
{
    Type(0x30 + LANE_B16)
}

/// A SIMD vector of 128 bits: 4 lanes of 32-bit booleans.
#[allow(non_snake_case)]
pub fn B32X4() -> (r: Type)
    ensures
        r@ == Shape::vector(Family::Bool, 32, 4),
{
    Type(0x20 + LANE_B32)
}

/// A SIMD vector of 128 bits: 2 lanes of 64-bit booleans.
#[allow(non_snake_case)]
pub fn B64X2() -> (r: Type)
    ensures
        r@ == Shape::vector(Family::Bool, 64, 2),
{
    Type(0x10 + LANE_B64)
}

/// A SIMD vector of 128 bits: 16 lanes of 8-bit integers.
#[allow(non_snake_case)]
pub fn I8X16() -> (r: Type)
    ensures
        r@ == Shape::vector(Family::Int, 8, 16),
{
    Type(0x40 + LANE_I8)
}

/// A SIMD vector of 128 bits: 8 lanes of 16-bit integers.
#[allow(non_snake_case)]
pub fn I16X8() -> (r: Type)
    ensures
        r@ == Shape::vector(Family::Int, 16, 8),
{
    Type(0x30 + LANE_I16)
}

/// A SIMD vector of 128 bits: 4 lanes of 32-bit integers.
#[allow(non_snake_case)]
pub fn I32X4() -> (r: Type)
    ensures
        r@ == Shape::vector(Family::Int, 32, 4),
{
    Type(0x20 + LANE_I32)
}

/// A SIMD vector of 128 bits: 2 lanes of 64-bit integers.
#[allow(non_snake_case)]
pub fn I64X2() -> (r: Type)
    ensures
        r@ == Shape::vector(Family::Int, 64, 2),
{
    Type(0x10 + LANE_I64)
}

/// A SIMD vector of 128 bits: 4 lanes of 32-bit floating point numbers.
#[allow(non_snake_case)]
pub fn F32X4() -> (r: Type)
    ensures
        r@ == Shape::vector(Family::Float, 32, 4),
{
    Type(0x20 + LANE_F32)
}

/// A SIMD vector of 128 bits: 2 lanes of 64-bit floating point numbers.
#[allow(non_snake_case)]
pub fn F64X2() -> (r: Type)
    ensures
        r@ == Shape::vector(Family::Float, 64, 2),
{
    Type(0x10 + LANE_F64)
}

/// A SIMD vector of 256 bits: 32 lanes of 8-bit booleans.
#[allow(non_snake_case)]
pub fn B8X32() -> (r: Type)
    ensures
        r@ == Shape::vector(Family::Bool, 8, 32),
{
    Type(0x50 + LANE_B8)
}

/// A SIMD vector of 256 bits: 16 lanes of 16-bit booleans.
#[allow(non_snake_case)]
pub fn B16X16() -> (r: Type)
    ensures
        r@ == Shape::vector(Family::Bool, 16, 16),
{
    Type(0x40 + LANE_B16)
}

/// A SIMD vector of 256 bits: 8 lanes of 32-bit booleans.
#[allow(non_snake_case)]
pub fn B32X8() -> (r: Type)
    ensures
        r@ == Shape::vector(Family::Bool, 32, 8),
{
    Type(0x30 + LANE_B32)
}

/// A SIMD vector of 256 bits: 4 lanes of 64-bit booleans.
#[allow(non_snake_case)]
pub fn B64X4() -> (r: Type)
    ensures
        r@ == Shape::vector(Family::Bool, 64, 4),
{
    Type(0x20 + LANE_B64)
}

/// A SIMD vector of 256 bits: 32 lanes of 8-bit integers.
#[allow(non_snake_case)]
pub fn I8X32() -> (r: Type)
    ensures
        r@ == Shape::vector(Family::Int, 8, 32),
{
    Type(0x50 + LANE_I8)
}

/// A SIMD vector of 256 bits: 16 lanes of 16-bit integers.
#[allow(non_snake_case)]
pub fn I16X16() -> (r: Type)
    ensures
        r@ == Shape::vector(Family::Int, 16, 16),
{
    Type(0x40 + LANE_I16)
}

/// A SIMD vector of 256 bits: 8 lanes of 32-bit integers.
#[allow(non_snake_case)]
pub fn I32X8() -> (r: Type)
    ensures
        r@ == Shape::vector(Family::Int, 32, 8),
{
    Type(0x30 + LANE_I32)
}

/// A SIMD vector of 256 bits: 4 lanes of 64-bit integers.
#[allow(non_snake_case)]
pub fn I64X4() -> (r: Type)
    ensures
        r@ == Shape::vector(Family::Int, 64, 4),
{
    Type(0x20 + LANE_I64)
}

/// A SIMD vector of 256 bits: 8 lanes of 32-bit floating point numbers.
#[allow(non_snake_case)]
pub fn F32X8() -> (r: Type)
    ensures
        r@ == Shape::vector(Family::Float, 32, 8),
{
    Type(0x30 + LANE_F32)
}

/// A SIMD vector of 256 bits: 4 lanes of 64-bit floating point numbers.
#[allow(non_snake_case)]
pub fn F64X4() -> (r: Type)
    ensures
        r@ == Shape::vector(Family::Float, 64, 4),
{
    Type(0x20 + LANE_F64)
}

/// A SIMD vector of 512 bits: 64 lanes of 8-bit booleans.
#[allow(non_snake_case)]
pub fn B8X64() -> (r: Type)
    ensures
        r@ == Shape::vector(Family::Bool, 8, 64),
{
    Type(0x60 + LANE_B8)
}

/// A SIMD vector of 512 bits: 32 lanes of 16-bit booleans.
#[allow(non_snake_case)]
pub fn B16X32() -> (r: Type)
    ensures
        r@ == Shape::vector(Family::Bool, 16, 32),
{
    Type(0x50 + LANE_B16)
}

/// A SIMD vector of 512 bits: 16 lanes of 32-bit booleans.
#[allow(non_snake_case)]
pub fn B32X16() -> (r: Type)
    ensures
        r@ == Shape::vector(Family::Bool, 32, 16),
{
    Type(0x40 + LANE_B32)
}

/// A SIMD vector of 512 bits: 8 lanes of 64-bit booleans.
#[allow(non_snake_case)]
pub fn B64X8() -> (r: Type)
    ensures
        r@ == Shape::vector(Family::Bool, 64, 8),
{
    Type(0x30 + LANE_B64)
}

/// A SIMD vector of 512 bits: 64 lanes of 8-bit integers.
#[allow(non_snake_case)]
pub fn I8X64() -> (r: Type)
    ensures
        r@ == Shape::vector(Family::Int, 8, 64),
{
    Type(0x60 + LANE_I8)
}

/// A SIMD vector of 512 bits: 32 lanes of 16-bit integers.
#[allow(non_snake_case)]
pub fn I16X32() -> (r: Type)
    ensures
        r@ == Shape::vector(Family::Int, 16, 32),
{
    Type(0x50 + LANE_I16)
}

/// A SIMD vector of 512 bits: 16 lanes of 32-bit integers.
#[allow(non_snake_case)]
pub fn I32X16() -> (r: Type)
    ensures
        r@ == Shape::vector(Family::Int, 32, 16),
{
    Type(0x40 + LANE_I32)
}

/// A SIMD vector of 512 bits: 8 lanes of 64-bit integers.
#[allow(non_snake_case)]
pub fn I64X8() -> (r: Type)
    ensures
        r@ == Shape::vector(Family::Int, 64, 8),
{
    Type(0x30 + LANE_I64)
}

/// A SIMD vector of 512 bits: 16 lanes of 32-bit floating point numbers.
#[allow(non_snake_case)]
pub fn F32X16() -> (r: Type)
    ensures
        r@ == Shape::vector(Family::Float, 32, 16),
{
    Type(0x40 + LANE_F32)
}

/// A SIMD vector of 512 bits: 8 lanes of 64-bit floating point numbers.
#[allow(non_snake_case)]
pub fn F64X8() -> (r: Type)
    ensures
        r@ == Shape::vector(Family::Float, 64, 8),
{
    Type(0x30 + LANE_F64)
}

} // verus!
