//! The mathematical model of a value type: a lane family, the width of one
//! lane in bits, and the number of lanes.
//!
//! Everything here is specification. The packed representation in
//! [`crate::types`] is described by mapping each code to a [`Shape`], and the
//! contracts of every operation are stated over shapes.
use vstd::prelude::*;

verus! {

/// The kind of value held in one lane.
pub enum Family {
    /// No value at all.
    Void,
    /// A truth value, possibly stored with redundant bits.
    Bool,
    /// A sign-agnostic integer.
    Int,
    /// An IEEE floating point number.
    Float,
}

/// What a value type stands for.
pub struct Shape {
    /// The kind of each lane.
    pub family: Family,
    /// The number of bits in one lane; 0 for the void type.
    pub lane_bits: nat,
    /// The number of lanes; 1 for a scalar.
    pub lanes: nat,
}

/// The lane counts that a type can have: 1, 2, 4, ... up to 256.
pub open spec fn is_lane_count(n: nat) -> bool {
    n == 1 || n == 2 || n == 4 || n == 8 || n == 16 || n == 32 || n == 64 || n == 128 || n == 256
}

/// The base-2 logarithm of `n`, for the powers of two from 1 to 256; 0 for
/// every other number.
pub open spec fn exact_log2(n: nat) -> nat {
    if n == 2 {
        1
    } else if n == 4 {
        2
    } else if n == 8 {
        3
    } else if n == 16 {
        4
    } else if n == 32 {
        5
    } else if n == 64 {
        6
    } else if n == 128 {
        7
    } else if n == 256 {
        8
    } else {
        0
    }
}

/// Whether `family` has a lane type that is `bits` wide.
pub open spec fn has_width(family: Family, bits: nat) -> bool {
    match family {
        Family::Void => false,
        Family::Bool => bits == 1 || bits == 8 || bits == 16 || bits == 32 || bits == 64,
        Family::Int => bits == 8 || bits == 16 || bits == 32 || bits == 64,
        Family::Float => bits == 32 || bits == 64,
    }
}

/// The number that identifies a scalar lane type in the packed code. Void is
/// 0; within a family, each step up in width adds one.
pub open spec fn lane_code(family: Family, bits: nat) -> nat {
    match family {
        Family::Void => 0,
        Family::Bool => if bits == 1 {
            1
        } else {
            (exact_log2(bits) - 1) as nat
        },
        Family::Int => exact_log2(bits) + 3,
        Family::Float => exact_log2(bits) + 5,
    }
}

impl Shape {
    /// The void type.
    pub open spec fn void() -> Shape {
        Shape { family: Family::Void, lane_bits: 0, lanes: 1 }
    }

    /// The scalar type of the given family and width.
    pub open spec fn scalar(family: Family, bits: nat) -> Shape {
        Shape { family, lane_bits: bits, lanes: 1 }
    }

    /// The vector type with `lanes` lanes of the given family and width.
    pub open spec fn vector(family: Family, bits: nat, lanes: nat) -> Shape {
        Shape { family, lane_bits: bits, lanes }
    }

    /// The shapes that a value type can have. Void has no width and cannot be
    /// part of a vector; every other family has a fixed set of widths.
    pub open spec fn wf(self) -> bool {
        &&& is_lane_count(self.lanes)
        &&& match self.family {
            Family::Void => self.lane_bits == 0 && self.lanes == 1,
            _ => has_width(self.family, self.lane_bits),
        }
    }

    /// The type of one lane.
    pub open spec fn lane(self) -> Shape {
        Shape { lanes: 1, ..self }
    }

    /// Whether there is exactly one lane.
    pub open spec fn is_scalar(self) -> bool {
        self.lanes == 1
    }

    /// The base-2 logarithm of the number of lanes.
    pub open spec fn log2_lanes(self) -> nat {
        exact_log2(self.lanes)
    }

    /// The base-2 logarithm of the lane width; 0 for the 1-bit boolean and
    /// for void.
    pub open spec fn log2_lane_bits(self) -> nat {
        exact_log2(self.lane_bits)
    }

    /// The total number of bits in a value of this type.
    pub open spec fn bits(self) -> nat {
        self.lane_bits * self.lanes
    }

    /// The packed code of this shape: the lane type's number in the low four
    /// bits, the logarithm of the lane count above them.
    pub open spec fn code(self) -> nat {
        lane_code(self.family, self.lane_bits) + 16 * self.log2_lanes()
    }

    /// The same number of lanes, each half as wide, where the family has a
    /// lane type of that width.
    pub open spec fn half_width(self) -> Option<Shape> {
        if has_width(self.family, self.lane_bits / 2) {
            Some(Shape { lane_bits: self.lane_bits / 2, ..self })
        } else {
            None
        }
    }

    /// The same number of lanes, each twice as wide, where the family has a
    /// lane type of that width.
    pub open spec fn double_width(self) -> Option<Shape> {
        if has_width(self.family, 2 * self.lane_bits) {
            Some(Shape { lane_bits: 2 * self.lane_bits, ..self })
        } else {
            None
        }
    }

    /// The same lanes replaced by booleans of the same width. Void, which has
    /// no width, becomes the 1-bit boolean.
    pub open spec fn as_bool_pedantic(self) -> Shape {
        Shape {
            family: Family::Bool,
            lane_bits: if self.family == Family::Void {
                1
            } else {
                self.lane_bits
            },
            lanes: self.lanes,
        }
    }

    /// A scalar becomes the 1-bit boolean whatever its width; a vector keeps
    /// its lane width and count.
    pub open spec fn as_bool(self) -> Shape {
        if self.is_scalar() {
            Shape::scalar(Family::Bool, 1)
        } else {
            self.as_bool_pedantic()
        }
    }

    /// `n` times as many lanes. There is no such type for void, where `n` is
    /// not a power of two, or where the result would have more than 256
    /// lanes.
    pub open spec fn times(self, n: nat) -> Option<Shape> {
        if self.family != Family::Void && is_lane_count(n) && self.lanes * n <= 256 {
            Some(Shape { lanes: self.lanes * n, ..self })
        } else {
            None
        }
    }

    /// Half as many lanes, unless this is a scalar.
    pub open spec fn half_vector(self) -> Option<Shape> {
        if self.is_scalar() {
            None
        } else {
            Some(Shape { lanes: self.lanes / 2, ..self })
        }
    }
}

} // verus!
