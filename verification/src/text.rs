//! The text forms of a value type.
//!
//! The plain form is the one used in textual IR: `void`, `b1`, `i32`,
//! `f64`, and `i32x4` for a vector. The debug form is the name of the type
//! as a constant: `VOID`, `B1`, `I32`, `F64`, `I32X4`.
use vstd::prelude::*;
use vstd::string::StringExecFns;
use crate::shape::{Family, Shape};
use crate::types::Type;

verus! {

/// The character of a decimal digit.
pub open spec fn digit(d: nat) -> char {
    if d == 0 {
        '0'
    } else if d == 1 {
        '1'
    } else if d == 2 {
        '2'
    } else if d == 3 {
        '3'
    } else if d == 4 {
        '4'
    } else if d == 5 {
        '5'
    } else if d == 6 {
        '6'
    } else if d == 7 {
        '7'
    } else if d == 8 {
        '8'
    } else {
        '9'
    }
}

/// The decimal digits of `n`, most significant first, without leading zeros.
pub open spec fn decimal(n: nat) -> Seq<char>
    decreases n,
{
    if n < 10 {
        seq![digit(n)]
    } else {
        decimal(n / 10).push(digit(n % 10))
    }
}

impl Shape {
    /// The text of the lane type: `void`, or the family's letter and the
    /// width of a lane.
    pub open spec fn lane_text(self, upper: bool) -> Seq<char> {
        match self.family {
            Family::Void => if upper {
                seq!['V', 'O', 'I', 'D']
            } else {
                seq!['v', 'o', 'i', 'd']
            },
            Family::Bool => seq![
                if upper {
                    'B'
                } else {
                    'b'
                },
            ] + decimal(self.lane_bits),
            Family::Int => seq![
                if upper {
                    'I'
                } else {
                    'i'
                },
            ] + decimal(self.lane_bits),
            Family::Float => seq![
                if upper {
                    'F'
                } else {
                    'f'
                },
            ] + decimal(self.lane_bits),
        }
    }

    /// The text of the whole type: that of the lane type and, for a vector,
    /// an `x` and the number of lanes.
    pub open spec fn full_text(self, upper: bool) -> Seq<char> {
        if self.is_scalar() {
            self.lane_text(upper)
        } else {
            self.lane_text(upper) + seq![
                if upper {
                    'X'
                } else {
                    'x'
                },
            ] + decimal(self.lanes)
        }
    }

    /// The plain text form, such as `i32x4`.
    pub open spec fn text(self) -> Seq<char> {
        self.full_text(false)
    }

    /// The debug text form, such as `I32X4`.
    pub open spec fn debug_text(self) -> Seq<char> {
        self.full_text(true)
    }
}

/// The decimal digits of numbers below a thousand, written out.
pub proof fn lemma_decimal_up_to_three_digits(n: nat)
    requires
        n < 1000,
    ensures
        n < 10 ==> decimal(n) == seq![digit(n)],
        10 <= n < 100 ==> decimal(n) == seq![digit(n / 10), digit(n % 10)],
        100 <= n ==> decimal(n) == seq![digit(n / 100), digit(n / 10 % 10), digit(n % 10)],
{
    reveal_with_fuel(decimal, 3);
    if 10 <= n < 100 {
        assert(decimal(n) =~= seq![digit(n / 10), digit(n % 10)]);
    }
    if 100 <= n {
        assert(n / 10 / 10 == n / 100);
        assert(decimal(n) =~= seq![digit(n / 100), digit(n / 10 % 10), digit(n % 10)]);
    }
}

/// The text of one decimal digit.
fn digit_str(d: u16) -> (r: &'static str)
    requires
        d < 10,
    ensures
        r@ == seq![digit(d as nat)],
{
    proof {
        reveal_strlit("0");
        reveal_strlit("1");
        reveal_strlit("2");
        reveal_strlit("3");
        reveal_strlit("4");
        reveal_strlit("5");
        reveal_strlit("6");
        reveal_strlit("7");
        reveal_strlit("8");
        reveal_strlit("9");
    }
    let r = match d {
        0 => "0",
        1 => "1",
        2 => "2",
        3 => "3",
        4 => "4",
        5 => "5",
        6 => "6",
        7 => "7",
        8 => "8",
        _ => "9",
    };
    assert(r@ =~= seq![digit(d as nat)]);
    r
}

/// Appends the decimal digits of `n` to `out`.
fn push_decimal(out: &mut String, n: u16)
    ensures
        final(out)@ == old(out)@ + decimal(n as nat),
    decreases n,
{
    if n >= 10 {
        push_decimal(out, n / 10);
    }
    out.append(digit_str(n % 10));
    assert(final(out)@ =~= old(out)@ + decimal(n as nat));
}

impl Type {
    /// The text of this type in lower or in upper case.
    fn render(self, upper: bool) -> (r: String)
        ensures
            r@ == self@.full_text(upper),
        decreases self@.lanes,
    {
        proof {
            use_type_invariant(&self);
            reveal_strlit("void");
            reveal_strlit("VOID");
            reveal_strlit("b");
            reveal_strlit("B");
            reveal_strlit("i");
            reveal_strlit("I");
            reveal_strlit("f");
            reveal_strlit("F");
            reveal_strlit("x");
            reveal_strlit("X");
        }
        if self.is_void() {
            let mut out = String::new();
            out.append(if upper { "VOID" } else { "void" });
            assert(out@ =~= self@.full_text(upper));
            out
        } else if self.is_bool() {
            let mut out = String::new();
            out.append(if upper { "B" } else { "b" });
            push_decimal(&mut out, self.lane_bits() as u16);
            assert(out@ =~= self@.full_text(upper));
            out
        } else if self.is_int() {
            let mut out = String::new();
            out.append(if upper { "I" } else { "i" });
            push_decimal(&mut out, self.lane_bits() as u16);
            assert(out@ =~= self@.full_text(upper));
            out
        } else if self.is_float() {
            let mut out = String::new();
            out.append(if upper { "F" } else { "f" });
            push_decimal(&mut out, self.lane_bits() as u16);
            assert(out@ =~= self@.full_text(upper));
            out
        } else if !self.is_scalar() {
            let mut out = self.lane_type().render(upper);
            out.append(if upper { "X" } else { "x" });
            push_decimal(&mut out, self.lane_count());
            assert(out@ =~= self@.full_text(upper));
            out
        } else {
            vstd::pervasive::unreached()
        }
    }

    /// The text form of this type: `void`, the family's letter and the lane
    /// width for a scalar (`b1`, `i32`, `f64`), and for a vector the lane
    /// type, an `x` and the number of lanes (`i32x4`).
    pub fn to_string(self) -> (r: String)
        ensures
            r@ == self@.text(),
    {
        self.render(false)
    }

    /// The debug form of this type, in upper case: `VOID`, `B1`, `I32`,
    /// `F64`, and `I32X4` for a vector.
    pub fn to_debug_string(self) -> (r: String)
        ensures
            r@ == self@.debug_text(),
    {
        self.render(true)
    }
}

} // verus!
