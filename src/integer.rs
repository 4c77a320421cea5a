//! The integer types that a fallback cell can hold, with the operations
//! that the fetch methods apply under the lock.
use vstd::prelude::*;

verus! {

/// `x` brought into the range `[lo, lo + m)` by adding or taking away
/// multiples of `m`: two's-complement wraparound for a type whose smallest
/// value is `lo` and which has `m` values.
pub open spec fn wrap(x: int, lo: int, m: int) -> int {
    lo + (x - lo) % m
}

/// Wrapping a value that lies at most one turn outside the range.
pub proof fn lemma_wrap_near(x: int, lo: int, m: int)
    requires
        m > 0,
        lo - m <= x < lo + 2 * m,
    ensures
        wrap(x, lo, m) == (if x < lo {
            x + m
        } else if x >= lo + m {
            x - m
        } else {
            x
        }),
{
    if x < lo {
        vstd::arithmetic::div_mod::lemma_fundamental_div_mod(x - lo, m);
        assert((x - lo) / m == -1) by (nonlinear_arith)
            requires
                m > 0,
                -m <= x - lo < 0,
                x - lo == m * ((x - lo) / m) + (x - lo) % m,
                0 <= (x - lo) % m < m,
        ;
    } else if x >= lo + m {
        vstd::arithmetic::div_mod::lemma_fundamental_div_mod(x - lo, m);
        assert((x - lo) / m == 1) by (nonlinear_arith)
            requires
                m > 0,
                m <= x - lo < 2 * m,
                x - lo == m * ((x - lo) / m) + (x - lo) % m,
                0 <= (x - lo) % m < m,
        ;
    } else {
        vstd::arithmetic::div_mod::lemma_small_mod((x - lo) as nat, m as nat);
    }
}

/// An integer type that a fallback cell can hold.
pub trait FallbackInt: Copy + Sized {
    /// The value as a mathematical integer.
    spec fn int_value(self) -> int;

    /// The smallest value of the type.
    spec fn lowest() -> int;

    /// How many values the type has.
    spec fn modulus() -> int;

    /// Two's-complement sum.
    spec fn add_spec(self, o: Self) -> Self;

    /// Two's-complement difference.
    spec fn sub_spec(self, o: Self) -> Self;

    /// The larger of the two values.
    spec fn max_spec(self, o: Self) -> Self;

    /// The smaller of the two values.
    spec fn min_spec(self, o: Self) -> Self;

    /// Bitwise "and".
    spec fn and_spec(self, o: Self) -> Self;

    /// Bitwise "or".
    spec fn or_spec(self, o: Self) -> Self;

    /// Bitwise "xor".
    spec fn xor_spec(self, o: Self) -> Self;

    /// Bitwise "nand": the complement of the "and".
    spec fn nand_spec(self, o: Self) -> Self;

    /// Every value lies in the type's range.
    proof fn lemma_int_value(self)
        ensures
            Self::modulus() > 0,
            Self::lowest() <= self.int_value() < Self::lowest() + Self::modulus(),
    ;

    /// Values are equal exactly when their integers are, and the larger and
    /// smaller of two values go by their integers.
    proof fn lemma_compare(self, o: Self)
        ensures
            self.int_value() == o.int_value() <==> self == o,
            self.max_spec(o) == (if self.int_value() >= o.int_value() {
                self
            } else {
                o
            }),
            self.min_spec(o) == (if self.int_value() <= o.int_value() {
                self
            } else {
                o
            }),
    ;

    /// Sum and difference are the exact ones, wrapped into the type's range.
    proof fn lemma_wrapping(self, o: Self)
        ensures
            self.add_spec(o).int_value() == wrap(
                self.int_value() + o.int_value(),
                Self::lowest(),
                Self::modulus(),
            ),
            self.sub_spec(o).int_value() == wrap(
                self.int_value() - o.int_value(),
                Self::lowest(),
                Self::modulus(),
            ),
    ;

    /// Equality.
    fn same(self, o: Self) -> (r: bool)
        ensures
            r == (self == o),
    ;

    /// Two's-complement addition.
    fn add_wrapping(self, o: Self) -> (r: Self)
        ensures
            r == self.add_spec(o),
    ;

    /// Two's-complement subtraction.
    fn sub_wrapping(self, o: Self) -> (r: Self)
        ensures
            r == self.sub_spec(o),
    ;

    /// Bitwise "and".
    fn bit_and(self, o: Self) -> (r: Self)
        ensures
            r == self.and_spec(o),
    ;

    /// Bitwise "or".
    fn bit_or(self, o: Self) -> (r: Self)
        ensures
            r == self.or_spec(o),
    ;

    /// Bitwise "xor".
    fn bit_xor(self, o: Self) -> (r: Self)
        ensures
            r == self.xor_spec(o),
    ;

    /// Bitwise "nand".
    fn bit_nand(self, o: Self) -> (r: Self)
        ensures
            r == self.nand_spec(o),
    ;

    /// The larger of the two values.
    fn larger(self, o: Self) -> (r: Self)
        ensures
            r == self.max_spec(o),
    ;

    /// The smaller of the two values.
    fn smaller(self, o: Self) -> (r: Self)
        ensures
            r == self.min_spec(o),
    ;
}

impl FallbackInt for u8 {
    open spec fn int_value(self) -> int {
        self as int
    }

    open spec fn lowest() -> int {
        0
    }

    open spec fn modulus() -> int {
        0x100
    }

    open spec fn add_spec(self, o: u8) -> u8 {
        wrap(self + o, Self::lowest(), Self::modulus()) as u8
    }

    open spec fn sub_spec(self, o: u8) -> u8 {
        wrap(self - o, Self::lowest(), Self::modulus()) as u8
    }

    open spec fn max_spec(self, o: u8) -> u8 {
        if self >= o {
            self
        } else {
            o
        }
    }

    open spec fn min_spec(self, o: u8) -> u8 {
        if self <= o {
            self
        } else {
            o
        }
    }

    open spec fn and_spec(self, o: u8) -> u8 {
        self & o
    }

    open spec fn or_spec(self, o: u8) -> u8 {
        self | o
    }

    open spec fn xor_spec(self, o: u8) -> u8 {
        self ^ o
    }

    open spec fn nand_spec(self, o: u8) -> u8 {
        !(self & o)
    }

    proof fn lemma_int_value(self) {
    }

    proof fn lemma_compare(self, o: u8) {
    }

    proof fn lemma_wrapping(self, o: u8) {
        lemma_wrap_near(self + o, Self::lowest(), Self::modulus());
        lemma_wrap_near(self - o, Self::lowest(), Self::modulus());
    }

    fn same(self, o: u8) -> (r: bool) {
        self == o
    }

    fn add_wrapping(self, o: u8) -> (r: u8) {
        proof {
            lemma_wrap_near(self + o, Self::lowest(), Self::modulus());
        }
        self.wrapping_add(o)
    }

    fn sub_wrapping(self, o: u8) -> (r: u8) {
        proof {
            lemma_wrap_near(self - o, Self::lowest(), Self::modulus());
        }
        self.wrapping_sub(o)
    }

    fn bit_and(self, o: u8) -> (r: u8) {
        self & o
    }

    fn bit_or(self, o: u8) -> (r: u8) {
        self | o
    }

    fn bit_xor(self, o: u8) -> (r: u8) {
        self ^ o
    }

    fn bit_nand(self, o: u8) -> (r: u8) {
        !(self & o)
    }

    fn larger(self, o: u8) -> (r: u8) {
        if self >= o {
            self
        } else {
            o
        }
    }

    fn smaller(self, o: u8) -> (r: u8) {
        if self <= o {
            self
        } else {
            o
        }
    }
}

impl FallbackInt for i8 {
    open spec fn int_value(self) -> int {
        self as int
    }

    open spec fn lowest() -> int {
        -0x80
    }

    open spec fn modulus() -> int {
        0x100
    }

    open spec fn add_spec(self, o: i8) -> i8 {
        wrap(self + o, Self::lowest(), Self::modulus()) as i8
    }

    open spec fn sub_spec(self, o: i8) -> i8 {
        wrap(self - o, Self::lowest(), Self::modulus()) as i8
    }

    open spec fn max_spec(self, o: i8) -> i8 {
        if self >= o {
            self
        } else {
            o
        }
    }

    open spec fn min_spec(self, o: i8) -> i8 {
        if self <= o {
            self
        } else {
            o
        }
    }

    open spec fn and_spec(self, o: i8) -> i8 {
        self & o
    }

    open spec fn or_spec(self, o: i8) -> i8 {
        self | o
    }

    open spec fn xor_spec(self, o: i8) -> i8 {
        self ^ o
    }

    open spec fn nand_spec(self, o: i8) -> i8 {
        !(self & o)
    }

    proof fn lemma_int_value(self) {
    }

    proof fn lemma_compare(self, o: i8) {
    }

    proof fn lemma_wrapping(self, o: i8) {
        lemma_wrap_near(self + o, Self::lowest(), Self::modulus());
        lemma_wrap_near(self - o, Self::lowest(), Self::modulus());
    }

    fn same(self, o: i8) -> (r: bool) {
        self == o
    }

    fn add_wrapping(self, o: i8) -> (r: i8) {
        proof {
            lemma_wrap_near(self + o, Self::lowest(), Self::modulus());
        }
        self.wrapping_add(o)
    }

    fn sub_wrapping(self, o: i8) -> (r: i8) {
        proof {
            lemma_wrap_near(self - o, Self::lowest(), Self::modulus());
        }
        self.wrapping_sub(o)
    }

    fn bit_and(self, o: i8) -> (r: i8) {
        self & o
    }

    fn bit_or(self, o: i8) -> (r: i8) {
        self | o
    }

    fn bit_xor(self, o: i8) -> (r: i8) {
        self ^ o
    }

    fn bit_nand(self, o: i8) -> (r: i8) {
        !(self & o)
    }

    fn larger(self, o: i8) -> (r: i8) {
        if self >= o {
            self
        } else {
            o
        }
    }

    fn smaller(self, o: i8) -> (r: i8) {
        if self <= o {
            self
        } else {
            o
        }
    }
}

impl FallbackInt for u16 {
    open spec fn int_value(self) -> int {
        self as int
    }

    open spec fn lowest() -> int {
        0
    }

    open spec fn modulus() -> int {
        0x1_0000
    }

    open spec fn add_spec(self, o: u16) -> u16 {
        wrap(self + o, Self::lowest(), Self::modulus()) as u16
    }

    open spec fn sub_spec(self, o: u16) -> u16 {
        wrap(self - o, Self::lowest(), Self::modulus()) as u16
    }

    open spec fn max_spec(self, o: u16) -> u16 {
        if self >= o {
            self
        } else {
            o
        }
    }

    open spec fn min_spec(self, o: u16) -> u16 {
        if self <= o {
            self
        } else {
            o
        }
    }

    open spec fn and_spec(self, o: u16) -> u16 {
        self & o
    }

    open spec fn or_spec(self, o: u16) -> u16 {
        self | o
    }

    open spec fn xor_spec(self, o: u16) -> u16 {
        self ^ o
    }

    open spec fn nand_spec(self, o: u16) -> u16 {
        !(self & o)
    }

    proof fn lemma_int_value(self) {
    }

    proof fn lemma_compare(self, o: u16) {
    }

    proof fn lemma_wrapping(self, o: u16) {
        lemma_wrap_near(self + o, Self::lowest(), Self::modulus());
        lemma_wrap_near(self - o, Self::lowest(), Self::modulus());
    }

    fn same(self, o: u16) -> (r: bool) {
        self == o
    }

    fn add_wrapping(self, o: u16) -> (r: u16) {
        proof {
            lemma_wrap_near(self + o, Self::lowest(), Self::modulus());
        }
        self.wrapping_add(o)
    }

    fn sub_wrapping(self, o: u16) -> (r: u16) {
        proof {
            lemma_wrap_near(self - o, Self::lowest(), Self::modulus());
        }
        self.wrapping_sub(o)
    }

    fn bit_and(self, o: u16) -> (r: u16) {
        self & o
    }

    fn bit_or(self, o: u16) -> (r: u16) {
        self | o
    }

    fn bit_xor(self, o: u16) -> (r: u16) {
        self ^ o
    }

    fn bit_nand(self, o: u16) -> (r: u16) {
        !(self & o)
    }

    fn larger(self, o: u16) -> (r: u16) {
        if self >= o {
            self
        } else {
            o
        }
    }

    fn smaller(self, o: u16) -> (r: u16) {
        if self <= o {
            self
        } else {
            o
        }
    }
}

impl FallbackInt for i16 {
    open spec fn int_value(self) -> int {
        self as int
    }

    open spec fn lowest() -> int {
        -0x8000
    }

    open spec fn modulus() -> int {
        0x1_0000
    }

    open spec fn add_spec(self, o: i16) -> i16 {
        wrap(self + o, Self::lowest(), Self::modulus()) as i16
    }

    open spec fn sub_spec(self, o: i16) -> i16 {
        wrap(self - o, Self::lowest(), Self::modulus()) as i16
    }

    open spec fn max_spec(self, o: i16) -> i16 {
        if self >= o {
            self
        } else {
            o
        }
    }

    open spec fn min_spec(self, o: i16) -> i16 {
        if self <= o {
            self
        } else {
            o
        }
    }

    open spec fn and_spec(self, o: i16) -> i16 {
        self & o
    }

    open spec fn or_spec(self, o: i16) -> i16 {
        self | o
    }

    open spec fn xor_spec(self, o: i16) -> i16 {
        self ^ o
    }

    open spec fn nand_spec(self, o: i16) -> i16 {
        !(self & o)
    }

    proof fn lemma_int_value(self) {
    }

    proof fn lemma_compare(self, o: i16) {
    }

    proof fn lemma_wrapping(self, o: i16) {
        lemma_wrap_near(self + o, Self::lowest(), Self::modulus());
        lemma_wrap_near(self - o, Self::lowest(), Self::modulus());
    }

    fn same(self, o: i16) -> (r: bool) {
        self == o
    }

    fn add_wrapping(self, o: i16) -> (r: i16) {
        proof {
            lemma_wrap_near(self + o, Self::lowest(), Self::modulus());
        }
        self.wrapping_add(o)
    }

    fn sub_wrapping(self, o: i16) -> (r: i16) {
        proof {
            lemma_wrap_near(self - o, Self::lowest(), Self::modulus());
        }
        self.wrapping_sub(o)
    }

    fn bit_and(self, o: i16) -> (r: i16) {
        self & o
    }

    fn bit_or(self, o: i16) -> (r: i16) {
        self | o
    }

    fn bit_xor(self, o: i16) -> (r: i16) {
        self ^ o
    }

    fn bit_nand(self, o: i16) -> (r: i16) {
        !(self & o)
    }

    fn larger(self, o: i16) -> (r: i16) {
        if self >= o {
            self
        } else {
            o
        }
    }

    fn smaller(self, o: i16) -> (r: i16) {
        if self <= o {
            self
        } else {
            o
        }
    }
}

impl FallbackInt for u32 {
    open spec fn int_value(self) -> int {
        self as int
    }

    open spec fn lowest() -> int {
        0
    }

    open spec fn modulus() -> int {
        0x1_0000_0000
    }

    open spec fn add_spec(self, o: u32) -> u32 {
        wrap(self + o, Self::lowest(), Self::modulus()) as u32
    }

    open spec fn sub_spec(self, o: u32) -> u32 {
        wrap(self - o, Self::lowest(), Self::modulus()) as u32
    }

    open spec fn max_spec(self, o: u32) -> u32 {
        if self >= o {
            self
        } else {
            o
        }
    }

    open spec fn min_spec(self, o: u32) -> u32 {
        if self <= o {
            self
        } else {
            o
        }
    }

    open spec fn and_spec(self, o: u32) -> u32 {
        self & o
    }

    open spec fn or_spec(self, o: u32) -> u32 {
        self | o
    }

    open spec fn xor_spec(self, o: u32) -> u32 {
        self ^ o
    }

    open spec fn nand_spec(self, o: u32) -> u32 {
        !(self & o)
    }

    proof fn lemma_int_value(self) {
    }

    proof fn lemma_compare(self, o: u32) {
    }

    proof fn lemma_wrapping(self, o: u32) {
        lemma_wrap_near(self + o, Self::lowest(), Self::modulus());
        lemma_wrap_near(self - o, Self::lowest(), Self::modulus());
    }

    fn same(self, o: u32) -> (r: bool) {
        self == o
    }

    fn add_wrapping(self, o: u32) -> (r: u32) {
        proof {
            lemma_wrap_near(self + o, Self::lowest(), Self::modulus());
        }
        self.wrapping_add(o)
    }

    fn sub_wrapping(self, o: u32) -> (r: u32) {
        proof {
            lemma_wrap_near(self - o, Self::lowest(), Self::modulus());
        }
        self.wrapping_sub(o)
    }

    fn bit_and(self, o: u32) -> (r: u32) {
        self & o
    }

    fn bit_or(self, o: u32) -> (r: u32) {
        self | o
    }

    fn bit_xor(self, o: u32) -> (r: u32) {
        self ^ o
    }

    fn bit_nand(self, o: u32) -> (r: u32) {
        !(self & o)
    }

    fn larger(self, o: u32) -> (r: u32) {
        if self >= o {
            self
        } else {
            o
        }
    }

    fn smaller(self, o: u32) -> (r: u32) {
        if self <= o {
            self
        } else {
            o
        }
    }
}

impl FallbackInt for i32 {
    open spec fn int_value(self) -> int {
        self as int
    }

    open spec fn lowest() -> int {
        -0x8000_0000
    }

    open spec fn modulus() -> int {
        0x1_0000_0000
    }

    open spec fn add_spec(self, o: i32) -> i32 {
        wrap(self + o, Self::lowest(), Self::modulus()) as i32
    }

    open spec fn sub_spec(self, o: i32) -> i32 {
        wrap(self - o, Self::lowest(), Self::modulus()) as i32
    }

    open spec fn max_spec(self, o: i32) -> i32 {
        if self >= o {
            self
        } else {
            o
        }
    }

    open spec fn min_spec(self, o: i32) -> i32 {
        if self <= o {
            self
        } else {
            o
        }
    }

    open spec fn and_spec(self, o: i32) -> i32 {
        self & o
    }

    open spec fn or_spec(self, o: i32) -> i32 {
        self | o
    }

    open spec fn xor_spec(self, o: i32) -> i32 {
        self ^ o
    }

    open spec fn nand_spec(self, o: i32) -> i32 {
        !(self & o)
    }

    proof fn lemma_int_value(self) {
    }

    proof fn lemma_compare(self, o: i32) {
    }

    proof fn lemma_wrapping(self, o: i32) {
        lemma_wrap_near(self + o, Self::lowest(), Self::modulus());
        lemma_wrap_near(self - o, Self::lowest(), Self::modulus());
    }

    fn same(self, o: i32) -> (r: bool) {
        self == o
    }

    fn add_wrapping(self, o: i32) -> (r: i32) {
        proof {
            lemma_wrap_near(self + o, Self::lowest(), Self::modulus());
        }
        self.wrapping_add(o)
    }

    fn sub_wrapping(self, o: i32) -> (r: i32) {
        proof {
            lemma_wrap_near(self - o, Self::lowest(), Self::modulus());
        }
        self.wrapping_sub(o)
    }

    fn bit_and(self, o: i32) -> (r: i32) {
        self & o
    }

    fn bit_or(self, o: i32) -> (r: i32) {
        self | o
    }

    fn bit_xor(self, o: i32) -> (r: i32) {
        self ^ o
    }

    fn bit_nand(self, o: i32) -> (r: i32) {
        !(self & o)
    }

    fn larger(self, o: i32) -> (r: i32) {
        if self >= o {
            self
        } else {
            o
        }
    }

    fn smaller(self, o: i32) -> (r: i32) {
        if self <= o {
            self
        } else {
            o
        }
    }
}

impl FallbackInt for u64 {
    open spec fn int_value(self) -> int {
        self as int
    }

    open spec fn lowest() -> int {
        0
    }

    open spec fn modulus() -> int {
        0x1_0000_0000_0000_0000
    }

    open spec fn add_spec(self, o: u64) -> u64 {
        wrap(self + o, Self::lowest(), Self::modulus()) as u64
    }

    open spec fn sub_spec(self, o: u64) -> u64 {
        wrap(self - o, Self::lowest(), Self::modulus()) as u64
    }

    open spec fn max_spec(self, o: u64) -> u64 {
        if self >= o {
            self
        } else {
            o
        }
    }

    open spec fn min_spec(self, o: u64) -> u64 {
        if self <= o {
            self
        } else {
            o
        }
    }

    open spec fn and_spec(self, o: u64) -> u64 {
        self & o
    }

    open spec fn or_spec(self, o: u64) -> u64 {
        self | o
    }

    open spec fn xor_spec(self, o: u64) -> u64 {
        self ^ o
    }

    open spec fn nand_spec(self, o: u64) -> u64 {
        !(self & o)
    }

    proof fn lemma_int_value(self) {
    }

    proof fn lemma_compare(self, o: u64) {
    }

    proof fn lemma_wrapping(self, o: u64) {
        lemma_wrap_near(self + o, Self::lowest(), Self::modulus());
        lemma_wrap_near(self - o, Self::lowest(), Self::modulus());
    }

    fn same(self, o: u64) -> (r: bool) {
        self == o
    }

    fn add_wrapping(self, o: u64) -> (r: u64) {
        proof {
            lemma_wrap_near(self + o, Self::lowest(), Self::modulus());
        }
        self.wrapping_add(o)
    }

    fn sub_wrapping(self, o: u64) -> (r: u64) {
        proof {
            lemma_wrap_near(self - o, Self::lowest(), Self::modulus());
        }
        self.wrapping_sub(o)
    }

    fn bit_and(self, o: u64) -> (r: u64) {
        self & o
    }

    fn bit_or(self, o: u64) -> (r: u64) {
        self | o
    }

    fn bit_xor(self, o: u64) -> (r: u64) {
        self ^ o
    }

    fn bit_nand(self, o: u64) -> (r: u64) {
        !(self & o)
    }

    fn larger(self, o: u64) -> (r: u64) {
        if self >= o {
            self
        } else {
            o
        }
    }

    fn smaller(self, o: u64) -> (r: u64) {
        if self <= o {
            self
        } else {
            o
        }
    }
}

impl FallbackInt for i64 {
    open spec fn int_value(self) -> int {
        self as int
    }

    open spec fn lowest() -> int {
        -0x8000_0000_0000_0000
    }

    open spec fn modulus() -> int {
        0x1_0000_0000_0000_0000
    }

    open spec fn add_spec(self, o: i64) -> i64 {
        wrap(self + o, Self::lowest(), Self::modulus()) as i64
    }

    open spec fn sub_spec(self, o: i64) -> i64 {
        wrap(self - o, Self::lowest(), Self::modulus()) as i64
    }

    open spec fn max_spec(self, o: i64) -> i64 {
        if self >= o {
            self
        } else {
            o
        }
    }

    open spec fn min_spec(self, o: i64) -> i64 {
        if self <= o {
            self
        } else {
            o
        }
    }

    open spec fn and_spec(self, o: i64) -> i64 {
        self & o
    }

    open spec fn or_spec(self, o: i64) -> i64 {
        self | o
    }

    open spec fn xor_spec(self, o: i64) -> i64 {
        self ^ o
    }

    open spec fn nand_spec(self, o: i64) -> i64 {
        !(self & o)
    }

    proof fn lemma_int_value(self) {
    }

    proof fn lemma_compare(self, o: i64) {
    }

    proof fn lemma_wrapping(self, o: i64) {
        lemma_wrap_near(self + o, Self::lowest(), Self::modulus());
        lemma_wrap_near(self - o, Self::lowest(), Self::modulus());
    }

    fn same(self, o: i64) -> (r: bool) {
        self == o
    }

    fn add_wrapping(self, o: i64) -> (r: i64) {
        proof {
            lemma_wrap_near(self + o, Self::lowest(), Self::modulus());
        }
        self.wrapping_add(o)
    }

    fn sub_wrapping(self, o: i64) -> (r: i64) {
        proof {
            lemma_wrap_near(self - o, Self::lowest(), Self::modulus());
        }
        self.wrapping_sub(o)
    }

    fn bit_and(self, o: i64) -> (r: i64) {
        self & o
    }

    fn bit_or(self, o: i64) -> (r: i64) {
        self | o
    }

    fn bit_xor(self, o: i64) -> (r: i64) {
        self ^ o
    }

    fn bit_nand(self, o: i64) -> (r: i64) {
        !(self & o)
    }

    fn larger(self, o: i64) -> (r: i64) {
        if self >= o {
            self
        } else {
            o
        }
    }

    fn smaller(self, o: i64) -> (r: i64) {
        if self <= o {
            self
        } else {
            o
        }
    }
}

impl FallbackInt for u128 {
    open spec fn int_value(self) -> int {
        self as int
    }

    open spec fn lowest() -> int {
        0
    }

    open spec fn modulus() -> int {
        u128::MAX as int + 1
    }

    open spec fn add_spec(self, o: u128) -> u128 {
        wrap(self + o, Self::lowest(), Self::modulus()) as u128
    }

    open spec fn sub_spec(self, o: u128) -> u128 {
        wrap(self - o, Self::lowest(), Self::modulus()) as u128
    }

    open spec fn max_spec(self, o: u128) -> u128 {
        if self >= o {
            self
        } else {
            o
        }
    }

    open spec fn min_spec(self, o: u128) -> u128 {
        if self <= o {
            self
        } else {
            o
        }
    }

    open spec fn and_spec(self, o: u128) -> u128 {
        self & o
    }

    open spec fn or_spec(self, o: u128) -> u128 {
        self | o
    }

    open spec fn xor_spec(self, o: u128) -> u128 {
        self ^ o
    }

    open spec fn nand_spec(self, o: u128) -> u128 {
        !(self & o)
    }

    proof fn lemma_int_value(self) {
    }

    proof fn lemma_compare(self, o: u128) {
    }

    proof fn lemma_wrapping(self, o: u128) {
        lemma_wrap_near(self + o, Self::lowest(), Self::modulus());
        lemma_wrap_near(self - o, Self::lowest(), Self::modulus());
    }

    fn same(self, o: u128) -> (r: bool) {
        self == o
    }

    fn add_wrapping(self, o: u128) -> (r: u128) {
        proof {
            lemma_wrap_near(self + o, Self::lowest(), Self::modulus());
        }
        self.wrapping_add(o)
    }

    fn sub_wrapping(self, o: u128) -> (r: u128) {
        proof {
            lemma_wrap_near(self - o, Self::lowest(), Self::modulus());
        }
        self.wrapping_sub(o)
    }

    fn bit_and(self, o: u128) -> (r: u128) {
        self & o
    }

    fn bit_or(self, o: u128) -> (r: u128) {
        self | o
    }

    fn bit_xor(self, o: u128) -> (r: u128) {
        self ^ o
    }

    fn bit_nand(self, o: u128) -> (r: u128) {
        !(self & o)
    }

    fn larger(self, o: u128) -> (r: u128) {
        if self >= o {
            self
        } else {
            o
        }
    }

    fn smaller(self, o: u128) -> (r: u128) {
        if self <= o {
            self
        } else {
            o
        }
    }
}

impl FallbackInt for i128 {
    open spec fn int_value(self) -> int {
        self as int
    }

    open spec fn lowest() -> int {
        i128::MIN as int
    }

    open spec fn modulus() -> int {
        u128::MAX as int + 1
    }

    open spec fn add_spec(self, o: i128) -> i128 {
        wrap(self + o, Self::lowest(), Self::modulus()) as i128
    }

    open spec fn sub_spec(self, o: i128) -> i128 {
        wrap(self - o, Self::lowest(), Self::modulus()) as i128
    }

    open spec fn max_spec(self, o: i128) -> i128 {
        if self >= o {
            self
        } else {
            o
        }
    }

    open spec fn min_spec(self, o: i128) -> i128 {
        if self <= o {
            self
        } else {
            o
        }
    }

    open spec fn and_spec(self, o: i128) -> i128 {
        self & o
    }

    open spec fn or_spec(self, o: i128) -> i128 {
        self | o
    }

    open spec fn xor_spec(self, o: i128) -> i128 {
        self ^ o
    }

    open spec fn nand_spec(self, o: i128) -> i128 {
        !(self & o)
    }

    proof fn lemma_int_value(self) {
    }

    proof fn lemma_compare(self, o: i128) {
    }

    proof fn lemma_wrapping(self, o: i128) {
        lemma_wrap_near(self + o, Self::lowest(), Self::modulus());
        lemma_wrap_near(self - o, Self::lowest(), Self::modulus());
    }

    fn same(self, o: i128) -> (r: bool) {
        self == o
    }

    fn add_wrapping(self, o: i128) -> (r: i128) {
        proof {
            lemma_wrap_near(self + o, Self::lowest(), Self::modulus());
        }
        self.wrapping_add(o)
    }

    fn sub_wrapping(self, o: i128) -> (r: i128) {
        proof {
            lemma_wrap_near(self - o, Self::lowest(), Self::modulus());
        }
        self.wrapping_sub(o)
    }

    fn bit_and(self, o: i128) -> (r: i128) {
        self & o
    }

    fn bit_or(self, o: i128) -> (r: i128) {
        self | o
    }

    fn bit_xor(self, o: i128) -> (r: i128) {
        self ^ o
    }

    fn bit_nand(self, o: i128) -> (r: i128) {
        !(self & o)
    }

    fn larger(self, o: i128) -> (r: i128) {
        if self >= o {
            self
        } else {
            o
        }
    }

    fn smaller(self, o: i128) -> (r: i128) {
        if self <= o {
            self
        } else {
            o
        }
    }
}

impl FallbackInt for usize {
    open spec fn int_value(self) -> int {
        self as int
    }

    open spec fn lowest() -> int {
        0
    }

    open spec fn modulus() -> int {
        usize::MAX as int + 1
    }

    open spec fn add_spec(self, o: usize) -> usize {
        wrap(self + o, Self::lowest(), Self::modulus()) as usize
    }

    open spec fn sub_spec(self, o: usize) -> usize {
        wrap(self - o, Self::lowest(), Self::modulus()) as usize
    }

    open spec fn max_spec(self, o: usize) -> usize {
        if self >= o {
            self
        } else {
            o
        }
    }

    open spec fn min_spec(self, o: usize) -> usize {
        if self <= o {
            self
        } else {
            o
        }
    }

    open spec fn and_spec(self, o: usize) -> usize {
        self & o
    }

    open spec fn or_spec(self, o: usize) -> usize {
        self | o
    }

    open spec fn xor_spec(self, o: usize) -> usize {
        self ^ o
    }

    open spec fn nand_spec(self, o: usize) -> usize {
        !(self & o)
    }

    proof fn lemma_int_value(self) {
    }

    proof fn lemma_compare(self, o: usize) {
    }

    proof fn lemma_wrapping(self, o: usize) {
        lemma_wrap_near(self + o, Self::lowest(), Self::modulus());
        lemma_wrap_near(self - o, Self::lowest(), Self::modulus());
    }

    fn same(self, o: usize) -> (r: bool) {
        self == o
    }

    fn add_wrapping(self, o: usize) -> (r: usize) {
        proof {
            lemma_wrap_near(self + o, Self::lowest(), Self::modulus());
        }
        self.wrapping_add(o)
    }

    fn sub_wrapping(self, o: usize) -> (r: usize) {
        proof {
            lemma_wrap_near(self - o, Self::lowest(), Self::modulus());
        }
        self.wrapping_sub(o)
    }

    fn bit_and(self, o: usize) -> (r: usize) {
        self & o
    }

    fn bit_or(self, o: usize) -> (r: usize) {
        self | o
    }

    fn bit_xor(self, o: usize) -> (r: usize) {
        self ^ o
    }

    fn bit_nand(self, o: usize) -> (r: usize) {
        !(self & o)
    }

    fn larger(self, o: usize) -> (r: usize) {
        if self >= o {
            self
        } else {
            o
        }
    }

    fn smaller(self, o: usize) -> (r: usize) {
        if self <= o {
            self
        } else {
            o
        }
    }
}

impl FallbackInt for isize {
    open spec fn int_value(self) -> int {
        self as int
    }

    open spec fn lowest() -> int {
        isize::MIN as int
    }

    open spec fn modulus() -> int {
        usize::MAX as int + 1
    }

    open spec fn add_spec(self, o: isize) -> isize {
        wrap(self + o, Self::lowest(), Self::modulus()) as isize
    }

    open spec fn sub_spec(self, o: isize) -> isize {
        wrap(self - o, Self::lowest(), Self::modulus()) as isize
    }

    open spec fn max_spec(self, o: isize) -> isize {
        if self >= o {
            self
        } else {
            o
        }
    }

    open spec fn min_spec(self, o: isize) -> isize {
        if self <= o {
            self
        } else {
            o
        }
    }

    open spec fn and_spec(self, o: isize) -> isize {
        self & o
    }

    open spec fn or_spec(self, o: isize) -> isize {
        self | o
    }

    open spec fn xor_spec(self, o: isize) -> isize {
        self ^ o
    }

    open spec fn nand_spec(self, o: isize) -> isize {
        !(self & o)
    }

    proof fn lemma_int_value(self) {
    }

    proof fn lemma_compare(self, o: isize) {
    }

    proof fn lemma_wrapping(self, o: isize) {
        lemma_wrap_near(self + o, Self::lowest(), Self::modulus());
        lemma_wrap_near(self - o, Self::lowest(), Self::modulus());
    }

    fn same(self, o: isize) -> (r: bool) {
        self == o
    }

    fn add_wrapping(self, o: isize) -> (r: isize) {
        proof {
            lemma_wrap_near(self + o, Self::lowest(), Self::modulus());
        }
        self.wrapping_add(o)
    }

    fn sub_wrapping(self, o: isize) -> (r: isize) {
        proof {
            lemma_wrap_near(self - o, Self::lowest(), Self::modulus());
        }
        self.wrapping_sub(o)
    }

    fn bit_and(self, o: isize) -> (r: isize) {
        self & o
    }

    fn bit_or(self, o: isize) -> (r: isize) {
        self | o
    }

    fn bit_xor(self, o: isize) -> (r: isize) {
        self ^ o
    }

    fn bit_nand(self, o: isize) -> (r: isize) {
        !(self & o)
    }

    fn larger(self, o: isize) -> (r: isize) {
        if self >= o {
            self
        } else {
            o
        }
    }

    fn smaller(self, o: isize) -> (r: isize) {
        if self <= o {
            self
        } else {
            o
        }
    }
}

} // verus!
