//! The integer types that a numeric field can hold.
//!
//! A field is written once, against [`BoundedInt`]: a type whose values are
//! integers of a fixed range that fits in 128 bits with room to spare, so
//! that a step from any value can be computed before it is checked.
use vstd::prelude::*;

verus! {

/// A fixed-width integer type, seen as the range of mathematical integers
/// that it holds.
pub trait BoundedInt: Copy {
    /// The smallest number of the type.
    spec fn lowest() -> int;

    /// The largest number of the type.
    spec fn highest() -> int;

    /// The number that a value stands for.
    spec fn to_int(self) -> int;

    /// The range holds zero and lies within 64 bits, signed or unsigned.
    proof fn lemma_limits()
        ensures
            -0x8000_0000_0000_0000 <= Self::lowest() <= 0,
            0 <= Self::highest() <= 0xffff_ffff_ffff_ffff,
    ;

    /// Every value stands for a number of the range.
    proof fn lemma_in_range(self)
        ensures
            Self::lowest() <= self.to_int() <= Self::highest(),
    ;

    /// Two values that stand for the same number are the same value.
    proof fn lemma_same(self, other: Self)
        requires
            self.to_int() == other.to_int(),
        ensures
            self == other,
    ;

    /// The smallest number of the type.
    fn lowest_value() -> (w: i128)
        ensures
            w == Self::lowest(),
    ;

    /// The largest number of the type.
    fn highest_value() -> (w: i128)
        ensures
            w == Self::highest(),
    ;

    /// The number that the value stands for.
    fn widen(self) -> (w: i128)
        ensures
            w == self.to_int(),
    ;

    /// The value that stands for `w`, where the range holds `w`.
    fn narrow(w: i128) -> (r: Option<Self>)
        ensures
            match r {
                Some(x) => x.to_int() == w,
                None => !(Self::lowest() <= w <= Self::highest()),
            },
    ;
}

/// The number behind an optional bound.
pub open spec fn bound_int<T: BoundedInt>(bound: Option<T>) -> Option<int> {
    match bound {
        Some(x) => Some(x.to_int()),
        None => None,
    }
}

impl BoundedInt for i8 {
    open spec fn lowest() -> int {
        i8::MIN as int
    }

    open spec fn highest() -> int {
        i8::MAX as int
    }

    open spec fn to_int(self) -> int {
        self as int
    }

    proof fn lemma_limits() {
    }

    proof fn lemma_in_range(self) {
    }

    proof fn lemma_same(self, other: Self) {
    }

    fn lowest_value() -> (w: i128) {
        i8::MIN as i128
    }

    fn highest_value() -> (w: i128) {
        i8::MAX as i128
    }

    fn widen(self) -> (w: i128) {
        self as i128
    }

    fn narrow(w: i128) -> (r: Option<Self>) {
        if i8::MIN as i128 <= w && w <= i8::MAX as i128 {
            Some(w as i8)
        } else {
            None
        }
    }
}

impl BoundedInt for i16 {
    open spec fn lowest() -> int {
        i16::MIN as int
    }

    open spec fn highest() -> int {
        i16::MAX as int
    }

    open spec fn to_int(self) -> int {
        self as int
    }

    proof fn lemma_limits() {
    }

    proof fn lemma_in_range(self) {
    }

    proof fn lemma_same(self, other: Self) {
    }

    fn lowest_value() -> (w: i128) {
        i16::MIN as i128
    }

    fn highest_value() -> (w: i128) {
        i16::MAX as i128
    }

    fn widen(self) -> (w: i128) {
        self as i128
    }

    fn narrow(w: i128) -> (r: Option<Self>) {
        if i16::MIN as i128 <= w && w <= i16::MAX as i128 {
            Some(w as i16)
        } else {
            None
        }
    }
}

impl BoundedInt for i32 {
    open spec fn lowest() -> int {
        i32::MIN as int
    }

    open spec fn highest() -> int {
        i32::MAX as int
    }

    open spec fn to_int(self) -> int {
        self as int
    }

    proof fn lemma_limits() {
    }

    proof fn lemma_in_range(self) {
    }

    proof fn lemma_same(self, other: Self) {
    }

    fn lowest_value() -> (w: i128) {
        i32::MIN as i128
    }

    fn highest_value() -> (w: i128) {
        i32::MAX as i128
    }

    fn widen(self) -> (w: i128) {
        self as i128
    }

    fn narrow(w: i128) -> (r: Option<Self>) {
        if i32::MIN as i128 <= w && w <= i32::MAX as i128 {
            Some(w as i32)
        } else {
            None
        }
    }
}

impl BoundedInt for i64 {
    open spec fn lowest() -> int {
        i64::MIN as int
    }

    open spec fn highest() -> int {
        i64::MAX as int
    }

    open spec fn to_int(self) -> int {
        self as int
    }

    proof fn lemma_limits() {
    }

    proof fn lemma_in_range(self) {
    }

    proof fn lemma_same(self, other: Self) {
    }

    fn lowest_value() -> (w: i128) {
        i64::MIN as i128
    }

    fn highest_value() -> (w: i128) {
        i64::MAX as i128
    }

    fn widen(self) -> (w: i128) {
        self as i128
    }

    fn narrow(w: i128) -> (r: Option<Self>) {
        if i64::MIN as i128 <= w && w <= i64::MAX as i128 {
            Some(w as i64)
        } else {
            None
        }
    }
}

impl BoundedInt for u8 {
    open spec fn lowest() -> int {
        u8::MIN as int
    }

    open spec fn highest() -> int {
        u8::MAX as int
    }

    open spec fn to_int(self) -> int {
        self as int
    }

    proof fn lemma_limits() {
    }

    proof fn lemma_in_range(self) {
    }

    proof fn lemma_same(self, other: Self) {
    }

    fn lowest_value() -> (w: i128) {
        u8::MIN as i128
    }

    fn highest_value() -> (w: i128) {
        u8::MAX as i128
    }

    fn widen(self) -> (w: i128) {
        self as i128
    }

    fn narrow(w: i128) -> (r: Option<Self>) {
        if u8::MIN as i128 <= w && w <= u8::MAX as i128 {
            Some(w as u8)
        } else {
            None
        }
    }
}

impl BoundedInt for u16 {
    open spec fn lowest() -> int {
        u16::MIN as int
    }

    open spec fn highest() -> int {
        u16::MAX as int
    }

    open spec fn to_int(self) -> int {
        self as int
    }

    proof fn lemma_limits() {
    }

    proof fn lemma_in_range(self) {
    }

    proof fn lemma_same(self, other: Self) {
    }

    fn lowest_value() -> (w: i128) {
        u16::MIN as i128
    }

    fn highest_value() -> (w: i128) {
        u16::MAX as i128
    }

    fn widen(self) -> (w: i128) {
        self as i128
    }

    fn narrow(w: i128) -> (r: Option<Self>) {
        if u16::MIN as i128 <= w && w <= u16::MAX as i128 {
            Some(w as u16)
        } else {
            None
        }
    }
}

impl BoundedInt for u32 {
    open spec fn lowest() -> int {
        u32::MIN as int
    }

    open spec fn highest() -> int {
        u32::MAX as int
    }

    open spec fn to_int(self) -> int {
        self as int
    }

    proof fn lemma_limits() {
    }

    proof fn lemma_in_range(self) {
    }

    proof fn lemma_same(self, other: Self) {
    }

    fn lowest_value() -> (w: i128) {
        u32::MIN as i128
    }

    fn highest_value() -> (w: i128) {
        u32::MAX as i128
    }

    fn widen(self) -> (w: i128) {
        self as i128
    }

    fn narrow(w: i128) -> (r: Option<Self>) {
        if u32::MIN as i128 <= w && w <= u32::MAX as i128 {
            Some(w as u32)
        } else {
            None
        }
    }
}

impl BoundedInt for u64 {
    open spec fn lowest() -> int {
        u64::MIN as int
    }

    open spec fn highest() -> int {
        u64::MAX as int
    }

    open spec fn to_int(self) -> int {
        self as int
    }

    proof fn lemma_limits() {
    }

    proof fn lemma_in_range(self) {
    }

    proof fn lemma_same(self, other: Self) {
    }

    fn lowest_value() -> (w: i128) {
        u64::MIN as i128
    }

    fn highest_value() -> (w: i128) {
        u64::MAX as i128
    }

    fn widen(self) -> (w: i128) {
        self as i128
    }

    fn narrow(w: i128) -> (r: Option<Self>) {
        if u64::MIN as i128 <= w && w <= u64::MAX as i128 {
            Some(w as u64)
        } else {
            None
        }
    }
}

impl BoundedInt for isize {
    open spec fn lowest() -> int {
        isize::MIN as int
    }

    open spec fn highest() -> int {
        isize::MAX as int
    }

    open spec fn to_int(self) -> int {
        self as int
    }

    proof fn lemma_limits() {
    }

    proof fn lemma_in_range(self) {
    }

    proof fn lemma_same(self, other: Self) {
    }

    fn lowest_value() -> (w: i128) {
        isize::MIN as i128
    }

    fn highest_value() -> (w: i128) {
        isize::MAX as i128
    }

    fn widen(self) -> (w: i128) {
        self as i128
    }

    fn narrow(w: i128) -> (r: Option<Self>) {
        if isize::MIN as i128 <= w && w <= isize::MAX as i128 {
            Some(w as isize)
        } else {
            None
        }
    }
}

impl BoundedInt for usize {
    open spec fn lowest() -> int {
        usize::MIN as int
    }

    open spec fn highest() -> int {
        usize::MAX as int
    }

    open spec fn to_int(self) -> int {
        self as int
    }

    proof fn lemma_limits() {
    }

    proof fn lemma_in_range(self) {
    }

    proof fn lemma_same(self, other: Self) {
    }

    fn lowest_value() -> (w: i128) {
        usize::MIN as i128
    }

    fn highest_value() -> (w: i128) {
        usize::MAX as i128
    }

    fn widen(self) -> (w: i128) {
        self as i128
    }

    fn narrow(w: i128) -> (r: Option<Self>) {
        if usize::MIN as i128 <= w && w <= usize::MAX as i128 {
            Some(w as usize)
        } else {
            None
        }
    }
}

} // verus!
