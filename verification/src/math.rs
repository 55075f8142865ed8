use crate::attributes::int_abs;
use vstd::prelude::*;

verus! {

/// Absolute difference between two values of the same numeric type, and whether two
/// values differ by at least one unit.
pub trait AbsDiff: Sized {
    type Output;

    /// Whether `|self - rhs|` can be computed without overflow.
    spec fn diff_defined(self, rhs: Self) -> bool;

    /// The mathematical value `|self - rhs|`.
    spec fn spec_abs_diff(self, rhs: Self) -> int;

    /// The mathematical value of an output.
    spec fn output_int(out: Self::Output) -> int;

    /// Two values differ by at least one unit exactly when they are not equal, and
    /// their difference does not depend on the order in which they are given.
    proof fn lemma_abs_diff_laws(self, rhs: Self)
        ensures
            (self.spec_abs_diff(rhs) >= 1) <==> self != rhs,
            self.spec_abs_diff(rhs) == rhs.spec_abs_diff(self),
    ;

    fn abs_diff(self, rhs: Self) -> (r: Self::Output)
        requires
            self.diff_defined(rhs),
        ensures
            Self::output_int(r) == self.spec_abs_diff(rhs),
    ;

    fn are_different(self, rhs: Self) -> (r: bool)
        requires
            self.diff_defined(rhs),
        ensures
            r == (self.spec_abs_diff(rhs) >= 1),
    ;
}

impl AbsDiff for i8 {
    type Output = i8;

    open spec fn diff_defined(self, rhs: Self) -> bool {
        i8::MIN < self - rhs <= i8::MAX
    }

    open spec fn spec_abs_diff(self, rhs: Self) -> int {
        int_abs(self - rhs)
    }

    open spec fn output_int(out: i8) -> int {
        out as int
    }

    proof fn lemma_abs_diff_laws(self, rhs: Self) {
    }

    fn abs_diff(self, rhs: i8) -> (r: i8) {
        let d = self - rhs;
        if d < 0 {
            -d
        } else {
            d
        }
    }

    fn are_different(self, rhs: i8) -> (r: bool) {
        AbsDiff::abs_diff(self, rhs) >= 1
    }
}

impl AbsDiff for i16 {
    type Output = i16;

    open spec fn diff_defined(self, rhs: Self) -> bool {
        i16::MIN < self - rhs <= i16::MAX
    }

    open spec fn spec_abs_diff(self, rhs: Self) -> int {
        int_abs(self - rhs)
    }

    open spec fn output_int(out: i16) -> int {
        out as int
    }

    proof fn lemma_abs_diff_laws(self, rhs: Self) {
    }

    fn abs_diff(self, rhs: i16) -> (r: i16) {
        let d = self - rhs;
        if d < 0 {
            -d
        } else {
            d
        }
    }

    fn are_different(self, rhs: i16) -> (r: bool) {
        AbsDiff::abs_diff(self, rhs) >= 1
    }
}

impl AbsDiff for i32 {
    type Output = i32;

    open spec fn diff_defined(self, rhs: Self) -> bool {
        i32::MIN < self - rhs <= i32::MAX
    }

    open spec fn spec_abs_diff(self, rhs: Self) -> int {
        int_abs(self - rhs)
    }

    open spec fn output_int(out: i32) -> int {
        out as int
    }

    proof fn lemma_abs_diff_laws(self, rhs: Self) {
    }

    fn abs_diff(self, rhs: i32) -> (r: i32) {
        let d = self - rhs;
        if d < 0 {
            -d
        } else {
            d
        }
    }

    fn are_different(self, rhs: i32) -> (r: bool) {
        AbsDiff::abs_diff(self, rhs) >= 1
    }
}

impl AbsDiff for i64 {
    type Output = i64;

    open spec fn diff_defined(self, rhs: Self) -> bool {
        i64::MIN < self - rhs <= i64::MAX
    }

    open spec fn spec_abs_diff(self, rhs: Self) -> int {
        int_abs(self - rhs)
    }

    open spec fn output_int(out: i64) -> int {
        out as int
    }

    proof fn lemma_abs_diff_laws(self, rhs: Self) {
    }

    fn abs_diff(self, rhs: i64) -> (r: i64) {
        let d = self - rhs;
        if d < 0 {
            -d
        } else {
            d
        }
    }

    fn are_different(self, rhs: i64) -> (r: bool) {
        AbsDiff::abs_diff(self, rhs) >= 1
    }
}

impl AbsDiff for i128 {
    type Output = i128;

    open spec fn diff_defined(self, rhs: Self) -> bool {
        i128::MIN < self - rhs <= i128::MAX
    }

    open spec fn spec_abs_diff(self, rhs: Self) -> int {
        int_abs(self - rhs)
    }

    open spec fn output_int(out: i128) -> int {
        out as int
    }

    proof fn lemma_abs_diff_laws(self, rhs: Self) {
    }

    fn abs_diff(self, rhs: i128) -> (r: i128) {
        let d = self - rhs;
        if d < 0 {
            -d
        } else {
            d
        }
    }

    fn are_different(self, rhs: i128) -> (r: bool) {
        AbsDiff::abs_diff(self, rhs) >= 1
    }
}

impl AbsDiff for isize {
    type Output = isize;

    open spec fn diff_defined(self, rhs: Self) -> bool {
        isize::MIN < self - rhs <= isize::MAX
    }

    open spec fn spec_abs_diff(self, rhs: Self) -> int {
        int_abs(self - rhs)
    }

    open spec fn output_int(out: isize) -> int {
        out as int
    }

    proof fn lemma_abs_diff_laws(self, rhs: Self) {
    }

    fn abs_diff(self, rhs: isize) -> (r: isize) {
        let d = self - rhs;
        if d < 0 {
            -d
        } else {
            d
        }
    }

    fn are_different(self, rhs: isize) -> (r: bool) {
        AbsDiff::abs_diff(self, rhs) >= 1
    }
}

impl AbsDiff for u8 {
    type Output = u8;

    open spec fn diff_defined(self, rhs: Self) -> bool {
        true
    }

    open spec fn spec_abs_diff(self, rhs: Self) -> int {
        int_abs(self - rhs)
    }

    open spec fn output_int(out: u8) -> int {
        out as int
    }

    proof fn lemma_abs_diff_laws(self, rhs: Self) {
    }

    fn abs_diff(self, rhs: u8) -> (r: u8) {
        if self >= rhs {
            self - rhs
        } else {
            rhs - self
        }
    }

    fn are_different(self, rhs: u8) -> (r: bool) {
        AbsDiff::abs_diff(self, rhs) > u8::MIN
    }
}

impl AbsDiff for u16 {
    type Output = u16;

    open spec fn diff_defined(self, rhs: Self) -> bool {
        true
    }

    open spec fn spec_abs_diff(self, rhs: Self) -> int {
        int_abs(self - rhs)
    }

    open spec fn output_int(out: u16) -> int {
        out as int
    }

    proof fn lemma_abs_diff_laws(self, rhs: Self) {
    }

    fn abs_diff(self, rhs: u16) -> (r: u16) {
        if self >= rhs {
            self - rhs
        } else {
            rhs - self
        }
    }

    fn are_different(self, rhs: u16) -> (r: bool) {
        AbsDiff::abs_diff(self, rhs) > u16::MIN
    }
}

impl AbsDiff for u32 {
    type Output = u32;

    open spec fn diff_defined(self, rhs: Self) -> bool {
        true
    }

    open spec fn spec_abs_diff(self, rhs: Self) -> int {
        int_abs(self - rhs)
    }

    open spec fn output_int(out: u32) -> int {
        out as int
    }

    proof fn lemma_abs_diff_laws(self, rhs: Self) {
    }

    fn abs_diff(self, rhs: u32) -> (r: u32) {
        if self >= rhs {
            self - rhs
        } else {
            rhs - self
        }
    }

    fn are_different(self, rhs: u32) -> (r: bool) {
        AbsDiff::abs_diff(self, rhs) > u32::MIN
    }
}

impl AbsDiff for u64 {
    type Output = u64;

    open spec fn diff_defined(self, rhs: Self) -> bool {
        true
    }

    open spec fn spec_abs_diff(self, rhs: Self) -> int {
        int_abs(self - rhs)
    }

    open spec fn output_int(out: u64) -> int {
        out as int
    }

    proof fn lemma_abs_diff_laws(self, rhs: Self) {
    }

    fn abs_diff(self, rhs: u64) -> (r: u64) {
        if self >= rhs {
            self - rhs
        } else {
            rhs - self
        }
    }

    fn are_different(self, rhs: u64) -> (r: bool) {
        AbsDiff::abs_diff(self, rhs) > u64::MIN
    }
}

impl AbsDiff for u128 {
    type Output = u128;

    open spec fn diff_defined(self, rhs: Self) -> bool {
        true
    }

    open spec fn spec_abs_diff(self, rhs: Self) -> int {
        int_abs(self - rhs)
    }

    open spec fn output_int(out: u128) -> int {
        out as int
    }

    proof fn lemma_abs_diff_laws(self, rhs: Self) {
    }

    fn abs_diff(self, rhs: u128) -> (r: u128) {
        if self >= rhs {
            self - rhs
        } else {
            rhs - self
        }
    }

    fn are_different(self, rhs: u128) -> (r: bool) {
        AbsDiff::abs_diff(self, rhs) > u128::MIN
    }
}

impl AbsDiff for usize {
    type Output = usize;

    open spec fn diff_defined(self, rhs: Self) -> bool {
        true
    }

    open spec fn spec_abs_diff(self, rhs: Self) -> int {
        int_abs(self - rhs)
    }

    open spec fn output_int(out: usize) -> int {
        out as int
    }

    proof fn lemma_abs_diff_laws(self, rhs: Self) {
    }

    fn abs_diff(self, rhs: usize) -> (r: usize) {
        if self >= rhs {
            self - rhs
        } else {
            rhs - self
        }
    }

    fn are_different(self, rhs: usize) -> (r: bool) {
        AbsDiff::abs_diff(self, rhs) > usize::MIN
    }
}

} // verus!
