//! Base generators for the numeric primitives, `bool` and `char`.
//!
//! Each integer generator draws uniformly from `[min, max)` of its
//! type. When `limited` is true the draw is clamped to a shared
//! envelope — `[0, UINT_LIMIT)` for unsigned types, `[INT_LOWER_LIMIT,
//! INT_UPPER_LIMIT)` for signed ones — so that values survive
//! consumers with narrower numeric domains. Types already narrower
//! than the envelope always use their full range.

use vstd::prelude::*;
use crate::Random;
use crate::rng;

verus! {

/// Exclusive upper bound of the clamped envelope for unsigned integers.
pub const UINT_LIMIT: u64 = 65535;

/// Inclusive lower bound of the clamped envelope for signed integers.
pub const INT_LOWER_LIMIT: i64 = -65535;

/// Exclusive upper bound of the clamped envelope for signed integers.
pub const INT_UPPER_LIMIT: i64 = 65535;

pub fn random_u8() -> (r: u8)
    ensures
        r < u8::MAX,
{
    let x = rng::rand_range_u64(0, 255);
    x as u8
}

pub fn random_u16() -> (r: u16)
    ensures
        r < u16::MAX,
{
    let x = rng::rand_range_u64(0, 65535);
    x as u16
}

pub fn random_u32(limited: bool) -> (r: u32)
    ensures
        r < u32::MAX,
        limited ==> r < UINT_LIMIT,
{
    let x = if limited {
        rng::rand_range_u64(0, UINT_LIMIT)
    } else {
        rng::rand_range_u64(0, u32::MAX as u64)
    };
    x as u32
}

pub fn random_u64(limited: bool) -> (r: u64)
    ensures
        r < u64::MAX,
        limited ==> r < UINT_LIMIT,
{
    if limited {
        rng::rand_range_u64(0, UINT_LIMIT)
    } else {
        rng::rand_range_u64(0, u64::MAX)
    }
}

pub fn random_usize(limited: bool) -> (r: usize)
    ensures
        r < usize::MAX,
        limited ==> r < UINT_LIMIT as usize,
{
    let x = if limited {
        rng::rand_range_u64(0, UINT_LIMIT)
    } else {
        rng::rand_range_u64(0, usize::MAX as u64)
    };
    x as usize
}

pub fn random_i8() -> (r: i8)
    ensures
        i8::MIN <= r < i8::MAX,
{
    let x = rng::rand_range_i64(-128, 127);
    x as i8
}

pub fn random_i16() -> (r: i16)
    ensures
        i16::MIN <= r < i16::MAX,
{
    let x = rng::rand_range_i64(-32768, 32767);
    x as i16
}

pub fn random_i32(limited: bool) -> (r: i32)
    ensures
        i32::MIN <= r < i32::MAX,
        limited ==> (INT_LOWER_LIMIT <= r as i64 && (r as i64) < INT_UPPER_LIMIT),
{
    let x = if limited {
        rng::rand_range_i64(INT_LOWER_LIMIT, INT_UPPER_LIMIT)
    } else {
        rng::rand_range_i64(i32::MIN as i64, i32::MAX as i64)
    };
    x as i32
}

pub fn random_i64(limited: bool) -> (r: i64)
    ensures
        i64::MIN <= r < i64::MAX,
        limited ==> (INT_LOWER_LIMIT <= r && r < INT_UPPER_LIMIT),
{
    if limited {
        rng::rand_range_i64(INT_LOWER_LIMIT, INT_UPPER_LIMIT)
    } else {
        rng::rand_range_i64(i64::MIN, i64::MAX)
    }
}

pub fn random_isize(limited: bool) -> (r: isize)
    ensures
        isize::MIN <= r < isize::MAX,
        limited ==> (INT_LOWER_LIMIT <= r as i64 && (r as i64) < INT_UPPER_LIMIT),
{
    let x = if limited {
        rng::rand_range_i64(INT_LOWER_LIMIT, INT_UPPER_LIMIT)
    } else {
        rng::rand_range_i64(isize::MIN as i64, isize::MAX as i64)
    };
    x as isize
}

/// The numerator of a generated fractional value: the value stands for
/// `r / 1000`, so it lies in `[0, 1]` with three decimal places. Kept
/// as an integer so that it survives a round trip through any decimal
/// text format exactly.
pub fn random_thousandths() -> (r: u32)
    ensures
        r <= 1000,
{
    let x = rng::rand_range_u64(0, 1001);
    x as u32
}

/// The numerators of a generated sequence of fractional values: a
/// length below `LEN_LIMIT` is chosen, then that many independent
/// thousandths are drawn.
pub fn random_thousandths_vec() -> (v: Vec<u32>)
    ensures
        v@.len() < crate::LEN_LIMIT as nat,
        forall|i: int| 0 <= i < v@.len() ==> v@[i] <= 1000,
{
    let len = rng::rand_range_u64(0, crate::LEN_LIMIT as u64) as usize;
    let mut v: Vec<u32> = Vec::new();
    let mut i: usize = 0;
    while i < len
        invariant
            i <= len,
            len < crate::LEN_LIMIT,
            v@.len() == i as nat,
            forall|j: int| 0 <= j < v@.len() ==> v@[j] <= 1000,
        decreases len - i,
    {
        v.push(random_thousandths());
        i = i + 1;
    }
    v
}

impl Random for u8 {
    open spec fn gen_valid(&self) -> bool {
        *self < u8::MAX
    }

    fn random() -> (r: Self) {
        random_u8()
    }
}

impl Random for u16 {
    open spec fn gen_valid(&self) -> bool {
        *self < u16::MAX
    }

    fn random() -> (r: Self) {
        random_u16()
    }
}

impl Random for u32 {
    open spec fn gen_valid(&self) -> bool {
        *self < u32::MAX
    }

    fn random() -> (r: Self) {
        random_u32(false)
    }
}

impl Random for u64 {
    open spec fn gen_valid(&self) -> bool {
        *self < u64::MAX
    }

    fn random() -> (r: Self) {
        random_u64(false)
    }
}

impl Random for usize {
    open spec fn gen_valid(&self) -> bool {
        *self < usize::MAX
    }

    fn random() -> (r: Self) {
        random_usize(false)
    }
}

impl Random for i8 {
    open spec fn gen_valid(&self) -> bool {
        *self < i8::MAX
    }

    fn random() -> (r: Self) {
        random_i8()
    }
}

impl Random for i16 {
    open spec fn gen_valid(&self) -> bool {
        *self < i16::MAX
    }

    fn random() -> (r: Self) {
        random_i16()
    }
}

impl Random for i32 {
    open spec fn gen_valid(&self) -> bool {
        *self < i32::MAX
    }

    fn random() -> (r: Self) {
        random_i32(false)
    }
}

impl Random for i64 {
    open spec fn gen_valid(&self) -> bool {
        *self < i64::MAX
    }

    fn random() -> (r: Self) {
        random_i64(false)
    }
}

impl Random for isize {
    open spec fn gen_valid(&self) -> bool {
        *self < isize::MAX
    }

    fn random() -> (r: Self) {
        random_isize(false)
    }
}

impl Random for bool {
    open spec fn gen_valid(&self) -> bool {
        true
    }

    fn random() -> (r: Self) {
        rng::rand_bool()
    }
}

impl Random for char {
    open spec fn gen_valid(&self) -> bool {
        true
    }

    fn random() -> (r: Self) {
        rng::rand_char()
    }
}

} // verus!
