use std::ops::RangeInclusive;
use vstd::prelude::*;

verus! {

/// Generator of the primitive values that every other generator of this
/// crate is built on.
///
/// Each method returns a value of the requested inclusive range; a range
/// whose bounds coincide therefore yields exactly that bound.
pub trait RawGenerator {
    /// Generates a random [u8] in the given range.
    fn u8(&self, range: RangeInclusive<u8>) -> (r: u8)
        requires
            !range@.exhausted,
            range@.start <= range@.end,
        ensures
            range@.start <= r <= range@.end,
            range@.start == range@.end ==> r == range@.start,
    ;

    /// Generates a random [u16] in the given range.
    fn u16(&self, range: RangeInclusive<u16>) -> (r: u16)
        requires
            !range@.exhausted,
            range@.start <= range@.end,
        ensures
            range@.start <= r <= range@.end,
            range@.start == range@.end ==> r == range@.start,
    ;

    /// Generates a random [u32] in the given range.
    fn u32(&self, range: RangeInclusive<u32>) -> (r: u32)
        requires
            !range@.exhausted,
            range@.start <= range@.end,
        ensures
            range@.start <= r <= range@.end,
            range@.start == range@.end ==> r == range@.start,
    ;

    /// Generates a random [u64] in the given range.
    fn u64(&self, range: RangeInclusive<u64>) -> (r: u64)
        requires
            !range@.exhausted,
            range@.start <= range@.end,
        ensures
            range@.start <= r <= range@.end,
            range@.start == range@.end ==> r == range@.start,
    ;

    /// Generates a random [u128] in the given range.
    fn u128(&self, range: RangeInclusive<u128>) -> (r: u128)
        requires
            !range@.exhausted,
            range@.start <= range@.end,
        ensures
            range@.start <= r <= range@.end,
            range@.start == range@.end ==> r == range@.start,
    ;

    /// Generates a random [i128] in the given range.
    fn i128(&self, range: RangeInclusive<i128>) -> (r: i128)
        requires
            !range@.exhausted,
            range@.start <= range@.end,
        ensures
            range@.start <= r <= range@.end,
            range@.start == range@.end ==> r == range@.start,
    ;

    /// Generates a random [bool].
    fn bool(&self) -> (r: bool);
}

/// Implementation of [RawGenerator] based on the thread-local generator
/// of `fastrand`.
pub struct FastRandGenerator;

impl FastRandGenerator {
    /// Creates a new instance of the generator.
    pub fn new() -> (r: Self) {
        Self
    }
}

impl Default for FastRandGenerator {
    fn default() -> (r: Self) {
        Self::new()
    }
}

/// Relies on fastrand::u8: a value of the range, which must not be empty.
#[verifier::external_body]
fn fastrand_u8(range: RangeInclusive<u8>) -> (r: u8)
    requires
        !range@.exhausted,
        range@.start <= range@.end,
    ensures
        range@.start <= r <= range@.end,
{
    fastrand::u8(range)
}

/// Relies on fastrand::u16: a value of the range, which must not be empty.
#[verifier::external_body]
fn fastrand_u16(range: RangeInclusive<u16>) -> (r: u16)
    requires
        !range@.exhausted,
        range@.start <= range@.end,
    ensures
        range@.start <= r <= range@.end,
{
    fastrand::u16(range)
}

/// Relies on fastrand::u32: a value of the range, which must not be empty.
#[verifier::external_body]
fn fastrand_u32(range: RangeInclusive<u32>) -> (r: u32)
    requires
        !range@.exhausted,
        range@.start <= range@.end,
    ensures
        range@.start <= r <= range@.end,
{
    fastrand::u32(range)
}

/// Relies on fastrand::u64: a value of the range, which must not be empty.
#[verifier::external_body]
fn fastrand_u64(range: RangeInclusive<u64>) -> (r: u64)
    requires
        !range@.exhausted,
        range@.start <= range@.end,
    ensures
        range@.start <= r <= range@.end,
{
    fastrand::u64(range)
}

/// Relies on fastrand::u128: a value of the range, which must not be empty.
#[verifier::external_body]
fn fastrand_u128(range: RangeInclusive<u128>) -> (r: u128)
    requires
        !range@.exhausted,
        range@.start <= range@.end,
    ensures
        range@.start <= r <= range@.end,
{
    fastrand::u128(range)
}

/// Relies on fastrand::i128: a value of the range, which must not be empty.
#[verifier::external_body]
fn fastrand_i128(range: RangeInclusive<i128>) -> (r: i128)
    requires
        !range@.exhausted,
        range@.start <= range@.end,
    ensures
        range@.start <= r <= range@.end,
{
    fastrand::i128(range)
}

/// Relies on fastrand::bool: any boolean.
#[verifier::external_body]
fn fastrand_bool() -> (r: bool) {
    fastrand::bool()
}

impl RawGenerator for FastRandGenerator {
    fn u8(&self, range: RangeInclusive<u8>) -> (r: u8) {
        fastrand_u8(range)
    }

    fn u16(&self, range: RangeInclusive<u16>) -> (r: u16) {
        fastrand_u16(range)
    }

    fn u32(&self, range: RangeInclusive<u32>) -> (r: u32) {
        fastrand_u32(range)
    }

    fn u64(&self, range: RangeInclusive<u64>) -> (r: u64) {
        fastrand_u64(range)
    }

    fn u128(&self, range: RangeInclusive<u128>) -> (r: u128) {
        fastrand_u128(range)
    }

    fn i128(&self, range: RangeInclusive<i128>) -> (r: i128) {
        fastrand_i128(range)
    }

    fn bool(&self) -> (r: bool) {
        fastrand_bool()
    }
}

} // verus!
