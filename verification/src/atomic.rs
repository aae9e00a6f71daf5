//! Lock-free holders of one or two single-precision values.
//!
//! The pair variant keeps both values in one 64-bit word, so that a reader
//! always sees two values that one writer stored together. Other threads may
//! store at any time: what a load returns is whatever was stored last, and no
//! contract here says which value that is.

use crate::pack::f32x2_to_u64;
use crate::pack::u64_to_f32x2;
use std::sync::atomic::AtomicU32;
use std::sync::atomic::AtomicU64;
use std::sync::atomic::Ordering;
use vstd::prelude::*;

verus! {

/// One single-precision value, by its bit pattern, that can be read and
/// written from several threads.
#[derive(Debug)]
pub struct AtomicF32(AtomicU32);

impl AtomicF32 {
    pub fn new(value: u32) -> AtomicF32 {
        AtomicF32(AtomicU32::new(value))
    }

    pub fn into_inner(self) -> u32 {
        word32_into_inner(self.0)
    }

    pub fn load(&self, order: Ordering) -> u32 {
        self.0.load(order)
    }

    pub fn store(&self, val: u32, order: Ordering) {
        self.0.store(val, order);
    }

    pub fn swap(&self, val: u32, order: Ordering) -> u32 {
        self.0.swap(val, order)
    }
}

/// Two single-precision values, by their bit patterns, that are read and
/// written as one unit.
#[derive(Debug)]
pub struct AtomicF32x2(AtomicU64);

impl AtomicF32x2 {
    pub fn new(x: u32, y: u32) -> AtomicF32x2 {
        AtomicF32x2(AtomicU64::new(f32x2_to_u64(x, y)))
    }

    pub fn into_inner(self) -> [u32; 2] {
        u64_to_f32x2(word64_into_inner(self.0))
    }

    pub fn load(&self, order: Ordering) -> [u32; 2] {
        u64_to_f32x2(self.0.load(order))
    }

    pub fn store(&self, x: u32, y: u32, order: Ordering) {
        self.0.store(f32x2_to_u64(x, y), order);
    }

    pub fn swap(&mut self, x: u32, y: u32, order: Ordering) -> [u32; 2] {
        u64_to_f32x2(self.0.swap(f32x2_to_u64(x, y), order))
    }
}

/// Takes the value out of an atomic word that nobody else holds.
///
/// This is `AtomicU32::into_inner`. Nothing is stated of the value.
#[verifier::external_body]
fn word32_into_inner(word: AtomicU32) -> u32 {
    word.into_inner()
}

/// Takes the value out of an atomic word that nobody else holds.
///
/// This is `AtomicU64::into_inner`. Nothing is stated of the value.
#[verifier::external_body]
fn word64_into_inner(word: AtomicU64) -> u64 {
    word.into_inner()
}

} // verus!
