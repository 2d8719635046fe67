//! The shared amplitude cell.

use std::sync::atomic::AtomicU32;
use std::sync::atomic::Ordering;
use vstd::prelude::*;

verus! {

/// A lock-free register holding one binary32 bit pattern.
///
/// Every holder of a reference may read and write it at any time, so the
/// value seen by a read is decided by whichever write completed last on any
/// thread. A contract over `&self` therefore promises nothing about it; what
/// the callers do with a value once read is stated on the functions that take
/// the value as an argument. The one thing no write can change is what the
/// register was made with, and that is what `initial_bits` records.
pub struct ParameterStore {
    cell: AtomicU32,
    initial: Ghost<u32>,
}

impl ParameterStore {
    /// The bit pattern the register was made with: what a read gives until
    /// the first write completes.
    pub closed spec fn initial_bits(&self) -> u32 {
        self.initial@
    }

    /// A register that initially holds `bits`.
    pub fn new(bits: u32) -> (store: Self)
        ensures
            store.initial_bits() == bits,
    {
        ParameterStore { cell: AtomicU32::new(bits), initial: Ghost(bits) }
    }

    /// The bit pattern of the most recently completed write. One atomic load:
    /// never blocks, never allocates, never yields a mixture of two writes.
    pub fn get(&self) -> (bits: u32) {
        self.cell.load(Ordering::Relaxed)
    }

    /// Replaces the held bit pattern with `bits`, whatever it encodes. One
    /// atomic store: never blocks, never allocates.
    pub fn set(&self, bits: u32) {
        self.cell.store(bits, Ordering::Relaxed)
    }
}

} // verus!
