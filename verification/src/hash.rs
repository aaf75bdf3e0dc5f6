//! Hashing of erased payloads.
//!
//! A payload is hashed by re-encoding it through the wire encoding and
//! feeding each emitted byte into a caller-supplied accumulator in place of
//! an output buffer, so equal payloads feed equal byte streams into any
//! accumulator.  [`Fnv1aHasher`] is the accumulator this crate provides.

use vstd::prelude::*;

verus! {

/// A caller-supplied hash accumulator: a fold over the bytes fed to it.
pub trait PayloadHasher: Sized {
    spec fn wf(&self) -> bool;

    spec fn fed(&self) -> Seq<u8>;

    fn write_byte(&mut self, b: u8)
        requires
            old(self).wf(),
        ensures
            final(self).wf(),
            final(self).fed() == old(self).fed().push(b),
    ;
}

/// The 64-bit FNV-1a offset basis.
pub const FNV_OFFSET: u64 = 0xcbf29ce484222325;

/// The 64-bit FNV-1a prime.
pub const FNV_PRIME: u64 = 0x100000001b3;

/// The FNV-1a fold: xor each byte in, then multiply by the prime modulo the
/// word.
pub open spec fn fnv1a(bytes: Seq<u8>) -> u64
    decreases bytes.len(),
{
    if bytes.len() == 0 {
        FNV_OFFSET
    } else {
        ((((fnv1a(bytes.drop_last()) ^ (bytes.last() as u64)) as nat) * (FNV_PRIME as nat) % (
        0x10000000000000000 as nat)) as u64)
    }
}

/// A 64-bit FNV-1a accumulator.
pub struct Fnv1aHasher {
    state: u64,
    bytes: Ghost<Seq<u8>>,
}

impl Fnv1aHasher {
    /// A fresh accumulator, at the offset basis.
    pub fn new() -> (r: Fnv1aHasher)
        ensures
            r.wf(),
            r.fed() == Seq::<u8>::empty(),
    {
        Fnv1aHasher { state: FNV_OFFSET, bytes: Ghost(Seq::empty()) }
    }

    /// The hash of everything fed so far.
    pub fn finish(&self) -> (r: u64)
        requires
            self.wf(),
        ensures
            r == fnv1a(self.fed()),
    {
        self.state
    }
}

impl PayloadHasher for Fnv1aHasher {
    closed spec fn wf(&self) -> bool {
        self.state == fnv1a(self.bytes@)
    }

    closed spec fn fed(&self) -> Seq<u8> {
        self.bytes@
    }

    fn write_byte(&mut self, b: u8) {
        proof {
            assert(self.bytes@.push(b).drop_last() =~= self.bytes@);
            assert(self.bytes@.push(b).last() == b);
        }
        self.state = (self.state ^ (b as u64)).wrapping_mul(FNV_PRIME);
        self.bytes = Ghost(self.bytes@.push(b));
    }
}

} // verus!
