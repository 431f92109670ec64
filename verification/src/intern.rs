//! Interned strings and the on-wire encoding of their addresses.
//!
//! Each literal string used by a log statement is assigned, at build time,
//! a unique address below 2^14; only that address travels over the wire.
//! Addresses below 128 encode as a single byte; addresses from 128 to
//! 16383 encode as two bytes, a restricted two-byte LEB128 form capped at
//! 14 bits. Allocating addresses is the build tooling's concern, not this
//! crate's; here the address is a plain value with its invariant.

use vstd::prelude::*;

verus! {

/// Largest number of interned strings a build may have: addresses lie in
/// `[0, 2^14)`.
pub const ADDRESS_LIMIT: u16 = 0x4000;

/// An interned string: a handle holding a 14-bit address into the build's
/// string table. Immutable and copyable; the address stays below 2^14 for
/// the whole life of the value.
#[derive(Clone, Copy)]
pub struct Str {
    address: u16,
}

impl Str {
    /// The table address this handle stands for.
    pub closed spec fn addr(&self) -> u16 {
        self.address
    }

    #[verifier::type_invariant]
    spec fn wf(self) -> bool {
        self.address < ADDRESS_LIMIT
    }

    /// Makes a handle for `address`. Only the build-time interning
    /// mechanism hands out addresses; they are unique per literal and
    /// always below 2^14.
    pub fn new(address: u16) -> (s: Str)
        requires
            address < ADDRESS_LIMIT,
        ensures
            s.addr() == address,
    {
        Str { address }
    }

    /// The address as a plain integer.
    pub fn address(&self) -> (a: u16)
        ensures
            a == self.addr(),
            a < ADDRESS_LIMIT,
    {
        proof {
            use_type_invariant(self);
        }
        self.address
    }
}

/// The one- or two-byte wire form of an interned-string address: one byte
/// equal to the address when it is below 128, else the low 7 bits with the
/// continuation bit set, followed by the remaining high bits.
pub open spec fn istr_encoding(a: u16) -> Seq<u8> {
    if a < 0x80 {
        seq![a as u8]
    } else {
        seq![((a % 0x80) + 0x80) as u8, (a / 0x80) as u8]
    }
}

/// The address that a one- or two-byte wire form stands for.
pub open spec fn istr_decode(s: Seq<u8>) -> int {
    if s.len() == 1 {
        s[0] as int
    } else {
        (s[0] % 0x80) + 0x80 * (s[1] as int)
    }
}

/// Interned-address round trip: for every address below 2^14, decoding
/// the two-case encoding yields the address back; the encoding takes one
/// byte below 128 and two bytes otherwise.
pub proof fn lemma_istr_round_trip(a: u16)
    requires
        a < ADDRESS_LIMIT,
    ensures
        istr_decode(istr_encoding(a)) == a,
        a < 0x80 ==> istr_encoding(a).len() == 1,
        a >= 0x80 ==> istr_encoding(a).len() == 2,
{
}

} // verus!
