//! The wire encoder and the two capabilities around it: the byte sink it
//! targets and the trait a value implements to make itself encodable.
//!
//! A [`Formatter`] exclusively owns one byte sink for the length of a log
//! statement and appends bytes to it: fixed-width little-endian integers,
//! varints, length-prefixed strings and interned-string references. Every
//! operation is total; there is no error path anywhere in the encoder.

use crate::intern::istr_encoding;
use crate::intern::Str;
use crate::leb::varint;
use vstd::prelude::*;
use vstd::string::StringSliceAdditionalSpecFns;

verus! {

/// The two bytes of `v`, least-significant first.
pub open spec fn le16(v: u16) -> Seq<u8> {
    seq![(v % 0x100) as u8, (v / 0x100) as u8]
}

/// The low three bytes of `v`, least-significant first; bits 24 and up do
/// not travel.
pub open spec fn le24(v: u32) -> Seq<u8> {
    seq![(v % 0x100) as u8, ((v / 0x100) % 0x100) as u8, ((v / 0x10000) % 0x100) as u8]
}

/// The four bytes of `v`, least-significant first.
pub open spec fn le32(v: u32) -> Seq<u8> {
    seq![
        (v % 0x100) as u8,
        ((v / 0x100) % 0x100) as u8,
        ((v / 0x10000) % 0x100) as u8,
        (v / 0x1000000) as u8,
    ]
}

/// The two's-complement byte of `v`.
pub open spec fn u8_of_i8(v: i8) -> u8 {
    if v >= 0 {
        v as u8
    } else {
        (v + 0x100) as u8
    }
}

/// The two's-complement 16-bit image of `v`.
pub open spec fn u16_of_i16(v: i16) -> u16 {
    if v >= 0 {
        v as u16
    } else {
        (v + 0x10000) as u16
    }
}

/// The two's-complement 32-bit image of `v`.
pub open spec fn u32_of_i32(v: i32) -> u32 {
    if v >= 0 {
        v as u32
    } else {
        (v + 0x100000000) as u32
    }
}

/// The minimal write-only capability the encoder targets. Writing must not
/// fail: a congested or unavailable transport buffers, drops silently or
/// blocks, but never reports an error and never panics into the encoder.
/// Beyond that, an implementation promises nothing about what it keeps, so
/// a lossy transport can satisfy it.
pub trait Write {
    /// Accepts `bytes` for transmission or storage.
    fn write(&mut self, bytes: &[u8]);
}

/// Handle to the logging sink for the length of one log statement.
///
/// At most one `Formatter` exists per acquired sink at any time; the
/// acquire/release protocol in [`crate::logger`] enforces that, not the
/// encoder itself. The sink is an in-memory byte buffer whose contents are
/// the view `@` of the formatter; a transport drains that buffer outside
/// this crate.
pub struct Formatter {
    bytes: Vec<u8>,
}

impl View for Formatter {
    type V = Seq<u8>;

    closed spec fn view(&self) -> Seq<u8> {
        self.bytes@
    }
}

impl Formatter {
    /// A formatter over a fresh, empty sink.
    pub fn new() -> (f: Formatter)
        ensures
            f@ == Seq::<u8>::empty(),
    {
        Formatter { bytes: Vec::new() }
    }

    /// Binds a formatter to a sink handed over by the logger protocol.
    pub(crate) fn from_buffer(bytes: Vec<u8>) -> (f: Formatter)
        ensures
            f@ == bytes@,
    {
        Formatter { bytes }
    }

    /// Gives the sink back when the log statement is over.
    pub(crate) fn into_buffer(self) -> (out: Vec<u8>)
        ensures
            out@ == self@,
    {
        self.bytes
    }

    /// Everything written so far, in write order.
    pub fn bytes(&self) -> (b: &[u8])
        ensures
            b@ == self@,
    {
        self.bytes.as_slice()
    }

    /// Appends one raw byte.
    fn put(&mut self, b: u8)
        ensures
            final(self)@ == old(self)@ + seq![b],
    {
        self.bytes.push(b);
        proof {
            assert(old(self).bytes@.push(b) =~= old(self)@ + seq![b]);
        }
    }

    /// Appends `bytes` to the sink as they are.
    pub fn write(&mut self, bytes: &[u8])
        ensures
            final(self)@ == old(self)@ + bytes@,
    {
        let mut i: usize = 0;
        while i < bytes.len()
            invariant
                i <= bytes@.len(),
                self.bytes@ == old(self).bytes@ + bytes@.subrange(0, i as int),
            decreases bytes@.len() - i,
        {
            let ghost prev = self.bytes@;
            self.bytes.push(bytes[i]);
            proof {
                assert(bytes@.subrange(0, i + 1) =~= bytes@.subrange(0, i as int).push(
                    bytes@[i as int],
                ));
                assert(prev.push(bytes@[i as int]) =~= old(self).bytes@ + bytes@.subrange(
                    0,
                    i + 1,
                ));
            }
            i = i + 1;
        }
        proof {
            assert(bytes@.subrange(0, bytes@.len() as int) =~= bytes@);
        }
    }

    /// Appends the varint encoding of `x`: 1 to 10 bytes, 7 payload bits
    /// per byte, least-significant group first.
    pub fn leb64(&mut self, x: u64)
        ensures
            final(self)@ == old(self)@ + varint(x),
    {
        let buf = crate::leb::leb64(x);
        self.write(buf.as_slice());
    }

    /// Appends `b` as one byte.
    pub fn u8(&mut self, b: &u8)
        ensures
            final(self)@ == old(self)@ + seq![*b],
    {
        self.put(*b);
    }

    /// Appends `b` as two bytes, little-endian.
    pub fn u16(&mut self, b: &u16)
        ensures
            final(self)@ == old(self)@ + le16(*b),
    {
        let v = *b;
        self.put((v % 0x100) as u8);
        self.put((v / 0x100) as u8);
        proof {
            assert((old(self)@ + seq![(v % 0x100) as u8]) + seq![(v / 0x100) as u8] =~= old(self)@
                + le16(v));
        }
    }

    /// Appends the low three bytes of `b`, little-endian: the compact
    /// 24-bit wire kind.
    pub fn u24(&mut self, b: &u32)
        ensures
            final(self)@ == old(self)@ + le24(*b),
    {
        let v = *b;
        self.put((v % 0x100) as u8);
        self.put(((v / 0x100) % 0x100) as u8);
        self.put(((v / 0x10000) % 0x100) as u8);
        proof {
            assert(((old(self)@ + seq![(v % 0x100) as u8]) + seq![((v / 0x100) % 0x100) as u8])
                + seq![((v / 0x10000) % 0x100) as u8] =~= old(self)@ + le24(v));
        }
    }

    /// Appends `b` as four bytes, little-endian.
    pub fn u32(&mut self, b: &u32)
        ensures
            final(self)@ == old(self)@ + le32(*b),
    {
        let v = *b;
        self.put((v % 0x100) as u8);
        self.put(((v / 0x100) % 0x100) as u8);
        self.put(((v / 0x10000) % 0x100) as u8);
        self.put((v / 0x1000000) as u8);
        proof {
            assert((((old(self)@ + seq![(v % 0x100) as u8]) + seq![((v / 0x100) % 0x100) as u8])
                + seq![((v / 0x10000) % 0x100) as u8]) + seq![(v / 0x1000000) as u8] =~= old(self)@
                + le32(v));
        }
    }

    /// Appends `b` as one two's-complement byte.
    pub fn i8(&mut self, b: &i8)
        ensures
            final(self)@ == old(self)@ + seq![u8_of_i8(*b)],
    {
        let u: u8 = if *b >= 0 {
            *b as u8
        } else {
            ((*b as i16) + 0x100) as u8
        };
        self.put(u);
    }

    /// Appends `b` as two two's-complement bytes, little-endian.
    pub fn i16(&mut self, b: &i16)
        ensures
            final(self)@ == old(self)@ + le16(u16_of_i16(*b)),
    {
        let u: u16 = if *b >= 0 {
            *b as u16
        } else {
            ((*b as i32) + 0x10000) as u16
        };
        self.u16(&u);
    }

    /// Appends `b` as four two's-complement bytes, little-endian.
    pub fn i32(&mut self, b: &i32)
        ensures
            final(self)@ == old(self)@ + le32(u32_of_i32(*b)),
    {
        let u: u32 = if *b >= 0 {
            *b as u32
        } else {
            ((*b as i64) + 0x100000000) as u32
        };
        self.u32(&u);
    }

    /// Appends the length-prefixed raw form of `s`: the varint byte count,
    /// then the UTF-8 bytes as they are — no terminator, no escaping.
    pub fn str(&mut self, s: &str)
        ensures
            final(self)@ == old(self)@ + varint(s.spec_bytes().len() as u64) + s.spec_bytes(),
    {
        let bytes = s.as_bytes();
        self.leb64(bytes.len() as u64);
        self.write(bytes);
    }

    /// Appends the one- or two-byte reference to the interned string `s`.
    pub fn istr(&mut self, s: &Str)
        ensures
            final(self)@ == old(self)@ + istr_encoding(s.addr()),
    {
        let a = s.address();
        if a < 0x80 {
            self.put(a as u8);
        } else {
            self.put(((a % 0x80) + 0x80) as u8);
            self.put((a / 0x80) as u8);
            proof {
                assert((old(self)@ + seq![((a % 0x80) + 0x80) as u8]) + seq![(a / 0x80) as u8]
                    =~= old(self)@ + istr_encoding(s.addr()));
            }
        }
    }

    /// Appends the single truncated byte of `s`'s address. A leftover
    /// single-byte reference writer kept for wire compatibility: an
    /// address of 256 or more loses its high bits here, a known latent
    /// defect, and the writer is slated for removal.
    pub fn prim(&mut self, s: &Str)
        ensures
            final(self)@ == old(self)@ + seq![(s.addr() % 0x100) as u8],
    {
        let a = s.address();
        self.put((a % 0x100) as u8);
    }

    /// Appends the wire representation of any encodable value, dispatched
    /// through its [`Format`] implementation.
    pub fn fmt<T: Format>(&mut self, f: &T)
        ensures
            final(self)@ == old(self)@ + f.wire(),
    {
        f.format(self)
    }
}

impl Write for Formatter {
    /// The in-memory sink: keeps every byte it is handed, in order.
    fn write(&mut self, bytes: &[u8]) {
        Formatter::write(self, bytes)
    }
}

/// The capability a value implements to make itself encodable. One
/// operation: write the value's wire representation into a formatter.
/// Composable with no inheritance implied: a value's implementation may
/// invoke `Format` on its own fields in turn.
pub trait Format {
    /// The wire representation of `self`.
    spec fn wire(&self) -> Seq<u8>;

    /// Writes the wire representation of `self` to `fmt`.
    fn format(&self, fmt: &mut Formatter)
        ensures
            final(fmt)@ == old(fmt)@ + self.wire(),
    ;
}

} // verus!
