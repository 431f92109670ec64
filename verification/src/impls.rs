//! [`Format`] implementations for the primitive wire value kinds.
//!
//! Generated encoders for user record types bottom out in these: each
//! writes the field through the matching primitive operation of the
//! formatter, so a record's wire form is the concatenation of its fields'
//! wire forms in declaration order.

use crate::fmt::le16;
use crate::fmt::le32;
use crate::fmt::u16_of_i16;
use crate::fmt::u32_of_i32;
use crate::fmt::u8_of_i8;
use crate::fmt::Format;
use crate::fmt::Formatter;
use crate::intern::istr_encoding;
use crate::intern::Str;
use vstd::prelude::*;

verus! {

impl Format for u8 {
    open spec fn wire(&self) -> Seq<u8> {
        seq![*self]
    }

    fn format(&self, fmt: &mut Formatter) {
        fmt.u8(self)
    }
}

impl Format for u16 {
    open spec fn wire(&self) -> Seq<u8> {
        le16(*self)
    }

    fn format(&self, fmt: &mut Formatter) {
        fmt.u16(self)
    }
}

impl Format for u32 {
    open spec fn wire(&self) -> Seq<u8> {
        le32(*self)
    }

    fn format(&self, fmt: &mut Formatter) {
        fmt.u32(self)
    }
}

impl Format for i8 {
    open spec fn wire(&self) -> Seq<u8> {
        seq![u8_of_i8(*self)]
    }

    fn format(&self, fmt: &mut Formatter) {
        fmt.i8(self)
    }
}

impl Format for i16 {
    open spec fn wire(&self) -> Seq<u8> {
        le16(u16_of_i16(*self))
    }

    fn format(&self, fmt: &mut Formatter) {
        fmt.i16(self)
    }
}

impl Format for i32 {
    open spec fn wire(&self) -> Seq<u8> {
        le32(u32_of_i32(*self))
    }

    fn format(&self, fmt: &mut Formatter) {
        fmt.i32(self)
    }
}

impl Format for Str {
    open spec fn wire(&self) -> Seq<u8> {
        istr_encoding(self.addr())
    }

    fn format(&self, fmt: &mut Formatter) {
        fmt.istr(self)
    }
}

} // verus!
