//! Deferred binary logging core.
//!
//! Log events are not formatted as text on the device that emits them.
//! Instead, each event is encoded as a compact byte stream: an interned
//! format-string address followed by packed argument bytes. A host-side
//! decoder (out of scope here) later reconstructs readable text from the
//! string table of the emitting binary.
//!
//! The crate provides:
//! - the varint codec for unsigned 64-bit integers ([`leb`]);
//! - the interned string handle and its two-case address encoding
//!   ([`intern`]);
//! - the wire encoder with one primitive per wire value kind ([`fmt`]);
//! - the single-owner acquire/release protocol that hands exclusive,
//!   temporary ownership of the one global sink to whichever call site is
//!   currently emitting a record ([`logger`]).

pub mod fmt;
pub mod impls;
pub mod intern;
pub mod leb;
pub mod logger;

pub use fmt::Format;
pub use fmt::Formatter;
pub use fmt::Write;
pub use intern::Str;
pub use logger::GlobalLoggerState;
pub use logger::Logger;
