//! A printable ASCII cell glyph.

use vstd::prelude::*;

verus! {

/// An ASCII character stored as its byte value.
#[derive(Debug, Clone, Copy, PartialEq, Eq, Structural)]
pub struct AsciiGlyph(pub u8);

impl std::convert::From<u8> for AsciiGlyph {
    fn from(value: u8) -> (r: AsciiGlyph) {
        AsciiGlyph(value)
    }
}

impl vstd::std_specs::convert::FromSpecImpl<u8> for AsciiGlyph {
    open spec fn obeys_from_spec() -> bool {
        true
    }

    open spec fn from_spec(value: u8) -> AsciiGlyph {
        AsciiGlyph(value)
    }
}

impl std::convert::From<AsciiGlyph> for u8 {
    fn from(glyph: AsciiGlyph) -> (r: u8) {
        glyph.0
    }
}

impl vstd::std_specs::convert::FromSpecImpl<AsciiGlyph> for u8 {
    open spec fn obeys_from_spec() -> bool {
        true
    }

    open spec fn from_spec(glyph: AsciiGlyph) -> u8 {
        glyph.0
    }
}

impl std::convert::From<AsciiGlyph> for char {
    fn from(glyph: AsciiGlyph) -> (r: char) {
        glyph.0 as char
    }
}

impl vstd::std_specs::convert::FromSpecImpl<AsciiGlyph> for char {
    open spec fn obeys_from_spec() -> bool {
        true
    }

    open spec fn from_spec(glyph: AsciiGlyph) -> char {
        glyph.0 as char
    }
}

} // verus!
