//! The palette the packet columns are tinted with, as plain channel values.
//!
//! A colour here is three 8-bit channels; whatever rendering library draws
//! the widgets converts them to its own colour type (dividing by 255 for a
//! unit-interval representation).

use vstd::prelude::*;

verus! {

/// One colour of the palette: red, green and blue channels, each out of 255.
#[derive(Debug, Clone, Copy, PartialEq, Eq, Structural)]
pub struct PostalColor {
    /// Red channel.
    pub red: u8,
    /// Green channel.
    pub green: u8,
    /// Blue channel.
    pub blue: u8,
}

impl PostalColor {
    /// The tint of the protocol column.
    pub fn protocol() -> (r: PostalColor)
        ensures
            r == (PostalColor { red: 112u8, green: 162u8, blue: 187u8 }),
    {
        PostalColor { red: 112, green: 162, blue: 187 }
    }

    /// The tint of the port column.
    pub fn port() -> (r: PostalColor)
        ensures
            r == (PostalColor { red: 215u8, green: 198u8, blue: 54u8 }),
    {
        PostalColor { red: 215, green: 198, blue: 54 }
    }

    /// The tint of the source-address column.
    pub fn source() -> (r: PostalColor)
        ensures
            r == (PostalColor { red: 112u8, green: 187u8, blue: 146u8 }),
    {
        PostalColor { red: 112, green: 187, blue: 146 }
    }

    /// The tint of the destination-address column.
    pub fn destination() -> (r: PostalColor)
        ensures
            r == (PostalColor { red: 195u8, green: 104u8, blue: 133u8 }),
    {
        PostalColor { red: 195, green: 104, blue: 133 }
    }

    /// The tint of the direction column.
    pub fn direction() -> (r: PostalColor)
        ensures
            r == (PostalColor { red: 123u8, green: 240u8, blue: 243u8 }),
    {
        PostalColor { red: 123, green: 240, blue: 243 }
    }
}

} // verus!
