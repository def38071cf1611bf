//! Colours of the pixel buffer.

use vstd::prelude::*;

verus! {

/// Four 8-bit channels, laid out in memory as blue, green, red, alpha.
#[derive(Debug, Clone, Copy)]
pub struct Color {
    pub blue: u8,
    pub green: u8,
    pub red: u8,
    pub alpha: u8,
}

impl Color {
    /// The 32-bit value that the screen takes for this colour: alpha in the
    /// highest byte, then red, then green, and blue in the lowest.
    pub open spec fn packed(self) -> int {
        self.alpha * 0x100_0000 + self.red * 0x1_0000 + self.green * 0x100 + self.blue
    }

    /// The colour of the given red, green and blue, with alpha zero.
    #[must_use]
    pub fn from_rgb(red: u8, green: u8, blue: u8) -> (color: Self)
        ensures
            color == (Color { red, green, blue, alpha: 0 }),
    {
        Color { red, green, blue, alpha: 0 }
    }

    /// The red channel.
    #[must_use]
    pub fn red(self) -> (red: u8)
        ensures
            red == self.red,
    {
        self.red
    }

    /// The green channel.
    #[must_use]
    pub fn green(self) -> (green: u8)
        ensures
            green == self.green,
    {
        self.green
    }

    /// The blue channel.
    #[must_use]
    pub fn blue(self) -> (blue: u8)
        ensures
            blue == self.blue,
    {
        self.blue
    }

    /// The alpha channel.
    #[must_use]
    pub fn alpha(self) -> (alpha: u8)
        ensures
            alpha == self.alpha,
    {
        self.alpha
    }
}

impl Default for Color {
    /// Black, with alpha zero.
    fn default() -> (color: Self)
        ensures
            color == (Color { red: 0, green: 0, blue: 0, alpha: 0 }),
    {
        Color { red: 0, green: 0, blue: 0, alpha: 0 }
    }
}

impl From<Color> for u32 {
    /// Packs the four channels into one value.
    fn from(value: Color) -> (packed: u32)
        ensures
            packed == value.packed(),
    {
        let alpha = value.alpha as u32;
        let red = value.red as u32;
        let green = value.green as u32;
        let blue = value.blue as u32;
        assert(((alpha << 24) | (red << 16) | (green << 8) | blue) == alpha * 0x100_0000 + red
            * 0x1_0000 + green * 0x100 + blue) by (bit_vector)
            requires
                alpha < 256,
                red < 256,
                green < 256,
                blue < 256,
        ;
        (alpha << 24) | (red << 16) | (green << 8) | blue
    }
}

impl vstd::std_specs::convert::FromSpecImpl<Color> for u32 {
    open spec fn obeys_from_spec() -> bool {
        true
    }

    open spec fn from_spec(value: Color) -> u32 {
        value.packed() as u32
    }
}

} // verus!
