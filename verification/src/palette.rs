//! Colours and the palette a session draws with.

use vstd::prelude::*;

verus! {

/// A colour with red, green, blue and alpha channels.
#[derive(Clone, Copy, Debug, PartialEq, Eq, Structural)]
pub struct Color {
    pub r: u8,
    pub g: u8,
    pub b: u8,
    pub a: u8,
}

impl Color {
    /// The opaque colour with the given red, green and blue.
    pub open spec fn opaque(r: u8, g: u8, b: u8) -> Color {
        Color { r, g, b, a: 0xff }
    }

    /// The opaque colour with the given red, green and blue.
    pub fn rgb(r: u8, g: u8, b: u8) -> (color: Color)
        ensures
            color == Color::opaque(r, g, b),
    {
        Color { r, g, b, a: 0xff }
    }
}

/// A list of colours, each as red, green and blue.
pub struct ColorPalette {
    pub palette: Vec<(u8, u8, u8)>,
}

impl ColorPalette {
    /// The colour that entry `n` of `palette` stands for.
    pub open spec fn color_at(palette: Seq<(u8, u8, u8)>, n: int) -> Color {
        Color::opaque(palette[n].0, palette[n].1, palette[n].2)
    }

    /// A palette without colours.
    pub fn new() -> (colors: ColorPalette)
        ensures
            colors.palette@ == Seq::<(u8, u8, u8)>::empty(),
    {
        let palette = Vec::new();
        ColorPalette { palette }
    }

    /// The palette that holds the given colours.
    pub fn set(palette: Vec<(u8, u8, u8)>) -> (colors: ColorPalette)
        ensures
            colors.palette == palette,
    {
        ColorPalette { palette }
    }

    /// Entry `n` as an opaque colour.
    pub fn get_color(&self, n: usize) -> (color: Color)
        requires
            n < self.palette@.len(),
        ensures
            color == ColorPalette::color_at(self.palette@, n as int),
    {
        Color::rgb(self.palette[n].0, self.palette[n].1, self.palette[n].2)
    }
}

} // verus!
