//! The legend's settings: text style, corner and background opacity.

use crate::alpha::THREE_QUARTERS;
use vstd::prelude::*;

verus! {

/// The text styles a legend can be drawn in.
#[derive(Clone, Copy, Debug, PartialEq, Eq, Structural)]
pub enum TextStyle {
    Small,
    Body,
    Monospace,
    Button,
    Heading,
}

/// The corner of the plot in which the legend is placed.
#[derive(Clone, Copy, Debug, PartialEq, Eq, Structural)]
pub enum Corner {
    TopLeft,
    TopRight,
    BottomLeft,
    BottomRight,
}

/// What the plot is told about its legend.
///
/// `background_alpha` is the bit pattern of a single-precision number, see
/// [`crate::alpha`].
#[derive(Clone, Copy, Debug, PartialEq, Eq, Structural)]
pub struct LegendConfig {
    pub text_style: TextStyle,
    pub position: Corner,
    pub background_alpha: u32,
}

impl TextStyle {
    /// The name a text style goes by, on screen and in persisted state.
    pub open spec fn name_of(self) -> Seq<char> {
        match self {
            TextStyle::Small => "Small"@,
            TextStyle::Body => "Body"@,
            TextStyle::Monospace => "Monospace"@,
            TextStyle::Button => "Button"@,
            TextStyle::Heading => "Heading"@,
        }
    }

    /// The name of this text style.
    pub fn name(&self) -> (r: &'static str)
        ensures
            r@ == self.name_of(),
    {
        match self {
            TextStyle::Small => "Small",
            TextStyle::Body => "Body",
            TextStyle::Monospace => "Monospace",
            TextStyle::Button => "Button",
            TextStyle::Heading => "Heading",
        }
    }
}

impl Corner {
    /// The name a corner goes by, on screen and in persisted state.
    pub open spec fn name_of(self) -> Seq<char> {
        match self {
            Corner::TopLeft => "TopLeft"@,
            Corner::TopRight => "TopRight"@,
            Corner::BottomLeft => "BottomLeft"@,
            Corner::BottomRight => "BottomRight"@,
        }
    }

    /// The name of this corner.
    pub fn name(&self) -> (r: &'static str)
        ensures
            r@ == self.name_of(),
    {
        match self {
            Corner::TopLeft => "TopLeft",
            Corner::TopRight => "TopRight",
            Corner::BottomLeft => "BottomLeft",
            Corner::BottomRight => "BottomRight",
        }
    }
}

impl LegendConfig {
    /// The settings of a legend that nobody has touched: body text, top right
    /// corner, three quarters opaque.
    pub open spec fn initial() -> LegendConfig {
        LegendConfig {
            text_style: TextStyle::Body,
            position: Corner::TopRight,
            background_alpha: THREE_QUARTERS,
        }
    }
}

impl Default for LegendConfig {
    fn default() -> (r: LegendConfig)
        ensures
            r == LegendConfig::initial(),
    {
        LegendConfig {
            text_style: TextStyle::Body,
            position: Corner::TopRight,
            background_alpha: THREE_QUARTERS,
        }
    }
}

} // verus!
