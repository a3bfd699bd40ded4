//! The curves that the window draws.
//!
//! A curve is handed to the plot as a description: the function it is the
//! graph of, and how many points of it to compute.  The plot computes the
//! points, evenly spaced over the part of the x axis that it shows.

use vstd::prelude::*;

verus! {

/// The number of points that the plot computes of each curve.
pub const SAMPLES: usize = 100;

/// The bit pattern of the double-precision number `0.5`.
pub const HALF: u64 = 0x3FE0_0000_0000_0000;

/// The bit pattern of the double-precision number `1.0`.
pub const ONE: u64 = 0x3FF0_0000_0000_0000;

/// The bit pattern of the double-precision number `2.0`.
pub const TWO: u64 = 0x4000_0000_0000_0000;

/// The function that a curve is the graph of.
#[derive(Clone, Copy, Debug, PartialEq, Eq, Structural)]
pub enum Function {
    /// `y = slope * x`, where `slope` is the bit pattern of a
    /// double-precision number.
    Line { slope: u64 },
    /// `y = sin(x)`.
    Sin,
    /// `y = cos(x)`.
    Cos,
}

/// A curve for the plot to sample.
#[derive(Clone, Copy, Debug, PartialEq, Eq, Structural)]
pub struct Curve {
    pub function: Function,
    pub samples: usize,
}

/// A curve and the name it has in the legend.
#[derive(Clone, Copy, Debug, PartialEq, Eq)]
pub struct NamedCurve {
    pub name: &'static str,
    pub curve: Curve,
}

impl NamedCurve {
    /// The name and the curve, as the contracts see them.
    pub open spec fn described(self) -> (Seq<char>, Curve) {
        (self.name@, self.curve)
    }
}

/// The line through the origin with the given slope.
pub open spec fn line_of(slope: u64) -> Curve {
    Curve { function: Function::Line { slope }, samples: SAMPLES }
}

/// The sine curve.
pub open spec fn sine() -> Curve {
    Curve { function: Function::Sin, samples: SAMPLES }
}

/// The cosine curve.
pub open spec fn cosine() -> Curve {
    Curve { function: Function::Cos, samples: SAMPLES }
}

/// The names and curves of the plot, in the order in which they are drawn.
/// The three lines share one name.
pub open spec fn drawn() -> Seq<(Seq<char>, Curve)> {
    seq![
        ("lines"@, line_of(HALF)),
        ("lines"@, line_of(ONE)),
        ("lines"@, line_of(TWO)),
        ("sin(x)"@, sine()),
        ("cos(x)"@, cosine()),
    ]
}

/// The line `y = slope * x`, where `slope` is the bit pattern of a
/// double-precision number.
pub fn line_with_slope(slope: u64) -> (curve: Curve)
    ensures
        curve == line_of(slope),
{
    Curve { function: Function::Line { slope }, samples: SAMPLES }
}

/// The curve `y = sin(x)`.
pub fn sin() -> (curve: Curve)
    ensures
        curve == sine(),
{
    Curve { function: Function::Sin, samples: SAMPLES }
}

/// The curve `y = cos(x)`.
pub fn cos() -> (curve: Curve)
    ensures
        curve == cosine(),
{
    Curve { function: Function::Cos, samples: SAMPLES }
}

/// The curves of the plot with their names, in the order in which they are
/// drawn.
pub fn plot_curves() -> (curves: Vec<NamedCurve>)
    ensures
        curves@.map_values(|named: NamedCurve| named.described()) == drawn(),
{
    let mut curves: Vec<NamedCurve> = Vec::new();
    curves.push(NamedCurve { name: "lines", curve: line_with_slope(HALF) });
    curves.push(NamedCurve { name: "lines", curve: line_with_slope(ONE) });
    curves.push(NamedCurve { name: "lines", curve: line_with_slope(TWO) });
    curves.push(NamedCurve { name: "sin(x)", curve: sin() });
    curves.push(NamedCurve { name: "cos(x)", curve: cos() });
    assert(curves@.map_values(|named: NamedCurve| named.described()) =~= drawn());
    curves
}

} // verus!
