use plot_app::curves::{
    cos, line_with_slope, plot_curves, sin, Curve, Function, HALF, ONE, SAMPLES, TWO,
};

#[test]
fn slopes_are_the_patterns_of_their_numbers() {
    assert_eq!(HALF, 0.5f64.to_bits());
    assert_eq!(ONE, 1.0f64.to_bits());
    assert_eq!(TWO, 2.0f64.to_bits());
}

#[test]
fn every_curve_has_a_hundred_points() {
    assert_eq!(SAMPLES, 100);
    assert_eq!(line_with_slope(0.0f64.to_bits()).samples, 100);
    assert_eq!(sin().samples, 100);
    assert_eq!(cos().samples, 100);
    for named in plot_curves() {
        assert_eq!(named.curve.samples, 100);
    }
}

#[test]
fn line_with_slope_keeps_the_slope() {
    for slope in [0.0f64, 0.5, 1.0, 2.0, -3.25, 1.0e300] {
        let curve = line_with_slope(slope.to_bits());
        assert_eq!(curve, Curve { function: Function::Line { slope: slope.to_bits() }, samples: 100 });
        match curve.function {
            Function::Line { slope: bits } => assert_eq!(f64::from_bits(bits), slope),
            _ => panic!("a line is a line"),
        }
    }
}

#[test]
fn sin_and_cos_are_what_they_are_called() {
    assert_eq!(sin(), Curve { function: Function::Sin, samples: 100 });
    assert_eq!(cos(), Curve { function: Function::Cos, samples: 100 });
}

#[test]
fn plot_draws_three_lines_a_sine_and_a_cosine() {
    let curves = plot_curves();
    assert_eq!(curves.len(), 5);
    let names: Vec<&str> = curves.iter().map(|named| named.name).collect();
    assert_eq!(names, vec!["lines", "lines", "lines", "sin(x)", "cos(x)"]);
    assert_eq!(curves[0].curve.function, Function::Line { slope: 0.5f64.to_bits() });
    assert_eq!(curves[1].curve.function, Function::Line { slope: 1.0f64.to_bits() });
    assert_eq!(curves[2].curve.function, Function::Line { slope: 2.0f64.to_bits() });
    assert_eq!(curves[3].curve.function, Function::Sin);
    assert_eq!(curves[4].curve.function, Function::Cos);
}
