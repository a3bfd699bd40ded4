use plot_app::alpha::THREE_QUARTERS;
use plot_app::legend::{Corner, LegendConfig, TextStyle};

#[test]
fn default_legend_is_body_text_top_right_three_quarters_opaque() {
    let config = LegendConfig::default();
    assert_eq!(config.text_style, TextStyle::Body);
    assert_eq!(config.position, Corner::TopRight);
    assert_eq!(config.background_alpha, THREE_QUARTERS);
    assert_eq!(f32::from_bits(config.background_alpha), 0.75);
}

#[test]
fn default_legend_is_that_of_the_plotting_toolkit() {
    let ours = LegendConfig::default();
    let theirs = egui_plot::Legend::default();
    assert_eq!(ours.text_style.name(), theirs.text_style.to_string());
    assert!(matches!(theirs.position, egui_plot::Corner::RightTop));
    assert_eq!(ours.position, Corner::TopRight);
    assert_eq!(ours.background_alpha, theirs.background_alpha.to_bits());
}

#[test]
fn text_styles_go_by_the_names_of_the_toolkit() {
    assert_eq!(TextStyle::Small.name(), egui::TextStyle::Small.to_string());
    assert_eq!(TextStyle::Body.name(), egui::TextStyle::Body.to_string());
    assert_eq!(TextStyle::Monospace.name(), egui::TextStyle::Monospace.to_string());
    assert_eq!(TextStyle::Button.name(), egui::TextStyle::Button.to_string());
    assert_eq!(TextStyle::Heading.name(), egui::TextStyle::Heading.to_string());
}

#[test]
fn text_style_names() {
    assert_eq!(TextStyle::Small.name(), "Small");
    assert_eq!(TextStyle::Body.name(), "Body");
    assert_eq!(TextStyle::Monospace.name(), "Monospace");
    assert_eq!(TextStyle::Button.name(), "Button");
    assert_eq!(TextStyle::Heading.name(), "Heading");
}

#[test]
fn corner_names() {
    assert_eq!(Corner::TopLeft.name(), "TopLeft");
    assert_eq!(Corner::TopRight.name(), "TopRight");
    assert_eq!(Corner::BottomLeft.name(), "BottomLeft");
    assert_eq!(Corner::BottomRight.name(), "BottomRight");
}

#[test]
fn the_toolkit_has_the_four_corners() {
    assert_eq!(egui_plot::Corner::all().count(), 4);
}
