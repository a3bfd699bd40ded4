[package]
name = "plot_app"
version = "0.1.0"
edition = "2021"
publish = false

[dependencies]
chrono = { version = "0.4", default-features = false, features = ["clock", "std"] }
egui = { version = "0.27", default-features = false }
egui_extras = { version = "0.27", default-features = false, features = ["datepicker"] }
egui_plot = { version = "0.27", default-features = false }
