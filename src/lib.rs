//! Startup settings of an iced program, with the projection handed to the
//! windowing layer.
pub mod outside;
pub mod settings;
pub mod windowing;

pub use settings::Settings;
pub use windowing::WindowingSettings;
