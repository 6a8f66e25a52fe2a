//! Configure your application.
use vstd::prelude::*;

use std::borrow::Cow;

use crate::outside::{pixels_from_u16, sans_serif};

verus! {

/// The text size, in logical pixels, that `Settings::default` picks.
pub const DEFAULT_TEXT_SIZE: u16 = 14;

/// The settings of an iced program.
#[derive(Debug, Clone)]
pub struct Settings {
    /// The identifier of the application.
    ///
    /// If provided, this identifier may be used to identify the application or
    /// communicate with it through the windowing system.
    pub id: Option<String>,
    /// The fonts to load on boot.
    pub fonts: Vec<Cow<'static, [u8]>>,
    /// The default font to be used: by default, sans-serif.
    pub default_font: iced_winit::core::Font,
    /// The text size that will be used by default: by default, 14 pixels.
    pub default_text_size: iced_winit::core::Pixels,
    /// If set to true, the renderer will try to perform antialiasing for some
    /// primitives. By default, it is disabled.
    pub antialiasing: bool,
    /// If set to true the application will exit when the main window is closed.
    pub exit_on_close_request: bool,
    /// Whether the application is a daemon.
    pub is_daemon: bool,
}

impl Settings {
    /// Whether `self` is the value that `Settings::default` makes.
    pub open spec fn is_default(self) -> bool {
        &&& self.id is None
        &&& self.fonts@.len() == 0
        &&& self.default_font == sans_serif()
        &&& self.default_text_size == pixels_from_u16(DEFAULT_TEXT_SIZE)
        &&& !self.antialiasing
        &&& !self.exit_on_close_request
        &&& !self.is_daemon
    }
}

impl Default for Settings {
    fn default() -> (r: Self)
        ensures
            r.is_default(),
    {
        Settings {
            id: None,
            fonts: Vec::new(),
            default_font: iced_winit::core::Font::default(),
            default_text_size: iced_winit::core::Pixels::from(DEFAULT_TEXT_SIZE),
            antialiasing: false,
            exit_on_close_request: false,
            is_daemon: false,
        }
    }
}

} // verus!
