//! The projection of the settings that the windowing layer reads.
use vstd::prelude::*;

use std::borrow::Cow;

use crate::settings::Settings;

verus! {

/// What the windowing layer reads of the settings: the identifier, the fonts
/// to load on boot and the daemon flag.
#[derive(Debug, Clone)]
pub struct WindowingSettings {
    /// The identifier of the application, if any.
    pub id: Option<String>,
    /// The fonts to load on boot, in order.
    pub fonts: Vec<Cow<'static, [u8]>>,
    /// Whether the application is a daemon.
    pub is_daemon: bool,
}

/// The windowing settings of `s`: its identifier, its fonts and its daemon
/// flag, carried over as they are; the other fields are left out.
pub open spec fn projection(s: Settings) -> WindowingSettings {
    WindowingSettings { id: s.id, fonts: s.fonts, is_daemon: s.is_daemon }
}

/// The settings that iced_winit reads of `s`: its identifier and its fonts.
pub open spec fn winit_projection(s: Settings) -> iced_winit::Settings {
    iced_winit::Settings { id: s.id, fonts: s.fonts }
}

impl From<Settings> for WindowingSettings {
    fn from(settings: Settings) -> (r: WindowingSettings)
        ensures
            r == projection(settings),
    {
        WindowingSettings {
            id: settings.id,
            fonts: settings.fonts,
            is_daemon: settings.is_daemon,
        }
    }
}

impl vstd::std_specs::convert::FromSpecImpl<Settings> for WindowingSettings {
    open spec fn obeys_from_spec() -> bool {
        true
    }

    open spec fn from_spec(v: Settings) -> WindowingSettings {
        projection(v)
    }
}

impl From<Settings> for iced_winit::Settings {
    fn from(settings: Settings) -> (r: iced_winit::Settings)
        ensures
            r == winit_projection(settings),
    {
        iced_winit::Settings { id: settings.id, fonts: settings.fonts }
    }
}

impl vstd::std_specs::convert::FromSpecImpl<Settings> for iced_winit::Settings {
    open spec fn obeys_from_spec() -> bool {
        true
    }

    open spec fn from_spec(v: Settings) -> iced_winit::Settings {
        winit_projection(v)
    }
}

/// The projection carries the identifier, the font list (same contents, same
/// order) and the daemon flag of the settings over unchanged.
pub proof fn projection_carries_fields(c: Settings)
    ensures
        projection(c).id == c.id,
        projection(c).fonts == c.fonts,
        projection(c).fonts@ == c.fonts@,
        projection(c).is_daemon == c.is_daemon,
{
}

/// Two settings that agree on the identifier, the font list and the daemon
/// flag project alike, whatever their default font, text size, antialiasing
/// and exit-on-close fields hold.
pub proof fn projection_ignores_other_fields(a: Settings, b: Settings)
    requires
        a.id == b.id,
        a.fonts == b.fonts,
        a.is_daemon == b.is_daemon,
    ensures
        projection(a) == projection(b),
{
}

/// Projecting the same settings twice yields equal results.
pub proof fn projection_is_deterministic(a: Settings, b: Settings)
    requires
        a == b,
    ensures
        projection(a) == projection(b),
{
}

/// Fields set on the settings before the projection are what it carries:
/// nothing of their earlier values remains.
pub proof fn projection_sees_updates(
    c: Settings,
    id: Option<String>,
    fonts: Vec<Cow<'static, [u8]>>,
    is_daemon: bool,
)
    ensures
        projection((Settings { id: id, fonts: fonts, is_daemon: is_daemon, ..c })) == (
        WindowingSettings { id: id, fonts: fonts, is_daemon: is_daemon }),
{
}

/// An empty font list projects to an empty font list: no font is added.
pub proof fn empty_fonts_project_to_empty(c: Settings)
    requires
        c.fonts@.len() == 0,
    ensures
        projection(c).fonts@.len() == 0,
{
}

} // verus!
