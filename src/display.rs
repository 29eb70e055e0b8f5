//! Which display server the screen is captured from.
use vstd::prelude::*;

verus! {

#[derive(Debug, Clone, Copy, PartialEq, Eq, Structural)]
pub enum DisplayProtocol {
    X11,
    Wayland,
}

impl DisplayProtocol {
    /// Wayland when a Wayland display is announced, else X11 (also when
    /// no display is announced at all).
    pub fn from_environment(wayland_display_set: bool, display_set: bool) -> (r: Self)
        ensures
            r == (if wayland_display_set {
                DisplayProtocol::Wayland
            } else {
                DisplayProtocol::X11
            }),
    {
        if wayland_display_set {
            DisplayProtocol::Wayland
        } else if display_set {
            DisplayProtocol::X11
        } else {
            DisplayProtocol::X11
        }
    }
}

} // verus!
