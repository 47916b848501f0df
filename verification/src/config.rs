//! The fixed window policy: identifier, title, sizes, and the
//! platform-conditioned decoration and transparency flags.

use vstd::prelude::*;
use vstd::string::StringExecFns;
use crate::geometry::LogicalSize;

verus! {

/// The platform class the shell resolves once at startup. Only the
/// decoration and transparency flags, and whether window creation runs at
/// all, depend on it.
#[derive(Clone, Copy, PartialEq, Eq, Structural, Debug)]
pub enum Platform {
    MacOs,
    OtherDesktop,
    Mobile,
}

impl Platform {
    /// The setup hook creates the main window on desktop targets only; on
    /// mobile the platform shell owns window creation.
    pub open spec fn spec_is_desktop(self) -> bool {
        self != Platform::Mobile
    }

    /// Executable form of [`Platform::spec_is_desktop`].
    pub fn is_desktop(&self) -> (r: bool)
        ensures
            r == self.spec_is_desktop(),
    {
        match self {
            Platform::Mobile => false,
            Platform::MacOs => true,
            Platform::OtherDesktop => true,
        }
    }
}

/// Everything the window manager is asked for when the main window is built.
/// A flag of `None` leaves the platform default in force.
pub struct WindowConfig {
    pub label: String,
    pub title: String,
    pub inner_size: LogicalSize,
    pub min_size: LogicalSize,
    pub resizable: bool,
    pub maximized: bool,
    pub decorations: Option<bool>,
    pub transparent: Option<bool>,
}

/// The stable identifier that distinguishes the main window from any other.
pub open spec fn main_label() -> Seq<char> {
    "main"@
}

/// The main window's title.
pub open spec fn window_title() -> Seq<char> {
    "Codefend Panel"@
}

/// The initial logical size requested for the main window.
pub open spec fn initial_size() -> LogicalSize {
    LogicalSize { width: 800, height: 600 }
}

/// The logical minimum size applied to the main window after it is built.
pub open spec fn minimum_size() -> LogicalSize {
    LogicalSize { width: 800, height: 600 }
}

/// The configuration of the main window on the given platform: labeled
/// `main`, titled `Codefend Panel`, initially 800x600, resizable and
/// maximized; decorations off and transparency on everywhere but macOS,
/// where both keep their platform defaults.
pub fn main_window_config(platform: Platform) -> (c: WindowConfig)
    ensures
        c.label@ == main_label(),
        c.title@ == window_title(),
        c.inner_size == initial_size(),
        c.min_size == minimum_size(),
        c.resizable,
        c.maximized,
        platform == Platform::MacOs ==> c.decorations is None && c.transparent is None,
        platform != Platform::MacOs ==> c.decorations == Some(false) && c.transparent == Some(
            true,
        ),
{
    let decorations: Option<bool>;
    let transparent: Option<bool>;
    match platform {
        Platform::MacOs => {
            decorations = None;
            transparent = None;
        },
        Platform::OtherDesktop => {
            decorations = Some(false);
            transparent = Some(true);
        },
        Platform::Mobile => {
            decorations = Some(false);
            transparent = Some(true);
        },
    }
    WindowConfig {
        label: String::from_str("main"),
        title: String::from_str("Codefend Panel"),
        inner_size: LogicalSize { width: 800, height: 600 },
        min_size: LogicalSize { width: 800, height: 600 },
        resizable: true,
        maximized: true,
        decorations,
        transparent,
    }
}

} // verus!
