//! The window that an application asks for.

use crate::settings::Settings;
use vstd::prelude::*;

verus! {

/// Width of a window for which the settings give none.
pub const DEFAULT_WIDTH: i32 = 640;

/// Height of a window for which the settings give none.
pub const DEFAULT_HEIGHT: i32 = 360;

/// How the window of the application is to be made.
#[derive(Debug)]
pub struct Window {
    pub width: i32,
    pub height: i32,
    /// Where the window is placed; `None` centres it on the screen.
    pub pos: Option<(i32, i32)>,
    /// The caption.
    pub label: String,
    /// The window class.
    pub xclass: String,
    /// Minimal width, minimal height, maximal width and maximal height, where
    /// the user may resize the window; `None` where the size is fixed. A zero
    /// maximum leaves that direction unbounded.
    pub bounds: Option<(i32, i32, i32, i32)>,
    /// The icon, as the text of an SVG image.
    pub icon: Option<String>,
}

/// The width that the settings ask for.
pub open spec fn width_of(settings: &Settings) -> i32 {
    if settings.size.0 == 0 {
        DEFAULT_WIDTH
    } else {
        settings.size.0
    }
}

/// The height that the settings ask for.
pub open spec fn height_of(settings: &Settings) -> i32 {
    if settings.size.1 == 0 {
        DEFAULT_HEIGHT
    } else {
        settings.size.1
    }
}

/// The bounds within which the user may resize the window: those that the
/// settings give, else the asked size as the minimum and no maximum; `None`
/// where the settings do not let the user resize.
pub open spec fn bounds_of(settings: &Settings) -> Option<(i32, i32, i32, i32)> {
    if settings.resizable {
        Some(
            match settings.size_range {
                Some(range) => range,
                None => (width_of(settings), height_of(settings), 0i32, 0i32),
            },
        )
    } else {
        None
    }
}

/// Lays out the window for the given settings and caption. The settings are
/// used up: the window takes over their window class and icon.
pub fn layout(settings: Settings, title: String) -> (window: Window)
    ensures
        window.width == width_of(&settings),
        window.height == height_of(&settings),
        window.pos == settings.pos,
        window.label@ == title@,
        window.xclass@ == (match settings.xclass {
            Some(name) => name@,
            None => title@,
        }),
        window.bounds == bounds_of(&settings),
        window.icon == settings.icon,
{
    let width: i32 = if settings.size.0 == 0 {
        DEFAULT_WIDTH
    } else {
        settings.size.0
    };
    let height: i32 = if settings.size.1 == 0 {
        DEFAULT_HEIGHT
    } else {
        settings.size.1
    };
    let bounds = if settings.resizable {
        Some(
            match settings.size_range {
                Some(range) => range,
                None => (width, height, 0, 0),
            },
        )
    } else {
        None
    };
    let xclass = match settings.xclass {
        Some(name) => name,
        None => title.clone(),
    };
    Window { width, height, pos: settings.pos, label: title, xclass, bounds, icon: settings.icon }
}

} // verus!
