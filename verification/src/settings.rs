//! The start-up configuration of an application and what it asks for.

use crate::color::{Color, ColorMap};
use vstd::prelude::*;

verus! {

/// The five semantic colour roles of the toolkit's palette.
#[derive(Clone, Copy, Debug, PartialEq, Eq, Structural)]
pub enum Role {
    /// Window and widget background.
    Background,
    /// Background inside input, output and text widgets.
    Background2,
    /// Labels and text.
    Foreground,
    /// Deactivated widgets.
    Inactive,
    /// Selected items.
    Selection,
}

impl Role {
    /// The palette slot in which the toolkit keeps the colour of a role.
    pub open spec fn spec_slot(self) -> u8 {
        match self {
            Role::Background => 49,
            Role::Background2 => 7,
            Role::Foreground => 0,
            Role::Inactive => 8,
            Role::Selection => 15,
        }
    }

    /// The colour that a role has when the settings name none for it.
    pub open spec fn spec_fallback(self) -> Color {
        match self {
            Role::Background => Color { r: 0xee, g: 0xe8, b: 0xd5 },
            Role::Background2 => Color { r: 0xfd, g: 0xf6, b: 0xe3 },
            Role::Foreground => Color { r: 0x58, g: 0x6e, b: 0x75 },
            Role::Inactive => Color { r: 0xb5, g: 0x89, b: 0x00 },
            Role::Selection => Color { r: 0xcb, g: 0x4b, b: 0x16 },
        }
    }

    /// The palette slot in which the toolkit keeps the colour of this role.
    #[verifier::when_used_as_spec(spec_slot)]
    pub fn slot(self) -> (slot: u8)
        ensures
            slot == self.spec_slot(),
    {
        match self {
            Role::Background => 49,
            Role::Background2 => 7,
            Role::Foreground => 0,
            Role::Inactive => 8,
            Role::Selection => 15,
        }
    }

    /// The colour that this role has when the settings name none for it.
    #[verifier::when_used_as_spec(spec_fallback)]
    pub fn fallback(self) -> (color: Color)
        ensures
            color == self.spec_fallback(),
    {
        match self {
            Role::Background => Color { r: 0xee, g: 0xe8, b: 0xd5 },
            Role::Background2 => Color { r: 0xfd, g: 0xf6, b: 0xe3 },
            Role::Foreground => Color { r: 0x58, g: 0x6e, b: 0x75 },
            Role::Inactive => Color { r: 0xb5, g: 0x89, b: 0x00 },
            Role::Selection => Color { r: 0xcb, g: 0x4b, b: 0x16 },
        }
    }
}

/// The typefaces that the toolkit has built in.
#[derive(Clone, Copy, Debug, PartialEq, Eq, Structural)]
pub enum Font {
    Helvetica,
    HelveticaBold,
    HelveticaItalic,
    HelveticaBoldItalic,
    Courier,
    CourierBold,
    CourierItalic,
    CourierBoldItalic,
    Times,
    TimesBold,
    TimesItalic,
    TimesBoldItalic,
    Symbol,
    Screen,
    ScreenBold,
    Zapfdingbats,
}

/// The coarse visual styles of the toolkit.
#[derive(Clone, Copy, Debug, PartialEq, Eq, Structural)]
pub enum Scheme {
    Base,
    Plastic,
    Gtk,
    Gleam,
    Oxy,
}

/// The widget themes: each one a style together with a set of colours.
#[derive(Clone, Copy, Debug, PartialEq, Eq, Structural)]
pub enum ThemeType {
    Classic,
    Aero,
    Metro,
    AquaClassic,
    Greybird,
    Blue,
    Dark,
    HighContrast,
}

/// What an application asks for at start-up. It is read once, before the
/// first view is built.
#[derive(Debug)]
pub struct Settings {
    /// Width and height of the window; a zero stands for the default.
    pub size: (i32, i32),
    /// Where the window is placed; `None` centres it on the screen.
    pub pos: Option<(i32, i32)>,
    /// Whether the user may resize the window.
    pub resizable: bool,
    /// Smallest and largest size of a resizable window, as minimal width,
    /// minimal height, maximal width, maximal height; a zero maximum leaves
    /// that direction unbounded.
    pub size_range: Option<(i32, i32, i32, i32)>,
    /// Size of the default font; zero keeps the toolkit's own.
    pub font_size: u8,
    pub background: Option<Color>,
    pub foreground: Option<Color>,
    pub background2: Option<Color>,
    pub inactive: Option<Color>,
    pub selection: Option<Color>,
    pub font: Option<Font>,
    /// The window class; the caption is used where it is absent.
    pub xclass: Option<String>,
    /// The window icon, as the text of an SVG image.
    pub icon: Option<String>,
    pub scheme: Option<Scheme>,
    /// A broad palette: slots of the colour table and their colours.
    pub color_map: Option<Vec<ColorMap>>,
    pub theme: Option<ThemeType>,
    /// Whether the application handles the close signal of the window
    /// itself, in place of the default, which is to terminate.
    pub custom_close: bool,
}

impl Settings {
    /// The colour that the settings name for a role, if any.
    pub open spec fn spec_color(&self, role: Role) -> Option<Color> {
        match role {
            Role::Background => self.background,
            Role::Background2 => self.background2,
            Role::Foreground => self.foreground,
            Role::Inactive => self.inactive,
            Role::Selection => self.selection,
        }
    }

    /// The colour that the settings name for a role, if any.
    #[verifier::when_used_as_spec(spec_color)]
    pub fn color(&self, role: Role) -> (color: Option<Color>)
        ensures
            color == self.spec_color(role),
    {
        match role {
            Role::Background => self.background,
            Role::Background2 => self.background2,
            Role::Foreground => self.foreground,
            Role::Inactive => self.inactive,
            Role::Selection => self.selection,
        }
    }
}

impl Default for Settings {
    /// Settings that ask for nothing: every default of the runtime applies.
    fn default() -> (settings: Settings)
        ensures
            settings.size == (0i32, 0i32),
            settings.pos is None,
            !settings.resizable,
            settings.size_range is None,
            settings.font_size == 0,
            settings.background is None,
            settings.foreground is None,
            settings.background2 is None,
            settings.inactive is None,
            settings.selection is None,
            settings.font is None,
            settings.xclass is None,
            settings.icon is None,
            settings.scheme is None,
            settings.color_map is None,
            settings.theme is None,
            !settings.custom_close,
    {
        Settings {
            size: (0, 0),
            pos: None,
            resizable: false,
            size_range: None,
            font_size: 0,
            background: None,
            foreground: None,
            background2: None,
            inactive: None,
            selection: None,
            font: None,
            xclass: None,
            icon: None,
            scheme: None,
            color_map: None,
            theme: None,
            custom_close: false,
        }
    }
}

} // verus!
