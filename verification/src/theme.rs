//! Colour themes of the terminal front end.

use crate::text::same_text;
use vstd::prelude::*;

verus! {

/// A colour: one of the terminal's named colours, or red, green and blue.
#[derive(Clone, Copy, Debug, PartialEq, Eq, Structural)]
pub enum Color {
    DarkGray,
    White,
    Blue,
    Yellow,
    Rgb(u8, u8, u8),
}

/// The themes a user can choose by name.
#[derive(Clone, Copy, Debug, PartialEq, Eq, Structural)]
pub enum ThemeName {
    Dracula,
    Nord,
    Default,
    Light,
}

/// The colours of the front end's parts.
#[derive(Clone, Copy, Debug, PartialEq, Eq, Structural)]
pub struct Theme {
    pub border: Color,
    pub text: Color,
    pub highlight: Color,
    pub header_bg: Color,
    pub header_fg: Color,
    pub status_bg: Color,
    pub status_fg: Color,
    pub input_text: Color,
    pub agent_text: Color,
    pub user_bg: Color,
    pub user_fg: Color,
}

/// The theme that the command `/theme` selects for a name, which is one of
/// `dracula`, `nord` and `default`.
pub open spec fn theme_named(name: Seq<char>) -> Option<ThemeName> {
    if name == "dracula"@ {
        Some(ThemeName::Dracula)
    } else if name == "nord"@ {
        Some(ThemeName::Nord)
    } else if name == "default"@ {
        Some(ThemeName::Default)
    } else {
        None
    }
}

/// The colours of a theme.
pub open spec fn palette(name: ThemeName) -> Theme {
    match name {
        ThemeName::Dracula => Theme {
            border: Color::Rgb(98, 114, 164),
            text: Color::Rgb(248, 248, 242),
            highlight: Color::Rgb(189, 147, 249),
            header_bg: Color::Rgb(68, 71, 90),
            header_fg: Color::Rgb(139, 233, 253),
            status_bg: Color::Rgb(68, 71, 90),
            status_fg: Color::Rgb(189, 147, 249),
            input_text: Color::Rgb(241, 250, 140),
            agent_text: Color::Rgb(80, 250, 123),
            user_bg: Color::Rgb(68, 71, 90),
            user_fg: Color::Rgb(248, 248, 242),
        },
        ThemeName::Nord => Theme {
            border: Color::Rgb(76, 86, 106),
            text: Color::Rgb(236, 239, 244),
            highlight: Color::Rgb(136, 192, 208),
            header_bg: Color::Rgb(59, 66, 82),
            header_fg: Color::Rgb(143, 188, 187),
            status_bg: Color::Rgb(59, 66, 82),
            status_fg: Color::Rgb(129, 161, 193),
            input_text: Color::Rgb(235, 203, 139),
            agent_text: Color::Rgb(163, 190, 140),
            user_bg: Color::Rgb(67, 76, 94),
            user_fg: Color::Rgb(236, 239, 244),
        },
        ThemeName::Default => Theme {
            border: Color::DarkGray,
            text: Color::White,
            highlight: Color::Blue,
            header_bg: Color::Rgb(50, 50, 50),
            header_fg: Color::White,
            status_bg: Color::Rgb(50, 50, 50),
            status_fg: Color::Blue,
            input_text: Color::Yellow,
            agent_text: Color::White,
            user_bg: Color::Rgb(40, 40, 40),
            user_fg: Color::White,
        },
        ThemeName::Light => Theme {
            border: Color::Rgb(200, 200, 200),
            text: Color::Rgb(50, 50, 50),
            highlight: Color::Rgb(0, 100, 200),
            header_bg: Color::Rgb(240, 240, 240),
            header_fg: Color::Rgb(0, 0, 0),
            status_bg: Color::Rgb(230, 230, 230),
            status_fg: Color::Rgb(0, 100, 200),
            input_text: Color::Rgb(0, 0, 0),
            agent_text: Color::Rgb(40, 120, 60),
            user_bg: Color::Rgb(235, 235, 235),
            user_fg: Color::Rgb(50, 50, 50),
        },
    }
}

impl ThemeName {
    /// The theme that the command `/theme` selects for `name`.
    pub fn parse(name: &str) -> (res: Option<ThemeName>)
        ensures
            res == theme_named(name@),
    {
        if same_text(name, "dracula") {
            Some(ThemeName::Dracula)
        } else if same_text(name, "nord") {
            Some(ThemeName::Nord)
        } else if same_text(name, "default") {
            Some(ThemeName::Default)
        } else {
            None
        }
    }
}

impl Theme {
    /// The colours of the theme `name`.
    pub fn of(name: ThemeName) -> (res: Theme)
        ensures
            res == palette(name),
    {
        match name {
            ThemeName::Dracula => Theme {
                border: Color::Rgb(98, 114, 164),
                text: Color::Rgb(248, 248, 242),
                highlight: Color::Rgb(189, 147, 249),
                header_bg: Color::Rgb(68, 71, 90),
                header_fg: Color::Rgb(139, 233, 253),
                status_bg: Color::Rgb(68, 71, 90),
                status_fg: Color::Rgb(189, 147, 249),
                input_text: Color::Rgb(241, 250, 140),
                agent_text: Color::Rgb(80, 250, 123),
                user_bg: Color::Rgb(68, 71, 90),
                user_fg: Color::Rgb(248, 248, 242),
            },
            ThemeName::Nord => Theme {
                border: Color::Rgb(76, 86, 106),
                text: Color::Rgb(236, 239, 244),
                highlight: Color::Rgb(136, 192, 208),
                header_bg: Color::Rgb(59, 66, 82),
                header_fg: Color::Rgb(143, 188, 187),
                status_bg: Color::Rgb(59, 66, 82),
                status_fg: Color::Rgb(129, 161, 193),
                input_text: Color::Rgb(235, 203, 139),
                agent_text: Color::Rgb(163, 190, 140),
                user_bg: Color::Rgb(67, 76, 94),
                user_fg: Color::Rgb(236, 239, 244),
            },
            ThemeName::Default => Theme {
                border: Color::DarkGray,
                text: Color::White,
                highlight: Color::Blue,
                header_bg: Color::Rgb(50, 50, 50),
                header_fg: Color::White,
                status_bg: Color::Rgb(50, 50, 50),
                status_fg: Color::Blue,
                input_text: Color::Yellow,
                agent_text: Color::White,
                user_bg: Color::Rgb(40, 40, 40),
                user_fg: Color::White,
            },
            ThemeName::Light => Theme {
                border: Color::Rgb(200, 200, 200),
                text: Color::Rgb(50, 50, 50),
                highlight: Color::Rgb(0, 100, 200),
                header_bg: Color::Rgb(240, 240, 240),
                header_fg: Color::Rgb(0, 0, 0),
                status_bg: Color::Rgb(230, 230, 230),
                status_fg: Color::Rgb(0, 100, 200),
                input_text: Color::Rgb(0, 0, 0),
                agent_text: Color::Rgb(40, 120, 60),
                user_bg: Color::Rgb(235, 235, 235),
                user_fg: Color::Rgb(50, 50, 50),
            },
        }
    }
}

} // verus!
