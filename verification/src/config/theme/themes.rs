//! The colour themes that a user can choose from.

use vstd::prelude::*;

verus! {

/// A colour as `0xRRGGBB`.
pub type Rgb = u32;

/// A named palette.
#[derive(Debug)]
pub struct Theme {
    pub name: String,
    pub palette: Palette,
}

/// The colours of one theme.
#[derive(Debug, Clone, Copy, PartialEq, Eq, Structural)]
pub struct Palette {
    pub background: Rgb,
    pub middleground: Rgb,
    pub foreground: Rgb,
    pub border: Rgb,
    pub text: Rgb,
    pub main: Rgb,
    pub error: Rgb,
    pub warning: Rgb,
    pub success: Rgb,
    pub waveform: Rgb,
    pub black: Rgb,
}

impl Default for Palette {
    fn default() -> (p: Palette)
        ensures
            p == Themes::Dark.spec_palette(),
    {
        Themes::Dark.palette()
    }
}

/// The themes on offer.
#[derive(Debug, PartialEq, Eq, Copy, Clone, Structural)]
pub enum Themes {
    Dark,
    Dracula,
    Catppuccin,
    Ferra,
    Nord,
    LMMS,
    OneShot,
    HighContrast,
}

impl Default for Themes {
    fn default() -> (t: Themes)
        ensures
            t == Themes::Dark,
    {
        Themes::Dark
    }
}

impl Themes {
    /// Every theme, in the order in which a pick list shows them. The
    /// order plays no part in how a theme is stored.
    pub open spec fn spec_all() -> Seq<Themes> {
        seq![
            Themes::Dark,
            Themes::Dracula,
            Themes::Catppuccin,
            Themes::Nord,
            Themes::Ferra,
            Themes::LMMS,
            Themes::OneShot,
            Themes::HighContrast,
        ]
    }

    /// Every theme, in the order in which a pick list shows them.
    pub fn all() -> (v: Vec<Themes>)
        ensures
            v@ == Themes::spec_all(),
    {
        let v = vec![
            Themes::Dark,
            Themes::Dracula,
            Themes::Catppuccin,
            Themes::Nord,
            Themes::Ferra,
            Themes::LMMS,
            Themes::OneShot,
            Themes::HighContrast,
        ];
        v
    }

    /// True where a theme is stored under `value`.
    pub open spec fn spec_is_index(value: i32) -> bool {
        0 <= value < 8
    }

    /// True where a theme is stored under `value`.
    #[verifier::when_used_as_spec(spec_is_index)]
    pub fn is_index(value: i32) -> (r: bool)
        ensures
            r == Themes::spec_is_index(value),
    {
        0 <= value && value < 8
    }

    /// The theme that is stored under `value`: the one whose number
    /// `value` is.
    pub open spec fn spec_from(value: i32) -> Themes {
        if value == 0 {
            Themes::Dark
        } else if value == 1 {
            Themes::Dracula
        } else if value == 2 {
            Themes::Catppuccin
        } else if value == 3 {
            Themes::Ferra
        } else if value == 4 {
            Themes::Nord
        } else if value == 5 {
            Themes::LMMS
        } else if value == 6 {
            Themes::OneShot
        } else {
            Themes::HighContrast
        }
    }

    /// The theme that is stored under `value`.
    pub fn from(value: i32) -> (t: Themes)
        requires
            Themes::spec_is_index(value),
        ensures
            t == Themes::spec_from(value),
            t.spec_code() == value,
    {
        if value == 0 {
            Themes::Dark
        } else if value == 1 {
            Themes::Dracula
        } else if value == 2 {
            Themes::Catppuccin
        } else if value == 3 {
            Themes::Ferra
        } else if value == 4 {
            Themes::Nord
        } else if value == 5 {
            Themes::LMMS
        } else if value == 6 {
            Themes::OneShot
        } else {
            Themes::HighContrast
        }
    }

    /// The number under which a theme is stored: its place in the
    /// declaration of the themes, counted from zero.
    pub open spec fn spec_code(&self) -> i32 {
        match self {
            Themes::Dark => 0,
            Themes::Dracula => 1,
            Themes::Catppuccin => 2,
            Themes::Ferra => 3,
            Themes::Nord => 4,
            Themes::LMMS => 5,
            Themes::OneShot => 6,
            Themes::HighContrast => 7,
        }
    }

    /// The number under which a theme is stored.
    #[verifier::when_used_as_spec(spec_code)]
    pub fn code(&self) -> (c: i32)
        ensures
            c == self.spec_code(),
            Themes::spec_is_index(c),
    {
        match self {
            Themes::Dark => 0,
            Themes::Dracula => 1,
            Themes::Catppuccin => 2,
            Themes::Ferra => 3,
            Themes::Nord => 4,
            Themes::LMMS => 5,
            Themes::OneShot => 6,
            Themes::HighContrast => 7,
        }
    }

    /// The colours of a theme.
    pub open spec fn spec_palette(&self) -> Palette {
        match self {
            Themes::Dark => Palette {
                middleground: 0x272727,
                foreground: 0x353535,
                background: 0x151515,
                border: 0x555555,
                main: 0xBA84FC,
                text: 0xE0E0E0,
                error: 0xff5555,
                warning: 0xffcc00,
                success: 0x49eb7a,
                waveform: 0xBA84FC,
                black: 0x000000,
            },
            Themes::Dracula => Palette {
                middleground: 0x282a36,
                foreground: 0x44475a,
                background: 0x1D1E26,
                border: 0x4f5263,
                main: 0xff79c6,
                text: 0xf8f8f2,
                error: 0xff5555,
                warning: 0xffcc00,
                success: 0x50fa7b,
                waveform: 0xff79c6,
                black: 0x000000,
            },
            Themes::LMMS => Palette {
                middleground: 0x262B30,
                foreground: 0x3B424A,
                background: 0x111314,
                border: 0x4C5864,
                main: 0x0BD556,
                text: 0xe5e9f0,
                error: 0xff5555,
                warning: 0xffcc00,
                success: 0x0BD556,
                waveform: 0xFF8F05,
                black: 0x000000,
            },
            Themes::Nord => Palette {
                middleground: 0x2e3440,
                foreground: 0x3b4252,
                background: 0x21252d,
                border: 0x50586d,
                main: 0x88c0d0,
                text: 0xe5e9f0,
                error: 0xbf616a,
                warning: 0xbf616a,
                success: 0xa3be8c,
                waveform: 0x88c0d0,
                black: 0x000000,
            },
            Themes::OneShot => Palette {
                middleground: 0x1A0B1D,
                foreground: 0x2B0D1A,
                background: 0x100213,
                border: 0xba9e59,
                main: 0xe2bc5a,
                text: 0xFEFECD,
                error: 0xff5555,
                warning: 0xffcc00,
                success: 0x80FF80,
                waveform: 0xe2bc5a,
                black: 0x000000,
            },
            Themes::Catppuccin => Palette {
                middleground: 0x1E1E28,
                foreground: 0x332E41,
                background: 0x1B1923,
                border: 0x6E6C7E,
                main: 0xC6AAE8,
                text: 0xFEFECD,
                error: 0xE38C8F,
                warning: 0xE38C8F,
                success: 0xB1E3AD,
                waveform: 0xC6AAE8,
                black: 0x000000,
            },
            Themes::HighContrast => Palette {
                middleground: 0x000000,
                foreground: 0x111111,
                background: 0x000000,
                border: 0xcccccc,
                main: 0x00ffff,
                text: 0xffffff,
                error: 0xffff00,
                warning: 0xffff00,
                success: 0x00ff00,
                waveform: 0x00ff00,
                black: 0x000000,
            },
            Themes::Ferra => Palette {
                middleground: 0x2b292d,
                foreground: 0x383539,
                background: 0x1b1c1e,
                border: 0x3c393d,
                main: 0xfecdb2,
                text: 0xd1d1e0,
                error: 0xe06b75,
                warning: 0xf5d76e,
                success: 0xb1b695,
                waveform: 0xfecdb2,
                black: 0x000000,
            },
        }
    }

    /// The colours of a theme.
    #[verifier::when_used_as_spec(spec_palette)]
    pub fn palette(&self) -> (p: Palette)
        ensures
            p == self.spec_palette(),
    {
        match self {
            Themes::Dark => Palette {
                middleground: 0x272727,
                foreground: 0x353535,
                background: 0x151515,
                border: 0x555555,
                main: 0xBA84FC,
                text: 0xE0E0E0,
                error: 0xff5555,
                warning: 0xffcc00,
                success: 0x49eb7a,
                waveform: 0xBA84FC,
                black: 0x000000,
            },
            Themes::Dracula => Palette {
                middleground: 0x282a36,
                foreground: 0x44475a,
                background: 0x1D1E26,
                border: 0x4f5263,
                main: 0xff79c6,
                text: 0xf8f8f2,
                error: 0xff5555,
                warning: 0xffcc00,
                success: 0x50fa7b,
                waveform: 0xff79c6,
                black: 0x000000,
            },
            Themes::LMMS => Palette {
                middleground: 0x262B30,
                foreground: 0x3B424A,
                background: 0x111314,
                border: 0x4C5864,
                main: 0x0BD556,
                text: 0xe5e9f0,
                error: 0xff5555,
                warning: 0xffcc00,
                success: 0x0BD556,
                waveform: 0xFF8F05,
                black: 0x000000,
            },
            Themes::Nord => Palette {
                middleground: 0x2e3440,
                foreground: 0x3b4252,
                background: 0x21252d,
                border: 0x50586d,
                main: 0x88c0d0,
                text: 0xe5e9f0,
                error: 0xbf616a,
                warning: 0xbf616a,
                success: 0xa3be8c,
                waveform: 0x88c0d0,
                black: 0x000000,
            },
            Themes::OneShot => Palette {
                middleground: 0x1A0B1D,
                foreground: 0x2B0D1A,
                background: 0x100213,
                border: 0xba9e59,
                main: 0xe2bc5a,
                text: 0xFEFECD,
                error: 0xff5555,
                warning: 0xffcc00,
                success: 0x80FF80,
                waveform: 0xe2bc5a,
                black: 0x000000,
            },
            Themes::Catppuccin => Palette {
                middleground: 0x1E1E28,
                foreground: 0x332E41,
                background: 0x1B1923,
                border: 0x6E6C7E,
                main: 0xC6AAE8,
                text: 0xFEFECD,
                error: 0xE38C8F,
                warning: 0xE38C8F,
                success: 0xB1E3AD,
                waveform: 0xC6AAE8,
                black: 0x000000,
            },
            Themes::HighContrast => Palette {
                middleground: 0x000000,
                foreground: 0x111111,
                background: 0x000000,
                border: 0xcccccc,
                main: 0x00ffff,
                text: 0xffffff,
                error: 0xffff00,
                warning: 0xffff00,
                success: 0x00ff00,
                waveform: 0x00ff00,
                black: 0x000000,
            },
            Themes::Ferra => Palette {
                middleground: 0x2b292d,
                foreground: 0x383539,
                background: 0x1b1c1e,
                border: 0x3c393d,
                main: 0xfecdb2,
                text: 0xd1d1e0,
                error: 0xe06b75,
                warning: 0xf5d76e,
                success: 0xb1b695,
                waveform: 0xfecdb2,
                black: 0x000000,
            },
        }
    }

    /// The name that a pick list shows for a theme.
    pub fn name(&self) -> (s: &'static str)
        ensures
            s@ == self.spec_name(),
    {
        match self {
            Themes::Dark => "Dark",
            Themes::Dracula => "Dracula",
            Themes::Nord => "Nord",
            Themes::Ferra => "Ferra",
            Themes::LMMS => "LMMS",
            Themes::OneShot => "OneShot",
            Themes::Catppuccin => "Catppuccin",
            Themes::HighContrast => "High Contrast",
        }
    }

    /// The name that a pick list shows for a theme.
    pub open spec fn spec_name(&self) -> Seq<char> {
        match self {
            Themes::Dark => "Dark"@,
            Themes::Dracula => "Dracula"@,
            Themes::Nord => "Nord"@,
            Themes::Ferra => "Ferra"@,
            Themes::LMMS => "LMMS"@,
            Themes::OneShot => "OneShot"@,
            Themes::Catppuccin => "Catppuccin"@,
            Themes::HighContrast => "High Contrast"@,
        }
    }

    /// A theme that is stored and read back is the same theme, and a
    /// number that stands for a theme is the number of that theme.
    pub proof fn lemma_code_round_trip(t: Themes, value: i32)
        ensures
            Themes::spec_is_index(t.spec_code()),
            Themes::spec_from(t.spec_code()) == t,
            Themes::spec_is_index(value) ==> Themes::spec_from(value).spec_code() == value,
    {
    }
}

} // verus!
