//! The colours of the table view.
//!
//! A colour scheme comes from one of three places: the terminal's own colours,
//! a tailwind palette of the `ratatui` crate, or the colour file that pywal
//! keeps, which is a JSON document with hexadecimal colours.

use ratatui::style::palette::tailwind;
use vstd::prelude::*;

verus! {

/// A colour of the terminal: its default, or one given by red, green and blue.
#[derive(Clone, Copy, Debug, PartialEq, Eq, Structural)]
pub enum Color {
    Reset,
    Rgb(u8, u8, u8),
}

/// The tailwind palettes that the table can be drawn in, and the grey one
/// that every scheme takes its neutral colours from.
#[derive(Clone, Copy, Debug, PartialEq, Eq, Structural)]
pub enum Tailwind {
    Blue,
    Emerald,
    Indigo,
    Red,
    Slate,
}

/// The shades of a palette that a colour scheme uses.
#[derive(Clone, Copy, Debug, PartialEq, Eq, Structural)]
pub struct Palette {
    pub c200: Color,
    pub c400: Color,
    pub c600: Color,
    pub c900: Color,
    pub c950: Color,
}

/// The colours of the table view.
#[derive(Clone, Copy, Debug, PartialEq, Eq, Structural)]
pub struct TableColors {
    pub buffer_bg: Color,
    pub header_bg: Color,
    pub header_fg: Color,
    pub row_fg: Color,
    pub selected_row_style_fg: Color,
    pub selected_column_style_fg: Color,
    pub selected_cell_style_fg: Color,
    pub normal_row_color: Color,
    pub alt_row_color: Color,
    pub footer_border_color: Color,
}

/// The colour with the red, green and blue of `0x00RRGGBB`; higher bits are ignored.
pub open spec fn rgb(value: u32) -> Color {
    Color::Rgb(
        ((value >> 16) & 0xff) as u8,
        ((value >> 8) & 0xff) as u8,
        (value & 0xff) as u8,
    )
}

/// The five shades of each tailwind palette, as `ratatui` defines them.
pub open spec fn palette_of(name: Tailwind) -> Palette {
    match name {
        Tailwind::Blue => Palette {
            c200: rgb(0xbfdbfe),
            c400: rgb(0x60a5fa),
            c600: rgb(0x2563eb),
            c900: rgb(0x1e3a8a),
            c950: rgb(0x172554),
        },
        Tailwind::Emerald => Palette {
            c200: rgb(0xa7f3d0),
            c400: rgb(0x34d399),
            c600: rgb(0x059669),
            c900: rgb(0x064e3b),
            c950: rgb(0x022c22),
        },
        Tailwind::Indigo => Palette {
            c200: rgb(0xc7d2fe),
            c400: rgb(0x818cf8),
            c600: rgb(0x4f46e5),
            c900: rgb(0x312e81),
            c950: rgb(0x1e1b4b),
        },
        Tailwind::Red => Palette {
            c200: rgb(0xfecaca),
            c400: rgb(0xf87171),
            c600: rgb(0xdc2626),
            c900: rgb(0x7f1d1d),
            c950: rgb(0x450a0a),
        },
        Tailwind::Slate => Palette {
            c200: rgb(0xe2e8f0),
            c400: rgb(0x94a3b8),
            c600: rgb(0x475569),
            c900: rgb(0x0f172a),
            c950: rgb(0x020617),
        },
    }
}

/// Reads five shades of one of the palettes in `ratatui::style::palette::tailwind`.
///
/// The contract claims the values that the crate's source gives for these
/// constants, each built there from `0x00RRGGBB`.
#[verifier::external_body]
fn shades(name: Tailwind) -> (palette: Palette)
    ensures
        palette == palette_of(name),
{
    let p = match name {
        Tailwind::Blue => tailwind::BLUE,
        Tailwind::Emerald => tailwind::EMERALD,
        Tailwind::Indigo => tailwind::INDIGO,
        Tailwind::Red => tailwind::RED,
        Tailwind::Slate => tailwind::SLATE,
    };
    let [c200, c400, c600, c900, c950] = [p.c200, p.c400, p.c600, p.c900, p.c950].map(|c| match c {
        ratatui::style::Color::Rgb(r, g, b) => Color::Rgb(r, g, b),
        _ => Color::Reset,
    });
    Palette { c200, c400, c600, c900, c950 }
}

/// The colour scheme that is drawn from `accent` and the neutral `grey`.
pub open spec fn scheme_of(accent: Palette, grey: Palette) -> TableColors {
    TableColors {
        buffer_bg: grey.c950,
        header_bg: accent.c900,
        header_fg: grey.c200,
        row_fg: grey.c200,
        selected_row_style_fg: accent.c400,
        selected_column_style_fg: accent.c400,
        selected_cell_style_fg: accent.c600,
        normal_row_color: grey.c950,
        alt_row_color: grey.c900,
        footer_border_color: accent.c400,
    }
}

/// The colour scheme that is drawn from sixteen or fewer pywal colours.
pub open spec fn pywal_scheme(colors: Seq<Color>) -> TableColors {
    TableColors {
        buffer_bg: colors[0],
        header_bg: colors[1],
        header_fg: colors[7],
        row_fg: colors[7],
        selected_row_style_fg: colors[5],
        selected_column_style_fg: colors[5],
        selected_cell_style_fg: colors[6],
        normal_row_color: colors[0],
        alt_row_color: colors[8],
        footer_border_color: colors[4],
    }
}

/// The scheme in which every colour is the terminal's own.
pub open spec fn terminal_scheme() -> TableColors {
    TableColors {
        buffer_bg: Color::Reset,
        header_bg: Color::Reset,
        header_fg: Color::Reset,
        row_fg: Color::Reset,
        selected_row_style_fg: Color::Reset,
        selected_column_style_fg: Color::Reset,
        selected_cell_style_fg: Color::Reset,
        normal_row_color: Color::Reset,
        alt_row_color: Color::Reset,
        footer_border_color: Color::Reset,
    }
}

/// The number of palettes that the table can be drawn in.
pub const PALETTE_COUNT: usize = 4;

/// The palette at `index` of the four that the table can be drawn in.
pub fn palette_at(index: usize) -> (name: Tailwind)
    requires
        index < PALETTE_COUNT,
    ensures
        name == match index {
            0 => Tailwind::Blue,
            1 => Tailwind::Emerald,
            2 => Tailwind::Indigo,
            _ => Tailwind::Red,
        },
{
    if index == 0 {
        Tailwind::Blue
    } else if index == 1 {
        Tailwind::Emerald
    } else if index == 2 {
        Tailwind::Indigo
    } else {
        Tailwind::Red
    }
}

impl TableColors {
    /// The scheme of a tailwind palette: accents from the palette, neutral
    /// colours from the grey one.
    pub fn new(color: Tailwind) -> (scheme: TableColors)
        ensures
            scheme == scheme_of(palette_of(color), palette_of(Tailwind::Slate)),
    {
        let accent = shades(color);
        let grey = shades(Tailwind::Slate);
        TableColors {
            buffer_bg: grey.c950,
            header_bg: accent.c900,
            header_fg: grey.c200,
            row_fg: grey.c200,
            selected_row_style_fg: accent.c400,
            selected_column_style_fg: accent.c400,
            selected_cell_style_fg: accent.c600,
            normal_row_color: grey.c950,
            alt_row_color: grey.c900,
            footer_border_color: accent.c400,
        }
    }

    /// The scheme in which every colour is the terminal's own.
    pub fn default_terminal() -> (scheme: TableColors)
        ensures
            scheme == terminal_scheme(),
    {
        TableColors {
            header_fg: Color::Reset,
            header_bg: Color::Reset,
            normal_row_color: Color::Reset,
            alt_row_color: Color::Reset,
            row_fg: Color::Reset,
            selected_row_style_fg: Color::Reset,
            selected_column_style_fg: Color::Reset,
            selected_cell_style_fg: Color::Reset,
            buffer_bg: Color::Reset,
            footer_border_color: Color::Reset,
        }
    }

    /// The scheme of the pywal colours where there are any, and of the first
    /// palette where there are none. The scheme reads the colours up to the
    /// ninth, so at least nine must be there.
    pub fn new_from_pywal(colors: Option<&Vec<Color>>) -> (scheme: TableColors)
        requires
            colors matches Some(found) ==> found@.len() > 8,
        ensures
            scheme == match colors {
                Some(found) => pywal_scheme(found@),
                None => scheme_of(palette_of(Tailwind::Blue), palette_of(Tailwind::Slate)),
            },
    {
        match colors {
            Some(colors) => TableColors {
                buffer_bg: colors[0],
                header_bg: colors[1],
                header_fg: colors[7],
                row_fg: colors[7],
                selected_row_style_fg: colors[5],
                selected_column_style_fg: colors[5],
                selected_cell_style_fg: colors[6],
                normal_row_color: colors[0],
                alt_row_color: colors[8],
                footer_border_color: colors[4],
            },
            None => TableColors::new(palette_at(0)),
        }
    }

    /// The scheme of the pywal colours where at least nine were found, and of
    /// the first palette otherwise.
    pub fn from_pywal_or_default(colors: Option<&Vec<Color>>) -> (scheme: TableColors)
        ensures
            scheme == match colors {
                Some(found) if found@.len() > 8 => pywal_scheme(found@),
                _ => scheme_of(palette_of(Tailwind::Blue), palette_of(Tailwind::Slate)),
            },
    {
        match colors {
            Some(found) => {
                if found.len() > 8 {
                    TableColors::new_from_pywal(Some(found))
                } else {
                    TableColors::new_from_pywal(None)
                }
            },
            None => TableColors::new_from_pywal(None),
        }
    }
}

/// The colour with the red, green and blue of `0x00RRGGBB`.
pub fn color_from_u32(value: u32) -> (color: Color)
    ensures
        color == rgb(value),
{
    let r: u32 = (value >> 16) & 0xff;
    let g: u32 = (value >> 8) & 0xff;
    let b: u32 = value & 0xff;
    assert((value >> 16) & 0xff <= 0xff) by (bit_vector);
    assert((value >> 8) & 0xff <= 0xff) by (bit_vector);
    assert(value & 0xff <= 0xff) by (bit_vector);
    Color::Rgb(r as u8, g as u8, b as u8)
}

} // verus!
