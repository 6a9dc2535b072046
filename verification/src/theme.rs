//! The design system's colors: theme-aware backgrounds and the user's accent.

use vstd::prelude::*;

use crate::text;

verus! {

/// An opaque color.
#[derive(Clone, Copy, Debug, PartialEq, Eq, Structural)]
pub struct Rgb {
    pub r: u8,
    pub g: u8,
    pub b: u8,
}

/// The color of three channels.
pub open spec fn color(r: u8, g: u8, b: u8) -> Rgb {
    Rgb { r, g, b }
}

/// The color of three channels.
pub fn rgb(r: u8, g: u8, b: u8) -> (c: Rgb)
    ensures
        c == color(r, g, b),
{
    Rgb { r, g, b }
}

/// The chosen theme and accent.
pub struct ActiveTheme {
    /// 0 = Dark, 1 = Darker.
    pub theme: usize,
    pub accent_name: String,
}

impl ActiveTheme {
    /// The theme of a first run: Dark, with the blue accent.
    pub fn new() -> (r: Self)
        ensures
            r.theme == 0,
            r.accent_name@ == "Blue"@,
    {
        ActiveTheme { theme: 0, accent_name: "Blue".to_owned() }
    }
}

/// Records the active theme.
pub fn set_theme(active: &mut ActiveTheme, theme: usize)
    ensures
        final(active).theme == theme,
        final(active).accent_name == old(active).accent_name,
{
    active.theme = theme;
}

/// The active accent's name.
pub fn current_accent_name(active: &ActiveTheme) -> (r: String)
    ensures
        r@ == active.accent_name@,
{
    active.accent_name.clone()
}

/// Records the active accent's name.
pub fn set_accent_name(active: &mut ActiveTheme, name: &str)
    ensures
        final(active).accent_name@ == name@,
        final(active).theme == old(active).theme,
{
    active.accent_name = name.to_owned();
}

/// Whether the darker theme is active.
pub fn darker(active: &ActiveTheme) -> (r: bool)
    ensures
        r == (active.theme == 1),
{
    active.theme == 1
}

/// One of two colors, by theme.
pub open spec fn by_theme(active: ActiveTheme, dark: Rgb, darker: Rgb) -> Rgb {
    if active.theme == 1 {
        darker
    } else {
        dark
    }
}

/// The background of the window.
#[allow(non_snake_case)]
pub fn BG_0(active: &ActiveTheme) -> (r: Rgb)
    ensures
        r == by_theme(*active, color(0x14, 0x16, 0x1A), color(0x0C, 0x0D, 0x10)),
{
    if darker(active) {
        rgb(0x0C, 0x0D, 0x10)
    } else {
        rgb(0x14, 0x16, 0x1A)
    }
}

/// The background of panels.
#[allow(non_snake_case)]
pub fn BG_1(active: &ActiveTheme) -> (r: Rgb)
    ensures
        r == by_theme(*active, color(0x1B, 0x1E, 0x24), color(0x12, 0x14, 0x18)),
{
    if darker(active) {
        rgb(0x12, 0x14, 0x18)
    } else {
        rgb(0x1B, 0x1E, 0x24)
    }
}

/// The background of cards and rows.
#[allow(non_snake_case)]
pub fn BG_2(active: &ActiveTheme) -> (r: Rgb)
    ensures
        r == by_theme(*active, color(0x22, 0x26, 0x2E), color(0x18, 0x1B, 0x21)),
{
    if darker(active) {
        rgb(0x18, 0x1B, 0x21)
    } else {
        rgb(0x22, 0x26, 0x2E)
    }
}

/// The background of what the pointer is on.
#[allow(non_snake_case)]
pub fn BG_3(active: &ActiveTheme) -> (r: Rgb)
    ensures
        r == by_theme(*active, color(0x2A, 0x2F, 0x38), color(0x20, 0x24, 0x2B)),
{
    if darker(active) {
        rgb(0x20, 0x24, 0x2B)
    } else {
        rgb(0x2A, 0x2F, 0x38)
    }
}

/// An accent: its color, the dim variant, and the color of text on it.
#[derive(Clone, Copy, Debug, PartialEq, Eq, Structural)]
pub struct Accent {
    pub main: Rgb,
    pub dim: Rgb,
    pub on: Rgb,
}

/// The accent of a name; a name that is not known stands for the blue one.
pub open spec fn accent_of(name: Seq<char>) -> Accent {
    if name == "Violet"@ {
        Accent {
            main: color(0x9B, 0x7B, 0xFF),
            dim: color(0x45, 0x38, 0x6E),
            on: color(0xE4, 0xDA, 0xFF),
        }
    } else if name == "Teal"@ {
        Accent {
            main: color(0x2E, 0xC4, 0xB6),
            dim: color(0x1E, 0x50, 0x4C),
            on: color(0xC8, 0xF2, 0xEE),
        }
    } else if name == "Amber"@ {
        Accent {
            main: color(0xF0, 0xB5, 0x4A),
            dim: color(0x5E, 0x47, 0x1E),
            on: color(0xFB, 0xE6, 0xC4),
        }
    } else {
        Accent {
            main: color(0x5B, 0x8C, 0xFF),
            dim: color(0x33, 0x43, 0x6E),
            on: color(0xCF, 0xE0, 0xFF),
        }
    }
}

/// The accent of a name.
pub fn accent_colors(name: &str) -> (r: Accent)
    ensures
        r == accent_of(name@),
{
    if text::same(name, "Violet") {
        Accent { main: rgb(0x9B, 0x7B, 0xFF), dim: rgb(0x45, 0x38, 0x6E), on: rgb(0xE4, 0xDA, 0xFF) }
    } else if text::same(name, "Teal") {
        Accent { main: rgb(0x2E, 0xC4, 0xB6), dim: rgb(0x1E, 0x50, 0x4C), on: rgb(0xC8, 0xF2, 0xEE) }
    } else if text::same(name, "Amber") {
        Accent { main: rgb(0xF0, 0xB5, 0x4A), dim: rgb(0x5E, 0x47, 0x1E), on: rgb(0xFB, 0xE6, 0xC4) }
    } else {
        Accent { main: rgb(0x5B, 0x8C, 0xFF), dim: rgb(0x33, 0x43, 0x6E), on: rgb(0xCF, 0xE0, 0xFF) }
    }
}

/// The active accent's color.
pub fn accent(active: &ActiveTheme) -> (r: Rgb)
    ensures
        r == accent_of(active.accent_name@).main,
{
    accent_colors(active.accent_name.as_str()).main
}

/// The active accent's dim variant.
pub fn accent_dim(active: &ActiveTheme) -> (r: Rgb)
    ensures
        r == accent_of(active.accent_name@).dim,
{
    accent_colors(active.accent_name.as_str()).dim
}

/// The color of text on the active accent.
pub fn accent_text(active: &ActiveTheme) -> (r: Rgb)
    ensures
        r == accent_of(active.accent_name@).on,
{
    accent_colors(active.accent_name.as_str()).on
}

} // verus!
