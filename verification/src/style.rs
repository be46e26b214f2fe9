//! The flat style table: colors, metrics and the default theme values.

use vstd::prelude::*;

use crate::geometry::Vec2;

verus! {

/// How many widget color slots a style table holds.
pub const WIDGET_COLOR_COUNT: usize = 14;

/// An 8-bit RGBA color.
#[derive(Clone, Copy, PartialEq, Eq, Structural, Debug)]
pub struct Color {
    pub r: u8,
    pub g: u8,
    pub b: u8,
    pub a: u8,
}

/// A font handle; its meaning belongs to the caller's text-metrics
/// provider.
#[derive(Clone, Copy, PartialEq, Eq, Structural, PartialOrd, Ord, Hash, Debug)]
pub struct FontId(pub u32);

/// The color slots a widget can draw with.
#[derive(Clone, Copy, PartialEq, Eq, Structural, Debug)]
pub enum WidgetColor {
    Text,
    Border,
    WindowBackground,
    TitleBackground,
    TitleText,
    PanelBackground,
    Button,
    ButtonHover,
    ButtonFocus,
    Base,
    BaseHover,
    BaseFocus,
    ScrollBase,
    ScrollThumb,
}

/// The table slot a widget color names.
pub open spec fn spec_color_index(c: WidgetColor) -> int {
    match c {
        WidgetColor::Text => 0,
        WidgetColor::Border => 1,
        WidgetColor::WindowBackground => 2,
        WidgetColor::TitleBackground => 3,
        WidgetColor::TitleText => 4,
        WidgetColor::PanelBackground => 5,
        WidgetColor::Button => 6,
        WidgetColor::ButtonHover => 7,
        WidgetColor::ButtonFocus => 8,
        WidgetColor::Base => 9,
        WidgetColor::BaseHover => 10,
        WidgetColor::BaseFocus => 11,
        WidgetColor::ScrollBase => 12,
        WidgetColor::ScrollThumb => 13,
    }
}

/// The table slot a widget color names.
pub fn color_index(c: WidgetColor) -> (i: usize)
    ensures
        i == spec_color_index(c),
        i < WIDGET_COLOR_COUNT,
{
    match c {
        WidgetColor::Text => 0,
        WidgetColor::Border => 1,
        WidgetColor::WindowBackground => 2,
        WidgetColor::TitleBackground => 3,
        WidgetColor::TitleText => 4,
        WidgetColor::PanelBackground => 5,
        WidgetColor::Button => 6,
        WidgetColor::ButtonHover => 7,
        WidgetColor::ButtonFocus => 8,
        WidgetColor::Base => 9,
        WidgetColor::BaseHover => 10,
        WidgetColor::BaseFocus => 11,
        WidgetColor::ScrollBase => 12,
        WidgetColor::ScrollThumb => 13,
    }
}

/// The color table of a style: one color per widget color slot.
#[derive(Clone, Copy, Debug)]
pub struct WidgetColors(pub [Color; 14]);

impl Color {
    /// An opaque color from its three channels.
    pub fn rgb(r: u8, g: u8, b: u8) -> (c: Color)
        ensures
            c == (Color { r, g, b, a: 255 }),
    {
        Color { r, g, b, a: 255 }
    }

    /// A color from all four channels.
    pub fn rgba(r: u8, g: u8, b: u8, a: u8) -> (c: Color)
        ensures
            c == (Color { r, g, b, a }),
    {
        Color { r, g, b, a }
    }

    /// Fully transparent black.
    pub fn transparent() -> (c: Color)
        ensures
            c == (Color { r: 0, g: 0, b: 0, a: 0 }),
    {
        Color { r: 0, g: 0, b: 0, a: 0 }
    }
}

/// The default dark color table, slot by slot.
pub open spec fn is_default_colors(w: WidgetColors) -> bool {
    &&& w.spec_color(WidgetColor::Text) == (Color { r: 230, g: 230, b: 230, a: 255 })
    &&& w.spec_color(WidgetColor::Border) == (Color { r: 25, g: 25, b: 25, a: 255 })
    &&& w.spec_color(WidgetColor::WindowBackground) == (Color { r: 50, g: 50, b: 50, a: 255 })
    &&& w.spec_color(WidgetColor::TitleBackground) == (Color { r: 25, g: 25, b: 25, a: 255 })
    &&& w.spec_color(WidgetColor::TitleText) == (Color { r: 240, g: 240, b: 240, a: 255 })
    &&& w.spec_color(WidgetColor::PanelBackground) == (Color { r: 0, g: 0, b: 0, a: 0 })
    &&& w.spec_color(WidgetColor::Button) == (Color { r: 75, g: 75, b: 75, a: 255 })
    &&& w.spec_color(WidgetColor::ButtonHover) == (Color { r: 95, g: 95, b: 95, a: 255 })
    &&& w.spec_color(WidgetColor::ButtonFocus) == (Color { r: 115, g: 115, b: 115, a: 255 })
    &&& w.spec_color(WidgetColor::Base) == (Color { r: 30, g: 30, b: 30, a: 255 })
    &&& w.spec_color(WidgetColor::BaseHover) == (Color { r: 35, g: 35, b: 35, a: 255 })
    &&& w.spec_color(WidgetColor::BaseFocus) == (Color { r: 40, g: 40, b: 40, a: 255 })
    &&& w.spec_color(WidgetColor::ScrollBase) == (Color { r: 43, g: 43, b: 43, a: 255 })
    &&& w.spec_color(WidgetColor::ScrollThumb) == (Color { r: 30, g: 30, b: 30, a: 255 })
}

impl WidgetColors {
    /// The color stored for the given slot.
    pub open spec fn spec_color(&self, c: WidgetColor) -> Color {
        self.0@[spec_color_index(c)]
    }

    /// The color stored for the given slot.
    pub fn color(&self, c: WidgetColor) -> (r: Color)
        ensures
            r == self.spec_color(c),
    {
        let i = color_index(c);
        self.0[i]
    }

    /// Replaces the color stored for the given slot.
    pub fn set_color(&mut self, c: WidgetColor, value: Color)
        ensures
            final(self).0@ == old(self).0@.update(spec_color_index(c), value),
    {
        let i = color_index(c);
        self.0[i] = value;
    }

    /// The default dark color table.
    pub fn default_colors() -> (r: WidgetColors)
        ensures
            is_default_colors(r),
    {
        WidgetColors(
            [
                Color { r: 230, g: 230, b: 230, a: 255 },
                Color { r: 25, g: 25, b: 25, a: 255 },
                Color { r: 50, g: 50, b: 50, a: 255 },
                Color { r: 25, g: 25, b: 25, a: 255 },
                Color { r: 240, g: 240, b: 240, a: 255 },
                Color { r: 0, g: 0, b: 0, a: 0 },
                Color { r: 75, g: 75, b: 75, a: 255 },
                Color { r: 95, g: 95, b: 95, a: 255 },
                Color { r: 115, g: 115, b: 115, a: 255 },
                Color { r: 30, g: 30, b: 30, a: 255 },
                Color { r: 35, g: 35, b: 35, a: 255 },
                Color { r: 40, g: 40, b: 40, a: 255 },
                Color { r: 43, g: 43, b: 43, a: 255 },
                Color { r: 30, g: 30, b: 30, a: 255 },
            ],
        )
    }
}

/// Style metrics: the default widget size, paddings and bar heights, plus
/// the color table. All lengths are in pixels.
#[derive(Clone, Copy, Debug)]
pub struct Style {
    pub font: FontId,
    pub size: Vec2,
    pub padding: u16,
    pub spacing: u16,
    pub indent: u16,
    pub title_height: u16,
    pub footer_height: u16,
    pub scrollbar_size: u16,
    pub thumb_size: u16,
    pub colors: WidgetColors,
}

/// The default style metrics, field by field.
pub open spec fn is_default_style(s: Style) -> bool {
    &&& s.font == FontId(0)
    &&& s.size == (Vec2 { x: 68, y: 10 })
    &&& s.padding == 5
    &&& s.spacing == 4
    &&& s.indent == 24
    &&& s.title_height == 24
    &&& s.footer_height == 20
    &&& s.scrollbar_size == 12
    &&& s.thumb_size == 8
    &&& is_default_colors(s.colors)
}

impl Style {
    /// The default style: a 68 by 10 widget size, 5-pixel padding,
    /// 4-pixel spacing, and the default dark colors.
    pub fn default_style() -> (r: Style)
        ensures
            is_default_style(r),
    {
        Style {
            font: FontId(0),
            size: Vec2 { x: 68, y: 10 },
            padding: 5,
            spacing: 4,
            indent: 24,
            title_height: 24,
            footer_height: 20,
            scrollbar_size: 12,
            thumb_size: 8,
            colors: WidgetColors::default_colors(),
        }
    }
}

} // verus!
