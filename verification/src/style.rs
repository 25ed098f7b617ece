//! The visual vocabulary the chrome rules are stated over: colours, strokes,
//! and the per-interaction-state widget styles a host theme supplies.

use vstd::prelude::*;

verus! {

/// A colour, as four 8-bit premultiplied sRGBA components.
#[derive(Clone, Copy, Debug, PartialEq, Eq, Structural)]
pub struct Color {
    pub r: u8,
    pub g: u8,
    pub b: u8,
    pub a: u8,
}

impl Color {
    /// The fully transparent colour.
    pub open spec fn transparent_spec() -> Color {
        Color { r: 0, g: 0, b: 0, a: 0 }
    }

    /// The fully transparent colour.
    pub fn transparent() -> (c: Color)
        ensures
            c == Color::transparent_spec(),
    {
        Color { r: 0, g: 0, b: 0, a: 0 }
    }
}

/// A line stroke: a width in thousandths of a logical point, and a colour.
#[derive(Clone, Copy, Debug, PartialEq, Eq, Structural)]
pub struct Stroke {
    /// Width of the line, in thousandths of a logical point.
    pub width_milli: u32,
    pub color: Color,
}

impl Stroke {
    /// The absent stroke: zero width and fully transparent, so nothing is drawn.
    pub open spec fn none_spec() -> Stroke {
        Stroke { width_milli: 0, color: Color::transparent_spec() }
    }

    /// The absent stroke: zero width and fully transparent, so nothing is drawn.
    pub fn none() -> (s: Stroke)
        ensures
            s == Stroke::none_spec(),
    {
        Stroke { width_milli: 0, color: Color::transparent() }
    }

    pub fn new(width_milli: u32, color: Color) -> (s: Stroke)
        ensures
            s == (Stroke { width_milli, color }),
    {
        Stroke { width_milli, color }
    }
}

/// How widgets in one interaction state are drawn by the host theme.
#[derive(Clone, Copy, Debug, PartialEq, Eq, Structural)]
pub struct WidgetVisuals {
    /// Fill colour of the widget's background.
    pub bg_fill: Color,
    /// Stroke around the widget's background.
    pub bg_stroke: Stroke,
    /// Stroke of the widget's foreground: its text and icons.
    pub fg_stroke: Stroke,
}

impl WidgetVisuals {
    /// The colour of text on the widget: the foreground stroke's colour.
    pub fn text_color(&self) -> (c: Color)
        ensures
            c == self.fg_stroke.color,
    {
        self.fg_stroke.color
    }
}

/// The widget styles of a theme, one per interaction state.
#[derive(Clone, Copy, Debug, PartialEq, Eq, Structural)]
pub struct Widgets {
    /// For widgets the pointer cannot interact with, and for quiet chrome.
    pub noninteractive: WidgetVisuals,
    /// For widgets under the pointer.
    pub hovered: WidgetVisuals,
    /// For widgets being clicked or dragged.
    pub active: WidgetVisuals,
}

/// What the chrome rules read from the host theme.
#[derive(Clone, Copy, Debug, PartialEq, Eq, Structural)]
pub struct Visuals {
    /// Fill colour of windows and panes.
    pub window_fill: Color,
    /// The window fill faded towards the backdrop. The host derives it from
    /// `window_fill` by dimming to seven tenths in linear colour space — a
    /// floating-point blend, so it arrives here precomputed.
    pub faded_window_fill: Color,
    /// The per-interaction-state widget styles.
    pub widgets: Widgets,
}

} // verus!
