//! The default chrome rules of the dock: which colour, stroke and size each
//! part of the tab bar gets, which label a node carries, and the default
//! simplification options.

use crate::dock::{layout_name, layout_text, Node, NodeId, Nodes};
use crate::style::{Color, Stroke, Visuals};
use vstd::prelude::*;

verus! {

/// One logical point, in the thousandths-of-a-point unit lengths use here.
pub const POINT: u32 = 1000;

/// Height of the bar holding tab names: twenty logical points.
pub const TAB_BAR_HEIGHT: u32 = 20 * POINT;

/// Width of the gap between nodes in a horizontal or vertical layout, and
/// between rows and columns of a grid layout: one logical point.
pub const GAP_WIDTH: u32 = 1 * POINT;

/// No child node shrinks below this size: thirty-two logical points.
pub const MIN_SIZE: u32 = 32 * POINT;

/// What the pointer is doing to the resize handle between two nodes.
#[derive(Clone, Copy, Debug, PartialEq, Eq, Structural)]
pub enum ResizeState {
    Idle,
    Hovering,
    Dragging,
}

/// Which simplifications the dock applies to its tree after edits.
#[derive(Clone, Copy, Debug, PartialEq, Eq, Structural)]
pub struct SimplificationOptions {
    /// Remove tab branches that hold no children.
    pub prune_empty_tabs: bool,
    /// Remove other branches that hold no children.
    pub prune_empty_containers: bool,
    /// Replace a tab branch holding one child by that child.
    pub prune_single_child_tabs: bool,
    /// Replace another branch holding one child by that child.
    pub prune_single_child_containers: bool,
    /// Put every leaf under a tab branch, even a leaf standing alone.
    pub all_leaves_must_have_tabs: bool,
}

impl SimplificationOptions {
    /// The default simplifications: prune everything prunable, and do not
    /// force lone leaves under tabs.
    pub open spec fn default_spec() -> SimplificationOptions {
        SimplificationOptions {
            prune_empty_tabs: true,
            prune_empty_containers: true,
            prune_single_child_tabs: true,
            prune_single_child_containers: true,
            all_leaves_must_have_tabs: false,
        }
    }
}

impl Default for SimplificationOptions {
    fn default() -> (o: Self)
        ensures
            o == SimplificationOptions::default_spec(),
    {
        SimplificationOptions {
            prune_empty_tabs: true,
            prune_empty_containers: true,
            prune_single_child_tabs: true,
            prune_single_child_containers: true,
            all_leaves_must_have_tabs: false,
        }
    }
}

/// Stroke of the resize handle between two nodes: nothing while idle (the gap
/// speaks for itself), else the foreground stroke of the hovered or dragged
/// widget style.
pub open spec fn resize_stroke_spec(visuals: Visuals, resize_state: ResizeState) -> Stroke {
    match resize_state {
        ResizeState::Idle => Stroke::none_spec(),
        ResizeState::Hovering => visuals.widgets.hovered.fg_stroke,
        ResizeState::Dragging => visuals.widgets.active.fg_stroke,
    }
}

/// Background of the whole tab bar: the window fill faded towards the backdrop.
pub open spec fn tab_bar_color_spec(visuals: Visuals) -> Color {
    visuals.faded_window_fill
}

/// Background of one tab title: the active tab takes the window fill and so
/// blends into the pane below it; an inactive one fades into the tab bar.
pub open spec fn tab_bg_color_spec(visuals: Visuals, active: bool) -> Color {
    if active {
        visuals.window_fill
    } else {
        tab_bar_color_spec(visuals)
    }
}

/// Outline around a tab title: one point wide in the active widget fill for
/// the active tab, and absent for an inactive one.
pub open spec fn tab_outline_stroke_spec(visuals: Visuals, active: bool) -> Stroke {
    if active {
        Stroke { width_milli: POINT, color: visuals.widgets.active.bg_fill }
    } else {
        Stroke::none_spec()
    }
}

/// Line separating the tab bar from the active pane: one point wide, in the
/// noninteractive background stroke colour.
pub open spec fn tab_bar_hline_stroke_spec(visuals: Visuals) -> Stroke {
    Stroke { width_milli: POINT, color: visuals.widgets.noninteractive.bg_stroke.color }
}

/// Colour of a tab title's text: the active widget text colour on the active
/// tab, the noninteractive one otherwise.
pub open spec fn tab_text_color_spec(visuals: Visuals, active: bool) -> Color {
    if active {
        visuals.widgets.active.fg_stroke.color
    } else {
        visuals.widgets.noninteractive.fg_stroke.color
    }
}

/// The default behaviour of the dock: its stock styling and labelling rules.
/// A host overrides what it wants changed and delegates the rest here.
pub struct Behavior;

impl Behavior {
    /// The tab label the dock determines itself: a branch is labelled by its
    /// layout's name. For a leaf the result is `None`: its label is the
    /// host's to supply.
    pub fn tab_text_for_node<Leaf>(&self, nodes: &Nodes<Leaf>, node_id: NodeId) -> (t: Option<
        String,
    >)
        requires
            nodes@.contains_key(node_id.0),
        ensures
            match nodes@[node_id.0] {
                Node::Leaf(_) => t is None,
                Node::Branch(layout) => t matches Some(s) && s@ == layout_name(layout),
            },
    {
        match nodes.get(node_id) {
            Some(node) => match node {
                Node::Leaf(_) => None,
                Node::Branch(layout) => Some(layout_text(*layout)),
            },
            None => vstd::pervasive::unreached(),
        }
    }

    /// Whether a leaf stays in its parent; the default retains every leaf.
    pub fn retain_leaf<Leaf>(&self, _leaf: &Leaf) -> (r: bool)
        ensures
            r,
    {
        true
    }

    /// Height of the bar holding tab names, in thousandths of a point.
    pub fn tab_bar_height(&self) -> (h: u32)
        ensures
            h == TAB_BAR_HEIGHT,
    {
        TAB_BAR_HEIGHT
    }

    /// Width of the gap between nodes, in thousandths of a point.
    pub fn gap_width(&self) -> (w: u32)
        ensures
            w == GAP_WIDTH,
    {
        GAP_WIDTH
    }

    /// The size below which no child node shrinks, in thousandths of a point.
    pub fn min_size(&self) -> (s: u32)
        ensures
            s == MIN_SIZE,
    {
        MIN_SIZE
    }

    /// Which simplifications the dock applies: the stock defaults.
    pub fn simplification_options(&self) -> (o: SimplificationOptions)
        ensures
            o == SimplificationOptions::default_spec(),
    {
        SimplificationOptions::default()
    }

    /// Stroke of the resize handle between two nodes, by pointer state.
    pub fn resize_stroke(&self, visuals: &Visuals, resize_state: ResizeState) -> (s: Stroke)
        ensures
            s == resize_stroke_spec(*visuals, resize_state),
    {
        match resize_state {
            ResizeState::Idle => Stroke::none(),
            ResizeState::Hovering => visuals.widgets.hovered.fg_stroke,
            ResizeState::Dragging => visuals.widgets.active.fg_stroke,
        }
    }

    /// Background colour of the whole tab bar.
    pub fn tab_bar_color(&self, visuals: &Visuals) -> (c: Color)
        ensures
            c == tab_bar_color_spec(*visuals),
    {
        visuals.faded_window_fill
    }

    /// Background colour of one tab title.
    pub fn tab_bg_color(&self, visuals: &Visuals, active: bool) -> (c: Color)
        ensures
            c == tab_bg_color_spec(*visuals, active),
    {
        if active {
            visuals.window_fill
        } else {
            self.tab_bar_color(visuals)
        }
    }

    /// Stroke of the outline around a tab title.
    pub fn tab_outline_stroke(&self, visuals: &Visuals, active: bool) -> (s: Stroke)
        ensures
            s == tab_outline_stroke_spec(*visuals, active),
    {
        if active {
            Stroke::new(POINT, visuals.widgets.active.bg_fill)
        } else {
            Stroke::none()
        }
    }

    /// Stroke of the line separating the tab bar from the active pane.
    pub fn tab_bar_hline_stroke(&self, visuals: &Visuals) -> (s: Stroke)
        ensures
            s == tab_bar_hline_stroke_spec(*visuals),
    {
        Stroke::new(POINT, visuals.widgets.noninteractive.bg_stroke.color)
    }

    /// Colour of a tab title's text.
    pub fn tab_text_color(&self, visuals: &Visuals, active: bool) -> (c: Color)
        ensures
            c == tab_text_color_spec(*visuals, active),
    {
        if active {
            visuals.widgets.active.text_color()
        } else {
            visuals.widgets.noninteractive.text_color()
        }
    }
}

} // verus!
