//! Styling and labelling rules for a tiled dock.
//!
//! A dock shows host content in a tree of nodes: leaves hold the content,
//! branches lay their children out (as tabs, rows, columns or a grid).
//! This crate states and verifies the default chrome rules of such a dock:
//! which colour and stroke each part of the tab bar gets for each interaction
//! state, which label a node carries, and the default sizes and
//! simplification options.
//!
//! Colours are modelled as 8-bit premultiplied sRGBA components and lengths
//! in thousandths of a logical point, so that every rule is stated over plain
//! integers. The host theme supplies a [`style::Visuals`] value; painting
//! itself stays with the host.

pub mod behavior;
pub mod dock;
pub mod style;
