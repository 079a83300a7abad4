//! Two composable widgets for a retained-mode toolkit: a container that draws
//! its content on a chosen theme layer, and a popover that pairs inline
//! content with a popup shown in a separate overlay pass.
//!
//! This crate holds the decisions both widgets make, stated and proved: how a
//! layer selects a style and the layer seen while drawing, how each pass is
//! routed to the content or the popup and to which child state, where the
//! overlay is anchored and with which limits it is laid out, and the rule that
//! a popover has at most one overlay pass open at a time.

mod container;
mod geometry;
mod layer;
mod popover;

pub use container::{
    container, lemma_layer_does_not_leak, Horizontal, LayerContainer, Length, Padding, Vertical,
};
pub use geometry::{Limits, Point, Rectangle, Size};
pub use layer::{
    effective_layer_of, lemma_style_of_injective, style_for_layer, style_of, ContainerStyle, Layer,
};
pub use popover::{
    lemma_close_restores, lemma_passes_are_routed_by_stage, lemma_second_overlay_conflicts,
    slot_index, slot_of_stage, BorrowConflict, OverlayPass, Pass, Popover, Slot, Stage,
};
