use vstd::prelude::*;

verus! {

/// A visual styling tier selected on a theme.
#[derive(Clone, Copy, Debug, PartialEq, Eq, Structural)]
pub enum Layer {
    Background,
    Primary,
    Secondary,
}

/// The style variants a container can be drawn with.
#[derive(Clone, Copy, Debug, PartialEq, Eq, Structural)]
pub enum ContainerStyle {
    /// The theme's plain container style, used until another one is chosen.
    Transparent,
    Background,
    Primary,
    Secondary,
}

/// The container style that belongs to a layer.
pub open spec fn style_of(layer: Layer) -> ContainerStyle {
    match layer {
        Layer::Background => ContainerStyle::Background,
        Layer::Primary => ContainerStyle::Primary,
        Layer::Secondary => ContainerStyle::Secondary,
    }
}

/// The layer a child is drawn with: the container's own one when set,
/// otherwise the one the theme already carries.
pub open spec fn effective_layer_of(own: Option<Layer>, inherited: Layer) -> Layer {
    match own {
        Some(l) => l,
        None => inherited,
    }
}

/// Returns the container style that belongs to `layer`.
pub fn style_for_layer(layer: Layer) -> (r: ContainerStyle)
    ensures
        r == style_of(layer),
{
    match layer {
        Layer::Background => ContainerStyle::Background,
        Layer::Primary => ContainerStyle::Primary,
        Layer::Secondary => ContainerStyle::Secondary,
    }
}

/// Distinct layers select distinct styles, and no layer selects the
/// transparent style.
pub proof fn lemma_style_of_injective(a: Layer, b: Layer)
    ensures
        style_of(a) == style_of(b) ==> a == b,
        style_of(a) != ContainerStyle::Transparent,
{
}

} // verus!
