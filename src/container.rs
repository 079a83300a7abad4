use vstd::prelude::*;
use crate::layer::{effective_layer_of, style_for_layer, style_of, ContainerStyle, Layer};

verus! {

/// How much a dimension asks for.
#[derive(Clone, Copy, Debug, PartialEq, Eq, Structural)]
pub enum Length {
    /// All the remaining space.
    Fill,
    /// A share of the remaining space, relative to the siblings' shares.
    FillPortion(u16),
    /// The least space the content needs.
    Shrink,
    /// A fixed number of units.
    Units(u16),
}

/// Horizontal placement of the content inside the container.
#[derive(Clone, Copy, Debug, PartialEq, Eq, Structural)]
pub enum Horizontal {
    Left,
    Center,
    Right,
}

/// Vertical placement of the content inside the container.
#[derive(Clone, Copy, Debug, PartialEq, Eq, Structural)]
pub enum Vertical {
    Top,
    Center,
    Bottom,
}

/// Space kept free on each side of the content.
#[derive(Clone, Copy, Debug, PartialEq, Eq, Structural)]
pub struct Padding {
    pub top: u16,
    pub right: u16,
    pub bottom: u16,
    pub left: u16,
}

impl Padding {
    /// The same amount on all four sides.
    pub fn new(amount: u16) -> (r: Padding)
        ensures
            r.top == amount && r.right == amount && r.bottom == amount && r.left == amount,
    {
        Padding { top: amount, right: amount, bottom: amount, left: amount }
    }
}

/// A container that wraps one child and may draw it on a chosen theme layer.
///
/// Apart from the layer, its settings are those of a plain container and are
/// applied by the toolkit's own container when the widget is built.
pub struct LayerContainer<E> {
    pub content: E,
    /// The layer the content is drawn on; `None` keeps the theme's own.
    pub layer: Option<Layer>,
    pub style: ContainerStyle,
    pub padding: Padding,
    pub width: Length,
    pub height: Length,
    pub max_width: u32,
    pub max_height: u32,
    pub align_x: Horizontal,
    pub align_y: Vertical,
}

/// Wraps `content` in a container with no layer and the plain settings.
pub fn container<E>(content: E) -> (r: LayerContainer<E>)
    ensures
        r.content == content,
        r.is_initial(),
{
    LayerContainer::new(content)
}

impl<E> LayerContainer<E> {
    /// The settings a new container starts with.
    pub open spec fn is_initial(&self) -> bool {
        &&& self.layer is None
        &&& self.style == ContainerStyle::Transparent
        &&& self.padding == Padding { top: 0, right: 0, bottom: 0, left: 0 }
        &&& self.width == Length::Shrink
        &&& self.height == Length::Shrink
        &&& self.max_width == u32::MAX
        &&& self.max_height == u32::MAX
        &&& self.align_x == Horizontal::Left
        &&& self.align_y == Vertical::Top
    }

    /// The layer the content sees while this container draws it, given the
    /// layer of the theme handed to the container.
    pub open spec fn drawn_layer(&self, inherited: Layer) -> Layer {
        effective_layer_of(self.layer, inherited)
    }

    pub(crate) fn new(content: E) -> (r: Self)
        ensures
            r.content == content,
            r.is_initial(),
    {
        LayerContainer {
            content,
            layer: None,
            style: ContainerStyle::Transparent,
            padding: Padding { top: 0, right: 0, bottom: 0, left: 0 },
            width: Length::Shrink,
            height: Length::Shrink,
            max_width: u32::MAX,
            max_height: u32::MAX,
            align_x: Horizontal::Left,
            align_y: Vertical::Top,
        }
    }

    /// Draws the content on `layer`, with the container style of that layer.
    pub fn layer(self, layer: Layer) -> (r: Self)
        ensures
            r == (LayerContainer { layer: Some(layer), style: style_of(layer), ..self }),
    {
        let mut s = self;
        s.layer = Some(layer);
        s.style(style_for_layer(layer))
    }

    /// Sets the padding.
    pub fn padding(self, padding: Padding) -> (r: Self)
        ensures
            r == (LayerContainer { padding, ..self }),
    {
        let mut s = self;
        s.padding = padding;
        s
    }

    /// Sets the width.
    pub fn width(self, width: Length) -> (r: Self)
        ensures
            r == (LayerContainer { width, ..self }),
    {
        let mut s = self;
        s.width = width;
        s
    }

    /// Sets the height.
    pub fn height(self, height: Length) -> (r: Self)
        ensures
            r == (LayerContainer { height, ..self }),
    {
        let mut s = self;
        s.height = height;
        s
    }

    /// Sets the greatest width, in units.
    pub fn max_width(self, max_width: u32) -> (r: Self)
        ensures
            r == (LayerContainer { max_width, ..self }),
    {
        let mut s = self;
        s.max_width = max_width;
        s
    }

    /// Sets the greatest height, in units.
    pub fn max_height(self, max_height: u32) -> (r: Self)
        ensures
            r == (LayerContainer { max_height, ..self }),
    {
        let mut s = self;
        s.max_height = max_height;
        s
    }

    /// Sets the horizontal placement of the content.
    pub fn align_x(self, alignment: Horizontal) -> (r: Self)
        ensures
            r == (LayerContainer { align_x: alignment, ..self }),
    {
        let mut s = self;
        s.align_x = alignment;
        s
    }

    /// Sets the vertical placement of the content.
    pub fn align_y(self, alignment: Vertical) -> (r: Self)
        ensures
            r == (LayerContainer { align_y: alignment, ..self }),
    {
        let mut s = self;
        s.align_y = alignment;
        s
    }

    /// Centers the content horizontally.
    pub fn center_x(self) -> (r: Self)
        ensures
            r == (LayerContainer { align_x: Horizontal::Center, ..self }),
    {
        self.align_x(Horizontal::Center)
    }

    /// Centers the content vertically.
    pub fn center_y(self) -> (r: Self)
        ensures
            r == (LayerContainer { align_y: Vertical::Center, ..self }),
    {
        self.align_y(Vertical::Center)
    }

    /// Sets the container style; the layer stays as it was.
    pub fn style(self, style: ContainerStyle) -> (r: Self)
        ensures
            r == (LayerContainer { style, ..self }),
    {
        let mut s = self;
        s.style = style;
        s
    }

    /// The layer the content is to be drawn on, when this container draws
    /// it with a theme on `inherited`. The theme handed in is only read: the
    /// container draws with a copy set to its own layer, so siblings drawn
    /// later see the theme unchanged.
    pub fn draw_layer(&self, inherited: Layer) -> (r: Layer)
        ensures
            r == self.drawn_layer(inherited),
    {
        match self.layer {
            Some(l) => l,
            None => inherited,
        }
    }
}

/// Setting a layer decides the layer the content is drawn on, whatever the
/// theme carries, and only for that container: a sibling without a layer
/// draws with the layer of the theme as it was handed in.
pub proof fn lemma_layer_does_not_leak<E, F>(
    c: LayerContainer<E>,
    layer: Layer,
    sibling: LayerContainer<F>,
    inherited: Layer,
)
    requires
        sibling.layer is None,
    ensures
        (LayerContainer { layer: Some(layer), style: style_of(layer), ..c }).drawn_layer(inherited)
            == layer,
        (LayerContainer { layer: Some(layer), style: style_of(layer), ..c }).style == style_of(
            layer,
        ),
        sibling.drawn_layer(inherited) == inherited,
{
}

} // verus!
