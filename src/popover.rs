use vstd::prelude::*;
use crate::geometry::{Limits, Point, Rectangle, Size};

verus! {

/// The two elements a popover owns.
#[derive(Clone, Copy, Debug, PartialEq, Eq, Structural)]
pub enum Slot {
    /// Takes part in the normal tree walk.
    Content,
    /// Shown only in the overlay pass.
    Popup,
}

/// The two passes the toolkit runs over a frame.
#[derive(Clone, Copy, Debug, PartialEq, Eq, Structural)]
pub enum Stage {
    /// The normal walk of the widget tree.
    Primary,
    /// The pass over the overlays, after the normal layout is known.
    Overlay,
}

/// The operations of a pass.
#[derive(Clone, Copy, Debug, PartialEq, Eq, Structural)]
pub enum Pass {
    Width,
    Height,
    Layout,
    Operate,
    Event,
    MouseInteraction,
    Draw,
}

/// Asking for the popup while an overlay pass still holds it.
#[derive(Clone, Copy, Debug, PartialEq, Eq, Structural)]
pub struct BorrowConflict;

/// The position of a slot's state among the popover's child states.
pub open spec fn slot_index(slot: Slot) -> nat {
    match slot {
        Slot::Content => 0,
        Slot::Popup => 1,
    }
}

/// The element a pass is run on: the content in the normal walk, the popup
/// in the overlay pass, whatever the operation.
pub open spec fn slot_of_stage(stage: Stage) -> Slot {
    match stage {
        Stage::Primary => Slot::Content,
        Stage::Overlay => Slot::Popup,
    }
}

/// A widget with inline content and a popup drawn over everything else.
///
/// While an overlay pass is open the popup is lent to it, and the popover
/// does not hold it: a second overlay pass cannot be opened until the first
/// gives it back.
pub struct Popover<E> {
    pub content: E,
    popup: Option<E>,
}

/// One overlay pass over a popover's popup.
pub struct OverlayPass<E, N> {
    /// The popup, lent for the length of the pass.
    pub popup: E,
    /// Where the overlay is placed: the top-left corner of the content.
    pub anchor: Point<N>,
}

impl<E> Popover<E> {
    /// The inline content.
    pub closed spec fn content_view(&self) -> E {
        self.content
    }

    /// Whether an overlay pass holds the popup.
    pub closed spec fn overlay_open(&self) -> bool {
        self.popup is None
    }

    /// The popup, while no overlay pass holds it.
    pub closed spec fn popup_view(&self) -> E
        recommends
            !self.overlay_open(),
    {
        self.popup->Some_0
    }

    /// The popover once an overlay pass has taken the popup.
    pub closed spec fn lent(self) -> Popover<E> {
        Popover { content: self.content, popup: None }
    }

    /// Pairs `content` with `popup`; no overlay pass is open.
    pub fn new(content: E, popup: E) -> (r: Self)
        ensures
            r.content_view() == content,
            !r.overlay_open(),
            r.popup_view() == popup,
    {
        Popover { content, popup: Some(popup) }
    }

    /// Returns whether an overlay pass holds the popup.
    pub fn is_overlay_open(&self) -> (r: bool)
        ensures
            r == self.overlay_open(),
    {
        self.popup.is_none()
    }

    /// The popup, or `None` while an overlay pass holds it.
    pub fn popup(&self) -> (r: Option<&E>)
        ensures
            self.overlay_open() ==> r is None,
            !self.overlay_open() ==> r == Some(&self.popup_view()),
    {
        match &self.popup {
            Some(p) => Some(p),
            None => None,
        }
    }

    /// The slots whose states make up the popover's child states, in order.
    pub fn child_slots() -> (r: Vec<Slot>)
        ensures
            r@ == seq![Slot::Content, Slot::Popup],
            forall|i: int| 0 <= i < r@.len() ==> slot_index(#[trigger] r@[i]) == i,
    {
        vec![Slot::Content, Slot::Popup]
    }

    /// The position of `slot`'s state among the child states.
    pub fn state_index(slot: Slot) -> (r: usize)
        ensures
            r == slot_index(slot),
    {
        match slot {
            Slot::Content => 0,
            Slot::Popup => 1,
        }
    }

    /// The element that `pass` is run on in `stage`, and the position of its
    /// state among the child states.
    pub fn target(stage: Stage, pass: Pass) -> (r: (Slot, usize))
        ensures
            r.0 == slot_of_stage(stage),
            r.1 == slot_index(r.0),
    {
        let slot = match stage {
            Stage::Primary => Slot::Content,
            Stage::Overlay => Slot::Popup,
        };
        (slot, Self::state_index(slot))
    }

    /// The child states of a new popover: one made from the content, then one
    /// made from the popup.
    pub fn children<S, F: Fn(&E) -> S>(&self, make: F) -> (r: Vec<S>)
        requires
            !self.overlay_open(),
            forall|e: &E| make.requires((e,)),
        ensures
            r@.len() == 2,
            make.ensures((&self.content_view(),), r@[0]),
            make.ensures((&self.popup_view(),), r@[1]),
    {
        let mut r: Vec<S> = Vec::new();
        r.push(make(&self.content));
        match &self.popup {
            Some(p) => r.push(make(p)),
            None => {},
        }
        r
    }

    /// The elements the child states are reconciled against, in the order of
    /// the child states.
    pub fn diff_targets(&self) -> (r: Vec<&E>)
        requires
            !self.overlay_open(),
        ensures
            r@ == seq![&self.content_view(), &self.popup_view()],
    {
        let mut r: Vec<&E> = Vec::new();
        r.push(&self.content);
        match &self.popup {
            Some(p) => r.push(p),
            None => {},
        }
        r
    }

    /// Opens the overlay pass for a frame whose content was laid out in
    /// `content_bounds`: the pass takes the popup and is anchored at the
    /// content's top-left corner. Fails, changing nothing, while another
    /// pass holds the popup.
    pub fn open_overlay<N: Copy>(&mut self, content_bounds: Rectangle<N>) -> (r: Result<
        OverlayPass<E, N>,
        BorrowConflict,
    >)
        ensures
            old(self).overlay_open() ==> r is Err && *final(self) == *old(self),
            !old(self).overlay_open() ==> r is Ok && *final(self) == old(self).lent()
                && final(self).overlay_open() && final(self).content_view() == old(
                self,
            ).content_view() && r->Ok_0.popup == old(self).popup_view() && r->Ok_0.anchor
                == content_bounds.top_left(),
    {
        match self.popup.take() {
            Some(popup) => Ok(OverlayPass { popup, anchor: content_bounds.position() }),
            None => Err(BorrowConflict),
        }
    }

    /// Ends an overlay pass, taking the popup back.
    pub fn close_overlay<N>(&mut self, pass: OverlayPass<E, N>)
        requires
            old(self).overlay_open(),
        ensures
            final(self).content_view() == old(self).content_view(),
            !final(self).overlay_open(),
            final(self).popup_view() == pass.popup,
    {
        self.popup = Some(pass.popup);
    }
}

impl<E, N: Copy> OverlayPass<E, N> {
    /// The limits the popup is laid out with when the overlay may use
    /// `bounds`: exactly that size, whatever size the popup would prefer.
    pub fn layout_limits(&self, bounds: Size<N>) -> (r: Limits<N>)
        ensures
            r.is_tight_at(bounds),
    {
        Limits::tight(bounds)
    }

    /// The part of the screen the popup is drawn within: the bounds it was
    /// laid out in, since nothing clips an overlay.
    pub fn draw_viewport(&self, layout_bounds: Rectangle<N>) -> (r: Rectangle<N>)
        ensures
            r == layout_bounds,
    {
        layout_bounds
    }

    /// The position of the popup's state among the popover's child states.
    pub fn state_index(&self) -> (r: usize)
        ensures
            r == slot_index(Slot::Popup),
    {
        Popover::<E>::state_index(Slot::Popup)
    }
}

/// Every operation of the normal pass runs on the content with the first
/// child state, and every operation of the overlay pass on the popup with the
/// second: the popup takes no part in the normal pass.
pub proof fn lemma_passes_are_routed_by_stage(pass: Pass)
    ensures
        slot_of_stage(Stage::Primary) == Slot::Content,
        slot_index(slot_of_stage(Stage::Primary)) == 0,
        slot_of_stage(Stage::Overlay) == Slot::Popup,
        slot_index(slot_of_stage(Stage::Overlay)) == 1,
{
}

/// Once an overlay pass is open, opening another one on the same popover
/// fails, until the first is closed.
pub proof fn lemma_second_overlay_conflicts<E>(p: Popover<E>)
    requires
        !p.overlay_open(),
    ensures
        p.lent().overlay_open(),
        p.lent().content_view() == p.content_view(),
{
}

/// Closing the pass that was opened gives back the popover as it was.
pub proof fn lemma_close_restores<E, N>(p: Popover<E>, q: Popover<E>, pass: OverlayPass<E, N>)
    requires
        !p.overlay_open(),
        pass.popup == p.popup_view(),
        q.content_view() == p.content_view(),
        !q.overlay_open(),
        q.popup_view() == pass.popup,
    ensures
        q == p,
{
}

} // verus!
