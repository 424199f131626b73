//! The handle itself: how it is put together, and what it does with a drag.
//!
//! A [`ModifierNode`] is the description from which the toolkit binding
//! builds the widget. The binding declares the notifications of
//! [`ModifierNode::signals`] once for the widget type, hands every report of
//! the drag gesture to [`ModifierNode::on_drag`], and carries out the
//! [`Emission`] that comes back.

use vstd::prelude::*;
use crate::position::Position;
use crate::signals::{accepts, declarations, signal_name, table_view, well_formed};
use crate::signals::{lemma_declarations_well_formed, lemma_declared_emission};
use crate::signals::{DragPhase, Declaration, ValueKind};

verus! {

/// The name under which the toolkit registers the widget type.
pub const TYPE_NAME: &'static str = "ModifierNode";

/// The image that the handle shows.
#[derive(Clone, Copy, Debug)]
pub struct ImageSpec {
    /// The widget name of the image, by which style sheets find it.
    pub name: &'static str,
    /// The name of the icon, looked up in the icon theme.
    pub icon_name: &'static str,
}

/// The point on an event's way through the widget tree at which a gesture
/// gets to see it.
#[derive(Clone, Copy, Debug, PartialEq, Eq, Structural)]
pub enum Propagation {
    /// Never.
    Never,
    /// On the way down from the window to the widget under the pointer,
    /// before any descendant sees the event.
    Capture,
    /// On the way back up, after the descendants have seen the event.
    Bubble,
    /// Only when the widget itself is under the pointer.
    Target,
}

/// The drag gesture that the handle listens with.
#[derive(Clone, Copy, Debug)]
pub struct GestureSpec {
    /// The name of the gesture, for debugging.
    pub name: &'static str,
    /// When the gesture sees an event.
    pub propagation: Propagation,
}

/// A draggable handle on a selection.
///
/// The handle has one child, its image, which fills it.
#[derive(Clone, Copy, Debug)]
pub struct ModifierNode {
    /// The image that the handle shows.
    pub image: ImageSpec,
    /// The style class of the handle.
    pub css_class: &'static str,
    /// The name of the cursor shown over the handle.
    pub cursor: &'static str,
    /// The gesture that the handle listens with.
    pub gesture: GestureSpec,
}

/// What the handle asks of the toolkit in answer to one report of the drag
/// gesture.
#[derive(Debug)]
pub struct Emission<T> {
    /// Whether to claim the pointer's event sequence for the handle, before
    /// anything is emitted.
    pub claim: bool,
    /// The name of the notification to emit.
    pub signal: &'static str,
    /// The position to send with it, which is its only value.
    pub position: Position<T>,
}

impl<T> Emission<T> {
    /// The kinds of the values that this emission sends, in order.
    pub open spec fn kinds(self) -> Seq<ValueKind> {
        seq![ValueKind::Position]
    }
}

impl ModifierNode {
    /// Whether `self` is the handle as it is first put together.
    pub open spec fn is_initial(self) -> bool {
        &&& self.image.name@ == "image"@
        &&& self.image.icon_name@ == "modifiernode-default-symbolic"@
        &&& self.css_class@ == "modifiernode"@
        &&& self.cursor@ == "default"@
        &&& self.gesture.name@ == "modifiernode_drag_gesture"@
        &&& self.gesture.propagation == Propagation::Capture
    }

    /// A new handle: it shows its default icon under the default cursor, and
    /// its gesture sees every event before the image does.
    pub fn new() -> (node: Self)
        ensures
            node.is_initial(),
    {
        ModifierNode {
            image: ImageSpec { name: "image", icon_name: "modifiernode-default-symbolic" },
            css_class: "modifiernode",
            cursor: "default",
            gesture: GestureSpec {
                name: "modifiernode_drag_gesture",
                propagation: Propagation::Capture,
            },
        }
    }

    /// The image that the handle shows.
    pub fn image(&self) -> (image: ImageSpec)
        ensures
            image == self.image,
    {
        self.image
    }

    /// The notifications that the handle declares, one for each phase of a
    /// drag, in the order in which the phases occur.
    pub fn signals() -> (table: Vec<Declaration>)
        ensures
            table_view(table@) == declarations(),
            well_formed(table_view(table@)),
    {
        proof {
            lemma_declarations_well_formed();
        }
        let mut table: Vec<Declaration> = Vec::new();
        table.push(DragPhase::Begin.declaration());
        table.push(DragPhase::Update.declaration());
        table.push(DragPhase::End.declaration());
        assert(table_view(table@) =~= declarations());
        table
    }

    /// Answers one report of the drag gesture.
    ///
    /// The report of `phase` came with the coordinates `x` and `y`. The handle
    /// passes them on as they are, under the name of the notification that
    /// answers `phase`, which is one that the handle declares with a position
    /// as its only value. It claims the event sequence when the drag begins.
    pub fn on_drag<T>(phase: DragPhase, x: T, y: T) -> (emission: Emission<T>)
        ensures
            emission.claim == (phase == DragPhase::Begin),
            emission.signal@ == signal_name(phase),
            emission.position.x == x,
            emission.position.y == y,
            accepts(declarations(), emission.signal@, emission.kinds()),
    {
        proof {
            lemma_declared_emission(phase);
        }
        Emission {
            claim: phase.claims_sequence(),
            signal: phase.signal_name(),
            position: Position::new(x, y),
        }
    }
}

impl Default for ModifierNode {
    /// The handle as [`ModifierNode::new`] makes it.
    fn default() -> (node: Self)
        ensures
            node.is_initial(),
    {
        ModifierNode::new()
    }
}

} // verus!
