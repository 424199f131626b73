//! Toolkit-independent core of a draggable modifier handle.
//!
//! The handle is a small widget that a selection editor places on a selection
//! so that the user can drag it. The toolkit recognises the drag and reports
//! its three phases; the handle turns each report into a notification that
//! carries the reported coordinates to whoever moves or resizes the selection.
//!
//! This crate holds what the handle decides: which notifications it declares,
//! which one answers which phase of a drag, when the gesture is claimed and
//! what each notification carries. The toolkit binding performs the effects.

pub mod position;
pub mod signals;
pub mod widget;

pub use position::Position;
pub use signals::{CoordinateFrame, Declaration, DragPhase, ValueKind};
pub use widget::{Emission, GestureSpec, ImageSpec, ModifierNode, Propagation};
