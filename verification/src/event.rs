use vstd::prelude::*;

use crate::entity::Entity;

verus! {

/// The IEEE-754 bit pattern of an `f32` (a cursor coordinate or a scroll
/// amount) that the library carries from its input to its output without
/// computing with it.
#[derive(Clone, Copy, Debug, PartialEq, Eq, Structural)]
pub struct RawF32(pub u32);

/// Whether a button or a key went down or up.
#[derive(Clone, Copy, Debug, PartialEq, Eq, Structural)]
pub enum MouseButtonState {
    Pressed,
    Released,
}

#[derive(Clone, Copy, Debug, PartialEq, Eq, Structural)]
pub enum MouseButton {
    Left,
    Right,
    Middle,
    Other(u16),
}

/// A virtual key: the tab key, which moves the keyboard focus, or any other
/// key by its code.
#[derive(Clone, Copy, Debug, PartialEq, Eq, Structural)]
pub enum Key {
    Tab,
    Other(u32),
}

/// How an event travels through the widget hierarchy.
#[derive(Clone, Copy, Debug, PartialEq, Eq, Structural)]
pub enum Propagation {
    /// From the root down to the target.
    Down,
    /// From the target up to the root.
    Up,
    /// Down to the target, then back up.
    DownUp,
    /// From the target down to its descendants.
    Fall,
    /// To the target only.
    Direct,
    /// To every widget.
    All,
}

/// The messages that the window sends to widgets.
#[derive(Clone, Copy, Debug, PartialEq, Eq, Structural)]
pub enum WindowEvent {
    WindowClose,
    Restyle,
    Relayout,
    Redraw,
    MouseOver,
    MouseOut,
    CharInput(char),
    KeyDown(Option<Key>),
    KeyUp(Option<Key>),
    MouseDown(MouseButton),
    MouseUp(MouseButton),
    MouseMove(RawF32, RawF32),
    MouseScroll(RawF32, RawF32),
}

/// A message on its way to a widget.
#[derive(Clone, Copy, Debug, PartialEq, Eq, Structural)]
pub struct Event {
    pub message: WindowEvent,
    pub target: Entity,
    pub origin: Entity,
    pub propagation: Propagation,
}

impl Event {
    /// A message with no target and no origin, travelling up.
    #[verifier::allow_in_spec]
    pub fn new(message: WindowEvent) -> Self
        returns
            (Event {
                message,
                target: Entity::null(),
                origin: Entity::null(),
                propagation: Propagation::Up,
            }),
    {
        Event {
            message,
            target: Entity::null(),
            origin: Entity::null(),
            propagation: Propagation::Up,
        }
    }

    #[verifier::allow_in_spec]
    pub fn target(self, entity: Entity) -> Self
        returns
            (Event { target: entity, ..self }),
    {
        Event { target: entity, ..self }
    }

    #[verifier::allow_in_spec]
    pub fn origin(self, entity: Entity) -> Self
        returns
            (Event { origin: entity, ..self }),
    {
        Event { origin: entity, ..self }
    }

    #[verifier::allow_in_spec]
    pub fn propagate(self, propagation: Propagation) -> Self
        returns
            (Event { propagation, ..self }),
    {
        Event { propagation, ..self }
    }
}

} // verus!
