use vstd::prelude::*;

use crate::entity::Entity;
use crate::event::{Event, Key, MouseButton, MouseButtonState, Propagation, RawF32, WindowEvent};

verus! {

/// Which modifier keys are held down.
#[derive(Clone, Copy, Debug, PartialEq, Eq, Structural)]
pub struct Modifiers {
    pub shift: bool,
    pub ctrl: bool,
    pub alt: bool,
    pub logo: bool,
}

/// What the window remembers of one mouse button.
#[derive(Clone, Copy, Debug, PartialEq, Eq)]
pub struct MouseButtonData {
    pub state: MouseButtonState,
    /// Cursor position at the last press.
    pub pos_down: (RawF32, RawF32),
    /// Cursor position at the last release.
    pub pos_up: (RawF32, RawF32),
    /// The widget under the cursor at the last press.
    pub pressed: Entity,
    /// The widget under the cursor at the last release.
    pub released: Entity,
}

/// The cursor and the three main mouse buttons.
#[derive(Clone, Copy, Debug, PartialEq, Eq)]
pub struct MouseState {
    pub cursorx: RawF32,
    pub cursory: RawF32,
    pub left: MouseButtonData,
    pub right: MouseButtonData,
    pub middle: MouseButtonData,
}

/// The part of the application state that window input reads and changes.
#[derive(Clone, Copy, Debug, PartialEq, Eq)]
pub struct InputState {
    /// The window's own widget.
    pub root: Entity,
    /// The widget that receives keyboard input.
    pub focused: Entity,
    /// The widget under the cursor.
    pub hovered: Entity,
    /// The widget that a held mouse button went down on.
    pub active: Entity,
    /// The widget that has captured the mouse, or null.
    pub captured: Entity,
    pub modifiers: Modifiers,
    pub mouse: MouseState,
    /// Set once the window has been asked to close; the event loop then exits.
    pub should_quit: bool,
}

/// A window event, as the event loop hands it to the library.
///
/// Where the window's handling needs data that other parts of the application
/// hold (the focus order, the widget tree, the hit test of the cursor against
/// the widgets' boxes), the event loop looks it up and hands it in here.
#[derive(Clone, Copy, Debug, PartialEq, Eq, Structural)]
pub enum InputEvent {
    CloseRequested,
    ModifiersChanged(Modifiers),
    Focused(bool),
    ReceivedCharacter(char),
    KeyboardInput {
        state: MouseButtonState,
        key: Option<Key>,
        /// The next widget in the focus order of the focused one, or null.
        focus_next: Entity,
        /// The previous widget in the focus order of the focused one, or null.
        focus_prev: Entity,
        /// The widget after the focused one in tree order, if there is one.
        tree_next: Option<Entity>,
    },
    Resized { width: u32, height: u32 },
    CursorMoved {
        x: RawF32,
        y: RawF32,
        /// The topmost visible, hoverable widget whose box holds the cursor,
        /// or the root when there is none.
        hovered: Entity,
    },
    MouseInput { state: MouseButtonState, button: MouseButton },
    MouseWheel { x: RawF32, y: RawF32 },
    /// A window event that the library does not handle.
    Ignored,
}

/// What the event loop is asked to do in answer to an input event.
#[derive(Clone, Copy, Debug, PartialEq, Eq, Structural)]
pub enum Action {
    /// Queue this event for the widgets.
    Emit(Event),
    /// Set or clear the hover pseudo-class of a widget.
    SetHover(Entity, bool),
    /// Give the root widget this size, in pixels.
    ResizeRoot(u32, u32),
}

/// The widget that keyboard input goes to: the focused one, or the hovered one
/// when nothing has the focus.
pub open spec fn key_target(s: InputState) -> Entity {
    if s.focused != Entity::null() {
        s.focused
    } else {
        s.hovered
    }
}

/// A mouse message goes straight to the capturing widget, if there is one, and
/// otherwise travels up from the hovered widget.
pub open spec fn mouse_event(s: InputState, message: WindowEvent) -> Event {
    if s.captured != Entity::null() {
        Event::new(message).target(s.captured).propagate(Propagation::Direct)
    } else {
        Event::new(message).target(s.hovered)
    }
}

/// Where the focus moves when tab is pressed: back along the focus order with
/// shift held (staying put when there is no previous widget), forward along it
/// otherwise, and to the next widget in tree order (or the root) when the
/// focus order has no next widget.
pub open spec fn tab_focus(
    s: InputState,
    focus_next: Entity,
    focus_prev: Entity,
    tree_next: Option<Entity>,
) -> Entity {
    if s.modifiers.shift {
        if focus_prev != Entity::null() {
            focus_prev
        } else {
            s.focused
        }
    } else if focus_next != Entity::null() {
        focus_next
    } else {
        match tree_next {
            Some(e) => e,
            None => s.root,
        }
    }
}

pub open spec fn key_step(
    s: InputState,
    state: MouseButtonState,
    key: Option<Key>,
    focus_next: Entity,
    focus_prev: Entity,
    tree_next: Option<Entity>,
) -> (InputState, Seq<Action>) {
    let tab = key == Some(Key::Tab) && state == MouseButtonState::Pressed;
    let s1 = if tab {
        InputState { focused: tab_focus(s, focus_next, focus_prev, tree_next), ..s }
    } else {
        s
    };
    let restyle = if tab {
        seq![Action::Emit(Event::new(WindowEvent::Restyle).target(s.root))]
    } else {
        Seq::empty()
    };
    let message = match state {
        MouseButtonState::Pressed => WindowEvent::KeyDown(key),
        MouseButtonState::Released => WindowEvent::KeyUp(key),
    };
    (
        s1,
        restyle.push(
            Action::Emit(Event::new(message).target(key_target(s1)).propagate(Propagation::DownUp)),
        ),
    )
}

pub open spec fn cursor_step(s: InputState, x: RawF32, y: RawF32, hovered: Entity) -> (
    InputState,
    Seq<Action>,
) {
    let s0 = InputState { mouse: MouseState { cursorx: x, cursory: y, ..s.mouse }, ..s };
    let changed = hovered != s.hovered;
    let s1 = if changed {
        InputState { hovered, active: Entity::null(), ..s0 }
    } else {
        s0
    };
    let hover_actions = if changed {
        seq![
            Action::SetHover(hovered, true),
            Action::SetHover(s.hovered, false),
            Action::Emit(Event::new(WindowEvent::MouseOver).target(hovered)),
            Action::Emit(Event::new(WindowEvent::MouseOut).target(s.hovered)),
            Action::Emit(Event::new(WindowEvent::Restyle)),
            Action::Emit(Event::new(WindowEvent::Redraw)),
        ]
    } else {
        Seq::empty()
    };
    let move_actions = if s1.captured != Entity::null() {
        seq![
            Action::Emit(
                Event::new(WindowEvent::MouseMove(x, y)).target(s1.captured).propagate(
                    Propagation::Direct,
                ),
            ),
        ]
    } else if s1.hovered != Entity::root() {
        seq![Action::Emit(Event::new(WindowEvent::MouseMove(x, y)).target(s1.hovered))]
    } else {
        Seq::empty()
    };
    (s1, hover_actions + move_actions)
}

/// The mouse state with the given button's state changed; buttons other than
/// the three main ones are not tracked.
pub open spec fn with_button_state(m: MouseState, button: MouseButton, state: MouseButtonState) -> MouseState {
    match button {
        MouseButton::Left => MouseState { left: MouseButtonData { state, ..m.left }, ..m },
        MouseButton::Right => MouseState { right: MouseButtonData { state, ..m.right }, ..m },
        MouseButton::Middle => MouseState { middle: MouseButtonData { state, ..m.middle }, ..m },
        MouseButton::Other(_) => m,
    }
}

/// The mouse state after a press of `button` over `hovered`: the button's press
/// position is the cursor. The widget pressed is recorded on the left button
/// whichever of the three main buttons went down.
pub open spec fn record_press(m: MouseState, button: MouseButton, hovered: Entity) -> MouseState {
    let pos = (m.cursorx, m.cursory);
    match button {
        MouseButton::Left => MouseState {
            left: MouseButtonData { pos_down: pos, pressed: hovered, ..m.left },
            ..m
        },
        MouseButton::Middle => MouseState {
            middle: MouseButtonData { pos_down: pos, ..m.middle },
            left: MouseButtonData { pressed: hovered, ..m.left },
            ..m
        },
        MouseButton::Right => MouseState {
            right: MouseButtonData { pos_down: pos, ..m.right },
            left: MouseButtonData { pressed: hovered, ..m.left },
            ..m
        },
        MouseButton::Other(_) => m,
    }
}

/// The mouse state after a release of `button` over `hovered`, in the same
/// way as `record_press`.
pub open spec fn record_release(m: MouseState, button: MouseButton, hovered: Entity) -> MouseState {
    let pos = (m.cursorx, m.cursory);
    match button {
        MouseButton::Left => MouseState {
            left: MouseButtonData { pos_up: pos, released: hovered, ..m.left },
            ..m
        },
        MouseButton::Middle => MouseState {
            middle: MouseButtonData { pos_up: pos, ..m.middle },
            left: MouseButtonData { released: hovered, ..m.left },
            ..m
        },
        MouseButton::Right => MouseState {
            right: MouseButtonData { pos_up: pos, ..m.right },
            left: MouseButtonData { released: hovered, ..m.left },
            ..m
        },
        MouseButton::Other(_) => m,
    }
}

pub open spec fn mouse_step(s: InputState, state: MouseButtonState, button: MouseButton) -> (
    InputState,
    Seq<Action>,
) {
    let s0 = InputState { mouse: with_button_state(s.mouse, button, state), ..s };
    match state {
        MouseButtonState::Pressed => {
            let activate = s0.hovered != Entity::null() && s0.active != s0.hovered;
            let s1 = if activate {
                InputState { active: s0.hovered, ..s0 }
            } else {
                s0
            };
            let restyle = if activate {
                seq![Action::Emit(Event::new(WindowEvent::Restyle))]
            } else {
                Seq::empty()
            };
            (
                InputState { mouse: record_press(s1.mouse, button, s1.hovered), ..s1 },
                restyle.push(Action::Emit(mouse_event(s1, WindowEvent::MouseDown(button)))),
            )
        },
        MouseButtonState::Released => {
            let s1 = InputState { active: Entity::null(), ..s0 };
            (
                InputState { mouse: record_release(s1.mouse, button, s1.hovered), ..s1 },
                seq![
                    Action::Emit(Event::new(WindowEvent::Restyle)),
                    Action::Emit(mouse_event(s1, WindowEvent::MouseUp(button))),
                ],
            )
        },
    }
}

/// How the window answers one input event: its new state, and what it asks of
/// the event loop, in order.
pub open spec fn step(s: InputState, e: InputEvent) -> (InputState, Seq<Action>) {
    match e {
        InputEvent::CloseRequested => (
            InputState { should_quit: true, ..s },
            seq![Action::Emit(Event::new(WindowEvent::WindowClose))],
        ),
        InputEvent::ModifiersChanged(m) => (InputState { modifiers: m, ..s }, Seq::empty()),
        InputEvent::Focused(_) => (s, seq![Action::Emit(Event::new(WindowEvent::Restyle).target(s.root))]),
        InputEvent::ReceivedCharacter(c) => (
            s,
            seq![
                Action::Emit(
                    Event::new(WindowEvent::CharInput(c)).target(s.focused).propagate(
                        Propagation::Down,
                    ),
                ),
            ],
        ),
        InputEvent::KeyboardInput { state, key, focus_next, focus_prev, tree_next } => key_step(
            s,
            state,
            key,
            focus_next,
            focus_prev,
            tree_next,
        ),
        InputEvent::Resized { width, height } => (
            s,
            seq![
                Action::ResizeRoot(width, height),
                Action::Emit(Event::new(WindowEvent::Restyle)),
                Action::Emit(Event::new(WindowEvent::Relayout).target(Entity::null())),
                Action::Emit(Event::new(WindowEvent::Redraw)),
            ],
        ),
        InputEvent::CursorMoved { x, y, hovered } => cursor_step(s, x, y, hovered),
        InputEvent::MouseInput { state, button } => mouse_step(s, state, button),
        InputEvent::MouseWheel { x, y } => (
            s,
            seq![Action::Emit(mouse_event(s, WindowEvent::MouseScroll(x, y)))],
        ),
        InputEvent::Ignored => (s, Seq::empty()),
    }
}


impl MouseButtonData {
    pub fn new() -> (d: Self)
        ensures
            d == (MouseButtonData {
                state: MouseButtonState::Released,
                pos_down: (RawF32(0), RawF32(0)),
                pos_up: (RawF32(0), RawF32(0)),
                pressed: Entity::null(),
                released: Entity::null(),
            }),
    {
        MouseButtonData {
            state: MouseButtonState::Released,
            pos_down: (RawF32(0), RawF32(0)),
            pos_up: (RawF32(0), RawF32(0)),
            pressed: Entity::null(),
            released: Entity::null(),
        }
    }
}

/// The state of a window that has just opened: the root has the focus and is
/// under the cursor, no widget is active or has captured the mouse, no
/// modifier is held, the cursor is at the origin and no button is down.
pub open spec fn initial_state() -> InputState {
    let button = MouseButtonData {
        state: MouseButtonState::Released,
        pos_down: (RawF32(0), RawF32(0)),
        pos_up: (RawF32(0), RawF32(0)),
        pressed: Entity::null(),
        released: Entity::null(),
    };
    InputState {
        root: Entity::root(),
        focused: Entity::root(),
        hovered: Entity::root(),
        active: Entity::null(),
        captured: Entity::null(),
        modifiers: Modifiers { shift: false, ctrl: false, alt: false, logo: false },
        mouse: MouseState {
            cursorx: RawF32(0),
            cursory: RawF32(0),
            left: button,
            right: button,
            middle: button,
        },
        should_quit: false,
    }
}

/// The events queued when the event loop starts: a restyle, then a relayout
/// of the whole tree.
pub open spec fn start_events() -> Seq<Event> {
    seq![
        Event::new(WindowEvent::Restyle),
        Event::new(WindowEvent::Relayout).target(Entity::null()),
    ]
}

/// The events queued after an animation step that changed some style: a
/// relayout of the whole tree coming from the root, then a redraw.
pub open spec fn animation_events() -> Seq<Event> {
    seq![
        Event::new(WindowEvent::Relayout).target(Entity::null()).origin(Entity::root()),
        Event::new(WindowEvent::Redraw),
    ]
}

impl InputState {
    pub fn new() -> (s: Self)
        ensures
            s == initial_state(),
            s.root == Entity::new(0, 0),
            s.focused == s.root,
            s.hovered == s.root,
            s.active == Entity::null(),
            s.captured == Entity::null(),
            !s.modifiers.shift && !s.modifiers.ctrl && !s.modifiers.alt && !s.modifiers.logo,
            !s.should_quit,
            s.mouse.cursorx == RawF32(0) && s.mouse.cursory == RawF32(0),
            s.mouse.left.state == MouseButtonState::Released,
            s.mouse.right.state == MouseButtonState::Released,
            s.mouse.middle.state == MouseButtonState::Released,
    {
        InputState {
            root: Entity::root(),
            focused: Entity::root(),
            hovered: Entity::root(),
            active: Entity::null(),
            captured: Entity::null(),
            modifiers: Modifiers { shift: false, ctrl: false, alt: false, logo: false },
            mouse: MouseState {
                cursorx: RawF32(0),
                cursory: RawF32(0),
                left: MouseButtonData::new(),
                right: MouseButtonData::new(),
                middle: MouseButtonData::new(),
            },
            should_quit: false,
        }
    }

    /// The events to queue when the event loop starts.
    pub fn start_events(&self) -> (events: Vec<Event>)
        ensures
            events@ == start_events(),
            events@ == seq![
                Event {
                    message: WindowEvent::Restyle,
                    target: Entity::null(),
                    origin: Entity::null(),
                    propagation: Propagation::Up,
                },
                Event {
                    message: WindowEvent::Relayout,
                    target: Entity::null(),
                    origin: Entity::null(),
                    propagation: Propagation::Up,
                },
            ],
    {
        let mut events: Vec<Event> = Vec::new();
        events.push(Event::new(WindowEvent::Restyle));
        events.push(Event::new(WindowEvent::Relayout).target(Entity::null()));
        events
    }

    /// The events to queue once all pending window events are handled, given
    /// whether the animation step changed any style.
    pub fn animation_events(&self, animations_changed: bool) -> (events: Vec<Event>)
        ensures
            events@ == (if animations_changed { animation_events() } else { Seq::empty() }),
            !animations_changed ==> events@.len() == 0,
            animations_changed ==> events@ == seq![
                Event {
                    message: WindowEvent::Relayout,
                    target: Entity::null(),
                    origin: Entity::new(0, 0),
                    propagation: Propagation::Up,
                },
                Event {
                    message: WindowEvent::Redraw,
                    target: Entity::null(),
                    origin: Entity::null(),
                    propagation: Propagation::Up,
                },
            ],
    {
        let mut events: Vec<Event> = Vec::new();
        if animations_changed {
            events.push(
                Event::new(WindowEvent::Relayout).target(Entity::null()).origin(Entity::new(0, 0)),
            );
            events.push(Event::new(WindowEvent::Redraw));
        }
        events
    }

    /// Whether the event loop should stop.
    pub fn should_exit(&self) -> (b: bool)
        ensures
            b == self.should_quit,
    {
        self.should_quit
    }

    fn mouse_event(&self, message: WindowEvent) -> (e: Event)
        ensures
            e == mouse_event(*self, message),
    {
        if self.captured != Entity::null() {
            Event::new(message).target(self.captured).propagate(Propagation::Direct)
        } else {
            Event::new(message).target(self.hovered)
        }
    }

    fn key_input(
        &mut self,
        state: MouseButtonState,
        key: Option<Key>,
        focus_next: Entity,
        focus_prev: Entity,
        tree_next: Option<Entity>,
    ) -> (actions: Vec<Action>)
        ensures
            *final(self) == key_step(*old(self), state, key, focus_next, focus_prev, tree_next).0,
            actions@ == key_step(*old(self), state, key, focus_next, focus_prev, tree_next).1,
    {
        let mut actions: Vec<Action> = Vec::new();
        let is_tab = match key {
            Some(Key::Tab) => true,
            _ => false,
        };
        let pressed = match state {
            MouseButtonState::Pressed => true,
            MouseButtonState::Released => false,
        };
        if is_tab && pressed {
            if self.modifiers.shift {
                if focus_prev != Entity::null() {
                    self.focused = focus_prev;
                }
            } else {
                if focus_next != Entity::null() {
                    self.focused = focus_next;
                } else {
                    self.focused = match tree_next {
                        Some(e) => e,
                        None => self.root,
                    };
                }
            }
            actions.push(Action::Emit(Event::new(WindowEvent::Restyle).target(self.root)));
        }
        let message = if pressed {
            WindowEvent::KeyDown(key)
        } else {
            WindowEvent::KeyUp(key)
        };
        let target = if self.focused != Entity::null() {
            self.focused
        } else {
            self.hovered
        };
        actions.push(Action::Emit(Event::new(message).target(target).propagate(Propagation::DownUp)));
        actions
    }

    fn cursor_moved(&mut self, x: RawF32, y: RawF32, hovered: Entity) -> (actions: Vec<Action>)
        ensures
            *final(self) == cursor_step(*old(self), x, y, hovered).0,
            actions@ == cursor_step(*old(self), x, y, hovered).1,
    {
        let mut actions: Vec<Action> = Vec::new();
        self.mouse.cursorx = x;
        self.mouse.cursory = y;
        if hovered != self.hovered {
            actions.push(Action::SetHover(hovered, true));
            actions.push(Action::SetHover(self.hovered, false));
            actions.push(Action::Emit(Event::new(WindowEvent::MouseOver).target(hovered)));
            actions.push(Action::Emit(Event::new(WindowEvent::MouseOut).target(self.hovered)));
            self.hovered = hovered;
            self.active = Entity::null();
            actions.push(Action::Emit(Event::new(WindowEvent::Restyle)));
            actions.push(Action::Emit(Event::new(WindowEvent::Redraw)));
        }
        if self.captured != Entity::null() {
            actions.push(
                Action::Emit(
                    Event::new(WindowEvent::MouseMove(x, y)).target(self.captured).propagate(
                        Propagation::Direct,
                    ),
                ),
            );
        } else if self.hovered != Entity::new(0, 0) {
            actions.push(Action::Emit(Event::new(WindowEvent::MouseMove(x, y)).target(self.hovered)));
        }
        actions
    }

    fn mouse_input(&mut self, state: MouseButtonState, button: MouseButton) -> (actions: Vec<Action>)
        ensures
            *final(self) == mouse_step(*old(self), state, button).0,
            actions@ == mouse_step(*old(self), state, button).1,
    {
        let mut actions: Vec<Action> = Vec::new();
        match button {
            MouseButton::Left => {
                self.mouse.left.state = state;
            },
            MouseButton::Right => {
                self.mouse.right.state = state;
            },
            MouseButton::Middle => {
                self.mouse.middle.state = state;
            },
            MouseButton::Other(_) => {},
        }
        let pos = (self.mouse.cursorx, self.mouse.cursory);
        match state {
            MouseButtonState::Pressed => {
                if self.hovered != Entity::null() && self.active != self.hovered {
                    self.active = self.hovered;
                    actions.push(Action::Emit(Event::new(WindowEvent::Restyle)));
                }
                actions.push(Action::Emit(self.mouse_event(WindowEvent::MouseDown(button))));
                match button {
                    MouseButton::Left => {
                        self.mouse.left.pos_down = pos;
                        self.mouse.left.pressed = self.hovered;
                    },
                    MouseButton::Middle => {
                        self.mouse.middle.pos_down = pos;
                        self.mouse.left.pressed = self.hovered;
                    },
                    MouseButton::Right => {
                        self.mouse.right.pos_down = pos;
                        self.mouse.left.pressed = self.hovered;
                    },
                    MouseButton::Other(_) => {},
                }
            },
            MouseButtonState::Released => {
                self.active = Entity::null();
                actions.push(Action::Emit(Event::new(WindowEvent::Restyle)));
                actions.push(Action::Emit(self.mouse_event(WindowEvent::MouseUp(button))));
                match button {
                    MouseButton::Left => {
                        self.mouse.left.pos_up = pos;
                        self.mouse.left.released = self.hovered;
                    },
                    MouseButton::Middle => {
                        self.mouse.middle.pos_up = pos;
                        self.mouse.left.released = self.hovered;
                    },
                    MouseButton::Right => {
                        self.mouse.right.pos_up = pos;
                        self.mouse.left.released = self.hovered;
                    },
                    MouseButton::Other(_) => {},
                }
            },
        }
        actions
    }

    /// Handles one window event: updates the state and returns, in order, what
    /// the event loop must do.
    pub fn handle(&mut self, event: InputEvent) -> (actions: Vec<Action>)
        ensures
            *final(self) == step(*old(self), event).0,
            actions@ == step(*old(self), event).1,
    {
        match event {
            InputEvent::CloseRequested => {
                self.should_quit = true;
                let mut actions: Vec<Action> = Vec::new();
                actions.push(Action::Emit(Event::new(WindowEvent::WindowClose)));
                actions
            },
            InputEvent::ModifiersChanged(m) => {
                self.modifiers.shift = m.shift;
                self.modifiers.ctrl = m.ctrl;
                self.modifiers.alt = m.alt;
                self.modifiers.logo = m.logo;
                Vec::new()
            },
            InputEvent::Focused(_) => {
                let mut actions: Vec<Action> = Vec::new();
                actions.push(Action::Emit(Event::new(WindowEvent::Restyle).target(self.root)));
                actions
            },
            InputEvent::ReceivedCharacter(c) => {
                let mut actions: Vec<Action> = Vec::new();
                actions.push(
                    Action::Emit(
                        Event::new(WindowEvent::CharInput(c)).target(self.focused).propagate(
                            Propagation::Down,
                        ),
                    ),
                );
                actions
            },
            InputEvent::KeyboardInput { state, key, focus_next, focus_prev, tree_next } => {
                self.key_input(state, key, focus_next, focus_prev, tree_next)
            },
            InputEvent::Resized { width, height } => {
                let mut actions: Vec<Action> = Vec::new();
                actions.push(Action::ResizeRoot(width, height));
                actions.push(Action::Emit(Event::new(WindowEvent::Restyle)));
                actions.push(Action::Emit(Event::new(WindowEvent::Relayout).target(Entity::null())));
                actions.push(Action::Emit(Event::new(WindowEvent::Redraw)));
                actions
            },
            InputEvent::CursorMoved { x, y, hovered } => self.cursor_moved(x, y, hovered),
            InputEvent::MouseInput { state, button } => self.mouse_input(state, button),
            InputEvent::MouseWheel { x, y } => {
                let mut actions: Vec<Action> = Vec::new();
                actions.push(Action::Emit(self.mouse_event(WindowEvent::MouseScroll(x, y))));
                actions
            },
            InputEvent::Ignored => Vec::new(),
        }
    }
}

} // verus!
