use vstd::prelude::*;

use crate::entity::Entity;
use crate::event::{Event, Key, MouseButton, MouseButtonState, Propagation, RawF32, WindowEvent};
use crate::input::{step, Action, InputEvent, InputState};

verus! {

/// Once the window has been asked to close it stays so, and only a close
/// request asks it.
pub proof fn quit_is_sticky(s: InputState, e: InputEvent)
    ensures
        s.should_quit ==> step(s, e).0.should_quit,
        step(s, e).0.should_quit <==> (s.should_quit || e is CloseRequested),
{
}

/// No window event moves the root or changes which widget has captured the
/// mouse.
pub proof fn root_and_capture_unchanged(s: InputState, e: InputEvent)
    ensures
        step(s, e).0.root == s.root,
        step(s, e).0.captured == s.captured,
{
}

/// The focus moves only when tab is pressed.
pub proof fn focus_moves_only_on_tab(s: InputState, e: InputEvent)
    ensures
        step(s, e).0.focused != s.focused ==> (e matches InputEvent::KeyboardInput {
            state,
            key,
            ..
        } && state == MouseButtonState::Pressed && key == Some(Key::Tab)),
{
}

/// The hovered widget changes only when the cursor moves, and is then the
/// widget under the cursor.
pub proof fn hover_follows_cursor(s: InputState, e: InputEvent)
    ensures
        step(s, e).0.hovered != s.hovered ==> e is CursorMoved,
        e matches InputEvent::CursorMoved { hovered, .. } ==> step(s, e).0.hovered == hovered,
{
}

/// The held modifiers change only when the window reports them.
pub proof fn modifiers_change_only_when_reported(s: InputState, e: InputEvent)
    ensures
        !(e is ModifiersChanged) ==> step(s, e).0.modifiers == s.modifiers,
        e matches InputEvent::ModifiersChanged(m) ==> step(s, e).0.modifiers == m,
{
}

/// After a button goes up nothing is active; after a button goes down over a
/// widget, that widget is active.
pub proof fn active_follows_buttons(s: InputState, e: InputEvent)
    ensures
        e matches InputEvent::MouseInput { state, .. } ==> (state == MouseButtonState::Released
            ==> step(s, e).0.active == Entity::null()),
        e matches InputEvent::MouseInput { state, .. } ==> (state == MouseButtonState::Pressed
            && s.hovered != Entity::null() ==> step(s, e).0.active == s.hovered),
{
}

/// Moving the cursor twice onto the same widget reports the hover change only
/// once: the second move leaves the state as it was and asks for no hover
/// change.
pub proof fn hover_change_reported_once(s: InputState, x: RawF32, y: RawF32, hovered: Entity)
    ensures
        ({
            let e = InputEvent::CursorMoved { x, y, hovered };
            let s1 = step(s, e).0;
            &&& step(s1, e).0 == s1
            &&& forall|i: int|
                0 <= i < step(s1, e).1.len() ==> (#[trigger] step(s1, e).1[i] is Emit
                    && step(s1, e).1[i]->Emit_0.message == WindowEvent::MouseMove(x, y))
        }),
{
    let e = InputEvent::CursorMoved { x, y, hovered };
    let s1 = step(s, e).0;
    assert(s1.hovered == hovered);
}

/// Every key press or release goes, travelling down and back up, to the
/// focused widget after the event, or to the hovered widget when nothing has
/// the focus.
pub proof fn keys_go_to_focus(s: InputState, e: InputEvent)
    requires
        e is KeyboardInput,
    ensures
        ({
            let (s1, actions) = step(s, e);
            let target = if s1.focused != Entity::null() {
                s1.focused
            } else {
                s1.hovered
            };
            &&& actions.len() >= 1
            &&& actions.last() matches Action::Emit(ev)
            &&& ev.target == target
            &&& ev.propagation == Propagation::DownUp
            &&& (ev.message is KeyDown || ev.message is KeyUp)
        }),
{
}

/// The messages that report the mouse's buttons, motion and wheel.
pub open spec fn is_mouse_message(m: WindowEvent) -> bool {
    m is MouseDown || m is MouseUp || m is MouseMove || m is MouseScroll
}

/// While a widget has captured the mouse, every mouse message goes straight
/// to it and to nothing else.
pub proof fn capture_takes_mouse_messages(s: InputState, e: InputEvent)
    requires
        s.captured != Entity::null(),
    ensures
        forall|i: int|
            0 <= i < step(s, e).1.len() && #[trigger] step(s, e).1[i] is Emit
                && is_mouse_message(step(s, e).1[i]->Emit_0.message) ==> step(s, e).1[i]->Emit_0.target
                == s.captured && step(s, e).1[i]->Emit_0.propagation
                == Propagation::Direct,
{
}


/// A message sent from the window with the given target and propagation, and
/// no origin.
pub open spec fn sent(message: WindowEvent, target: Entity, propagation: Propagation) -> Action {
    Action::Emit(Event { message, target, origin: Entity::null(), propagation })
}

/// A close request marks the window for closing, changes nothing else, and
/// sends exactly one untargeted `WindowClose`.
pub proof fn close_request_answer(s: InputState)
    ensures
        step(s, InputEvent::CloseRequested).0 == (InputState { should_quit: true, ..s }),
        step(s, InputEvent::CloseRequested).1 == seq![
            sent(WindowEvent::WindowClose, Entity::null(), Propagation::Up),
        ],
{
}

/// A modifier change records exactly the reported modifiers and sends nothing.
pub proof fn modifiers_answer(s: InputState, m: crate::input::Modifiers)
    ensures
        step(s, InputEvent::ModifiersChanged(m)).0 == (InputState { modifiers: m, ..s }),
        step(s, InputEvent::ModifiersChanged(m)).1 == Seq::<Action>::empty(),
{
}

/// Whether the window gains or loses the focus, the state is kept and exactly
/// one restyle of the root is sent.
pub proof fn window_focus_answer(s: InputState, gained: bool)
    ensures
        step(s, InputEvent::Focused(gained)).0 == s,
        step(s, InputEvent::Focused(gained)).1 == seq![
            sent(WindowEvent::Restyle, s.root, Propagation::Up),
        ],
{
}

/// A typed character goes, travelling down, to the focused widget, and
/// nothing changes.
pub proof fn character_answer(s: InputState, c: char)
    ensures
        step(s, InputEvent::ReceivedCharacter(c)).0 == s,
        step(s, InputEvent::ReceivedCharacter(c)).1 == seq![
            sent(WindowEvent::CharInput(c), s.focused, Propagation::Down),
        ],
{
}

/// Every key event ends with exactly one key message: `KeyDown(key)` when the
/// key goes down and `KeyUp(key)` when it goes up, whatever the key, sent down
/// and back up to the focused widget after the event, or to the hovered widget
/// when nothing has the focus. A Tab press is preceded by a restyle of the root
/// and nothing else; any other key event sends nothing else and changes
/// nothing.
pub proof fn key_answer(
    s: InputState,
    state: MouseButtonState,
    key: Option<Key>,
    focus_next: Entity,
    focus_prev: Entity,
    tree_next: Option<Entity>,
)
    ensures
        ({
            let e = InputEvent::KeyboardInput { state, key, focus_next, focus_prev, tree_next };
            let (s1, actions) = step(s, e);
            let message = if state == MouseButtonState::Pressed {
                WindowEvent::KeyDown(key)
            } else {
                WindowEvent::KeyUp(key)
            };
            let target = if s1.focused != Entity::null() {
                s1.focused
            } else {
                s.hovered
            };
            let tab_press = state == MouseButtonState::Pressed && key == Some(Key::Tab);
            &&& s1 == (InputState { focused: s1.focused, ..s })
            &&& !tab_press ==> s1 == s
            &&& tab_press ==> actions == seq![
                sent(WindowEvent::Restyle, s.root, Propagation::Up),
                sent(message, target, Propagation::DownUp),
            ]
            &&& !tab_press ==> actions == seq![sent(message, target, Propagation::DownUp)]
        }),
{
}

/// On a Tab press the focus goes back to the previous widget of the focus
/// order when shift is held (and stays put when there is none), and otherwise
/// forward to the next widget of the focus order, or, when there is none, to
/// the next widget in tree order, or else to the root.
pub proof fn tab_moves_focus(
    s: InputState,
    focus_next: Entity,
    focus_prev: Entity,
    tree_next: Option<Entity>,
)
    ensures
        ({
            let e = InputEvent::KeyboardInput {
                state: MouseButtonState::Pressed,
                key: Some(Key::Tab),
                focus_next,
                focus_prev,
                tree_next,
            };
            let f = step(s, e).0.focused;
            &&& s.modifiers.shift && focus_prev != Entity::null() ==> f == focus_prev
            &&& s.modifiers.shift && focus_prev == Entity::null() ==> f == s.focused
            &&& !s.modifiers.shift && focus_next != Entity::null() ==> f == focus_next
            &&& !s.modifiers.shift && focus_next == Entity::null() && tree_next is Some ==> f
                == tree_next->0
            &&& !s.modifiers.shift && focus_next == Entity::null() && tree_next is None ==> f
                == s.root
        }),
{
}

/// A resize asks for the new root size, then sends a restyle, a relayout of the
/// whole tree and a redraw, and changes nothing.
pub proof fn resize_answer(s: InputState, width: u32, height: u32)
    ensures
        step(s, InputEvent::Resized { width, height }).0 == s,
        step(s, InputEvent::Resized { width, height }).1 == seq![
            Action::ResizeRoot(width, height),
            sent(WindowEvent::Restyle, Entity::null(), Propagation::Up),
            sent(WindowEvent::Relayout, Entity::null(), Propagation::Up),
            sent(WindowEvent::Redraw, Entity::null(), Propagation::Up),
        ],
{
}

/// Every cursor move records the cursor position, whether or not the hovered
/// widget changes. When the hovered widget stays, nothing else changes and
/// nothing but the move itself is sent; when it changes, the new widget gets
/// the hover and a `MouseOver`, the old one loses it and gets a `MouseOut`,
/// nothing stays active, and a restyle and a redraw follow. The move is then
/// sent straight to the capturing widget, or to the hovered widget unless that
/// is the root.
pub proof fn cursor_answer(s: InputState, x: RawF32, y: RawF32, hovered: Entity)
    ensures
        ({
            let (s1, actions) = step(s, InputEvent::CursorMoved { x, y, hovered });
            let moved = crate::input::MouseState { cursorx: x, cursory: y, ..s.mouse };
            let move_msg = if s.captured != Entity::null() {
                seq![sent(WindowEvent::MouseMove(x, y), s.captured, Propagation::Direct)]
            } else if hovered != Entity::root() {
                seq![sent(WindowEvent::MouseMove(x, y), hovered, Propagation::Up)]
            } else {
                Seq::empty()
            };
            &&& s1.mouse.cursorx == x
            &&& s1.mouse.cursory == y
            &&& s1.hovered == hovered
            &&& hovered == s.hovered ==> s1 == (InputState { mouse: moved, ..s })
            &&& hovered == s.hovered ==> actions == move_msg
            &&& hovered != s.hovered ==> s1 == (InputState {
                mouse: moved,
                hovered,
                active: Entity::null(),
                ..s
            })
            &&& hovered != s.hovered ==> actions == seq![
                Action::SetHover(hovered, true),
                Action::SetHover(s.hovered, false),
                sent(WindowEvent::MouseOver, hovered, Propagation::Up),
                sent(WindowEvent::MouseOut, s.hovered, Propagation::Up),
                sent(WindowEvent::Restyle, Entity::null(), Propagation::Up),
                sent(WindowEvent::Redraw, Entity::null(), Propagation::Up),
            ] + move_msg
        }),
{
}

/// Every button event, whatever the button, ends with exactly one mouse
/// message: `MouseDown(button)` on a press and `MouseUp(button)` on a release,
/// sent straight to the capturing widget if there is one and otherwise up from
/// the hovered widget. Before it comes only a restyle: always on a release,
/// and on a press exactly when a widget is hovered that was not yet active.
pub proof fn button_message(s: InputState, state: MouseButtonState, button: MouseButton)
    ensures
        ({
            let actions = step(s, InputEvent::MouseInput { state, button }).1;
            let message = if state == MouseButtonState::Pressed {
                WindowEvent::MouseDown(button)
            } else {
                WindowEvent::MouseUp(button)
            };
            let mouse = if s.captured != Entity::null() {
                sent(message, s.captured, Propagation::Direct)
            } else {
                sent(message, s.hovered, Propagation::Up)
            };
            let restyle = sent(WindowEvent::Restyle, Entity::null(), Propagation::Up);
            let restyles = state == MouseButtonState::Released || (s.hovered != Entity::null()
                && s.active != s.hovered);
            &&& restyles ==> actions == seq![restyle, mouse]
            &&& !restyles ==> actions == seq![mouse]
        }),
{
}

/// A button event records the button's new state (for the three main
/// buttons), and on a press its press position and on a release its release
/// position at the cursor; the widget under the cursor is recorded on the left
/// button. A release leaves nothing active; a press makes the hovered widget
/// active unless it is null. Focus, hover, capture, modifiers and the cursor
/// are kept.
pub proof fn button_state_answer(s: InputState, state: MouseButtonState, button: MouseButton)
    ensures
        ({
            let s1 = step(s, InputEvent::MouseInput { state, button }).0;
            let pos = (s.mouse.cursorx, s.mouse.cursory);
            let pressed = state == MouseButtonState::Pressed;
            let main = !(button is Other);
            &&& s1.root == s.root && s1.focused == s.focused && s1.hovered == s.hovered
            &&& s1.captured == s.captured && s1.modifiers == s.modifiers
            &&& s1.should_quit == s.should_quit
            &&& s1.mouse.cursorx == s.mouse.cursorx && s1.mouse.cursory == s.mouse.cursory
            &&& !pressed ==> s1.active == Entity::null()
            &&& pressed && s.hovered != Entity::null() ==> s1.active == s.hovered
            &&& pressed && s.hovered == Entity::null() ==> s1.active == s.active
            &&& button == MouseButton::Left ==> s1.mouse.left.state == state
            &&& button == MouseButton::Right ==> s1.mouse.right.state == state
            &&& button == MouseButton::Middle ==> s1.mouse.middle.state == state
            &&& button == MouseButton::Left && pressed ==> s1.mouse.left.pos_down == pos
            &&& button == MouseButton::Right && pressed ==> s1.mouse.right.pos_down == pos
            &&& button == MouseButton::Middle && pressed ==> s1.mouse.middle.pos_down == pos
            &&& button == MouseButton::Left && !pressed ==> s1.mouse.left.pos_up == pos
            &&& button == MouseButton::Right && !pressed ==> s1.mouse.right.pos_up == pos
            &&& button == MouseButton::Middle && !pressed ==> s1.mouse.middle.pos_up == pos
            &&& main && pressed ==> s1.mouse.left.pressed == s.hovered
            &&& main && !pressed ==> s1.mouse.left.released == s.hovered
            &&& !main ==> s1.mouse == s.mouse
        }),
{
}

/// A wheel turn changes nothing and sends exactly one `MouseScroll` with the
/// reported amounts: straight to the capturing widget if there is one, and
/// otherwise up from the widget under the cursor, whichever widget has the
/// focus.
pub proof fn wheel_answer(s: InputState, x: RawF32, y: RawF32)
    ensures
        step(s, InputEvent::MouseWheel { x, y }).0 == s,
        s.captured != Entity::null() ==> step(s, InputEvent::MouseWheel { x, y }).1 == seq![
            sent(WindowEvent::MouseScroll(x, y), s.captured, Propagation::Direct),
        ],
        s.captured == Entity::null() ==> step(s, InputEvent::MouseWheel { x, y }).1 == seq![
            sent(WindowEvent::MouseScroll(x, y), s.hovered, Propagation::Up),
        ],
{
}

/// An event the window does not handle changes nothing and sends nothing.
pub proof fn ignored_answer(s: InputState)
    ensures
        step(s, InputEvent::Ignored).0 == s,
        step(s, InputEvent::Ignored).1 == Seq::<Action>::empty(),
{
}

} // verus!
