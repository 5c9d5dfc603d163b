use tuix::entity::Entity;
use tuix::event::{Event, Key, MouseButton, MouseButtonState, Propagation, RawF32, WindowEvent};
use tuix::input::{Action, InputEvent, InputState, Modifiers};

fn px(v: f32) -> RawF32 {
    RawF32(v.to_bits())
}

fn emit(e: Event) -> Action {
    Action::Emit(e)
}

fn key(state: MouseButtonState, k: Option<Key>, next: Entity, prev: Entity, tree: Option<Entity>) -> InputEvent {
    InputEvent::KeyboardInput { state, key: k, focus_next: next, focus_prev: prev, tree_next: tree }
}

#[test]
fn entity_constants() {
    assert_eq!(Entity::root(), Entity::new(0, 0));
    assert_ne!(Entity::null(), Entity::root());
    assert_eq!(Entity::null(), Entity::new(u32::MAX, u32::MAX));
}

#[test]
fn event_builders() {
    let e = Event::new(WindowEvent::Redraw);
    assert_eq!(e.target, Entity::null());
    assert_eq!(e.origin, Entity::null());
    assert_eq!(e.propagation, Propagation::Up);
    let e = e.target(Entity::new(3, 1)).origin(Entity::root()).propagate(Propagation::Direct);
    assert_eq!(e.target, Entity::new(3, 1));
    assert_eq!(e.origin, Entity::root());
    assert_eq!(e.propagation, Propagation::Direct);
    assert_eq!(e.message, WindowEvent::Redraw);
}

#[test]
fn new_state() {
    let s = InputState::new();
    assert_eq!(s.root, Entity::root());
    assert_eq!(s.focused, Entity::root());
    assert_eq!(s.hovered, Entity::root());
    assert_eq!(s.active, Entity::null());
    assert_eq!(s.captured, Entity::null());
    assert!(!s.should_exit());
    assert_eq!(s.mouse.left.state, MouseButtonState::Released);
}

#[test]
fn start_and_animation_events() {
    let s = InputState::new();
    assert_eq!(
        s.start_events(),
        vec![Event::new(WindowEvent::Restyle), Event::new(WindowEvent::Relayout).target(Entity::null())]
    );
    assert_eq!(
        s.animation_events(true),
        vec![
            Event::new(WindowEvent::Relayout).target(Entity::null()).origin(Entity::root()),
            Event::new(WindowEvent::Redraw)
        ]
    );
    assert!(s.animation_events(false).is_empty());
}

#[test]
fn close_request_sets_quit_and_stays() {
    let mut s = InputState::new();
    let a = s.handle(InputEvent::CloseRequested);
    assert_eq!(a, vec![emit(Event::new(WindowEvent::WindowClose))]);
    assert!(s.should_exit());
    s.handle(InputEvent::Resized { width: 1, height: 2 });
    s.handle(InputEvent::Ignored);
    assert!(s.should_exit());
}

#[test]
fn modifiers_are_recorded() {
    let mut s = InputState::new();
    let m = Modifiers { shift: true, ctrl: false, alt: true, logo: false };
    let a = s.handle(InputEvent::ModifiersChanged(m));
    assert!(a.is_empty());
    assert_eq!(s.modifiers, m);
    s.handle(InputEvent::ReceivedCharacter('x'));
    assert_eq!(s.modifiers, m);
}

#[test]
fn focus_restyles_root() {
    let mut s = InputState::new();
    let before = s;
    let a = s.handle(InputEvent::Focused(true));
    assert_eq!(a, vec![emit(Event::new(WindowEvent::Restyle).target(Entity::root()))]);
    assert_eq!(s, before);
}

#[test]
fn character_goes_down_to_focus() {
    let mut s = InputState::new();
    s.focused = Entity::new(5, 0);
    let a = s.handle(InputEvent::ReceivedCharacter('q'));
    assert_eq!(
        a,
        vec![emit(Event::new(WindowEvent::CharInput('q')).target(Entity::new(5, 0)).propagate(Propagation::Down))]
    );
}

#[test]
fn tab_moves_focus_forward() {
    let mut s = InputState::new();
    let n = Entity::new(7, 0);
    let a = s.handle(key(MouseButtonState::Pressed, Some(Key::Tab), n, Entity::null(), None));
    assert_eq!(s.focused, n);
    assert_eq!(
        a,
        vec![
            emit(Event::new(WindowEvent::Restyle).target(Entity::root())),
            emit(Event::new(WindowEvent::KeyDown(Some(Key::Tab))).target(n).propagate(Propagation::DownUp)),
        ]
    );
}

#[test]
fn tab_without_next_uses_tree_order_then_root() {
    let mut s = InputState::new();
    let t = Entity::new(2, 0);
    s.handle(key(MouseButtonState::Pressed, Some(Key::Tab), Entity::null(), Entity::null(), Some(t)));
    assert_eq!(s.focused, t);
    s.handle(key(MouseButtonState::Pressed, Some(Key::Tab), Entity::null(), Entity::null(), None));
    assert_eq!(s.focused, Entity::root());
}

#[test]
fn shift_tab_moves_back_or_stays() {
    let mut s = InputState::new();
    s.handle(InputEvent::ModifiersChanged(Modifiers { shift: true, ctrl: false, alt: false, logo: false }));
    s.focused = Entity::new(4, 0);
    s.handle(key(MouseButtonState::Pressed, Some(Key::Tab), Entity::new(9, 0), Entity::null(), None));
    assert_eq!(s.focused, Entity::new(4, 0));
    s.handle(key(MouseButtonState::Pressed, Some(Key::Tab), Entity::new(9, 0), Entity::new(3, 0), None));
    assert_eq!(s.focused, Entity::new(3, 0));
}

#[test]
fn tab_release_does_not_move_focus() {
    let mut s = InputState::new();
    let a = s.handle(key(MouseButtonState::Released, Some(Key::Tab), Entity::new(7, 0), Entity::null(), None));
    assert_eq!(s.focused, Entity::root());
    assert_eq!(
        a,
        vec![emit(Event::new(WindowEvent::KeyUp(Some(Key::Tab))).target(Entity::root()).propagate(Propagation::DownUp))]
    );
}

#[test]
fn key_goes_to_hovered_without_focus() {
    let mut s = InputState::new();
    s.focused = Entity::null();
    s.hovered = Entity::new(8, 0);
    let a = s.handle(key(MouseButtonState::Pressed, Some(Key::Other(42)), Entity::null(), Entity::null(), None));
    assert_eq!(
        a,
        vec![emit(Event::new(WindowEvent::KeyDown(Some(Key::Other(42)))).target(Entity::new(8, 0)).propagate(Propagation::DownUp))]
    );
    assert_eq!(s.focused, Entity::null());
}

#[test]
fn resize_asks_root_size_and_relayout() {
    let mut s = InputState::new();
    let a = s.handle(InputEvent::Resized { width: 640, height: 480 });
    assert_eq!(
        a,
        vec![
            Action::ResizeRoot(640, 480),
            emit(Event::new(WindowEvent::Restyle)),
            emit(Event::new(WindowEvent::Relayout).target(Entity::null())),
            emit(Event::new(WindowEvent::Redraw)),
        ]
    );
}

#[test]
fn cursor_move_changes_hover_once() {
    let mut s = InputState::new();
    let w = Entity::new(6, 0);
    s.active = Entity::new(1, 0);
    let ev = InputEvent::CursorMoved { x: px(10.0), y: px(20.5), hovered: w };
    let a = s.handle(ev);
    assert_eq!(s.hovered, w);
    assert_eq!(s.active, Entity::null());
    assert_eq!(s.mouse.cursorx, px(10.0));
    assert_eq!(s.mouse.cursory, px(20.5));
    assert_eq!(
        a,
        vec![
            Action::SetHover(w, true),
            Action::SetHover(Entity::root(), false),
            emit(Event::new(WindowEvent::MouseOver).target(w)),
            emit(Event::new(WindowEvent::MouseOut).target(Entity::root())),
            emit(Event::new(WindowEvent::Restyle)),
            emit(Event::new(WindowEvent::Redraw)),
            emit(Event::new(WindowEvent::MouseMove(px(10.0), px(20.5))).target(w)),
        ]
    );
    let after_first = s;
    let b = s.handle(ev);
    assert_eq!(s, after_first);
    assert_eq!(b, vec![emit(Event::new(WindowEvent::MouseMove(px(10.0), px(20.5))).target(w))]);
}

#[test]
fn cursor_over_root_sends_no_move() {
    let mut s = InputState::new();
    let a = s.handle(InputEvent::CursorMoved { x: px(1.0), y: px(1.0), hovered: Entity::root() });
    assert!(a.is_empty());
}

#[test]
fn captured_widget_takes_mouse_messages() {
    let mut s = InputState::new();
    let c = Entity::new(11, 2);
    s.captured = c;
    let a = s.handle(InputEvent::CursorMoved { x: px(1.0), y: px(2.0), hovered: Entity::root() });
    assert_eq!(
        a,
        vec![emit(Event::new(WindowEvent::MouseMove(px(1.0), px(2.0))).target(c).propagate(Propagation::Direct))]
    );
    let a = s.handle(InputEvent::MouseWheel { x: px(0.0), y: px(-1.0) });
    assert_eq!(
        a,
        vec![emit(Event::new(WindowEvent::MouseScroll(px(0.0), px(-1.0))).target(c).propagate(Propagation::Direct))]
    );
    assert_eq!(s.captured, c);
}

#[test]
fn wheel_goes_to_hovered() {
    let mut s = InputState::new();
    s.hovered = Entity::new(3, 0);
    let a = s.handle(InputEvent::MouseWheel { x: px(1.0), y: px(0.0) });
    assert_eq!(a, vec![emit(Event::new(WindowEvent::MouseScroll(px(1.0), px(0.0))).target(Entity::new(3, 0)))]);
}

#[test]
fn press_and_release_left() {
    let mut s = InputState::new();
    let w = Entity::new(6, 0);
    s.handle(InputEvent::CursorMoved { x: px(3.0), y: px(4.0), hovered: w });
    let a = s.handle(InputEvent::MouseInput { state: MouseButtonState::Pressed, button: MouseButton::Left });
    assert_eq!(s.active, w);
    assert_eq!(s.mouse.left.state, MouseButtonState::Pressed);
    assert_eq!(s.mouse.left.pos_down, (px(3.0), px(4.0)));
    assert_eq!(s.mouse.left.pressed, w);
    assert_eq!(
        a,
        vec![
            emit(Event::new(WindowEvent::Restyle)),
            emit(Event::new(WindowEvent::MouseDown(MouseButton::Left)).target(w)),
        ]
    );
    // a second press while the same widget is active does not restyle
    let a = s.handle(InputEvent::MouseInput { state: MouseButtonState::Pressed, button: MouseButton::Left });
    assert_eq!(a, vec![emit(Event::new(WindowEvent::MouseDown(MouseButton::Left)).target(w))]);
    let a = s.handle(InputEvent::MouseInput { state: MouseButtonState::Released, button: MouseButton::Left });
    assert_eq!(s.active, Entity::null());
    assert_eq!(s.mouse.left.state, MouseButtonState::Released);
    assert_eq!(s.mouse.left.pos_up, (px(3.0), px(4.0)));
    assert_eq!(s.mouse.left.released, w);
    assert_eq!(
        a,
        vec![
            emit(Event::new(WindowEvent::Restyle)),
            emit(Event::new(WindowEvent::MouseUp(MouseButton::Left)).target(w)),
        ]
    );
}

#[test]
fn right_and_middle_record_widget_on_left() {
    let mut s = InputState::new();
    let w = Entity::new(6, 0);
    s.handle(InputEvent::CursorMoved { x: px(3.0), y: px(4.0), hovered: w });
    s.handle(InputEvent::MouseInput { state: MouseButtonState::Pressed, button: MouseButton::Right });
    assert_eq!(s.mouse.right.state, MouseButtonState::Pressed);
    assert_eq!(s.mouse.right.pos_down, (px(3.0), px(4.0)));
    assert_eq!(s.mouse.right.pressed, Entity::null());
    assert_eq!(s.mouse.left.pressed, w);
    assert_eq!(s.mouse.left.state, MouseButtonState::Released);
    s.handle(InputEvent::MouseInput { state: MouseButtonState::Released, button: MouseButton::Middle });
    assert_eq!(s.mouse.middle.pos_up, (px(3.0), px(4.0)));
    assert_eq!(s.mouse.left.released, w);
    assert_eq!(s.mouse.middle.released, Entity::null());
}

#[test]
fn other_button_changes_no_button_data() {
    let mut s = InputState::new();
    s.hovered = Entity::null();
    let before = s.mouse;
    let a = s.handle(InputEvent::MouseInput { state: MouseButtonState::Pressed, button: MouseButton::Other(8) });
    assert_eq!(s.mouse, before);
    assert_eq!(s.active, Entity::null());
    assert_eq!(a, vec![emit(Event::new(WindowEvent::MouseDown(MouseButton::Other(8))).target(Entity::null()))]);
}

#[test]
fn ignored_event_changes_nothing() {
    let mut s = InputState::new();
    let before = s;
    assert!(s.handle(InputEvent::Ignored).is_empty());
    assert_eq!(s, before);
}
