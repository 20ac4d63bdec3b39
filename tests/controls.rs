use fps_camera::{
    Axis, Frame, InputAccumulator, InputEvent, InputState, Key, MouseButton, MoveIntents,
    Response, Viewport,
};

fn still() -> Frame<(f32, f32), f32> {
    Frame { forward: 0, right: 0, up: 0, look: None, scroll: None }
}

#[test]
fn key_axes() {
    assert_eq!(Key::W.axis(), Some(Axis::Forward));
    assert_eq!(Key::Up.axis(), Some(Axis::Forward));
    assert_eq!(Key::S.axis(), Some(Axis::Backward));
    assert_eq!(Key::Down.axis(), Some(Axis::Backward));
    assert_eq!(Key::A.axis(), Some(Axis::Left));
    assert_eq!(Key::Left.axis(), Some(Axis::Left));
    assert_eq!(Key::D.axis(), Some(Axis::Right));
    assert_eq!(Key::Right.axis(), Some(Axis::Right));
    assert_eq!(Key::Space.axis(), Some(Axis::Up));
    assert_eq!(Key::LShift.axis(), Some(Axis::Down));
    assert_eq!(Key::Other.axis(), None);
}

#[test]
fn press_then_release_clears_axis() {
    let mut m = MoveIntents::new();
    assert!(m.process_keyboard(Key::W, true));
    assert_eq!(m.net_forward(), 1);
    assert!(m.process_keyboard(Key::W, false));
    assert_eq!(m.net_forward(), 0);
    assert!(m.is_idle());
}

#[test]
fn repeated_press_is_one_press() {
    let mut m = MoveIntents::new();
    m.process_keyboard(Key::D, true);
    let once = m;
    m.process_keyboard(Key::D, true);
    assert_eq!(m, once);
    assert_eq!(m.net_right(), 1);
    m.process_keyboard(Key::D, false);
    assert!(m.is_idle());
}

#[test]
fn opposite_keys_cancel() {
    let mut m = MoveIntents::new();
    m.process_keyboard(Key::Space, true);
    m.process_keyboard(Key::LShift, true);
    assert_eq!(m.net_up(), 0);
    assert!(!m.is_idle());
    m.process_keyboard(Key::Space, false);
    assert_eq!(m.net_up(), -1);
    m.process_keyboard(Key::Left, true);
    assert_eq!(m.net_right(), -1);
    m.process_keyboard(Key::Down, true);
    assert_eq!(m.net_forward(), -1);
}

#[test]
fn unknown_key_is_not_handled() {
    let mut m = MoveIntents::new();
    assert!(!m.process_keyboard(Key::Other, true));
    assert!(m.is_idle());
}

#[test]
fn idle_frame_is_still() {
    let mut acc: InputAccumulator<(f32, f32), f32> = InputAccumulator::new();
    let f = acc.take_frame();
    assert!(f.is_still());
    assert_eq!(f, still());
}

#[test]
fn look_delta_applies_once() {
    let mut acc: InputAccumulator<(f32, f32), f32> = InputAccumulator::new();
    acc.process_mouse((4.0, -2.0));
    let first = acc.take_frame();
    assert_eq!(first.look, Some((4.0, -2.0)));
    let second = acc.take_frame();
    assert_eq!(second.look, None);
    assert!(second.is_still());
}

#[test]
fn latest_look_delta_wins() {
    let mut acc: InputAccumulator<(f32, f32), f32> = InputAccumulator::new();
    acc.process_mouse((1.0, 1.0));
    acc.process_mouse((3.0, 5.0));
    assert_eq!(acc.take_frame().look, Some((3.0, 5.0)));
}

#[test]
fn forward_key_moves_forward_only() {
    let mut acc: InputAccumulator<(f32, f32), f32> = InputAccumulator::new();
    assert!(acc.process_keyboard(Key::W, true));
    let f = acc.take_frame();
    assert_eq!(f.forward, 1);
    assert_eq!(f.right, 0);
    assert_eq!(f.up, 0);
    assert_eq!(f.look, None);
    assert_eq!(f.scroll, None);
    // A held key keeps acting frame after frame.
    assert_eq!(acc.take_frame().forward, 1);
}

#[test]
fn scroll_is_consumed_by_one_frame() {
    let mut acc: InputAccumulator<(f32, f32), f32> = InputAccumulator::new();
    acc.process_scroll(-1.0);
    assert_eq!(acc.scroll, Some(-1.0));
    let f = acc.take_frame();
    assert_eq!(f.scroll, Some(-1.0));
    assert_eq!(acc.scroll, None);
    assert_eq!(acc.take_frame().scroll, None);
}

#[test]
fn look_needs_left_button() {
    let mut st: InputState<(f64, f64), f32> = InputState::new();
    assert!(!st.mouse_motion((2.0, 3.0)));
    assert_eq!(st.controller.look, None);
    let r = st.input(InputEvent::Button { button: MouseButton::Left, pressed: true });
    assert_eq!(r, Response::Handled);
    assert!(st.mouse_pressed);
    assert!(st.mouse_motion((2.0, 3.0)));
    assert_eq!(st.controller.look, Some((2.0, 3.0)));
    st.input(InputEvent::Button { button: MouseButton::Left, pressed: false });
    assert!(!st.mouse_pressed);
    assert!(!st.mouse_motion((7.0, 7.0)));
    assert_eq!(st.controller.take_frame().look, Some((2.0, 3.0)));
}

#[test]
fn right_button_recenters() {
    let mut st: InputState<(f64, f64), f32> = InputState::new();
    let r = st.input(InputEvent::Button { button: MouseButton::Right, pressed: true });
    assert_eq!(r, Response::Recenter);
    assert!(r.handled());
    let r = st.input(InputEvent::Button { button: MouseButton::Right, pressed: false });
    assert_eq!(r, Response::Recenter);
    assert!(!st.mouse_pressed);
}

#[test]
fn events_are_routed() {
    let mut st: InputState<(f64, f64), f32> = InputState::new();
    let r = st.input(InputEvent::Key { key: Key::A, pressed: true });
    assert_eq!(r, Response::Handled);
    assert!(st.controller.intents.left);
    let r = st.input(InputEvent::Key { key: Key::Other, pressed: true });
    assert_eq!(r, Response::Ignored);
    assert!(!r.handled());
    let r = st.input(InputEvent::Wheel(2.5));
    assert_eq!(r, Response::Handled);
    assert_eq!(st.controller.scroll, Some(2.5));
    let r = st.input(InputEvent::Button { button: MouseButton::Other, pressed: true });
    assert_eq!(r, Response::Ignored);
    assert_eq!(st.input(InputEvent::Other), Response::Ignored);
}

#[test]
fn viewport_rejects_zero_side() {
    assert!(Viewport::new(0, 600).is_none());
    assert!(Viewport::new(800, 0).is_none());
    let v = Viewport::new(800, 600).unwrap();
    assert_eq!((v.width(), v.height()), (800, 600));
}

#[test]
fn degenerate_resize_keeps_aspect() {
    let mut v = Viewport::new(800, 600).unwrap();
    assert!(!v.resize(0, 600));
    assert_eq!((v.width(), v.height()), (800, 600));
    assert!(!v.resize(1024, 0));
    assert_eq!((v.width(), v.height()), (800, 600));
    assert!(v.resize(1024, 768));
    assert_eq!((v.width(), v.height()), (1024, 768));
}
