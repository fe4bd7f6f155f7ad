use instantwm_rs::action::ActionEffect;
use instantwm_rs::input::{
    focus_direction, DragState, InputHandler, KeyState, ResizeEdge, ResizeState, BUTTON_LEFT,
    BUTTON_RIGHT,
};
use instantwm_rs::keybindings::{KEY_2, KEY_H, KEY_L, KEY_M, KEY_Q, KEY_RETURN, KEY_SUPER_L, KEY_SUPER_R};
use instantwm_rs::types::{Config, Rectangle, TagId, WindowId};
use instantwm_rs::window_manager::WindowManager;

fn setup() -> (InputHandler, WindowManager) {
    let mut config = Config::default();
    config.tags.layouts = vec!["floating".to_string()];
    config.appearance.gap_size = 0;
    config.appearance.inner_gap = 0;
    config.appearance.bar_height = 0;
    config.rules = Vec::new();
    let wm = WindowManager::new(config.clone(), Rectangle::new(0, 0, 1000, 800)).unwrap();
    (InputHandler::new(config), wm)
}

fn place(wm: &mut WindowManager, x: i32, y: i32, width: u32, height: u32) -> WindowId {
    wm.manage_window("w".to_string(), "c".to_string(), Rectangle::new(x, y, width, height))
}

#[test]
fn focus_moves_to_the_nearest_window_in_a_direction() {
    let (_, mut wm) = setup();
    let left = place(&mut wm, 0, 0, 100, 100);
    let middle = place(&mut wm, 200, 0, 100, 100);
    let right = place(&mut wm, 400, 0, 100, 100);
    let far_right = place(&mut wm, 900, 0, 100, 100);
    let below = place(&mut wm, 200, 300, 100, 100);
    wm.focus_window(middle).unwrap();
    focus_direction(&mut wm, 1, 0);
    assert_eq!(wm.get_focused_window(), Some(right));
    focus_direction(&mut wm, 1, 0);
    assert_eq!(wm.get_focused_window(), Some(far_right));
    focus_direction(&mut wm, 1, 0);
    assert_eq!(wm.get_focused_window(), Some(far_right));
    focus_direction(&mut wm, -1, 0);
    assert_eq!(wm.get_focused_window(), Some(right));
    wm.focus_window(middle).unwrap();
    focus_direction(&mut wm, -5, 0);
    assert_eq!(wm.get_focused_window(), Some(left));
    wm.focus_window(middle).unwrap();
    focus_direction(&mut wm, 0, 1);
    assert_eq!(wm.get_focused_window(), Some(below));
    focus_direction(&mut wm, 0, -1);
    assert_eq!(wm.get_focused_window(), Some(left));
    focus_direction(&mut wm, 0, 0);
    assert_eq!(wm.get_focused_window(), Some(left));
}

#[test]
fn of_equally_near_windows_the_first_in_the_list_wins() {
    let (_, mut wm) = setup();
    let origin = place(&mut wm, 0, 0, 100, 100);
    let first = place(&mut wm, 300, 500, 100, 100);
    let second = place(&mut wm, 300, 0, 100, 100);
    let same_column = place(&mut wm, 0, 700, 100, 100);
    wm.focus_window(origin).unwrap();
    focus_direction(&mut wm, 1, 0);
    assert_eq!(wm.get_focused_window(), Some(first));
    assert_ne!(wm.get_focused_window(), Some(second));
    wm.focus_window(origin).unwrap();
    focus_direction(&mut wm, -1, 0);
    assert_eq!(wm.get_focused_window(), Some(origin));
    let _ = same_column;
}

#[test]
fn direction_without_focus_does_nothing() {
    let (_, mut wm) = setup();
    focus_direction(&mut wm, 1, 0);
    assert_eq!(wm.get_focused_window(), None);
}

#[test]
fn super_key_is_remembered() {
    let (mut input, mut wm) = setup();
    let outcome = input.handle_keyboard_event(&mut wm, KEY_RETURN, KeyState::Pressed);
    assert!(!outcome.handled);
    assert!(matches!(outcome.effect, ActionEffect::Nothing));
    let outcome = input.handle_keyboard_event(&mut wm, KEY_SUPER_L, KeyState::Pressed);
    assert!(!outcome.handled);
    assert!(input.mod_key_pressed);
    let outcome = input.handle_keyboard_event(&mut wm, KEY_RETURN, KeyState::Pressed);
    assert!(outcome.handled);
    match outcome.effect {
        ActionEffect::Spawn(command) => assert_eq!(command, "terminal"),
        _ => panic!("nothing to spawn"),
    }
    let outcome = input.handle_keyboard_event(&mut wm, KEY_RETURN, KeyState::Released);
    assert!(!outcome.handled);
    let outcome = input.handle_keyboard_event(&mut wm, KEY_M, KeyState::Pressed);
    assert!(!outcome.handled);
    let outcome = input.handle_keyboard_event(&mut wm, KEY_2, KeyState::Pressed);
    assert!(outcome.handled);
    assert!(matches!(outcome.effect, ActionEffect::Switched(_)));
    assert_eq!(wm.current_tag, TagId::new(1));
    input.handle_keyboard_event(&mut wm, KEY_SUPER_R, KeyState::Released);
    assert!(!input.mod_key_pressed);
    let outcome = input.handle_keyboard_event(&mut wm, KEY_2, KeyState::Pressed);
    assert!(!outcome.handled);
}

#[test]
fn bound_keys_act_on_the_focused_window() {
    let (mut input, mut wm) = setup();
    let a = place(&mut wm, 0, 0, 100, 100);
    let b = place(&mut wm, 300, 0, 100, 100);
    input.handle_keyboard_event(&mut wm, KEY_SUPER_L, KeyState::Pressed);
    input.handle_keyboard_event(&mut wm, KEY_H, KeyState::Pressed);
    assert_eq!(wm.get_focused_window(), Some(a));
    input.handle_keyboard_event(&mut wm, KEY_L, KeyState::Pressed);
    assert_eq!(wm.get_focused_window(), Some(b));
    let outcome = input.handle_keyboard_event(&mut wm, KEY_Q, KeyState::Pressed);
    assert!(outcome.handled);
    assert!(matches!(outcome.effect, ActionEffect::CloseWindow(id) if id == b));
    assert!(wm.get_window(b).is_none());
    assert_eq!(wm.tags[0].windows, vec![a]);
    assert_eq!(wm.get_focused_window(), Some(a));
}

#[test]
fn input_actions() {
    let (mut input, mut wm) = setup();
    let a = place(&mut wm, 0, 0, 100, 100);
    assert!(matches!(input.execute_action(&mut wm, ""), ActionEffect::Nothing));
    assert!(matches!(input.execute_action(&mut wm, "spawn"), ActionEffect::Nothing));
    match input.execute_action(&mut wm, "spawn xterm -e top") {
        ActionEffect::Spawn(command) => assert_eq!(command, "xterm"),
        _ => panic!("nothing to spawn"),
    }
    assert!(matches!(input.execute_action(&mut wm, "switch_tag 0"), ActionEffect::Nothing));
    assert_eq!(wm.current_tag, TagId::new(0));
    assert!(matches!(input.execute_action(&mut wm, "move_left"), ActionEffect::Nothing));
    assert!(matches!(input.execute_action(&mut wm, "cycle_layout"), ActionEffect::Nothing));
    assert!(matches!(input.execute_action(&mut wm, "reload_config"), ActionEffect::ReloadConfig));
    assert!(matches!(input.execute_action(&mut wm, "exit"), ActionEffect::Exit));
    input.execute_action(&mut wm, "toggle_floating");
    assert!(wm.is_window_floating(a));
    input.execute_action(&mut wm, "move_to_tag 0");
    input.execute_action(&mut wm, "move_to_tag 4");
    assert_eq!(wm.tags[3].windows, vec![a]);
    assert!(matches!(input.execute_action(&mut wm, "close_window"), ActionEffect::Nothing));
}

#[test]
fn left_button_focuses_and_drags_floating_windows() {
    let (mut input, mut wm) = setup();
    let tiled = place(&mut wm, 0, 0, 400, 400);
    let floating = place(&mut wm, 100, 100, 200, 200);
    let other = place(&mut wm, 600, 600, 100, 100);
    wm.toggle_floating(floating).unwrap();
    assert_eq!(wm.get_focused_window(), Some(other));
    assert!(!input.handle_pointer_button(&mut wm, (10, 10), BUTTON_LEFT, KeyState::Pressed));
    assert_eq!(wm.get_focused_window(), Some(tiled));
    assert!(input.drag_state.is_none());
    assert!(!input.handle_pointer_button(&mut wm, (900, 10), BUTTON_LEFT, KeyState::Pressed));
    assert_eq!(wm.get_focused_window(), Some(tiled));
    assert!(input.handle_pointer_button(&mut wm, (150, 160), BUTTON_LEFT, KeyState::Pressed));
    assert_eq!(wm.get_focused_window(), Some(floating));
    let drag: DragState = input.drag_state.unwrap();
    assert_eq!(drag.window_id, floating);
    assert_eq!(drag.start_pos, (150, 160));
    assert_eq!(drag.start_geometry, Rectangle::new(100, 100, 200, 200));
    assert!(input.handle_pointer_motion(&mut wm, (170, 150)));
    assert_eq!(wm.get_window(floating).unwrap().geometry, Rectangle::new(120, 90, 200, 200));
    assert!(input.handle_pointer_motion(&mut wm, (i32::MAX, i32::MIN)));
    assert_eq!(
        wm.get_window(floating).unwrap().geometry,
        Rectangle::new(i32::MAX - 50, i32::MIN, 200, 200)
    );
    input.drag_state = Some(DragState {
        window_id: floating,
        start_pos: (-10, i32::MAX),
        start_geometry: Rectangle::new(100, -100, 200, 200),
    });
    assert!(input.handle_pointer_motion(&mut wm, (i32::MAX, i32::MIN)));
    assert_eq!(
        wm.get_window(floating).unwrap().geometry,
        Rectangle::new(i32::MAX, i32::MIN, 200, 200)
    );
    assert!(!input.handle_pointer_button(&mut wm, (0, 0), BUTTON_LEFT, KeyState::Released));
    assert!(input.drag_state.is_none());
    assert!(!input.handle_pointer_motion(&mut wm, (0, 0)));
}

#[test]
fn right_button_resizes_floating_windows() {
    let (mut input, mut wm) = setup();
    let tiled = place(&mut wm, 0, 0, 400, 400);
    let floating = place(&mut wm, 100, 100, 200, 200);
    wm.toggle_floating(floating).unwrap();
    assert!(!input.handle_pointer_button(&mut wm, (10, 10), BUTTON_RIGHT, KeyState::Pressed));
    assert!(input.resize_state.is_none());
    assert!(input.handle_pointer_button(&mut wm, (295, 295), BUTTON_RIGHT, KeyState::Pressed));
    let resize: ResizeState = input.resize_state.unwrap();
    assert_eq!(resize.window_id, floating);
    assert_eq!(resize.edge, ResizeEdge::BottomRight);
    assert_eq!(resize.start_geometry, Rectangle::new(100, 100, 200, 200));
    assert!(input.handle_pointer_motion(&mut wm, (325, 285)));
    assert_eq!(wm.get_window(floating).unwrap().geometry, Rectangle::new(100, 100, 230, 190));
    assert!(input.handle_pointer_motion(&mut wm, (0, 0)));
    assert_eq!(wm.get_window(floating).unwrap().geometry, Rectangle::new(100, 100, 100, 100));
    assert!(!input.handle_pointer_button(&mut wm, (0, 0), BUTTON_RIGHT, KeyState::Released));
    assert!(input.resize_state.is_some());
    assert!(!input.handle_pointer_button(&mut wm, (0, 0), 0x112, KeyState::Pressed));
    input.handle_pointer_button(&mut wm, (0, 0), BUTTON_LEFT, KeyState::Released);
    assert!(input.resize_state.is_none());
    assert_eq!(wm.get_window(tiled).unwrap().geometry, Rectangle::new(0, 0, 400, 400));
}

#[test]
fn resize_edges() {
    let (input, _) = setup();
    let rect = Rectangle::new(100, 100, 200, 200);
    assert_eq!(input.determine_resize_edge(&rect, (300, 300)), ResizeEdge::BottomRight);
    assert_eq!(input.determine_resize_edge(&rect, (310, 290)), ResizeEdge::BottomRight);
    assert_eq!(input.determine_resize_edge(&rect, (311, 290)), ResizeEdge::Bottom);
    assert_eq!(input.determine_resize_edge(&rect, (150, 295)), ResizeEdge::Bottom);
    assert_eq!(input.determine_resize_edge(&rect, (295, 150)), ResizeEdge::Right);
    assert_eq!(input.determine_resize_edge(&rect, (150, 150)), ResizeEdge::Right);
    assert_eq!(input.determine_resize_edge(&rect, (290, 289)), ResizeEdge::Right);
}

#[test]
fn pointer_motion_follows_only_the_bottom_and_right_edges() {
    let (mut input, mut wm) = setup();
    let a = place(&mut wm, 100, 100, 200, 200);
    for (edge, expected) in [
        (ResizeEdge::Right, Rectangle::new(100, 100, 250, 200)),
        (ResizeEdge::Bottom, Rectangle::new(100, 100, 200, 230)),
        (ResizeEdge::BottomRight, Rectangle::new(100, 100, 250, 230)),
        (ResizeEdge::Top, Rectangle::new(100, 100, 200, 200)),
        (ResizeEdge::Left, Rectangle::new(100, 100, 200, 200)),
        (ResizeEdge::TopLeft, Rectangle::new(100, 100, 200, 200)),
        (ResizeEdge::TopRight, Rectangle::new(100, 100, 200, 200)),
        (ResizeEdge::BottomLeft, Rectangle::new(100, 100, 200, 200)),
    ] {
        wm.set_window_geometry(a, Rectangle::new(100, 100, 200, 200)).unwrap();
        input.resize_state = Some(ResizeState {
            window_id: a,
            start_pos: (0, 0),
            start_geometry: Rectangle::new(100, 100, 200, 200),
            edge,
        });
        assert!(input.handle_pointer_motion(&mut wm, (50, 30)));
        assert_eq!(wm.get_window(a).unwrap().geometry, expected);
    }
    input.resize_state = Some(ResizeState {
        window_id: WindowId::new(99),
        start_pos: (0, 0),
        start_geometry: Rectangle::new(100, 100, 200, 200),
        edge: ResizeEdge::Right,
    });
    assert!(input.handle_pointer_motion(&mut wm, (50, 30)));
    input.drag_state = Some(DragState {
        window_id: WindowId::new(99),
        start_pos: (0, 0),
        start_geometry: Rectangle::new(100, 100, 200, 200),
    });
    assert!(input.handle_pointer_motion(&mut wm, (50, 30)));
    assert_eq!(wm.get_window(a).unwrap().geometry, Rectangle::new(100, 100, 200, 200));
}
