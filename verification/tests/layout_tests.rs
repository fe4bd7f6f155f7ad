use instantwm_rs::layouts::{arrange, Placement};
use instantwm_rs::types::{LayoutConfig, LayoutType, Rectangle, WindowId};

fn tiling(ratio: u32, masters: usize) -> LayoutConfig {
    LayoutConfig { layout_type: LayoutType::Tiling, master_ratio: ratio, master_count: masters }
}

#[test]
fn master_stack_three_windows() {
    let windows = vec![WindowId::new(0), WindowId::new(1), WindowId::new(2)];
    let area = Rectangle::new(0, 0, 1000, 800);
    let placed = arrange(&windows, area, &tiling(600, 1), 0);
    assert_eq!(
        placed,
        vec![
            Placement { window: WindowId::new(0), geometry: Rectangle::new(0, 0, 600, 800) },
            Placement { window: WindowId::new(1), geometry: Rectangle::new(600, 0, 400, 400) },
            Placement { window: WindowId::new(2), geometry: Rectangle::new(600, 400, 400, 400) },
        ]
    );
}

#[test]
fn arrange_without_windows_is_empty() {
    let windows: Vec<WindowId> = Vec::new();
    let area = Rectangle::new(0, 0, 1000, 800);
    assert!(arrange(&windows, area, &tiling(600, 1), 5).is_empty());
}

use instantwm_rs::layouts::{compute_usable_area, tile_rectangle, Layout, TileLayout, Window};
use instantwm_rs::workspace::Workspace;

fn rectangles(placed: &[Placement]) -> Vec<Rectangle> {
    placed.iter().map(|p| p.geometry).collect()
}

fn ids(count: u64) -> Vec<WindowId> {
    (0..count).map(WindowId::new).collect()
}

#[test]
fn floating_layout_places_nothing() {
    let layout =
        LayoutConfig { layout_type: LayoutType::Floating, master_ratio: 600, master_count: 1 };
    assert!(arrange(&ids(3), Rectangle::new(0, 0, 1000, 800), &layout, 0).is_empty());
}

#[test]
fn monocle_gives_every_window_the_whole_area() {
    let layout =
        LayoutConfig { layout_type: LayoutType::Monocle, master_ratio: 600, master_count: 1 };
    let area = Rectangle::new(3, 4, 1000, 800);
    let placed = arrange(&ids(3), area, &layout, 9);
    assert_eq!(rectangles(&placed), vec![area, area, area]);
    assert_eq!(placed[2].window, WindowId::new(2));
}

#[test]
fn a_single_window_takes_the_whole_area() {
    let area = Rectangle::new(10, 20, 1000, 800);
    assert_eq!(rectangles(&arrange(&ids(1), area, &tiling(600, 1), 7)), vec![area]);
    assert_eq!(rectangles(&arrange(&ids(1), area, &tiling(600, 4), 7)), vec![area]);
}

#[test]
fn windows_up_to_the_master_count_share_one_column() {
    let area = Rectangle::new(0, 0, 1000, 800);
    assert_eq!(
        rectangles(&arrange(&ids(3), area, &tiling(600, 3), 0)),
        vec![
            Rectangle::new(0, 0, 1000, 266),
            Rectangle::new(0, 266, 1000, 266),
            Rectangle::new(0, 532, 1000, 266),
        ]
    );
    assert_eq!(
        rectangles(&arrange(&ids(2), area, &tiling(600, 5), 10)),
        vec![Rectangle::new(0, 0, 1000, 395), Rectangle::new(0, 405, 1000, 395)]
    );
}

#[test]
fn gaps_separate_columns_and_rows() {
    let area = Rectangle::new(100, 50, 1000, 800);
    assert_eq!(
        rectangles(&arrange(&ids(4), area, &tiling(500, 2), 10)),
        vec![
            Rectangle::new(100, 50, 500, 395),
            Rectangle::new(100, 455, 500, 395),
            Rectangle::new(610, 50, 490, 395),
            Rectangle::new(610, 455, 490, 395),
        ]
    );
}

#[test]
fn master_width_is_rounded_down_and_widths_add_up() {
    let area = Rectangle::new(0, 0, 1001, 801);
    for (ratio, gap) in [(333u32, 0u32), (600, 7), (1, 3), (999, 0), (1000, 0), (0, 5)] {
        let placed = arrange(&ids(5), area, &tiling(ratio, 2), gap);
        let master = (1001u64 * ratio as u64 / 1000) as u32;
        assert_eq!(placed[0].geometry.width, master);
        assert_eq!(placed[1].geometry.width, master);
        let between = if gap <= 1001 - master { gap } else { 0 };
        for stack in &placed[2..] {
            assert_eq!(master + between + stack.geometry.width, 1001);
            assert_eq!(stack.geometry.x as u32, master + between);
        }
        for p in &placed {
            assert!(p.geometry.x >= 0 && p.geometry.y >= 0);
            assert!(p.geometry.x as u32 + p.geometry.width <= 1001);
            assert!(p.geometry.y as u32 + p.geometry.height <= 801);
        }
    }
}

#[test]
fn gaps_that_do_not_fit_are_dropped() {
    let area = Rectangle::new(0, 0, 100, 100);
    assert_eq!(
        rectangles(&arrange(&ids(3), area, &tiling(950, 1), 10)),
        vec![
            Rectangle::new(0, 0, 95, 100),
            Rectangle::new(95, 0, 5, 45),
            Rectangle::new(95, 55, 5, 45),
        ]
    );
    assert_eq!(
        rectangles(&arrange(&ids(3), area, &tiling(500, 1), 60)),
        vec![
            Rectangle::new(0, 0, 50, 100),
            Rectangle::new(50, 0, 50, 20),
            Rectangle::new(50, 80, 50, 20),
        ]
    );
    assert_eq!(
        rectangles(&arrange(&ids(3), Rectangle::new(0, 0, 100, 30), &tiling(500, 1), 40)),
        vec![
            Rectangle::new(0, 0, 50, 30),
            Rectangle::new(90, 0, 10, 15),
            Rectangle::new(90, 15, 10, 15),
        ]
    );
}

#[test]
fn unusual_parameters_are_tolerated() {
    let area = Rectangle::new(0, 0, 1000, 800);
    assert_eq!(
        rectangles(&arrange(&ids(2), area, &tiling(5000, 0), 0)),
        vec![Rectangle::new(0, 0, 1000, 800), Rectangle::new(1000, 0, 0, 800)]
    );
    let empty = Rectangle::new(0, 0, 0, 0);
    assert_eq!(rectangles(&arrange(&ids(2), empty, &tiling(600, 1), 4)), vec![empty, empty]);
    let edge = Rectangle::new(i32::MAX - 10, i32::MAX - 10, 100, 100);
    let placed = arrange(&ids(3), edge, &tiling(500, 1), 0);
    assert_eq!(placed[1].geometry, Rectangle::new(i32::MAX, i32::MAX - 10, 50, 50));
    assert_eq!(placed[2].geometry, Rectangle::new(i32::MAX, i32::MAX, 50, 50));
    assert_eq!(tile_rectangle(area, &tiling(600, 1), 0, 3, 2), Rectangle::new(600, 400, 400, 400));
}

#[test]
fn arrange_gives_the_same_rectangles_every_time() {
    let area = Rectangle::new(7, 9, 1237, 911);
    let first = arrange(&ids(7), area, &tiling(617, 3), 13);
    let second = arrange(&ids(7), area, &tiling(617, 3), 13);
    assert_eq!(first, second);
}

#[test]
fn usable_area_leaves_out_bar_and_gaps() {
    let screen = Rectangle::new(0, 0, 1920, 1080);
    assert_eq!(compute_usable_area(screen, 24, 5), Rectangle::new(5, 29, 1910, 1046));
    assert_eq!(compute_usable_area(screen, 0, 0), screen);
    assert_eq!(compute_usable_area(screen, 2000, 0), Rectangle::new(0, 2000, 1920, 0));
    assert_eq!(compute_usable_area(screen, 0, 960), Rectangle::new(960, 960, 0, 0));
    assert_eq!(
        compute_usable_area(Rectangle::new(i32::MAX, i32::MAX, 10, 10), u32::MAX, u32::MAX),
        Rectangle::new(i32::MAX, i32::MAX, 0, 0)
    );
}

#[test]
fn rectangles_contain_and_intersect() {
    let r = Rectangle::new(10, 20, 30, 40);
    assert!(r.contains((10, 20)));
    assert!(r.contains((39, 59)));
    assert!(!r.contains((40, 59)));
    assert!(!r.contains((39, 60)));
    assert!(!r.contains((9, 20)));
    assert!(!r.contains((10, 19)));
    assert!(r.intersects(&Rectangle::new(39, 59, 5, 5)));
    assert!(!r.intersects(&Rectangle::new(40, 20, 5, 5)));
    assert!(!r.intersects(&Rectangle::new(10, 60, 5, 5)));
    assert!(!r.intersects(&Rectangle::new(0, 0, 10, 20)));
    assert!(r.intersects(&Rectangle::new(0, 0, 11, 21)));
    let huge = Rectangle::new(i32::MAX, i32::MAX, u32::MAX, u32::MAX);
    assert!(huge.contains((i32::MAX, i32::MAX)));
    assert!(!huge.contains((i32::MAX - 1, i32::MAX)));
    assert!(huge.intersects(&Rectangle::new(i32::MIN, i32::MIN, u32::MAX, u32::MAX)) == false);
    assert_eq!(r.center(), (25, 40));
    assert_eq!(Rectangle::new(-5, -5, 3, 3).center(), (-4, -4));
}

#[test]
fn workspace_tiles_its_windows() {
    let mut workspace = Workspace::new();
    assert_eq!(workspace.layout_symbol(), "[]=");
    assert!(workspace.windows().is_empty());
    let blank = Rectangle::new(0, 0, 0, 0);
    workspace.arrange(Rectangle::new(0, 30, 1000, 770));
    for id in 0..3 {
        workspace.add_window(Window { id: WindowId::new(id), geometry: blank });
    }
    workspace.arrange(Rectangle::new(0, 30, 1000, 770));
    assert_eq!(
        workspace.windows(),
        &vec![
            Window { id: WindowId::new(0), geometry: Rectangle::new(0, 30, 550, 770) },
            Window { id: WindowId::new(1), geometry: Rectangle::new(550, 30, 450, 385) },
            Window { id: WindowId::new(2), geometry: Rectangle::new(550, 415, 450, 385) },
        ]
    );
    assert_eq!(workspace.find_under((600, 500)), Some(2));
    assert_eq!(workspace.find_under((0, 30)), Some(0));
    assert_eq!(workspace.find_under((0, 29)), None);
    assert_eq!(workspace.find(WindowId::new(1)), Some(1));
    assert_eq!(workspace.find(WindowId::new(7)), None);
    let layout = TileLayout::default();
    assert_eq!(layout, TileLayout { mfact: 550, nmaster: 1 });
    assert_eq!(layout.symbol(), "[]=");
    let mut windows = vec![Window { id: WindowId::new(9), geometry: blank }];
    TileLayout { mfact: 100, nmaster: 0 }.arrange(&mut windows, Rectangle::new(1, 2, 3, 4));
    assert_eq!(windows, vec![Window { id: WindowId::new(9), geometry: Rectangle::new(1, 2, 3, 4) }]);
}

use instantwm_rs::keybindings::{Modifiers, KEY_1, KEY_3};
use instantwm_rs::workspace::{Grab, InputAction, InputEvent, State};

fn held(ctrl: bool, logo: bool) -> Modifiers {
    Modifiers { ctrl, alt: false, shift: false, logo }
}

fn state_with_windows() -> State {
    let mut state = State::new();
    for (id, x) in [(1u64, 0), (2, 50), (3, 500)] {
        state.workspaces[0]
            .add_window(Window { id: WindowId::new(id), geometry: Rectangle::new(x, 0, 100, 100) });
    }
    state
}

#[test]
fn plain_loop_starts_with_nine_workspaces() {
    let state = State::new();
    assert_eq!(state.workspaces.len(), 9);
    assert_eq!(state.active_workspace, 0);
    assert!(state.workspaces.iter().all(|w| w.windows().is_empty()));
    assert!(state.drag_data.is_none() && state.resize_data.is_none());
    assert_eq!(state.modifiers, held(false, false));
}

#[test]
fn digits_switch_workspaces_in_the_plain_loop() {
    let mut state = State::new();
    assert_eq!(state.process_input_event(InputEvent::Keyboard { keysym: KEY_3 }), InputAction::Nothing);
    assert_eq!(state.active_workspace, 0);
    state.process_input_event(InputEvent::Modifiers { modifiers: held(false, true) });
    assert_eq!(state.modifiers, held(false, true));
    state.process_input_event(InputEvent::Keyboard { keysym: KEY_3 });
    assert_eq!(state.active_workspace, 2);
    state.workspaces.truncate(2);
    state.active_workspace = 1;
    state.process_input_event(InputEvent::Keyboard { keysym: KEY_3 });
    assert_eq!(state.active_workspace, 1);
    state.process_input_event(InputEvent::Keyboard { keysym: KEY_1 });
    assert_eq!(state.active_workspace, 0);
    assert_eq!(state.process_input_event(InputEvent::Other), InputAction::Nothing);
}

#[test]
fn pointer_focuses_drags_and_resizes_in_the_plain_loop() {
    let mut state = state_with_windows();
    assert_eq!(
        state.process_input_event(InputEvent::PointerMotion { location: (60, 10) }),
        InputAction::Focus(WindowId::new(1))
    );
    assert_eq!(
        state.process_input_event(InputEvent::PointerMotion { location: (120, 10) }),
        InputAction::Focus(WindowId::new(2))
    );
    assert_eq!(
        state.process_input_event(InputEvent::PointerMotion { location: (300, 10) }),
        InputAction::Nothing
    );
    state.process_input_event(InputEvent::PointerButton { pressed: true, location: (120, 10) });
    assert!(state.drag_data.is_none() && state.resize_data.is_none());

    state.process_input_event(InputEvent::Modifiers { modifiers: held(false, true) });
    state.process_input_event(InputEvent::PointerButton { pressed: true, location: (300, 10) });
    assert!(state.drag_data.is_none());
    state.process_input_event(InputEvent::PointerButton { pressed: true, location: (120, 10) });
    let grab: Grab = state.drag_data.unwrap();
    assert_eq!((grab.window, grab.start), (WindowId::new(2), (120, 10)));
    assert!(state.resize_data.is_none());
    assert_eq!(
        state.process_input_event(InputEvent::PointerMotion { location: (130, 5) }),
        InputAction::Nothing
    );
    assert_eq!(state.workspaces[0].windows()[1].geometry, Rectangle::new(60, -5, 100, 100));
    state.process_input_event(InputEvent::PointerMotion { location: (130, 5) });
    assert_eq!(state.workspaces[0].windows()[1].geometry, Rectangle::new(70, -10, 100, 100));
    assert_eq!(state.workspaces[0].windows()[0].geometry, Rectangle::new(0, 0, 100, 100));
    state.process_input_event(InputEvent::PointerButton { pressed: false, location: (0, 0) });
    assert!(state.drag_data.is_none());

    state.process_input_event(InputEvent::Modifiers { modifiers: held(true, true) });
    state.process_input_event(InputEvent::PointerButton { pressed: true, location: (510, 20) });
    let grab: Grab = state.resize_data.unwrap();
    assert_eq!((grab.window, grab.start), (WindowId::new(3), (510, 20)));
    assert!(state.drag_data.is_none());
    state.process_input_event(InputEvent::PointerMotion { location: (530, 10) });
    assert_eq!(state.workspaces[0].windows()[2].geometry, Rectangle::new(500, 0, 120, 90));
    state.process_input_event(InputEvent::PointerMotion { location: (0, -500) });
    assert_eq!(state.workspaces[0].windows()[2].geometry, Rectangle::new(500, 0, 0, 0));
    state.drag_data = Some(Grab { window: WindowId::new(1), start: (0, 0) });
    state.process_input_event(InputEvent::PointerMotion { location: (515, 25) });
    assert_eq!(state.workspaces[0].windows()[2].geometry, Rectangle::new(500, 0, 5, 5));
    assert_eq!(state.workspaces[0].windows()[0].geometry, Rectangle::new(0, 0, 100, 100));
    state.resize_data = Some(Grab { window: WindowId::new(77), start: (0, 0) });
    assert_eq!(
        state.process_input_event(InputEvent::PointerMotion { location: (1, 1) }),
        InputAction::Nothing
    );
    state.process_input_event(InputEvent::PointerButton { pressed: false, location: (0, 0) });
    assert!(state.drag_data.is_none() && state.resize_data.is_none());
}
