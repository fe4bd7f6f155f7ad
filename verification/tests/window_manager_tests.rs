use instantwm_rs::action::ActionEffect;
use instantwm_rs::error::InstantError;
use instantwm_rs::keybindings::{Modifiers, KEY_2, KEY_RETURN};
use instantwm_rs::layouts::Placement;
use instantwm_rs::types::{
    Config, LayoutConfig, LayoutType, Rectangle, TagId, TagSwitch, WindowId, WindowRule,
};
use instantwm_rs::window_manager::WindowManager;

fn plain_config() -> Config {
    let mut config = Config::default();
    config.tags.layouts = vec!["tiling".to_string()];
    config.appearance.gap_size = 0;
    config.appearance.inner_gap = 0;
    config.appearance.bar_height = 0;
    config
}

fn manager() -> WindowManager {
    WindowManager::new(plain_config(), Rectangle::new(0, 0, 1000, 800)).unwrap()
}

fn add(wm: &mut WindowManager, title: &str) -> WindowId {
    wm.manage_window(title.to_string(), "Term".to_string(), Rectangle::new(5, 5, 50, 50))
}

fn geometry(wm: &WindowManager, id: WindowId) -> Rectangle {
    wm.get_window(id).unwrap().geometry
}

fn assert_consistent(wm: &WindowManager) {
    assert!((wm.current_tag.as_u32() as usize) < wm.tags.len());
    let mut listed = 0;
    for (index, tag) in wm.tags.iter().enumerate() {
        assert_eq!(tag.id, TagId::new(index as u32));
        if let Some(focused) = tag.focused_window {
            assert!(tag.windows.contains(&focused));
        }
        for id in &tag.windows {
            assert_eq!(tag.windows.iter().filter(|other| *other == id).count(), 1);
            let record = wm.get_window(*id).expect("a listed window has a record");
            assert_eq!(record.id, *id);
            assert_eq!(record.tag, tag.id);
            listed += 1;
        }
    }
    assert_eq!(listed, wm.window_info.len());
}

#[test]
fn new_manager_has_one_tag_per_name() {
    let mut config = Config::default();
    config.tags.layouts = vec!["floating".to_string(), "monocle".to_string(), "other".to_string()];
    let wm = WindowManager::new(config, Rectangle::new(0, 0, 1920, 1080)).unwrap();
    assert_eq!(wm.tags.len(), 9);
    assert_eq!(wm.current_tag, TagId::new(0));
    assert_eq!(wm.tags[0].name, "1");
    assert_eq!(wm.tags[8].name, "9");
    assert_eq!(wm.tags[0].layout.layout_type, LayoutType::Floating);
    assert_eq!(wm.tags[1].layout.layout_type, LayoutType::Monocle);
    assert_eq!(wm.tags[2].layout.layout_type, LayoutType::Tiling);
    assert_eq!(wm.tags[3].layout.layout_type, LayoutType::Floating);
    assert_eq!(
        wm.tags[5].layout,
        LayoutConfig { layout_type: LayoutType::Tiling, master_ratio: 600, master_count: 1 }
    );
    assert!(wm.tags.iter().all(|tag| tag.windows.is_empty() && tag.focused_window.is_none()));
    assert!(wm.window_info.is_empty());
    assert_eq!(wm.usable_area(), Rectangle::new(5, 29, 1910, 1046));
    assert_consistent(&wm);
}

#[test]
fn new_manager_without_layout_names_tiles() {
    let mut config = Config::default();
    config.tags.layouts = Vec::new();
    let wm = WindowManager::new(config, Rectangle::new(0, 0, 1920, 1080)).unwrap();
    assert!(wm.tags.iter().all(|tag| tag.layout.layout_type == LayoutType::Tiling));
}

#[test]
fn new_manager_needs_a_tag() {
    let mut config = Config::default();
    config.tags.names = Vec::new();
    match WindowManager::new(config, Rectangle::new(0, 0, 1920, 1080)) {
        Err(InstantError::Config(reason)) => {
            assert_eq!(reason, "At least one tag must be configured")
        }
        _ => panic!("a configuration without tags was accepted"),
    }
}

#[test]
fn three_windows_are_tiled_master_and_stack() {
    let mut wm = manager();
    let a = add(&mut wm, "A");
    let b = add(&mut wm, "B");
    let c = add(&mut wm, "C");
    assert_eq!(geometry(&wm, a), Rectangle::new(0, 0, 600, 800));
    assert_eq!(geometry(&wm, b), Rectangle::new(600, 0, 400, 400));
    assert_eq!(geometry(&wm, c), Rectangle::new(600, 400, 400, 400));
    assert_eq!(wm.tags[0].windows, vec![a, b, c]);
    assert_eq!(wm.get_focused_window(), Some(c));
    assert_eq!(wm.get_window(a).unwrap().requested_geometry, Rectangle::new(5, 5, 50, 50));
    assert_consistent(&wm);
}

#[test]
fn handles_are_handed_out_in_turn() {
    let mut wm = manager();
    assert_eq!(wm.next_window_id, 0);
    let a = add(&mut wm, "A");
    let b = add(&mut wm, "B");
    let c = add(&mut wm, "C");
    assert_eq!((a, b, c), (WindowId::new(0), WindowId::new(1), WindowId::new(2)));
    wm.unmanage_window(b);
    assert_eq!(add(&mut wm, "D"), WindowId::new(3));
    assert_eq!(add(&mut wm, "E"), WindowId::new(4));
    assert_eq!(wm.next_window_id, 5);
    assert!(wm.get_window(b).is_none());
    assert_consistent(&wm);
}

#[test]
fn a_taken_handle_in_turn_gives_way_to_the_smallest_free_one() {
    let mut wm = manager();
    let a = add(&mut wm, "A");
    let b = add(&mut wm, "B");
    let c = add(&mut wm, "C");
    wm.unmanage_window(b);
    wm.next_window_id = c.as_u64();
    assert_eq!(add(&mut wm, "D"), WindowId::new(1));
    assert_eq!(wm.next_window_id, 2);
    assert_eq!(add(&mut wm, "E"), WindowId::new(3));
    assert_eq!(wm.next_window_id, 4);
    wm.next_window_id = u64::MAX;
    assert_eq!(add(&mut wm, "F"), WindowId::new(u64::MAX));
    assert_eq!(wm.next_window_id, 0);
    assert_eq!(add(&mut wm, "G"), WindowId::new(4));
    assert_eq!(wm.next_window_id, 5);
    assert!(wm.get_window(a).is_some());
    assert_consistent(&wm);
}

#[test]
fn arranging_twice_changes_nothing() {
    let mut wm = manager();
    let ids = [add(&mut wm, "A"), add(&mut wm, "B"), add(&mut wm, "C"), add(&mut wm, "D")];
    let first = wm.arrange(TagId::new(0));
    let after_first: Vec<Rectangle> = ids.iter().map(|id| geometry(&wm, *id)).collect();
    let second = wm.arrange(TagId::new(0));
    let after_second: Vec<Rectangle> = ids.iter().map(|id| geometry(&wm, *id)).collect();
    assert_eq!(first, second);
    assert_eq!(after_first, after_second);
    assert_eq!(first.len(), 4);
    assert_eq!(first[3], Placement { window: ids[3], geometry: Rectangle::new(600, 532, 400, 266) });
    assert!(wm.arrange(TagId::new(99)).is_empty());
}

#[test]
fn removing_an_unknown_window_changes_nothing() {
    let mut wm = manager();
    let a = add(&mut wm, "A");
    let b = add(&mut wm, "B");
    let lists: Vec<Vec<WindowId>> = wm.tags.iter().map(|tag| tag.windows.clone()).collect();
    let focus: Vec<Option<WindowId>> = wm.tags.iter().map(|tag| tag.focused_window).collect();
    wm.unmanage_window(WindowId::new(77));
    assert_eq!(wm.tags.iter().map(|tag| tag.windows.clone()).collect::<Vec<_>>(), lists);
    assert_eq!(wm.tags.iter().map(|tag| tag.focused_window).collect::<Vec<_>>(), focus);
    assert_eq!(wm.window_info.len(), 2);
    assert_eq!(geometry(&wm, a), Rectangle::new(0, 0, 600, 800));
    assert_eq!(geometry(&wm, b), Rectangle::new(600, 0, 400, 800));
}

#[test]
fn removing_the_focused_window_focuses_the_last_remaining() {
    let mut wm = manager();
    let a = add(&mut wm, "A");
    let b = add(&mut wm, "B");
    let c = add(&mut wm, "C");
    wm.focus_window(a).unwrap();
    wm.unmanage_window(a);
    assert_eq!(wm.tags[0].windows, vec![b, c]);
    assert_eq!(wm.get_focused_window(), Some(c));
    assert!(wm.get_window(a).is_none());
    assert_eq!(geometry(&wm, b), Rectangle::new(0, 0, 600, 800));
    assert_eq!(geometry(&wm, c), Rectangle::new(600, 0, 400, 800));
    wm.unmanage_window(b);
    assert_eq!(wm.get_focused_window(), Some(c));
    assert_eq!(geometry(&wm, c), Rectangle::new(0, 0, 1000, 800));
    wm.unmanage_window(c);
    assert_eq!(wm.get_focused_window(), None);
    assert!(wm.tags[0].windows.is_empty());
    assert_consistent(&wm);
}

#[test]
fn moving_the_only_window_leaves_the_tag_without_focus() {
    let mut wm = manager();
    let a = add(&mut wm, "A");
    assert_eq!(wm.tags[0].focused_window, Some(a));
    wm.move_window_to_tag(a, 1).unwrap();
    assert_eq!(wm.tags[0].focused_window, None);
    assert_eq!(wm.tags[1].focused_window, Some(a));
    assert!(wm.tags[0].windows.is_empty());
    assert_eq!(wm.tags[1].windows, vec![a]);
    assert_eq!(wm.get_window(a).unwrap().tag, TagId::new(1));
    assert_eq!(wm.current_tag, TagId::new(0));
    assert_consistent(&wm);
}

#[test]
fn moving_a_window_arranges_both_tags() {
    let mut wm = manager();
    let a = add(&mut wm, "A");
    let b = add(&mut wm, "B");
    wm.switch_to_tag(1);
    let c = add(&mut wm, "C");
    wm.move_window_to_tag(b, 1).unwrap();
    assert_eq!(wm.tags[0].windows, vec![a]);
    assert_eq!(wm.tags[0].focused_window, Some(a));
    assert_eq!(wm.tags[1].windows, vec![c, b]);
    assert_eq!(wm.tags[1].focused_window, Some(b));
    assert_eq!(geometry(&wm, a), Rectangle::new(0, 0, 1000, 800));
    assert_eq!(geometry(&wm, c), Rectangle::new(0, 0, 600, 800));
    assert_eq!(geometry(&wm, b), Rectangle::new(600, 0, 400, 800));
    wm.move_window_to_tag(c, 1).unwrap();
    assert_eq!(wm.tags[1].windows, vec![b, c]);
    assert_eq!(wm.tags[1].focused_window, Some(c));
    assert_consistent(&wm);
}

#[test]
fn moving_reports_what_is_not_found() {
    let mut wm = manager();
    let a = add(&mut wm, "A");
    assert!(matches!(wm.move_window_to_tag(a, 9), Err(InstantError::NotFound)));
    assert!(matches!(wm.move_window_to_tag(WindowId::new(5), 1), Err(InstantError::NotFound)));
    assert!(matches!(wm.focus_window(WindowId::new(5)), Err(InstantError::NotFound)));
    assert!(matches!(wm.toggle_floating(WindowId::new(5)), Err(InstantError::NotFound)));
    assert!(matches!(wm.toggle_fullscreen(WindowId::new(5)), Err(InstantError::NotFound)));
    assert!(matches!(wm.set_minimized(WindowId::new(5), true), Err(InstantError::NotFound)));
    assert!(matches!(
        wm.set_window_geometry(WindowId::new(5), Rectangle::new(0, 0, 1, 1)),
        Err(InstantError::NotFound)
    ));
    assert!(matches!(
        wm.set_tag_layout(
            TagId::new(9),
            LayoutConfig { layout_type: LayoutType::Monocle, master_ratio: 500, master_count: 1 }
        ),
        Err(InstantError::NotFound)
    ));
    assert_eq!(wm.tags[0].windows, vec![a]);
    assert_consistent(&wm);
}

#[test]
fn switching_tags() {
    let mut wm = manager();
    assert_eq!(wm.switch_to_tag(0), None);
    assert_eq!(
        wm.switch_to_tag(3),
        Some(TagSwitch { hidden: TagId::new(0), shown: TagId::new(3) })
    );
    assert_eq!(wm.current_tag, TagId::new(3));
    assert_eq!(wm.switch_to_tag(9), None);
    assert_eq!(wm.switch_to_tag(u32::MAX), None);
    assert_eq!(wm.current_tag, TagId::new(3));
    assert_eq!(wm.get_current_tag().name, "4");
}

#[test]
fn switch_tag_zero_is_ignored() {
    let mut wm = manager();
    wm.switch_to_tag(4);
    assert!(matches!(wm.execute_action("switch_tag 0"), ActionEffect::Nothing));
    assert_eq!(wm.current_tag, TagId::new(4));
    assert!(matches!(wm.execute_action("switch_tag 10"), ActionEffect::Nothing));
    assert!(matches!(wm.execute_action("switch_tag"), ActionEffect::Nothing));
    assert!(matches!(wm.execute_action("switch_tag two"), ActionEffect::Nothing));
    assert!(matches!(wm.execute_action("switch_tag 5"), ActionEffect::Nothing));
    assert!(matches!(wm.execute_action("switch_tag 4294967296"), ActionEffect::Nothing));
    assert_eq!(wm.current_tag, TagId::new(4));
    match wm.execute_action("switch_tag 9") {
        ActionEffect::Switched(switch) => {
            assert_eq!(switch, TagSwitch { hidden: TagId::new(4), shown: TagId::new(8) })
        }
        _ => panic!("the tag was not switched"),
    }
    assert_eq!(wm.current_tag, TagId::new(8));
}

#[test]
fn focus_cycles_through_the_tag() {
    let mut wm = manager();
    let a = add(&mut wm, "A");
    let b = add(&mut wm, "B");
    let c = add(&mut wm, "C");
    assert_eq!(wm.get_focused_window(), Some(c));
    wm.focus_next();
    assert_eq!(wm.get_focused_window(), Some(a));
    wm.focus_next();
    assert_eq!(wm.get_focused_window(), Some(b));
    wm.focus_next();
    assert_eq!(wm.get_focused_window(), Some(c));
    wm.focus_prev();
    assert_eq!(wm.get_focused_window(), Some(b));
    wm.focus_prev();
    wm.focus_prev();
    assert_eq!(wm.get_focused_window(), Some(c));
    for start in [a, b, c] {
        wm.focus_window(start).unwrap();
        for _ in 0..3 {
            wm.focus_next();
        }
        assert_eq!(wm.get_focused_window(), Some(start));
        for _ in 0..3 {
            wm.focus_prev();
        }
        assert_eq!(wm.get_focused_window(), Some(start));
        wm.focus_next();
        wm.focus_prev();
        assert_eq!(wm.get_focused_window(), Some(start));
    }
}

#[test]
fn focus_steps_without_focus_or_windows() {
    let mut wm = manager();
    wm.focus_next();
    wm.focus_prev();
    assert_eq!(wm.get_focused_window(), None);
    let a = add(&mut wm, "A");
    let b = add(&mut wm, "B");
    wm.tags[0].focused_window = None;
    wm.focus_next();
    assert_eq!(wm.get_focused_window(), Some(a));
    wm.tags[0].focused_window = None;
    wm.focus_prev();
    assert_eq!(wm.get_focused_window(), Some(b));
}

#[test]
fn focusing_a_window_of_another_tag_keeps_the_current_tag() {
    let mut wm = manager();
    let a = add(&mut wm, "A");
    let b = add(&mut wm, "B");
    wm.switch_to_tag(2);
    wm.focus_window(a).unwrap();
    assert_eq!(wm.current_tag, TagId::new(2));
    assert_eq!(wm.tags[0].focused_window, Some(a));
    assert_eq!(wm.get_focused_window(), None);
    assert_eq!(wm.tags[0].windows, vec![a, b]);
}

#[test]
fn windows_move_up_and_down_the_list() {
    let mut wm = manager();
    let a = add(&mut wm, "A");
    let b = add(&mut wm, "B");
    let c = add(&mut wm, "C");
    wm.move_window_down();
    assert_eq!(wm.tags[0].windows, vec![a, b, c]);
    wm.move_window_up();
    assert_eq!(wm.tags[0].windows, vec![a, c, b]);
    assert_eq!(wm.get_focused_window(), Some(c));
    assert_eq!(geometry(&wm, c), Rectangle::new(600, 0, 400, 400));
    assert_eq!(geometry(&wm, b), Rectangle::new(600, 400, 400, 400));
    wm.move_window_up();
    assert_eq!(wm.tags[0].windows, vec![c, a, b]);
    assert_eq!(geometry(&wm, c), Rectangle::new(0, 0, 600, 800));
    wm.move_window_up();
    assert_eq!(wm.tags[0].windows, vec![c, a, b]);
    wm.move_window_down();
    assert_eq!(wm.tags[0].windows, vec![a, c, b]);
    assert_consistent(&wm);
}

#[test]
fn floating_windows_keep_their_rectangle() {
    let mut wm = manager();
    let a = add(&mut wm, "A");
    let b = add(&mut wm, "B");
    let c = add(&mut wm, "C");
    wm.set_window_geometry(b, Rectangle::new(10, 20, 300, 200)).unwrap();
    wm.toggle_floating(b).unwrap();
    assert!(wm.is_window_floating(b));
    assert!(!wm.is_window_floating(a));
    assert!(!wm.is_window_floating(WindowId::new(40)));
    assert_eq!(geometry(&wm, b), Rectangle::new(10, 20, 300, 200));
    assert_eq!(geometry(&wm, a), Rectangle::new(0, 0, 600, 800));
    assert_eq!(geometry(&wm, c), Rectangle::new(600, 0, 400, 800));
    assert_eq!(wm.get_tiled_windows_for_current_tag(), vec![a, c]);
    assert_eq!(wm.get_windows_for_current_tag(), vec![a, b, c]);
    assert_eq!(wm.get_windows_for_tag(TagId::new(0)), vec![a, b, c]);
    assert!(wm.get_windows_for_tag(TagId::new(1)).is_empty());
    assert!(wm.get_windows_for_tag(TagId::new(100)).is_empty());
    wm.toggle_floating(b).unwrap();
    assert_eq!(geometry(&wm, b), Rectangle::new(600, 0, 400, 400));
    assert_eq!(geometry(&wm, c), Rectangle::new(600, 400, 400, 400));
}

#[test]
fn minimized_windows_leave_the_layout() {
    let mut wm = manager();
    let a = add(&mut wm, "A");
    let b = add(&mut wm, "B");
    wm.set_minimized(a, true).unwrap();
    assert!(wm.get_window(a).unwrap().minimized);
    assert_eq!(geometry(&wm, b), Rectangle::new(0, 0, 1000, 800));
    assert_eq!(geometry(&wm, a), Rectangle::new(0, 0, 600, 800));
    wm.set_minimized(a, false).unwrap();
    assert_eq!(geometry(&wm, a), Rectangle::new(0, 0, 600, 800));
    assert_eq!(geometry(&wm, b), Rectangle::new(600, 0, 400, 800));
}

#[test]
fn fullscreen_remembers_the_rectangle() {
    let mut wm = manager();
    let a = add(&mut wm, "A");
    let b = add(&mut wm, "B");
    wm.toggle_fullscreen(a).unwrap();
    let record = wm.get_window(a).unwrap();
    assert!(record.fullscreen);
    assert_eq!(record.requested_geometry, Rectangle::new(0, 0, 600, 800));
    assert_eq!(record.geometry, Rectangle::new(0, 0, 1000, 800));
    assert_eq!(geometry(&wm, b), Rectangle::new(0, 0, 1000, 800));
    wm.toggle_fullscreen(a).unwrap();
    assert!(!wm.get_window(a).unwrap().fullscreen);
    assert_eq!(geometry(&wm, a), Rectangle::new(0, 0, 600, 800));
    assert_eq!(geometry(&wm, b), Rectangle::new(600, 0, 400, 800));

    wm.set_window_geometry(b, Rectangle::new(7, 8, 90, 60)).unwrap();
    wm.toggle_floating(b).unwrap();
    wm.toggle_fullscreen(b).unwrap();
    assert_eq!(geometry(&wm, b), Rectangle::new(0, 0, 1000, 800));
    assert_eq!(wm.get_window(b).unwrap().requested_geometry, Rectangle::new(7, 8, 90, 60));
    wm.toggle_fullscreen(b).unwrap();
    assert_eq!(geometry(&wm, b), Rectangle::new(7, 8, 90, 60));
}

#[test]
fn layouts_cycle_and_arrange() {
    let mut wm = manager();
    let a = add(&mut wm, "A");
    let b = add(&mut wm, "B");
    assert_eq!(wm.current_layout(), LayoutType::Tiling);
    wm.cycle_layout();
    assert_eq!(wm.current_layout(), LayoutType::Floating);
    assert_eq!(geometry(&wm, b), Rectangle::new(600, 0, 400, 800));
    wm.cycle_layout();
    assert_eq!(wm.current_layout(), LayoutType::Monocle);
    assert_eq!(geometry(&wm, a), Rectangle::new(0, 0, 1000, 800));
    assert_eq!(geometry(&wm, b), Rectangle::new(0, 0, 1000, 800));
    wm.cycle_layout();
    assert_eq!(wm.current_layout(), LayoutType::Tiling);
    assert_eq!(geometry(&wm, b), Rectangle::new(600, 0, 400, 800));
    wm.set_layout(LayoutType::Monocle);
    assert_eq!(wm.current_layout(), LayoutType::Monocle);
    wm.set_tag_layout(
        TagId::new(0),
        LayoutConfig { layout_type: LayoutType::Tiling, master_ratio: 250, master_count: 0 },
    )
    .unwrap();
    assert_eq!(wm.tags[0].layout.master_count, 1);
    assert_eq!(geometry(&wm, a), Rectangle::new(0, 0, 250, 800));
    assert_eq!(geometry(&wm, b), Rectangle::new(250, 0, 750, 800));
}

#[test]
fn layout_parameters_are_brought_into_their_ranges() {
    let mut wm = manager();
    let a = add(&mut wm, "A");
    let b = add(&mut wm, "B");
    let wide = LayoutConfig { layout_type: LayoutType::Tiling, master_ratio: 1000, master_count: 1 };
    assert!(!wide.is_in_range());
    assert_eq!(wide.normalized().master_ratio, 999);
    wm.set_tag_layout(TagId::new(0), wide).unwrap();
    assert_eq!(wm.tags[0].layout.master_ratio, 999);
    assert_eq!(geometry(&wm, a), Rectangle::new(0, 0, 999, 800));
    assert_eq!(geometry(&wm, b), Rectangle::new(999, 0, 1, 800));
    let none = LayoutConfig { layout_type: LayoutType::Tiling, master_ratio: 0, master_count: 0 };
    assert!(!none.is_in_range());
    assert_eq!(
        none.normalized(),
        LayoutConfig { layout_type: LayoutType::Tiling, master_ratio: 1, master_count: 1 }
    );
    wm.set_tag_layout(TagId::new(0), none).unwrap();
    assert_eq!(wm.tags[0].layout.master_ratio, 1);
    assert_eq!(geometry(&wm, a), Rectangle::new(0, 0, 1, 800));
    assert_eq!(geometry(&wm, b), Rectangle::new(1, 0, 999, 800));
    wm.set_tag_layout(
        TagId::new(0),
        LayoutConfig { layout_type: LayoutType::Monocle, master_ratio: u32::MAX, master_count: 3 },
    )
    .unwrap();
    assert_eq!(
        wm.tags[0].layout,
        LayoutConfig { layout_type: LayoutType::Monocle, master_ratio: 999, master_count: 3 }
    );
    let kept = LayoutConfig { layout_type: LayoutType::Tiling, master_ratio: 950, master_count: 2 };
    assert!(kept.is_in_range());
    assert_eq!(kept.normalized(), kept);
    wm.set_tag_layout(TagId::new(1), kept).unwrap();
    assert_eq!(wm.tags[1].layout, kept);
    assert!(wm.is_consistent());
    for tag in &wm.tags {
        assert!(tag.layout.is_in_range());
    }
}

#[test]
fn master_ratio_stays_within_bounds() {
    let mut wm = manager();
    let a = add(&mut wm, "A");
    let _b = add(&mut wm, "B");
    wm.adjust_master_ratio(50);
    assert_eq!(wm.tags[0].layout.master_ratio, 650);
    assert_eq!(geometry(&wm, a), Rectangle::new(0, 0, 650, 800));
    wm.adjust_master_ratio(1000);
    assert_eq!(wm.tags[0].layout.master_ratio, 900);
    wm.adjust_master_ratio(i32::MAX);
    assert_eq!(wm.tags[0].layout.master_ratio, 900);
    wm.adjust_master_ratio(-850);
    assert_eq!(wm.tags[0].layout.master_ratio, 100);
    wm.adjust_master_ratio(i32::MIN);
    assert_eq!(wm.tags[0].layout.master_ratio, 100);
    assert_eq!(geometry(&wm, a), Rectangle::new(0, 0, 100, 800));
}

#[test]
fn master_count_stays_within_bounds() {
    let mut wm = manager();
    wm.adjust_master_count(3);
    assert_eq!(wm.tags[0].layout.master_count, 1);
    let a = add(&mut wm, "A");
    let b = add(&mut wm, "B");
    let c = add(&mut wm, "C");
    wm.adjust_master_count(1);
    assert_eq!(wm.tags[0].layout.master_count, 2);
    assert_eq!(geometry(&wm, a), Rectangle::new(0, 0, 600, 400));
    assert_eq!(geometry(&wm, b), Rectangle::new(0, 400, 600, 400));
    assert_eq!(geometry(&wm, c), Rectangle::new(600, 0, 400, 800));
    wm.adjust_master_count(5);
    assert_eq!(wm.tags[0].layout.master_count, 3);
    assert_eq!(geometry(&wm, c), Rectangle::new(0, 532, 1000, 266));
    wm.adjust_master_count(-7);
    assert_eq!(wm.tags[0].layout.master_count, 1);
    wm.adjust_master_count(i32::MIN);
    assert_eq!(wm.tags[0].layout.master_count, 1);
}

#[test]
fn gaps_and_borders_can_be_set() {
    let mut wm = manager();
    let a = add(&mut wm, "A");
    wm.switch_to_tag(1);
    let b = add(&mut wm, "B");
    wm.set_gap(10);
    assert_eq!(wm.config.appearance.gap_size, 10);
    assert_eq!(wm.usable_area(), Rectangle::new(10, 10, 980, 780));
    assert_eq!(geometry(&wm, a), Rectangle::new(10, 10, 980, 780));
    assert_eq!(geometry(&wm, b), Rectangle::new(10, 10, 980, 780));
    wm.set_border_width(7);
    assert_eq!(wm.config.appearance.border_width, 7);
    assert_eq!(geometry(&wm, a), Rectangle::new(10, 10, 980, 780));
    wm.set_gap(600);
    assert_eq!(wm.usable_area(), Rectangle::new(600, 600, 0, 0));
}

#[test]
fn rules_decide_where_a_window_goes() {
    let mut config = plain_config();
    config.rules = vec![
        WindowRule {
            class: Some("Mail".to_string()),
            instance: None,
            title: None,
            floating: false,
            tag: Some(2),
        },
        WindowRule {
            class: Some("Mail".to_string()),
            instance: None,
            title: None,
            floating: true,
            tag: Some(3),
        },
        WindowRule {
            class: None,
            instance: None,
            title: Some("Volume".to_string()),
            floating: true,
            tag: Some(50),
        },
    ];
    let mut wm = WindowManager::new(config, Rectangle::new(0, 0, 1000, 800)).unwrap();
    let mail = wm.manage_window("Inbox".to_string(), "Mail".to_string(), Rectangle::new(1, 2, 3, 4));
    let volume =
        wm.manage_window("Volume".to_string(), "Mixer".to_string(), Rectangle::new(1, 2, 3, 4));
    let other = wm.manage_window("x".to_string(), "y".to_string(), Rectangle::new(1, 2, 3, 4));
    assert_eq!(wm.get_window(mail).unwrap().tag, TagId::new(2));
    assert!(!wm.get_window(mail).unwrap().floating);
    assert_eq!(wm.tags[2].focused_window, Some(mail));
    assert_eq!(wm.get_window(volume).unwrap().tag, TagId::new(0));
    assert!(wm.get_window(volume).unwrap().floating);
    assert_eq!(geometry(&wm, volume), Rectangle::new(1, 2, 3, 4));
    assert_eq!(wm.get_window(other).unwrap().tag, TagId::new(0));
    assert_eq!(geometry(&wm, other), Rectangle::new(0, 0, 1000, 800));
    assert_eq!(wm.get_window(other).unwrap().title, "x");
    assert_eq!(wm.get_window(other).unwrap().class, "y");
    assert_consistent(&wm);
}

#[test]
fn actions_are_carried_out() {
    let mut wm = manager();
    let a = add(&mut wm, "A");
    let b = add(&mut wm, "B");
    assert!(matches!(wm.execute_action(""), ActionEffect::Nothing));
    assert!(matches!(wm.execute_action("   "), ActionEffect::Nothing));
    assert!(matches!(wm.execute_action("toggle_sticky"), ActionEffect::Nothing));
    assert!(matches!(wm.execute_action("spawn"), ActionEffect::Nothing));
    match wm.execute_action("spawn terminal") {
        ActionEffect::Spawn(command) => assert_eq!(command, "alacritty"),
        _ => panic!("nothing to spawn"),
    }
    match wm.execute_action("spawn launcher") {
        ActionEffect::Spawn(command) => assert_eq!(command, "rofi -show drun"),
        _ => panic!("nothing to spawn"),
    }
    match wm.execute_action("spawn browser") {
        ActionEffect::Spawn(command) => assert_eq!(command, "firefox"),
        _ => panic!("nothing to spawn"),
    }
    match wm.execute_action("  spawn   pactl set-sink-volume") {
        ActionEffect::Spawn(command) => assert_eq!(command, "pactl"),
        _ => panic!("nothing to spawn"),
    }
    match wm.execute_action("close_window") {
        ActionEffect::CloseWindow(window) => assert_eq!(window, b),
        _ => panic!("nothing to close"),
    }
    assert_eq!(wm.tags[0].windows, vec![a, b]);
    assert!(matches!(wm.execute_action("reload_config"), ActionEffect::ReloadConfig));
    assert!(matches!(wm.execute_action("exit"), ActionEffect::Exit));

    wm.execute_action("focus_left");
    assert_eq!(wm.get_focused_window(), Some(a));
    wm.execute_action("focus_up");
    assert_eq!(wm.get_focused_window(), Some(b));
    wm.execute_action("focus_right");
    assert_eq!(wm.get_focused_window(), Some(a));
    wm.execute_action("focus_down");
    assert_eq!(wm.get_focused_window(), Some(b));
    wm.execute_action("move_left");
    assert_eq!(wm.tags[0].windows, vec![b, a]);
    wm.execute_action("move_down");
    assert_eq!(wm.tags[0].windows, vec![a, b]);
    wm.execute_action("move_up");
    wm.execute_action("move_right");
    assert_eq!(wm.tags[0].windows, vec![a, b]);

    wm.execute_action("increase_master");
    assert_eq!(wm.tags[0].layout.master_ratio, 650);
    wm.execute_action("decrease_master");
    wm.execute_action("decrease_master");
    assert_eq!(wm.tags[0].layout.master_ratio, 550);
    wm.execute_action("increase_master_count");
    assert_eq!(wm.tags[0].layout.master_count, 2);
    wm.execute_action("decrease_master_count");
    assert_eq!(wm.tags[0].layout.master_count, 1);
    wm.execute_action("toggle_layout");
    assert_eq!(wm.current_layout(), LayoutType::Floating);
    wm.execute_action("cycle_layout");
    assert_eq!(wm.current_layout(), LayoutType::Monocle);

    wm.execute_action("toggle_floating");
    assert!(wm.is_window_floating(b));
    wm.execute_action("toggle_fullscreen");
    assert!(wm.get_window(b).unwrap().fullscreen);
    wm.execute_action("move_to_tag 0");
    wm.execute_action("move_to_tag 10");
    wm.execute_action("move_to_tag");
    assert_eq!(wm.tags[0].windows, vec![a, b]);
    wm.execute_action("move_to_tag 3");
    assert_eq!(wm.tags[0].windows, vec![a]);
    assert_eq!(wm.tags[2].windows, vec![b]);
    assert_eq!(wm.get_focused_window(), Some(a));
    assert_consistent(&wm);
}

#[test]
fn actions_on_the_focused_window_need_a_focus() {
    let mut wm = manager();
    assert!(matches!(wm.execute_action("close_window"), ActionEffect::Nothing));
    assert!(matches!(wm.execute_action("toggle_floating"), ActionEffect::Nothing));
    assert!(matches!(wm.execute_action("toggle_fullscreen"), ActionEffect::Nothing));
    assert!(matches!(wm.execute_action("move_to_tag 2"), ActionEffect::Nothing));
    assert_eq!(wm.close_focused_window(), None);
    assert_consistent(&wm);
}

#[test]
fn key_bindings_trigger_actions() {
    let mut wm = manager();
    let logo = Modifiers { ctrl: false, alt: false, shift: false, logo: true };
    let logo_shift = Modifiers { ctrl: false, alt: false, shift: true, logo: true };
    let none = Modifiers { ctrl: false, alt: false, shift: false, logo: false };
    match wm.handle_keybinding(KEY_RETURN, logo) {
        ActionEffect::Spawn(command) => assert_eq!(command, "alacritty"),
        _ => panic!("the terminal was not started"),
    }
    assert!(matches!(wm.handle_keybinding(KEY_RETURN, none), ActionEffect::Nothing));
    assert!(matches!(wm.handle_keybinding(KEY_2, logo), ActionEffect::Switched(_)));
    assert_eq!(wm.current_tag, TagId::new(1));
    let a = add(&mut wm, "A");
    wm.config.add_keybinding("Shift+Mod4+2".to_string(), "move_to_tag 3".to_string());
    wm.handle_keybinding(KEY_2, logo_shift);
    assert_eq!(wm.tags[2].windows, vec![a]);
}

#[test]
fn consistency_can_be_checked() {
    let mut wm = manager();
    assert!(wm.is_consistent());
    let a = add(&mut wm, "A");
    let b = add(&mut wm, "B");
    wm.move_window_to_tag(b, 2).unwrap();
    wm.toggle_floating(a).unwrap();
    assert!(wm.is_consistent());

    let mut broken = manager();
    broken.current_tag = TagId::new(9);
    assert!(!broken.is_consistent());

    let mut broken = manager();
    broken.tags[1].id = TagId::new(5);
    assert!(!broken.is_consistent());

    let mut broken = manager();
    broken.tags[0].layout.master_count = 0;
    assert!(!broken.is_consistent());

    let mut broken = manager();
    broken.tags[2].layout.master_ratio = 0;
    assert!(!broken.is_consistent());
    broken.tags[2].layout.master_ratio = 1;
    assert!(broken.is_consistent());
    broken.tags[2].layout.master_ratio = 999;
    assert!(broken.is_consistent());
    broken.tags[2].layout.master_ratio = 1000;
    assert!(!broken.is_consistent());

    let mut broken = manager();
    let a = add(&mut broken, "A");
    broken.tags[0].windows.push(a);
    assert!(!broken.is_consistent());

    let mut broken = manager();
    let a = add(&mut broken, "A");
    broken.tags[0].windows.clear();
    broken.tags[0].focused_window = None;
    assert!(!broken.is_consistent());
    broken.tags[1].windows.push(a);
    assert!(!broken.is_consistent());
    broken.window_info.get_mut(&a.as_u64()).unwrap().tag = TagId::new(1);
    assert!(broken.is_consistent());
    broken.window_info.get_mut(&a.as_u64()).unwrap().id = WindowId::new(4);
    assert!(!broken.is_consistent());

    let mut broken = manager();
    broken.tags[0].focused_window = Some(WindowId::new(0));
    assert!(!broken.is_consistent());

    let mut broken = manager();
    broken.tags[3].windows.push(WindowId::new(8));
    assert!(!broken.is_consistent());

    let mut broken = manager();
    let a = add(&mut broken, "A");
    broken.window_info.get_mut(&a.as_u64()).unwrap().tag = TagId::new(40);
    assert!(!broken.is_consistent());

    let mut broken = manager();
    broken.tags.clear();
    assert!(!broken.is_consistent());
}

#[test]
fn every_operation_keeps_the_state_consistent() {
    let mut wm = manager();
    let mut seed: u64 = 42;
    let mut next = move || {
        seed = seed.wrapping_mul(6364136223846793005).wrapping_add(1442695040888963407);
        (seed >> 33) as u32
    };
    for _ in 0..600 {
        let pick = WindowId::new((next() % 12) as u64);
        match next() % 16 {
            0 | 1 | 2 => {
                add(&mut wm, "w");
            }
            3 => wm.unmanage_window(pick),
            4 => {
                wm.switch_to_tag(next() % 11);
            }
            5 => {
                let _ = wm.move_window_to_tag(pick, next() % 11);
            }
            6 => {
                let _ = wm.toggle_floating(pick);
            }
            7 => {
                let _ = wm.toggle_fullscreen(pick);
            }
            8 => {
                let _ = wm.focus_window(pick);
            }
            9 => wm.focus_next(),
            10 => wm.focus_prev(),
            11 => wm.move_window_up(),
            12 => wm.move_window_down(),
            13 => wm.cycle_layout(),
            14 => wm.adjust_master_count(next() as i32 % 3 - 1),
            _ => {
                let _ = wm.set_minimized(pick, next() % 2 == 0);
            }
        }
        assert!(wm.is_consistent());
        assert_consistent(&wm);
        assert!(wm.tags.iter().all(|tag| tag.layout.is_in_range()));
        let tag = wm.current_tag;
        let before: Vec<Rectangle> =
            wm.tags[tag.as_u32() as usize].windows.iter().map(|id| geometry(&wm, *id)).collect();
        wm.arrange(tag);
        let after: Vec<Rectangle> =
            wm.tags[tag.as_u32() as usize].windows.iter().map(|id| geometry(&wm, *id)).collect();
        assert_eq!(before, after);
        let area = wm.usable_area();
        for id in wm.get_tiled_windows_for_current_tag() {
            let r = geometry(&wm, id);
            assert!(area.x <= r.x && area.y <= r.y);
            assert!(r.x as i64 + r.width as i64 <= area.x as i64 + area.width as i64);
            assert!(r.y as i64 + r.height as i64 <= area.y as i64 + area.height as i64);
        }
    }
}
