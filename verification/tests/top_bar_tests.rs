use instantwm_rs::top_bar::{estimate_text_width, format_clock, get_current_time, parse_color, Color};

fn channels(color: Color) -> [f32; 4] {
    [
        color.red as f32 / 255.0,
        color.green as f32 / 255.0,
        color.blue as f32 / 255.0,
        color.alpha as f32 / 255.0,
    ]
}

#[test]
fn test_color_parsing() {
    assert_eq!(channels(parse_color("#FF0000")), [1.0, 0.0, 0.0, 1.0]); // Red
    assert_eq!(channels(parse_color("#00FF00")), [0.0, 1.0, 0.0, 1.0]); // Green
    assert_eq!(channels(parse_color("#0000FF")), [0.0, 0.0, 1.0, 1.0]); // Blue
    assert_eq!(channels(parse_color("#FFFFFF")), [1.0, 1.0, 1.0, 1.0]); // White
    assert_eq!(channels(parse_color("#000000")), [0.0, 0.0, 0.0, 1.0]); // Black
}

#[test]
fn test_text_width_estimation() {
    assert!(estimate_text_width("Hello", 12) > 0);
    assert!(estimate_text_width("Hello World", 12) > estimate_text_width("Hello", 12));
}

#[test]
fn text_width_exact_values() {
    assert_eq!(estimate_text_width("Hello", 12), 35);
    assert_eq!(estimate_text_width("Hello World", 12), 77);
    assert_eq!(estimate_text_width("", 12), 20);
    assert_eq!(estimate_text_width("ab", 5), 20);
    assert_eq!(estimate_text_width("abcdefghij", u32::MAX), u32::MAX);
}

#[test]
fn color_parsing_edge_cases() {
    let black = Color { red: 0, green: 0, blue: 0, alpha: 255 };
    assert_eq!(parse_color("#536DFE"), Color { red: 0x53, green: 0x6d, blue: 0xfe, alpha: 255 });
    assert_eq!(parse_color("#536dfe"), Color { red: 0x53, green: 0x6d, blue: 0xfe, alpha: 255 });
    assert_eq!(parse_color("536DFE"), black);
    assert_eq!(parse_color("#536DF"), black);
    assert_eq!(parse_color("#536DFG"), black);
    assert_eq!(parse_color("#536DFE0"), black);
    assert_eq!(parse_color(""), black);
    assert_eq!(parse_color("#+A+B+C"), Color { red: 10, green: 11, blue: 12, alpha: 255 });
    assert_eq!(parse_color("#\u{e9}12345"), black);
}

#[test]
fn clock_formatting() {
    assert_eq!(format_clock(Some(0)), "00:00");
    assert_eq!(format_clock(Some(3600 * 13 + 60 * 7 + 59)), "13:07");
    assert_eq!(format_clock(Some(86400 * 3 + 3600 * 23 + 60 * 59)), "23:59");
    assert_eq!(format_clock(None), "??:??");
}

#[test]
fn current_time_has_clock_shape() {
    let now = get_current_time();
    let bytes = now.as_bytes();
    assert_eq!(bytes.len(), 5);
    assert_eq!(bytes[2], b':');
    assert!(bytes[0].is_ascii_digit() && bytes[1].is_ascii_digit());
    assert!(bytes[3].is_ascii_digit() && bytes[4].is_ascii_digit());
}

fn bar_setup() -> (instantwm_rs::top_bar::TopBar, instantwm_rs::window_manager::WindowManager) {
    let config = instantwm_rs::types::Config::default();
    let screen = instantwm_rs::types::Rectangle::new(0, 0, 1920, 1080);
    let wm = instantwm_rs::window_manager::WindowManager::new(config.clone(), screen).unwrap();
    (instantwm_rs::top_bar::TopBar::new(config, 1920), wm)
}

#[test]
fn test_top_bar_geometry() {
    let (top_bar, _wm) = bar_setup();
    let geometry = top_bar.geometry();

    assert_eq!(geometry.x, 0);
    assert_eq!(geometry.y, 0);
    assert_eq!(geometry.width, 1920);
    assert_eq!(geometry.height, top_bar.height);
}

#[test]
fn test_top_bar_visibility_toggle() {
    let (mut top_bar, _wm) = bar_setup();
    assert!(top_bar.is_visible());

    top_bar.toggle_visibility();
    assert!(!top_bar.is_visible());
    assert_eq!(top_bar.effective_height(), 0);

    top_bar.toggle_visibility();
    assert!(top_bar.is_visible());
    assert!(top_bar.effective_height() > 0);
}

#[test]
fn bar_takes_height_and_colours_from_the_configuration() {
    let (mut top_bar, _wm) = bar_setup();
    assert_eq!(top_bar.height, 24);
    assert_eq!(top_bar.effective_height(), 24);
    assert_eq!(top_bar.background_color(), Color { red: 0x12, green: 0x12, blue: 0x12, alpha: 255 });
    assert_eq!(top_bar.text_color(), Color { red: 0xdf, green: 0xdf, blue: 0xdf, alpha: 255 });
    top_bar.update_screen_width(1280);
    assert_eq!(top_bar.geometry(), instantwm_rs::types::Rectangle::new(0, 0, 1280, 24));
    top_bar.toggle_visibility();
    assert_eq!(top_bar.geometry(), instantwm_rs::types::Rectangle::new(0, 0, 0, 0));
}

#[test]
fn bar_segments() {
    let (top_bar, mut wm) = bar_setup();
    wm.switch_to_tag(1);
    let long_title = "t".repeat(60);
    wm.manage_window(long_title, "Term".to_string(), instantwm_rs::types::Rectangle::new(0, 0, 1, 1));
    let state = top_bar.render(&wm, "12:34");
    assert_eq!(state.total_width, 1920);
    assert!(state.needs_redraw);
    let texts: Vec<&str> = state.segments.iter().map(|s| s.text.as_str()).collect();
    let expected_title = format!("{}...", "t".repeat(47));
    assert_eq!(
        texts,
        vec!["1", "[2]", "3", "4", "5", "6", "7", "8", "9", "|", "Floating", expected_title.as_str(), "12:34"]
    );
    let first = &state.segments[0];
    assert_eq!((first.x, first.width, first.clickable), (10, 20, true));
    assert_eq!(first.action.as_deref(), Some("switch_tag 1"));
    let second = &state.segments[1];
    assert_eq!((second.x, second.width), (35, 21));
    assert_eq!(second.action.as_deref(), Some("switch_tag 2"));
    assert_eq!(state.segments[2].x, 61);
    let separator = &state.segments[9];
    assert_eq!((separator.x, separator.width, separator.clickable), (256, 10, false));
    assert_eq!(separator.action, None);
    let layout = &state.segments[10];
    assert_eq!((layout.x, layout.width, layout.clickable), (271, 56, true));
    assert_eq!(layout.action.as_deref(), Some("cycle_layout"));
    let title = &state.segments[11];
    assert_eq!((title.x, title.width, title.clickable), (347, 350, false));
    let clock = &state.segments[12];
    assert_eq!((clock.x, clock.width, clock.clickable), (1875, 35, false));
}

#[test]
fn bar_marks_the_current_tag() {
    let (mut top_bar, wm) = bar_setup();
    let state = top_bar.update(&wm);
    assert_eq!(state.segments[0].text, "[1]");
    assert_eq!(state.segments[1].text, "2");
    assert_eq!(state.segments.len(), 12);
    assert_eq!(state.segments[10].text, "Tiling");
    assert_eq!(state.segments[11].text.len(), 5);
}

#[test]
fn bar_marks_tags_with_windows() {
    let (top_bar, mut wm) = bar_setup();
    let id = wm.manage_window(
        "editor".to_string(),
        "Edit".to_string(),
        instantwm_rs::types::Rectangle::new(0, 0, 1, 1),
    );
    wm.move_window_to_tag(id, 4).unwrap();
    let state = top_bar.render(&wm, "");
    let texts: Vec<&str> = state.segments.iter().map(|s| s.text.as_str()).collect();
    assert_eq!(texts, vec!["[1]", "2", "3", "4", "(5)", "6", "7", "8", "9", "|", "Tiling", ""]);
    assert_eq!(state.segments[11].width, 20);
    assert_eq!(state.segments[11].x, 1890);
}

#[test]
fn clicks_on_the_bar() {
    let (mut top_bar, wm) = bar_setup();
    assert_eq!(top_bar.handle_click(&wm, 10, 0).as_deref(), Some("switch_tag 1"));
    assert_eq!(top_bar.handle_click(&wm, 30, 23).as_deref(), Some("switch_tag 1"));
    assert_eq!(top_bar.handle_click(&wm, 31, 5), None);
    assert_eq!(top_bar.handle_click(&wm, 36, 5).as_deref(), Some("switch_tag 2"));
    assert_eq!(top_bar.handle_click(&wm, 9, 5), None);
    assert_eq!(top_bar.handle_click(&wm, 260, 5), None);
    assert_eq!(top_bar.handle_click(&wm, 275, 5).as_deref(), Some("cycle_layout"));
    assert_eq!(top_bar.handle_click(&wm, 10, 24), None);
    assert_eq!(top_bar.handle_click(&wm, 10, -1), None);
    assert_eq!(top_bar.handle_click(&wm, 1900, 5), None);
    top_bar.toggle_visibility();
    assert_eq!(top_bar.handle_click(&wm, 10, 0), None);
}
