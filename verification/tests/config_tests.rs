use instantwm_rs::table::StringMap;
use instantwm_rs::types::{Config, LayoutConfig, LayoutType, WindowRule};

#[test]
fn test_config_loading() {
    let config = Config::default();
    assert!(!config.tags.names.is_empty());
    assert!(!config.keybindings.is_empty());
}

#[test]
fn test_config_validation() {
    let config = Config::default();
    let errors = config.validate();
    assert!(errors.is_empty(), "Default config should be valid");
}

#[test]
fn test_window_rules() {
    let config = Config::default();
    let rules = config.get_rules_for_window("Pavucontrol", "Volume Control");
    assert!(!rules.is_empty(), "Should have rules for Pavucontrol");
    assert!(rules[0].floating, "Pavucontrol should be floating");
}

#[test]
fn default_config_values() {
    let config = Config::default();
    assert_eq!(config.tags.names, vec!["1", "2", "3", "4", "5", "6", "7", "8", "9"]);
    assert_eq!(config.tags.layouts, vec!["tiling", "floating", "monocle"]);
    assert_eq!(config.general.terminal, "alacritty");
    assert_eq!(config.general.launcher, "rofi -show drun");
    assert_eq!(config.appearance.border_width, 3);
    assert_eq!(config.appearance.gap_size, 5);
    assert_eq!(config.appearance.bar_height, 24);
    assert_eq!(config.appearance.bar_font_size, 12);
    assert_eq!(config.keybindings.len(), 52);
    assert_eq!(config.get_keybinding("Mod4+Return").map(|s| s.as_str()), Some("spawn terminal"));
    assert_eq!(config.get_keybinding("Mod4+Shift+7").map(|s| s.as_str()), Some("move_to_tag 7"));
    assert_eq!(
        config.get_keybinding("Shift+Print").map(|s| s.as_str()),
        Some("spawn grim -g \"$(slurp)\"")
    );
    assert_eq!(config.get_keybinding("Mod4+Shift+x"), None);
    assert_eq!(
        config.get_layout("tiling"),
        Some(&LayoutConfig { layout_type: LayoutType::Tiling, master_ratio: 550, master_count: 1 })
    );
    assert_eq!(
        config.get_layout("monocle"),
        Some(&LayoutConfig { layout_type: LayoutType::Monocle, master_ratio: 900, master_count: 1 })
    );
    assert_eq!(
        config.get_layout("floating"),
        Some(&LayoutConfig { layout_type: LayoutType::Floating, master_ratio: 500, master_count: 1 })
    );
    assert_eq!(config.get_layout("spiral"), None);
    assert_eq!(config.layouts.len(), 3);
    for index in 0..config.layouts.len() {
        let preset = config.layouts.value_at(index);
        assert!(preset.is_in_range());
        assert!(0 < preset.master_ratio && preset.master_ratio < 1000);
        assert!(preset.master_count >= 1);
    }
    for name in &config.tags.layouts {
        assert!(config.layouts.contains_key(name));
    }
    for index in 0..config.keybindings.len() {
        assert!(!config.keybindings.key_at(index).is_empty());
        assert!(!config.keybindings.value_at(index).is_empty());
    }
    assert_eq!(config.rules.len(), 13);
    assert_eq!(config.rules[12].class.as_deref(), Some("ROX-Filer"));
    assert!(!config.rules[12].floating);
}

#[test]
fn keybindings_can_be_added_and_removed() {
    let mut config = Config::default();
    config.add_keybinding("Mod4+x".to_string(), "exit".to_string());
    assert_eq!(config.get_keybinding("Mod4+x").map(|s| s.as_str()), Some("exit"));
    config.add_keybinding("Mod4+x".to_string(), "reload_config".to_string());
    assert_eq!(config.get_keybinding("Mod4+x").map(|s| s.as_str()), Some("reload_config"));
    assert_eq!(config.keybindings.len(), 53);
    config.remove_keybinding("Mod4+x");
    assert_eq!(config.get_keybinding("Mod4+x"), None);
    config.remove_keybinding("Mod4+x");
    assert_eq!(config.keybindings.len(), 52);
}

#[test]
fn validation_reports_every_finding_in_order() {
    let mut config = Config::default();
    config.tags.names = vec!["web".to_string(), String::new(), "mail".to_string(), String::new()];
    config.tags.layouts = vec!["tiling".to_string(), "spiral".to_string()];
    config.appearance.border_width = 11;
    config.appearance.gap_size = 51;
    config.appearance.bar_height = 101;
    config.keybindings = StringMap::new();
    config.keybindings.insert(String::new(), "exit".to_string());
    config.keybindings.insert("Mod4+z".to_string(), String::new());
    assert_eq!(
        config.validate(),
        vec![
            "Tag 1 has empty name",
            "Tag 3 has empty name",
            "Layout 'spiral' referenced but not defined",
            "Border width should not exceed 10 pixels",
            "Gap size should not exceed 50 pixels",
            "Bar height should not exceed 100 pixels",
            "Empty keybinding found",
            "Empty action for keybinding 'Mod4+z'",
        ]
    );
}

#[test]
fn validation_accepts_the_limits() {
    let mut config = Config::default();
    config.appearance.border_width = 10;
    config.appearance.gap_size = 50;
    config.appearance.bar_height = 100;
    assert!(config.validate().is_empty());
}

#[test]
fn validation_reports_missing_tags() {
    let mut config = Config::default();
    config.tags.names = Vec::new();
    assert_eq!(config.validate(), vec!["At least one tag must be configured"]);
}

#[test]
fn rules_match_class_and_title() {
    let rule = WindowRule {
        class: Some("Gimp".to_string()),
        instance: Some("ignored".to_string()),
        title: Some("Toolbox".to_string()),
        floating: true,
        tag: Some(2),
    };
    assert!(rule.matches("Gimp", "Toolbox"));
    assert!(!rule.matches("Gimp", "Layers"));
    assert!(!rule.matches("gimp", "Toolbox"));
    let any = WindowRule { class: None, instance: None, title: None, floating: false, tag: None };
    assert!(any.matches("whatever", ""));
    let config = Config::default();
    assert!(config.get_rules_for_window("Firefox", "Mozilla").is_empty());
}

#[test]
fn string_map_keeps_insertion_order() {
    let mut map: StringMap<u32> = StringMap::new();
    assert!(map.is_empty());
    assert_eq!(map.insert("b".to_string(), 1), None);
    assert_eq!(map.insert("a".to_string(), 2), None);
    assert_eq!(map.insert("b".to_string(), 3), Some(1));
    assert_eq!(map.len(), 2);
    assert_eq!(map.key_at(0), "b");
    assert_eq!(*map.value_at(0), 3);
    assert_eq!(map.key_at(1), "a");
    assert!(map.contains_key("a"));
    assert!(!map.contains_key("c"));
    assert_eq!(map.get("a"), Some(&2));
    assert_eq!(map.remove("b"), Some(3));
    assert_eq!(map.remove("b"), None);
    assert_eq!(map.len(), 1);
    assert_eq!(map.key_at(0), "a");
    let copy = map.clone();
    assert_eq!(copy.get("a"), Some(&2));
}
