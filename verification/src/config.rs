//! The configuration: lookups, window rules, the built-in settings and the
//! checks that a loaded configuration has to pass.

use crate::table::StringMap;
use crate::text::{decimal, owned, push_decimal, str_eq};
use crate::types::{
    AppearanceConfig, Config, GeneralConfig, LayoutConfig, LayoutType, TagsConfig, WindowRule,
};
use vstd::prelude::*;
use vstd::string::StrSliceExecFns;
use vstd::string::StringExecFns;

verus! {

/// The pattern fits the text: no pattern fits every text, a pattern fits
/// the text that is equal to it.
pub open spec fn pattern_fits(pattern: Option<String>, text: Seq<char>) -> bool {
    match pattern {
        Some(wanted) => wanted@ == text,
        None => true,
    }
}

fn fits(pattern: &Option<String>, text: &str) -> (r: bool)
    ensures
        r == pattern_fits(*pattern, text@),
{
    match pattern {
        Some(wanted) => str_eq(wanted.as_str(), text),
        None => true,
    }
}

impl WindowRule {
    /// The rule applies to a window of this class and title.
    pub open spec fn spec_matches(&self, class: Seq<char>, title: Seq<char>) -> bool {
        pattern_fits(self.class, class) && pattern_fits(self.title, title)
    }

    /// Whether the rule applies to a window of this class and title.
    pub fn matches(&self, class: &str, title: &str) -> (r: bool)
        ensures
            r == self.spec_matches(class@, title@),
    {
        fits(&self.class, class) && fits(&self.title, title)
    }
}

/// The rules that apply to a window of this class and title, in the order
/// of the list.
pub open spec fn matching_rules(rules: Seq<WindowRule>, class: Seq<char>, title: Seq<char>) -> Seq<
    WindowRule,
> {
    rules.filter(|rule: WindowRule| rule.spec_matches(class, title))
}

impl Config {
    /// The parameters of the layout `name`.
    pub fn get_layout(&self, name: &str) -> (r: Option<&LayoutConfig>)
        ensures
            r == if self.layouts@.contains_key(name@) {
                Some(&self.layouts@[name@])
            } else {
                None
            },
    {
        self.layouts.get(name)
    }

    /// The action that the key combination `key` is bound to.
    pub fn get_keybinding(&self, key: &str) -> (r: Option<&String>)
        ensures
            r == if self.keybindings@.contains_key(key@) {
                Some(&self.keybindings@[key@])
            } else {
                None
            },
    {
        self.keybindings.get(key)
    }

    /// Binds `key` to `action`, in place of what it was bound to.
    pub fn add_keybinding(&mut self, key: String, action: String)
        ensures
            final(self).keybindings@ == old(self).keybindings@.insert(key@, action),
            final(self).general == old(self).general,
            final(self).tags == old(self).tags,
            final(self).appearance == old(self).appearance,
            final(self).layouts == old(self).layouts,
            final(self).rules == old(self).rules,
    {
        self.keybindings.insert(key, action);
    }

    /// Takes the binding of `key` away.
    pub fn remove_keybinding(&mut self, key: &str)
        ensures
            final(self).keybindings@ == old(self).keybindings@.remove(key@),
            final(self).general == old(self).general,
            final(self).tags == old(self).tags,
            final(self).appearance == old(self).appearance,
            final(self).layouts == old(self).layouts,
            final(self).rules == old(self).rules,
    {
        self.keybindings.remove(key);
    }

    /// The rules that apply to a window of this class and title, in the
    /// order of the configuration.
    pub fn get_rules_for_window(&self, class: &str, title: &str) -> (found: Vec<&WindowRule>)
        ensures
            found@.len() == matching_rules(self.rules@, class@, title@).len(),
            forall|i: int|
                0 <= i < found@.len() ==> *(#[trigger] found@[i]) == matching_rules(
                    self.rules@,
                    class@,
                    title@,
                )[i],
    {
        let ghost keep = |rule: WindowRule| rule.spec_matches(class@, title@);
        let mut found: Vec<&WindowRule> = Vec::new();
        let mut i: usize = 0;
        proof {
            reveal(Seq::filter);
            assert(self.rules@.take(0) =~= Seq::<WindowRule>::empty());
        }
        while i < self.rules.len()
            invariant
                i <= self.rules.len(),
                keep == (|rule: WindowRule| rule.spec_matches(class@, title@)),
                found@.len() == self.rules@.take(i as int).filter(keep).len(),
                forall|j: int|
                    0 <= j < found@.len() ==> *(#[trigger] found@[j]) == self.rules@.take(
                        i as int,
                    ).filter(keep)[j],
            decreases self.rules.len() - i,
        {
            let rule = &self.rules[i];
            proof {
                assert(self.rules@.take(i as int + 1) =~= self.rules@.take(i as int).push(*rule));
                self.rules@.take(i as int).lemma_filter_push(*rule, keep);
            }
            if rule.matches(class, title) {
                found.push(rule);
            }
            i += 1;
        }
        assert(self.rules@.take(i as int) =~= self.rules@);
        found
    }
}

/// A table of actions with each action as its characters.
pub open spec fn binding_texts(table: Map<Seq<char>, String>) -> Map<Seq<char>, Seq<char>> {
    Map::new(|key: Seq<char>| table.contains_key(key), |key: Seq<char>| table[key]@)
}

/// The key bindings of the built-in configuration.
pub open spec fn default_keybindings() -> Map<Seq<char>, Seq<char>> {
    Map::<Seq<char>, Seq<char>>::empty().insert(
        "Mod4+Return"@,
        "spawn terminal"@,
    ).insert(
        "Mod4+d"@,
        "spawn launcher"@,
    ).insert(
        "Mod4+Shift+Return"@,
        "spawn browser"@,
    ).insert(
        "Mod4+q"@,
        "close_window"@,
    ).insert(
        "Mod4+Shift+q"@,
        "close_window"@,
    ).insert(
        "Mod4+f"@,
        "toggle_floating"@,
    ).insert(
        "Mod4+Shift+f"@,
        "toggle_fullscreen"@,
    ).insert(
        "Mod4+space"@,
        "cycle_layout"@,
    ).insert(
        "Mod4+1"@,
        "switch_tag 1"@,
    ).insert(
        "Mod4+Shift+1"@,
        "move_to_tag 1"@,
    ).insert(
        "Mod4+2"@,
        "switch_tag 2"@,
    ).insert(
        "Mod4+Shift+2"@,
        "move_to_tag 2"@,
    ).insert(
        "Mod4+3"@,
        "switch_tag 3"@,
    ).insert(
        "Mod4+Shift+3"@,
        "move_to_tag 3"@,
    ).insert(
        "Mod4+4"@,
        "switch_tag 4"@,
    ).insert(
        "Mod4+Shift+4"@,
        "move_to_tag 4"@,
    ).insert(
        "Mod4+5"@,
        "switch_tag 5"@,
    ).insert(
        "Mod4+Shift+5"@,
        "move_to_tag 5"@,
    ).insert(
        "Mod4+6"@,
        "switch_tag 6"@,
    ).insert(
        "Mod4+Shift+6"@,
        "move_to_tag 6"@,
    ).insert(
        "Mod4+7"@,
        "switch_tag 7"@,
    ).insert(
        "Mod4+Shift+7"@,
        "move_to_tag 7"@,
    ).insert(
        "Mod4+8"@,
        "switch_tag 8"@,
    ).insert(
        "Mod4+Shift+8"@,
        "move_to_tag 8"@,
    ).insert(
        "Mod4+9"@,
        "switch_tag 9"@,
    ).insert(
        "Mod4+Shift+9"@,
        "move_to_tag 9"@,
    ).insert(
        "Mod4+h"@,
        "focus_left"@,
    ).insert(
        "Mod4+j"@,
        "focus_down"@,
    ).insert(
        "Mod4+k"@,
        "focus_up"@,
    ).insert(
        "Mod4+l"@,
        "focus_right"@,
    ).insert(
        "Mod4+Shift+h"@,
        "move_left"@,
    ).insert(
        "Mod4+Shift+j"@,
        "move_down"@,
    ).insert(
        "Mod4+Shift+k"@,
        "move_up"@,
    ).insert(
        "Mod4+Shift+l"@,
        "move_right"@,
    ).insert(
        "Mod4+comma"@,
        "increase_master_count"@,
    ).insert(
        "Mod4+period"@,
        "decrease_master_count"@,
    ).insert(
        "Mod4+Left"@,
        "decrease_master"@,
    ).insert(
        "Mod4+Right"@,
        "increase_master"@,
    ).insert(
        "Mod4+Shift+r"@,
        "reload_config"@,
    ).insert(
        "Mod4+Shift+e"@,
        "exit"@,
    ).insert(
        "Mod4+Shift+c"@,
        "reload_config"@,
    ).insert(
        "Mod4+Tab"@,
        "focus_next"@,
    ).insert(
        "Mod4+Shift+Tab"@,
        "focus_prev"@,
    ).insert(
        "Mod4+m"@,
        "toggle_minimize"@,
    ).insert(
        "Mod4+o"@,
        "toggle_sticky"@,
    ).insert(
        "Print"@,
        "spawn grim"@,
    ).insert(
        "Shift+Print"@,
        "spawn grim -g \"$(slurp)\""@,
    ).insert(
        "XF86AudioRaiseVolume"@,
        "spawn pactl set-sink-volume @DEFAULT_SINK@ +5%"@,
    ).insert(
        "XF86AudioLowerVolume"@,
        "spawn pactl set-sink-volume @DEFAULT_SINK@ -5%"@,
    ).insert(
        "XF86AudioMute"@,
        "spawn pactl set-sink-mute @DEFAULT_SINK@ toggle"@,
    ).insert(
        "XF86MonBrightnessUp"@,
        "spawn brightnessctl set 5%+"@,
    ).insert(
        "XF86MonBrightnessDown"@,
        "spawn brightnessctl set 5%-"@,
    )
}

/// The layouts of the built-in configuration. The monocle preset, which
/// places no master column, holds the widest ratio that the running manager
/// adjusts to.
pub open spec fn default_layouts() -> Map<Seq<char>, LayoutConfig> {
    Map::<Seq<char>, LayoutConfig>::empty().insert(
        "tiling"@,
        LayoutConfig { layout_type: LayoutType::Tiling, master_ratio: 550, master_count: 1 },
    ).insert(
        "floating"@,
        LayoutConfig { layout_type: LayoutType::Floating, master_ratio: 500, master_count: 1 },
    ).insert(
        "monocle"@,
        LayoutConfig { layout_type: LayoutType::Monocle, master_ratio: 900, master_count: 1 },
    )
}

/// The window class that the built-in rule at `index` names.
pub open spec fn default_rule_class(index: int) -> Seq<char> {
    if index == 0 {
        "Pavucontrol"@
    } else if index == 1 {
        "Onboard"@
    } else if index == 2 {
        "floatmenu"@
    } else if index == 3 {
        "Welcome.py"@
    } else if index == 4 {
        "Pamac-installer"@
    } else if index == 5 {
        "xpad"@
    } else if index == 6 {
        "Guake"@
    } else if index == 7 {
        "instantfloat"@
    } else if index == 8 {
        "Peek"@
    } else if index == 9 {
        "kdeconnect.daemon"@
    } else if index == 10 {
        "Panther"@
    } else if index == 11 {
        "org-wellkord-globonote-Main"@
    } else {
        "ROX-Filer"@
    }
}

/// Number of built-in window rules.
pub const DEFAULT_RULE_COUNT: usize = 13;

/// The views of a list of strings.
pub open spec fn string_views(list: Seq<String>) -> Seq<Seq<char>> {
    Seq::new(list.len(), |i: int| list[i]@)
}

/// The complaints about the tag names before `upto`: one for each empty
/// name, with the name's position.
pub open spec fn tag_name_errors(names: Seq<String>, upto: int) -> Seq<Seq<char>>
    decreases upto,
{
    if upto <= 0 {
        Seq::empty()
    } else {
        let before = tag_name_errors(names, upto - 1);
        if names[upto - 1]@.len() == 0 {
            before.push("Tag "@ + decimal((upto - 1) as nat) + " has empty name"@)
        } else {
            before
        }
    }
}

/// The complaints about the layout names before `upto` that the tags refer
/// to: one for each name that the layout table does not define.
pub open spec fn layout_reference_errors(
    references: Seq<String>,
    defined: Map<Seq<char>, LayoutConfig>,
    upto: int,
) -> Seq<Seq<char>>
    decreases upto,
{
    if upto <= 0 {
        Seq::empty()
    } else {
        let before = layout_reference_errors(references, defined, upto - 1);
        if defined.contains_key(references[upto - 1]@) {
            before
        } else {
            before.push("Layout '"@ + references[upto - 1]@ + "' referenced but not defined"@)
        }
    }
}

/// The complaints about the key bindings before `upto`: one for an empty
/// key combination, one for an empty action.
pub open spec fn binding_errors(entries: Seq<(Seq<char>, String)>, upto: int) -> Seq<Seq<char>>
    decreases upto,
{
    if upto <= 0 {
        Seq::empty()
    } else {
        let before = binding_errors(entries, upto - 1);
        let entry = entries[upto - 1];
        let with_key = if entry.0.len() == 0 {
            before.push("Empty keybinding found"@)
        } else {
            before
        };
        if entry.1@.len() == 0 {
            with_key.push("Empty action for keybinding '"@ + entry.0 + "'"@)
        } else {
            with_key
        }
    }
}

/// The complaints about borders, gaps and the bar.
pub open spec fn appearance_errors(appearance: AppearanceConfig) -> Seq<Seq<char>> {
    (if appearance.border_width > 10 {
        seq!["Border width should not exceed 10 pixels"@]
    } else {
        Seq::empty()
    }) + (if appearance.gap_size > 50 {
        seq!["Gap size should not exceed 50 pixels"@]
    } else {
        Seq::empty()
    }) + (if appearance.bar_height > 100 {
        seq!["Bar height should not exceed 100 pixels"@]
    } else {
        Seq::empty()
    })
}

/// Everything that is wrong with a configuration, in this order: no tag
/// names at all, empty tag names, layouts that the tags refer to and that
/// are not defined, a border of more than 10 pixels, an outer gap of more
/// than 50, a bar of more than 100, and empty key combinations or actions.
pub open spec fn validation_errors(config: Config) -> Seq<Seq<char>> {
    (if config.tags.names.len() == 0 {
        seq!["At least one tag must be configured"@]
    } else {
        Seq::empty()
    }) + tag_name_errors(config.tags.names@, config.tags.names.len() as int)
        + layout_reference_errors(
        config.tags.layouts@,
        config.layouts@,
        config.tags.layouts.len() as int,
    ) + appearance_errors(config.appearance) + binding_errors(
        config.keybindings.entries(),
        config.keybindings.entries().len() as int,
    )
}

/// Every entry has a key combination and an action that are not empty.
pub open spec fn all_bound(entries: Seq<(Seq<char>, String)>) -> bool {
    forall|i: int|
        0 <= i < entries.len() ==> (#[trigger] entries[i]).0.len() > 0 && entries[i].1@.len() > 0
}

/// Tag names that are not empty draw no complaint.
pub proof fn lemma_named_tags_pass(names: Seq<String>, upto: int)
    requires
        0 <= upto <= names.len(),
        forall|i: int| 0 <= i < names.len() ==> (#[trigger] names[i])@.len() > 0,
    ensures
        tag_name_errors(names, upto) == Seq::<Seq<char>>::empty(),
    decreases upto,
{
    if upto > 0 {
        lemma_named_tags_pass(names, upto - 1);
    }
}

/// References to layouts that are defined draw no complaint.
pub proof fn lemma_defined_layouts_pass(
    references: Seq<String>,
    defined: Map<Seq<char>, LayoutConfig>,
    upto: int,
)
    requires
        0 <= upto <= references.len(),
        forall|i: int| 0 <= i < references.len() ==> defined.contains_key((#[trigger] references[i])@),
    ensures
        layout_reference_errors(references, defined, upto) == Seq::<Seq<char>>::empty(),
    decreases upto,
{
    if upto > 0 {
        lemma_defined_layouts_pass(references, defined, upto - 1);
    }
}

/// Bindings without empty parts draw no complaint.
pub proof fn lemma_bound_keys_pass(entries: Seq<(Seq<char>, String)>, upto: int)
    requires
        0 <= upto <= entries.len(),
        all_bound(entries),
    ensures
        binding_errors(entries, upto) == Seq::<Seq<char>>::empty(),
    decreases upto,
{
    if upto > 0 {
        lemma_bound_keys_pass(entries, upto - 1);
        assert(entries[upto - 1].0.len() > 0);
    }
}

/// Binds a key combination to an action.
fn bind(table: &mut StringMap<String>, key: &str, action: &str)
    requires
        key@.len() > 0,
        action@.len() > 0,
    ensures
        binding_texts(final(table)@) == binding_texts(old(table)@).insert(key@, action@),
        all_bound(old(table).entries()) ==> all_bound(final(table).entries()),
{
    let value = owned(action);
    table.insert(owned(key), value);
    assert(binding_texts(table@) =~= binding_texts(old(table)@).insert(key@, action@));
}

/// A rule that lets the windows of a class float, or keeps them tiled.
fn class_rule(class: &str, floating: bool) -> (rule: WindowRule)
    ensures
        rule.class matches Some(name) && name@ == class@,
        rule.instance is None,
        rule.title is None,
        rule.floating == floating,
        rule.tag is None,
{
    WindowRule { class: Some(owned(class)), instance: None, title: None, floating, tag: None }
}

impl Config {
    /// The built-in configuration: nine tags named `1` to `9`, the three
    /// layouts, the key bindings around `Mod4`, and rules that let the
    /// windows of some classes float.
    pub fn default() -> (config: Config)
        ensures
            config.general.mod_key@ == "Mod4"@,
            config.general.terminal@ == "alacritty"@,
            config.general.browser@ == "firefox"@,
            config.general.launcher@ == "rofi -show drun"@,
            config.general.screenshot@ == "grim"@,
            string_views(config.tags.names@) == seq![
                "1"@,
                "2"@,
                "3"@,
                "4"@,
                "5"@,
                "6"@,
                "7"@,
                "8"@,
                "9"@,
            ],
            string_views(config.tags.layouts@) == seq!["tiling"@, "floating"@, "monocle"@],
            config.appearance.border_width == 3,
            config.appearance.border_focus@ == "#536DFE"@,
            config.appearance.border_normal@ == "#384252"@,
            config.appearance.gap_size == 5,
            config.appearance.inner_gap == 5,
            config.appearance.bar_height == 24,
            config.appearance.bar_background@ == "#121212"@,
            config.appearance.bar_foreground@ == "#DFDFDF"@,
            config.appearance.bar_font@ == "Inter-Regular"@,
            config.appearance.bar_font_size == 12,
            binding_texts(config.keybindings@) == default_keybindings(),
            config.layouts@ == default_layouts(),
            forall|name: Seq<char>| #[trigger]
                config.layouts@.contains_key(name) ==> config.layouts@[name].in_range(),
            validation_errors(config) == Seq::<Seq<char>>::empty(),
            config.rules.len() == DEFAULT_RULE_COUNT,
            forall|i: int|
                0 <= i < DEFAULT_RULE_COUNT ==> {
                    &&& (#[trigger] config.rules[i]).class matches Some(name) && name@
                        == default_rule_class(i)
                    &&& config.rules[i].instance is None
                    &&& config.rules[i].title is None
                    &&& config.rules[i].tag is None
                    &&& config.rules[i].floating == (i != DEFAULT_RULE_COUNT - 1)
                },
    {
        proof {
            reveal_strlit("Mod4+Return");
            reveal_strlit("spawn terminal");
            reveal_strlit("Mod4+d");
            reveal_strlit("spawn launcher");
            reveal_strlit("Mod4+Shift+Return");
            reveal_strlit("spawn browser");
            reveal_strlit("Mod4+q");
            reveal_strlit("close_window");
            reveal_strlit("Mod4+Shift+q");
            reveal_strlit("Mod4+f");
            reveal_strlit("toggle_floating");
            reveal_strlit("Mod4+Shift+f");
            reveal_strlit("toggle_fullscreen");
            reveal_strlit("Mod4+space");
            reveal_strlit("cycle_layout");
            reveal_strlit("Mod4+1");
            reveal_strlit("switch_tag 1");
            reveal_strlit("Mod4+Shift+1");
            reveal_strlit("move_to_tag 1");
            reveal_strlit("Mod4+2");
            reveal_strlit("switch_tag 2");
            reveal_strlit("Mod4+Shift+2");
            reveal_strlit("move_to_tag 2");
            reveal_strlit("Mod4+3");
            reveal_strlit("switch_tag 3");
            reveal_strlit("Mod4+Shift+3");
            reveal_strlit("move_to_tag 3");
            reveal_strlit("Mod4+4");
            reveal_strlit("switch_tag 4");
            reveal_strlit("Mod4+Shift+4");
            reveal_strlit("move_to_tag 4");
            reveal_strlit("Mod4+5");
            reveal_strlit("switch_tag 5");
            reveal_strlit("Mod4+Shift+5");
            reveal_strlit("move_to_tag 5");
            reveal_strlit("Mod4+6");
            reveal_strlit("switch_tag 6");
            reveal_strlit("Mod4+Shift+6");
            reveal_strlit("move_to_tag 6");
            reveal_strlit("Mod4+7");
            reveal_strlit("switch_tag 7");
            reveal_strlit("Mod4+Shift+7");
            reveal_strlit("move_to_tag 7");
            reveal_strlit("Mod4+8");
            reveal_strlit("switch_tag 8");
            reveal_strlit("Mod4+Shift+8");
            reveal_strlit("move_to_tag 8");
            reveal_strlit("Mod4+9");
            reveal_strlit("switch_tag 9");
            reveal_strlit("Mod4+Shift+9");
            reveal_strlit("move_to_tag 9");
            reveal_strlit("Mod4+h");
            reveal_strlit("focus_left");
            reveal_strlit("Mod4+j");
            reveal_strlit("focus_down");
            reveal_strlit("Mod4+k");
            reveal_strlit("focus_up");
            reveal_strlit("Mod4+l");
            reveal_strlit("focus_right");
            reveal_strlit("Mod4+Shift+h");
            reveal_strlit("move_left");
            reveal_strlit("Mod4+Shift+j");
            reveal_strlit("move_down");
            reveal_strlit("Mod4+Shift+k");
            reveal_strlit("move_up");
            reveal_strlit("Mod4+Shift+l");
            reveal_strlit("move_right");
            reveal_strlit("Mod4+comma");
            reveal_strlit("increase_master_count");
            reveal_strlit("Mod4+period");
            reveal_strlit("decrease_master_count");
            reveal_strlit("Mod4+Left");
            reveal_strlit("decrease_master");
            reveal_strlit("Mod4+Right");
            reveal_strlit("increase_master");
            reveal_strlit("Mod4+Shift+r");
            reveal_strlit("reload_config");
            reveal_strlit("Mod4+Shift+e");
            reveal_strlit("exit");
            reveal_strlit("Mod4+Shift+c");
            reveal_strlit("Mod4+Tab");
            reveal_strlit("focus_next");
            reveal_strlit("Mod4+Shift+Tab");
            reveal_strlit("focus_prev");
            reveal_strlit("Mod4+m");
            reveal_strlit("toggle_minimize");
            reveal_strlit("Mod4+o");
            reveal_strlit("toggle_sticky");
            reveal_strlit("Print");
            reveal_strlit("spawn grim");
            reveal_strlit("Shift+Print");
            reveal_strlit("spawn grim -g \"$(slurp)\"");
            reveal_strlit("XF86AudioRaiseVolume");
            reveal_strlit("spawn pactl set-sink-volume @DEFAULT_SINK@ +5%");
            reveal_strlit("XF86AudioLowerVolume");
            reveal_strlit("spawn pactl set-sink-volume @DEFAULT_SINK@ -5%");
            reveal_strlit("XF86AudioMute");
            reveal_strlit("spawn pactl set-sink-mute @DEFAULT_SINK@ toggle");
            reveal_strlit("XF86MonBrightnessUp");
            reveal_strlit("spawn brightnessctl set 5%+");
            reveal_strlit("XF86MonBrightnessDown");
            reveal_strlit("spawn brightnessctl set 5%-");
            reveal_strlit("1");
            reveal_strlit("2");
            reveal_strlit("3");
            reveal_strlit("4");
            reveal_strlit("5");
            reveal_strlit("6");
            reveal_strlit("7");
            reveal_strlit("8");
            reveal_strlit("9");
        }
        let mut keybindings: StringMap<String> = StringMap::new();
        assert(binding_texts(keybindings@) =~= Map::<Seq<char>, Seq<char>>::empty());
        bind(&mut keybindings, "Mod4+Return", "spawn terminal");
        bind(&mut keybindings, "Mod4+d", "spawn launcher");
        bind(&mut keybindings, "Mod4+Shift+Return", "spawn browser");
        bind(&mut keybindings, "Mod4+q", "close_window");
        bind(&mut keybindings, "Mod4+Shift+q", "close_window");
        bind(&mut keybindings, "Mod4+f", "toggle_floating");
        bind(&mut keybindings, "Mod4+Shift+f", "toggle_fullscreen");
        bind(&mut keybindings, "Mod4+space", "cycle_layout");
        bind(&mut keybindings, "Mod4+1", "switch_tag 1");
        bind(&mut keybindings, "Mod4+Shift+1", "move_to_tag 1");
        bind(&mut keybindings, "Mod4+2", "switch_tag 2");
        bind(&mut keybindings, "Mod4+Shift+2", "move_to_tag 2");
        bind(&mut keybindings, "Mod4+3", "switch_tag 3");
        bind(&mut keybindings, "Mod4+Shift+3", "move_to_tag 3");
        bind(&mut keybindings, "Mod4+4", "switch_tag 4");
        bind(&mut keybindings, "Mod4+Shift+4", "move_to_tag 4");
        bind(&mut keybindings, "Mod4+5", "switch_tag 5");
        bind(&mut keybindings, "Mod4+Shift+5", "move_to_tag 5");
        bind(&mut keybindings, "Mod4+6", "switch_tag 6");
        bind(&mut keybindings, "Mod4+Shift+6", "move_to_tag 6");
        bind(&mut keybindings, "Mod4+7", "switch_tag 7");
        bind(&mut keybindings, "Mod4+Shift+7", "move_to_tag 7");
        bind(&mut keybindings, "Mod4+8", "switch_tag 8");
        bind(&mut keybindings, "Mod4+Shift+8", "move_to_tag 8");
        bind(&mut keybindings, "Mod4+9", "switch_tag 9");
        bind(&mut keybindings, "Mod4+Shift+9", "move_to_tag 9");
        bind(&mut keybindings, "Mod4+h", "focus_left");
        bind(&mut keybindings, "Mod4+j", "focus_down");
        bind(&mut keybindings, "Mod4+k", "focus_up");
        bind(&mut keybindings, "Mod4+l", "focus_right");
        bind(&mut keybindings, "Mod4+Shift+h", "move_left");
        bind(&mut keybindings, "Mod4+Shift+j", "move_down");
        bind(&mut keybindings, "Mod4+Shift+k", "move_up");
        bind(&mut keybindings, "Mod4+Shift+l", "move_right");
        bind(&mut keybindings, "Mod4+comma", "increase_master_count");
        bind(&mut keybindings, "Mod4+period", "decrease_master_count");
        bind(&mut keybindings, "Mod4+Left", "decrease_master");
        bind(&mut keybindings, "Mod4+Right", "increase_master");
        bind(&mut keybindings, "Mod4+Shift+r", "reload_config");
        bind(&mut keybindings, "Mod4+Shift+e", "exit");
        bind(&mut keybindings, "Mod4+Shift+c", "reload_config");
        bind(&mut keybindings, "Mod4+Tab", "focus_next");
        bind(&mut keybindings, "Mod4+Shift+Tab", "focus_prev");
        bind(&mut keybindings, "Mod4+m", "toggle_minimize");
        bind(&mut keybindings, "Mod4+o", "toggle_sticky");
        bind(&mut keybindings, "Print", "spawn grim");
        bind(&mut keybindings, "Shift+Print", "spawn grim -g \"$(slurp)\"");
        bind(&mut keybindings, "XF86AudioRaiseVolume", "spawn pactl set-sink-volume @DEFAULT_SINK@ +5%");
        bind(&mut keybindings, "XF86AudioLowerVolume", "spawn pactl set-sink-volume @DEFAULT_SINK@ -5%");
        bind(&mut keybindings, "XF86AudioMute", "spawn pactl set-sink-mute @DEFAULT_SINK@ toggle");
        bind(&mut keybindings, "XF86MonBrightnessUp", "spawn brightnessctl set 5%+");
        bind(&mut keybindings, "XF86MonBrightnessDown", "spawn brightnessctl set 5%-");

        let mut layouts: StringMap<LayoutConfig> = StringMap::new();
        layouts.insert(
            owned("tiling"),
            LayoutConfig { layout_type: LayoutType::Tiling, master_ratio: 550, master_count: 1 },
        );
        layouts.insert(
            owned("floating"),
            LayoutConfig { layout_type: LayoutType::Floating, master_ratio: 500, master_count: 1 },
        );
        layouts.insert(
            owned("monocle"),
            LayoutConfig { layout_type: LayoutType::Monocle, master_ratio: 900, master_count: 1 },
        );

        let mut rules: Vec<WindowRule> = Vec::new();
        rules.push(class_rule("Pavucontrol", true));
        rules.push(class_rule("Onboard", true));
        rules.push(class_rule("floatmenu", true));
        rules.push(class_rule("Welcome.py", true));
        rules.push(class_rule("Pamac-installer", true));
        rules.push(class_rule("xpad", true));
        rules.push(class_rule("Guake", true));
        rules.push(class_rule("instantfloat", true));
        rules.push(class_rule("Peek", true));
        rules.push(class_rule("kdeconnect.daemon", true));
        rules.push(class_rule("Panther", true));
        rules.push(class_rule("org-wellkord-globonote-Main", true));
        rules.push(class_rule("ROX-Filer", false));

        let mut names: Vec<String> = Vec::new();
        names.push(owned("1"));
        names.push(owned("2"));
        names.push(owned("3"));
        names.push(owned("4"));
        names.push(owned("5"));
        names.push(owned("6"));
        names.push(owned("7"));
        names.push(owned("8"));
        names.push(owned("9"));
        let mut tag_layouts: Vec<String> = Vec::new();
        tag_layouts.push(owned("tiling"));
        tag_layouts.push(owned("floating"));
        tag_layouts.push(owned("monocle"));
        assert(string_views(names@) =~= seq![
            "1"@,
            "2"@,
            "3"@,
            "4"@,
            "5"@,
            "6"@,
            "7"@,
            "8"@,
            "9"@,
        ]);
        assert(string_views(tag_layouts@) =~= seq!["tiling"@, "floating"@, "monocle"@]);

        proof {
            assert(all_bound(keybindings.entries()));
            assert forall|i: int| 0 <= i < names.len() implies (#[trigger] names[i])@.len() > 0 by {
                assert(names[i]@ == string_views(names@)[i]);
            }
            lemma_named_tags_pass(names@, names.len() as int);
            assert forall|i: int| 0 <= i < tag_layouts.len() implies layouts@.contains_key(
                (#[trigger] tag_layouts[i])@,
            ) by {
                assert(tag_layouts[i]@ == string_views(tag_layouts@)[i]);
            }
            lemma_defined_layouts_pass(tag_layouts@, layouts@, tag_layouts.len() as int);
            lemma_bound_keys_pass(keybindings.entries(), keybindings.entries().len() as int);
        }
        Config {
            general: GeneralConfig {
                mod_key: owned("Mod4"),
                terminal: owned("alacritty"),
                browser: owned("firefox"),
                launcher: owned("rofi -show drun"),
                screenshot: owned("grim"),
            },
            tags: TagsConfig { names, layouts: tag_layouts },
            appearance: AppearanceConfig {
                border_width: 3,
                border_focus: owned("#536DFE"),
                border_normal: owned("#384252"),
                gap_size: 5,
                inner_gap: 5,
                bar_height: 24,
                bar_background: owned("#121212"),
                bar_foreground: owned("#DFDFDF"),
                bar_font: owned("Inter-Regular"),
                bar_font_size: 12,
            },
            keybindings,
            layouts,
            rules,
        }
    }

    /// Checks the configuration and returns what is wrong with it, one line
    /// per finding. The findings are for the user to read; a configuration
    /// with findings can still be used.
    pub fn validate(&self) -> (errors: Vec<String>)
        ensures
            string_views(errors@) == validation_errors(*self),
    {
        let mut errors: Vec<String> = Vec::new();
        if self.tags.names.len() == 0 {
            errors.push(owned("At least one tag must be configured"));
        }
        let ghost first = string_views(errors@);
        assert(first =~= (if self.tags.names.len() == 0 {
            seq!["At least one tag must be configured"@]
        } else {
            Seq::empty()
        }));

        let mut i: usize = 0;
        while i < self.tags.names.len()
            invariant
                i <= self.tags.names.len(),
                string_views(errors@) == first + tag_name_errors(self.tags.names@, i as int),
            decreases self.tags.names.len() - i,
        {
            let ghost before = string_views(errors@);
            if self.tags.names[i].as_str().unicode_len() == 0 {
                let mut line = owned("Tag ");
                push_decimal(&mut line, i as u64);
                line.append(" has empty name");
                errors.push(line);
                assert(string_views(errors@) =~= before.push(
                    "Tag "@ + decimal(i as nat) + " has empty name"@,
                ));
            }
            i += 1;
            assert(string_views(errors@) =~= first + tag_name_errors(self.tags.names@, i as int));
        }
        let ghost second = string_views(errors@);

        let mut j: usize = 0;
        while j < self.tags.layouts.len()
            invariant
                j <= self.tags.layouts.len(),
                string_views(errors@) == second + layout_reference_errors(
                    self.tags.layouts@,
                    self.layouts@,
                    j as int,
                ),
            decreases self.tags.layouts.len() - j,
        {
            let ghost before = string_views(errors@);
            let name = self.tags.layouts[j].as_str();
            if !self.layouts.contains_key(name) {
                let line = owned("Layout '").concat(name).concat("' referenced but not defined");
                errors.push(line);
                assert(string_views(errors@) =~= before.push(
                    "Layout '"@ + name@ + "' referenced but not defined"@,
                ));
            }
            j += 1;
            assert(string_views(errors@) =~= second + layout_reference_errors(
                self.tags.layouts@,
                self.layouts@,
                j as int,
            ));
        }
        let ghost third = string_views(errors@);

        if self.appearance.border_width > 10 {
            errors.push(owned("Border width should not exceed 10 pixels"));
        }
        if self.appearance.gap_size > 50 {
            errors.push(owned("Gap size should not exceed 50 pixels"));
        }
        if self.appearance.bar_height > 100 {
            errors.push(owned("Bar height should not exceed 100 pixels"));
        }
        assert(string_views(errors@) =~= third + appearance_errors(self.appearance));
        let ghost fourth = string_views(errors@);

        let count: usize = self.keybindings.len();
        let mut k: usize = 0;
        while k < count
            invariant
                k <= count,
                count == self.keybindings.entries().len(),
                string_views(errors@) == fourth + binding_errors(
                    self.keybindings.entries(),
                    k as int,
                ),
            decreases count - k,
        {
            let key = self.keybindings.key_at(k);
            let action = self.keybindings.value_at(k);
            let ghost before = string_views(errors@);
            if key.as_str().unicode_len() == 0 {
                errors.push(owned("Empty keybinding found"));
                assert(string_views(errors@) =~= before.push("Empty keybinding found"@));
            }
            let ghost with_key = string_views(errors@);
            if action.as_str().unicode_len() == 0 {
                let line = owned("Empty action for keybinding '").concat(key.as_str()).concat("'");
                errors.push(line);
                assert(string_views(errors@) =~= with_key.push(
                    "Empty action for keybinding '"@ + key@ + "'"@,
                ));
            }
            k += 1;
            assert(string_views(errors@) =~= fourth + binding_errors(
                self.keybindings.entries(),
                k as int,
            ));
        }
        assert(string_views(errors@) =~= validation_errors(*self));
        errors
    }
}

} // verus!
