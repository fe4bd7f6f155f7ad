//! Actions: what a key binding or a command asks the window manager to do.
//!
//! An action is a line of words. The first word is the verb; the verbs
//! `spawn`, `switch_tag` and `move_to_tag` take the second word as their
//! argument.

use crate::error::InstantError;
use crate::text::{parse_number, parse_u32, split_whitespace, str_eq, views_of, words};
use crate::types::{GeneralConfig, TagSwitch, WindowId};
use vstd::prelude::*;

verus! {

/// The verbs that an action can begin with.
#[derive(Debug, Clone, Copy, PartialEq, Eq, Structural)]
pub enum Verb {
    /// Start a program.
    Spawn,
    /// Ask the focused window to close.
    CloseWindow,
    /// Make the focused window floating, or tiled again.
    ToggleFloating,
    /// Let the focused window enter or leave fullscreen.
    ToggleFullscreen,
    /// Give the current tag the next layout.
    CycleLayout,
    /// Show another tag.
    SwitchTag,
    /// Move the focused window to another tag.
    MoveToTag,
    /// Move the focus to the left.
    FocusLeft,
    /// Move the focus to the right.
    FocusRight,
    /// Move the focus upwards.
    FocusUp,
    /// Move the focus downwards.
    FocusDown,
    /// Move the focused window to the left.
    MoveLeft,
    /// Move the focused window to the right.
    MoveRight,
    /// Move the focused window upwards.
    MoveUp,
    /// Move the focused window downwards.
    MoveDown,
    /// Widen the master column.
    IncreaseMaster,
    /// Narrow the master column.
    DecreaseMaster,
    /// Add a master slot.
    IncreaseMasterCount,
    /// Take a master slot away.
    DecreaseMasterCount,
    /// Read the configuration again.
    ReloadConfig,
    /// End the session.
    Exit,
}

/// The verb that a word names. `toggle_layout` is another name for
/// `cycle_layout`.
pub open spec fn verb_named(word: Seq<char>) -> Option<Verb> {
    if word == "spawn"@ {
        Some(Verb::Spawn)
    } else if word == "close_window"@ {
        Some(Verb::CloseWindow)
    } else if word == "toggle_floating"@ {
        Some(Verb::ToggleFloating)
    } else if word == "toggle_fullscreen"@ {
        Some(Verb::ToggleFullscreen)
    } else if word == "toggle_layout"@ {
        Some(Verb::CycleLayout)
    } else if word == "cycle_layout"@ {
        Some(Verb::CycleLayout)
    } else if word == "switch_tag"@ {
        Some(Verb::SwitchTag)
    } else if word == "move_to_tag"@ {
        Some(Verb::MoveToTag)
    } else if word == "focus_left"@ {
        Some(Verb::FocusLeft)
    } else if word == "focus_right"@ {
        Some(Verb::FocusRight)
    } else if word == "focus_up"@ {
        Some(Verb::FocusUp)
    } else if word == "focus_down"@ {
        Some(Verb::FocusDown)
    } else if word == "move_left"@ {
        Some(Verb::MoveLeft)
    } else if word == "move_right"@ {
        Some(Verb::MoveRight)
    } else if word == "move_up"@ {
        Some(Verb::MoveUp)
    } else if word == "move_down"@ {
        Some(Verb::MoveDown)
    } else if word == "increase_master"@ {
        Some(Verb::IncreaseMaster)
    } else if word == "decrease_master"@ {
        Some(Verb::DecreaseMaster)
    } else if word == "increase_master_count"@ {
        Some(Verb::IncreaseMasterCount)
    } else if word == "decrease_master_count"@ {
        Some(Verb::DecreaseMasterCount)
    } else if word == "reload_config"@ {
        Some(Verb::ReloadConfig)
    } else if word == "exit"@ {
        Some(Verb::Exit)
    } else {
        None
    }
}

/// Reads a verb. A word that names no verb gives `None`.
pub fn parse_verb(word: &str) -> (verb: Option<Verb>)
    ensures
        verb == verb_named(word@),
{
    if str_eq(word, "spawn") {
        Some(Verb::Spawn)
    } else if str_eq(word, "close_window") {
        Some(Verb::CloseWindow)
    } else if str_eq(word, "toggle_floating") {
        Some(Verb::ToggleFloating)
    } else if str_eq(word, "toggle_fullscreen") {
        Some(Verb::ToggleFullscreen)
    } else if str_eq(word, "toggle_layout") {
        Some(Verb::CycleLayout)
    } else if str_eq(word, "cycle_layout") {
        Some(Verb::CycleLayout)
    } else if str_eq(word, "switch_tag") {
        Some(Verb::SwitchTag)
    } else if str_eq(word, "move_to_tag") {
        Some(Verb::MoveToTag)
    } else if str_eq(word, "focus_left") {
        Some(Verb::FocusLeft)
    } else if str_eq(word, "focus_right") {
        Some(Verb::FocusRight)
    } else if str_eq(word, "focus_up") {
        Some(Verb::FocusUp)
    } else if str_eq(word, "focus_down") {
        Some(Verb::FocusDown)
    } else if str_eq(word, "move_left") {
        Some(Verb::MoveLeft)
    } else if str_eq(word, "move_right") {
        Some(Verb::MoveRight)
    } else if str_eq(word, "move_up") {
        Some(Verb::MoveUp)
    } else if str_eq(word, "move_down") {
        Some(Verb::MoveDown)
    } else if str_eq(word, "increase_master") {
        Some(Verb::IncreaseMaster)
    } else if str_eq(word, "decrease_master") {
        Some(Verb::DecreaseMaster)
    } else if str_eq(word, "increase_master_count") {
        Some(Verb::IncreaseMasterCount)
    } else if str_eq(word, "decrease_master_count") {
        Some(Verb::DecreaseMasterCount)
    } else if str_eq(word, "reload_config") {
        Some(Verb::ReloadConfig)
    } else if str_eq(word, "exit") {
        Some(Verb::Exit)
    } else {
        None
    }
}

/// The tag that an action's argument names, as a position in the tag list.
/// Actions count tags from one; the argument has to be a number from 1 to
/// the largest `u32`.
pub open spec fn tag_argument(words: Seq<Seq<char>>) -> Option<int> {
    if words.len() > 1 {
        match parse_number(words[1]) {
            Some(n) => if 1 <= n <= u32::MAX {
                Some(n - 1)
            } else {
                None
            },
            None => None,
        }
    } else {
        None
    }
}

/// Reads the tag that an action's argument names.
pub fn read_tag_argument(parts: &Vec<&str>) -> (tag: Option<u32>)
    ensures
        match tag {
            Some(t) => tag_argument(views_of(parts@)) == Some(t as int),
            None => tag_argument(views_of(parts@)) is None,
        },
{
    if parts.len() > 1 {
        assert(views_of(parts@)[1] == parts@[1]@);
        match parse_u32(parts[1]) {
            Some(number) => if number > 0 {
                Some(number - 1)
            } else {
                None
            },
            None => None,
        }
    } else {
        None
    }
}

/// The command line that `spawn` starts for `target`: the configured
/// terminal, browser or launcher where `target` is one of these words, else
/// `target` itself.
pub open spec fn spawn_command(general: GeneralConfig, target: Seq<char>) -> Seq<char> {
    if target == "terminal"@ {
        general.terminal@
    } else if target == "browser"@ {
        general.browser@
    } else if target == "launcher"@ {
        general.launcher@
    } else {
        target
    }
}

/// What is left to do outside the window manager once an action has been
/// carried out.
#[derive(Debug, Clone)]
pub enum ActionEffect {
    /// Nothing.
    Nothing,
    /// Start this command line, without waiting for it.
    Spawn(String),
    /// Ask this window to close.
    CloseWindow(WindowId),
    /// Hide the windows of the first tag and show those of the second.
    Switched(TagSwitch),
    /// Read the configuration again.
    ReloadConfig,
    /// End the session.
    Exit,
}

/// An `ActionEffect` with its command line as characters.
pub enum EffectView {
    Nothing,
    Spawn(Seq<char>),
    CloseWindow(WindowId),
    Switched(TagSwitch),
    ReloadConfig,
    Exit,
}

impl View for ActionEffect {
    type V = EffectView;

    open spec fn view(&self) -> EffectView {
        match self {
            ActionEffect::Nothing => EffectView::Nothing,
            ActionEffect::Spawn(command) => EffectView::Spawn(command@),
            ActionEffect::CloseWindow(window) => EffectView::CloseWindow(*window),
            ActionEffect::Switched(switch) => EffectView::Switched(*switch),
            ActionEffect::ReloadConfig => EffectView::ReloadConfig,
            ActionEffect::Exit => EffectView::Exit,
        }
    }
}

/// The verb of an action that is well formed for a session with
/// `tag_count` tags. An action is malformed where it has no words, where its
/// first word names no verb, where `spawn` has no target, and where
/// `switch_tag` or `move_to_tag` has no number that names a tag.
pub open spec fn checked_action(words: Seq<Seq<char>>, tag_count: nat) -> Result<
    Verb,
    InstantError,
> {
    if words.len() == 0 {
        Err(InstantError::InvalidArgument)
    } else {
        match verb_named(words[0]) {
            Some(Verb::Spawn) => if words.len() > 1 {
                Ok(Verb::Spawn)
            } else {
                Err(InstantError::InvalidArgument)
            },
            Some(Verb::SwitchTag) => match tag_argument(words) {
                Some(t) => if t < tag_count {
                    Ok(Verb::SwitchTag)
                } else {
                    Err(InstantError::InvalidArgument)
                },
                None => Err(InstantError::InvalidArgument),
            },
            Some(Verb::MoveToTag) => match tag_argument(words) {
                Some(t) => if t < tag_count {
                    Ok(Verb::MoveToTag)
                } else {
                    Err(InstantError::InvalidArgument)
                },
                None => Err(InstantError::InvalidArgument),
            },
            Some(verb) => Ok(verb),
            None => Err(InstantError::InvalidArgument),
        }
    }
}

/// Checks an action before it is bound to a key: gives its verb where the
/// action is well formed for a session with `tag_count` tags, and
/// `InvalidArgument` where it is not. The window manager itself carries out
/// what it can and ignores a malformed action.
pub fn check_action(action: &str, tag_count: usize) -> (r: Result<Verb, InstantError>)
    ensures
        r == checked_action(words(action@), tag_count as nat),
{
    let parts = split_whitespace(action);
    if parts.len() == 0 {
        return Err(InstantError::InvalidArgument);
    }
    assert(words(action@)[0] == parts@[0]@);
    let verb = match parse_verb(parts[0]) {
        Some(verb) => verb,
        None => {
            return Err(InstantError::InvalidArgument);
        },
    };
    match verb {
        Verb::Spawn => {
            if parts.len() > 1 {
                Ok(verb)
            } else {
                Err(InstantError::InvalidArgument)
            }
        },
        Verb::SwitchTag | Verb::MoveToTag => match read_tag_argument(&parts) {
            Some(tag) => {
                if (tag as usize) < tag_count {
                    Ok(verb)
                } else {
                    Err(InstantError::InvalidArgument)
                }
            },
            None => Err(InstantError::InvalidArgument),
        },
        _ => Ok(verb),
    }
}

} // verus!
