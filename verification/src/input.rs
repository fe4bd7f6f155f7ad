//! Input handling: from key presses and pointer events to changes of the
//! window manager's state.

use crate::action::{
    parse_verb, read_tag_argument, tag_argument, verb_named, ActionEffect, EffectView, Verb,
};
use crate::keybindings::{
    KEY_1, KEY_2, KEY_3, KEY_4, KEY_5, KEY_6, KEY_7, KEY_8, KEY_9, KEY_E, KEY_F, KEY_H, KEY_J,
    KEY_K, KEY_L, KEY_Q, KEY_R, KEY_RETURN, KEY_SPACE, KEY_SUPER_L, KEY_SUPER_R,
};
use crate::layouts::pin_coordinate;
use crate::model::WmView;
use crate::text::{owned, split_whitespace, words};
use crate::types::{Config, Rectangle, TagId, TagSwitch, WindowId};
use crate::window_manager::WindowManager;
use vstd::prelude::*;
use vstd::string::StringExecFns;

verus! {

/// Whether a key or a button went down or came up.
#[derive(Debug, Clone, Copy, PartialEq, Eq, Structural)]
pub enum KeyState {
    Pressed,
    Released,
}

/// The code of the left pointer button.
pub const BUTTON_LEFT: u32 = 0x110;

/// The code of the right pointer button.
pub const BUTTON_RIGHT: u32 = 0x111;

/// The smallest width and height that resizing leaves a window.
pub const MIN_WINDOW_EXTENT: u32 = 100;

/// How close to an edge, in pixels, the pointer has to be to take hold of
/// it.
pub const EDGE_THRESHOLD: u32 = 10;

/// The edge or corner that a resize takes hold of.
#[derive(Debug, Clone, Copy, PartialEq, Eq, Structural)]
pub enum ResizeEdge {
    Top,
    Bottom,
    Left,
    Right,
    TopLeft,
    TopRight,
    BottomLeft,
    BottomRight,
}

/// A window that is being dragged: where the pointer took hold and where the
/// window then was.
#[derive(Debug, Clone, Copy)]
pub struct DragState {
    pub window_id: WindowId,
    pub start_pos: (i32, i32),
    pub start_geometry: Rectangle,
}

/// A window that is being resized.
#[derive(Debug, Clone, Copy)]
pub struct ResizeState {
    pub window_id: WindowId,
    pub start_pos: (i32, i32),
    pub start_geometry: Rectangle,
    pub edge: ResizeEdge,
}

/// What a key event led to.
#[derive(Debug, Clone)]
pub struct KeyOutcome {
    /// The key was bound and its action was carried out.
    pub handled: bool,
    /// What is left to do outside the window manager.
    pub effect: ActionEffect,
}

/// Turns pointer and key events into changes of the window manager's state.
pub struct InputHandler {
    pub config: Config,
    pub mod_key_pressed: bool,
    pub drag_state: Option<DragState>,
    pub resize_state: Option<ResizeState>,
}

/// The name of a key that can be bound together with the Super key.
pub open spec fn bound_key_name(keysym: u32) -> Option<Seq<char>> {
    if keysym == KEY_1 {
        Some("1"@)
    } else if keysym == KEY_2 {
        Some("2"@)
    } else if keysym == KEY_3 {
        Some("3"@)
    } else if keysym == KEY_4 {
        Some("4"@)
    } else if keysym == KEY_5 {
        Some("5"@)
    } else if keysym == KEY_6 {
        Some("6"@)
    } else if keysym == KEY_7 {
        Some("7"@)
    } else if keysym == KEY_8 {
        Some("8"@)
    } else if keysym == KEY_9 {
        Some("9"@)
    } else if keysym == KEY_RETURN {
        Some("Return"@)
    } else if keysym == KEY_Q {
        Some("q"@)
    } else if keysym == KEY_F {
        Some("f"@)
    } else if keysym == KEY_SPACE {
        Some("space"@)
    } else if keysym == KEY_H {
        Some("h"@)
    } else if keysym == KEY_J {
        Some("j"@)
    } else if keysym == KEY_K {
        Some("k"@)
    } else if keysym == KEY_L {
        Some("l"@)
    } else if keysym == KEY_R {
        Some("r"@)
    } else if keysym == KEY_E {
        Some("e"@)
    } else {
        None
    }
}

fn bound_key(keysym: u32) -> (name: Option<&'static str>)
    ensures
        match name {
            Some(text) => bound_key_name(keysym) == Some(text@),
            None => bound_key_name(keysym) is None,
        },
{
    if keysym == KEY_1 {
        Some("1")
    } else if keysym == KEY_2 {
        Some("2")
    } else if keysym == KEY_3 {
        Some("3")
    } else if keysym == KEY_4 {
        Some("4")
    } else if keysym == KEY_5 {
        Some("5")
    } else if keysym == KEY_6 {
        Some("6")
    } else if keysym == KEY_7 {
        Some("7")
    } else if keysym == KEY_8 {
        Some("8")
    } else if keysym == KEY_9 {
        Some("9")
    } else if keysym == KEY_RETURN {
        Some("Return")
    } else if keysym == KEY_Q {
        Some("q")
    } else if keysym == KEY_F {
        Some("f")
    } else if keysym == KEY_SPACE {
        Some("space")
    } else if keysym == KEY_H {
        Some("h")
    } else if keysym == KEY_J {
        Some("j")
    } else if keysym == KEY_K {
        Some("k")
    } else if keysym == KEY_L {
        Some("l")
    } else if keysym == KEY_R {
        Some("r")
    } else if keysym == KEY_E {
        Some("e")
    } else {
        None
    }
}

/// How far the centre of `to` lies from the centre of `from` in a
/// direction, counted along that direction's axis alone: `Some` where the
/// centre of `to` lies strictly on that side, `None` where it does not. A
/// direction with a horizontal part is horizontal; a direction without any
/// part leads nowhere.
pub open spec fn distance_toward(from: Rectangle, to: Rectangle, dx: i32, dy: i32) -> Option<int> {
    if dx != 0 {
        if dx > 0 && to.center_x() > from.center_x() {
            Some(to.center_x() - from.center_x())
        } else if dx < 0 && to.center_x() < from.center_x() {
            Some(from.center_x() - to.center_x())
        } else {
            None
        }
    } else if dy != 0 {
        if dy > 0 && to.center_y() > from.center_y() {
            Some(to.center_y() - from.center_y())
        } else if dy < 0 && to.center_y() < from.center_y() {
            Some(from.center_y() - to.center_y())
        } else {
            None
        }
    } else {
        None
    }
}

/// The nearest window found so far and its distance.
pub struct Nearest {
    pub window: WindowId,
    pub distance: int,
}

/// The nearest other window in a direction among the first `upto` windows
/// of `list`: a later window replaces an earlier one only where it is
/// strictly nearer, so of several windows at the same distance the first
/// wins.
pub open spec fn nearest_toward(
    state: WmView,
    list: Seq<WindowId>,
    current: WindowId,
    dx: i32,
    dy: i32,
    upto: int,
) -> Option<Nearest>
    decreases upto,
{
    if upto <= 0 {
        None
    } else {
        let before = nearest_toward(state, list, current, dx, dy, upto - 1);
        let id = list[upto - 1];
        if id == current || !state.windows.contains_key(id) {
            before
        } else {
            match distance_toward(
                state.windows[current].geometry,
                state.windows[id].geometry,
                dx,
                dy,
            ) {
                Some(distance) => match before {
                    Some(best) => if distance < best.distance {
                        Some(Nearest { window: id, distance })
                    } else {
                        before
                    },
                    None => Some(Nearest { window: id, distance }),
                },
                None => before,
            }
        }
    }
}

/// The state after the focus has moved from the focused window of the
/// current tag to the nearest other window of that tag in a direction.
/// Nothing changes where no window is focused or no window lies in that
/// direction.
pub open spec fn focus_toward(state: WmView, dx: i32, dy: i32) -> WmView {
    match state.focused() {
        Some(current) => {
            let t = state.current();
            let list = state.tags[t].windows;
            match nearest_toward(state, list, current, dx, dy, list.len() as int) {
                Some(best) => state.with_focus(t, Some(best.window)),
                None => state,
            }
        },
        None => state,
    }
}

/// Every window that `nearest_toward` passes over is no nearer than the one
/// it returns, and an equally near one does not stand before it in the
/// list.
pub proof fn lemma_nearest_is_nearest(
    state: WmView,
    list: Seq<WindowId>,
    current: WindowId,
    dx: i32,
    dy: i32,
    upto: int,
    other: int,
)
    requires
        0 <= other < upto <= list.len(),
        list[other] != current,
        state.windows.contains_key(list[other]),
        distance_toward(
            state.windows[current].geometry,
            state.windows[list[other]].geometry,
            dx,
            dy,
        ) is Some,
    ensures
        nearest_toward(state, list, current, dx, dy, upto) is Some,
        nearest_toward(state, list, current, dx, dy, upto).unwrap().distance <= distance_toward(
            state.windows[current].geometry,
            state.windows[list[other]].geometry,
            dx,
            dy,
        ).unwrap(),
    decreases upto,
{
    if other < upto - 1 {
        lemma_nearest_is_nearest(state, list, current, dx, dy, upto - 1, other);
    }
}

/// The window that `nearest_toward` returns is another window of the list
/// that lies in the direction, at the distance that is returned with it.
pub proof fn lemma_nearest_is_candidate(
    state: WmView,
    list: Seq<WindowId>,
    current: WindowId,
    dx: i32,
    dy: i32,
    upto: int,
)
    requires
        0 <= upto <= list.len(),
        nearest_toward(state, list, current, dx, dy, upto) is Some,
    ensures
        ({
            let best = nearest_toward(state, list, current, dx, dy, upto).unwrap();
            &&& best.window != current
            &&& state.windows.contains_key(best.window)
            &&& list.take(upto).contains(best.window)
            &&& distance_toward(
                state.windows[current].geometry,
                state.windows[best.window].geometry,
                dx,
                dy,
            ) == Some(best.distance)
        }),
    decreases upto,
{
    let best = nearest_toward(state, list, current, dx, dy, upto).unwrap();
    if upto > 0 {
        if nearest_toward(state, list, current, dx, dy, upto - 1) == Some(best) {
            lemma_nearest_is_candidate(state, list, current, dx, dy, upto - 1);
            let shorter = list.take(upto - 1);
            let i = choose|i: int| 0 <= i < shorter.len() && #[trigger] shorter[i] == best.window;
            assert(list.take(upto)[i] == best.window);
        } else {
            assert(list.take(upto)[upto - 1] == best.window);
        }
    }
}

/// A rectangle moved by the way that the pointer has gone since it took
/// hold.
pub open spec fn dragged(start: Rectangle, from: (i32, i32), to: (i32, i32)) -> Rectangle {
    Rectangle {
        x: pin_coordinate(start.x + (to.0 - from.0)),
        y: pin_coordinate(start.y + (to.1 - from.1)),
        ..start
    }
}

/// A side of a window after the pointer has pulled it by `delta`: at least
/// 100 pixels and at most what `u32` holds.
pub open spec fn pulled(extent: u32, delta: int) -> u32 {
    if extent + delta < MIN_WINDOW_EXTENT {
        MIN_WINDOW_EXTENT
    } else if extent + delta > u32::MAX {
        u32::MAX
    } else {
        (extent + delta) as u32
    }
}

/// A rectangle resized by the way that the pointer has gone since it took
/// hold of an edge. Only the right edge, the bottom edge and the corner
/// between them can be pulled.
pub open spec fn resized(
    current: Rectangle,
    start: Rectangle,
    edge: ResizeEdge,
    from: (i32, i32),
    to: (i32, i32),
) -> Rectangle {
    match edge {
        ResizeEdge::Right => Rectangle { width: pulled(start.width, to.0 - from.0), ..current },
        ResizeEdge::Bottom => Rectangle { height: pulled(start.height, to.1 - from.1), ..current },
        ResizeEdge::BottomRight => Rectangle {
            width: pulled(start.width, to.0 - from.0),
            height: pulled(start.height, to.1 - from.1),
            ..current
        },
        _ => current,
    }
}

/// The edge that the pointer takes hold of: the corner where it is within
/// 10 pixels of both the right and the bottom edge, the bottom edge where it
/// is near that alone, else the right edge.
pub open spec fn edge_near(rect: Rectangle, pos: (i32, i32)) -> ResizeEdge {
    let near_right = -EDGE_THRESHOLD <= pos.0 - rect.right() <= EDGE_THRESHOLD;
    let near_bottom = -EDGE_THRESHOLD <= pos.1 - rect.bottom() <= EDGE_THRESHOLD;
    if near_right && near_bottom {
        ResizeEdge::BottomRight
    } else if near_bottom {
        ResizeEdge::Bottom
    } else {
        ResizeEdge::Right
    }
}

/// What a press of the left button finds among the windows of `list` from
/// `from` on, in the list's order: every window under the pointer is
/// focused in turn, and the first floating one of them is taken hold of,
/// which ends the search.
pub struct PressScan {
    /// The window that is focused last.
    pub focus: Option<WindowId>,
    /// The floating window that is taken hold of.
    pub held: Option<WindowId>,
}

/// The result of the search that `PressScan` describes.
pub open spec fn scan_press(
    state: WmView,
    list: Seq<WindowId>,
    pos: (i32, i32),
    from: int,
    focus: Option<WindowId>,
) -> PressScan
    decreases list.len() - from,
{
    if from < 0 || from >= list.len() {
        PressScan { focus, held: None }
    } else {
        let id = list[from];
        if state.windows.contains_key(id) && state.windows[id].geometry.spec_contains(pos) {
            if state.windows[id].floating {
                PressScan { focus: Some(id), held: Some(id) }
            } else {
                scan_press(state, list, pos, from + 1, Some(id))
            }
        } else {
            scan_press(state, list, pos, from + 1, focus)
        }
    }
}

/// The first floating window under the pointer among the windows of `list`
/// from `from` on.
pub open spec fn first_floating_under(
    state: WmView,
    list: Seq<WindowId>,
    pos: (i32, i32),
    from: int,
) -> Option<WindowId>
    decreases list.len() - from,
{
    if from < 0 || from >= list.len() {
        None
    } else {
        let id = list[from];
        if state.windows.contains_key(id) && state.windows[id].geometry.spec_contains(pos)
            && state.windows[id].floating {
            Some(id)
        } else {
            first_floating_under(state, list, pos, from + 1)
        }
    }
}

/// The state after an action, given as its words, has come in through a key
/// binding of the input handler.
///
/// `close_window` drops the focused window; `focus_left`, `focus_right`,
/// `focus_up` and `focus_down` move the focus to the nearest window in that
/// direction; `toggle_floating`, `switch_tag` and `move_to_tag` do what
/// they do everywhere. Every other action leaves the state as it is.
pub open spec fn after_input_action(state: WmView, words: Seq<Seq<char>>) -> WmView {
    if words.len() == 0 {
        state
    } else {
        match verb_named(words[0]) {
            Some(Verb::CloseWindow) => match state.focused() {
                Some(id) => state.unmanage(id),
                None => state,
            },
            Some(Verb::ToggleFloating) => match state.focused() {
                Some(id) => state.toggle_floating(id),
                None => state,
            },
            Some(Verb::SwitchTag) => match tag_argument(words) {
                Some(t) => state.switch_tag(t),
                None => state,
            },
            Some(Verb::MoveToTag) => match (tag_argument(words), state.focused()) {
                (Some(t), Some(id)) => if t < state.tags.len() {
                    state.move_to_tag(id, t)
                } else {
                    state
                },
                _ => state,
            },
            Some(Verb::FocusLeft) => focus_toward(state, -1i32, 0),
            Some(Verb::FocusDown) => focus_toward(state, 0, 1),
            Some(Verb::FocusUp) => focus_toward(state, 0, -1i32),
            Some(Verb::FocusRight) => focus_toward(state, 1, 0),
            _ => state,
        }
    }
}

/// What an action that has come in through the input handler leaves to do
/// outside the window manager: `spawn` asks for its target to be started as
/// it stands, `close_window` for the focused window to be told, `switch_tag`
/// for the tags to be shown and hidden, `reload_config` and `exit` for just
/// that.
pub open spec fn input_action_effect(state: WmView, words: Seq<Seq<char>>) -> EffectView {
    if words.len() == 0 {
        EffectView::Nothing
    } else {
        match verb_named(words[0]) {
            Some(Verb::Spawn) => if words.len() > 1 {
                EffectView::Spawn(words[1])
            } else {
                EffectView::Nothing
            },
            Some(Verb::CloseWindow) => match state.focused() {
                Some(window) => EffectView::CloseWindow(window),
                None => EffectView::Nothing,
            },
            Some(Verb::SwitchTag) => match tag_argument(words) {
                Some(t) => if t < state.tags.len() && t != state.current() {
                    EffectView::Switched(
                        TagSwitch { hidden: state.current_tag, shown: TagId(t as u32) },
                    )
                } else {
                    EffectView::Nothing
                },
                None => EffectView::Nothing,
            },
            Some(Verb::ReloadConfig) => EffectView::ReloadConfig,
            Some(Verb::Exit) => EffectView::Exit,
            _ => EffectView::Nothing,
        }
    }
}

fn distance(from: &Rectangle, to: &Rectangle, dx: i32, dy: i32) -> (r: Option<i64>)
    ensures
        match r {
            Some(d) => distance_toward(*from, *to, dx, dy) == Some(d as int),
            None => distance_toward(*from, *to, dx, dy) is None,
        },
{
    let a = from.center();
    let b = to.center();
    if dx != 0 {
        if dx > 0 && b.0 > a.0 {
            Some(b.0 - a.0)
        } else if dx < 0 && b.0 < a.0 {
            Some(a.0 - b.0)
        } else {
            None
        }
    } else if dy != 0 {
        if dy > 0 && b.1 > a.1 {
            Some(b.1 - a.1)
        } else if dy < 0 && b.1 < a.1 {
            Some(a.1 - b.1)
        } else {
            None
        }
    } else {
        None
    }
}

fn pull(extent: u32, delta: i64) -> (r: u32)
    requires
        -0x1_0000_0000 <= delta <= 0x1_0000_0000,
    ensures
        r == pulled(extent, delta as int),
{
    let moved: i64 = extent as i64 + delta;
    if moved < MIN_WINDOW_EXTENT as i64 {
        MIN_WINDOW_EXTENT
    } else if moved > u32::MAX as i64 {
        u32::MAX
    } else {
        moved as u32
    }
}

fn pin(value: i64) -> (r: i32)
    ensures
        r == pin_coordinate(value as int),
{
    if value > i32::MAX as i64 {
        i32::MAX
    } else if value < i32::MIN as i64 {
        i32::MIN
    } else {
        value as i32
    }
}

/// Moves the focus of the current tag to the nearest other window in a
/// direction, judged by the centres of the windows. `dx` below zero looks
/// to the left and above zero to the right; with `dx` zero, `dy` below zero
/// looks upwards and above zero downwards.
pub fn focus_direction(wm: &mut WindowManager, dx: i32, dy: i32)
    requires
        old(wm).wf(),
    ensures
        final(wm).wf(),
        final(wm).same_settings(old(wm)),
        final(wm).window_info == old(wm).window_info,
        final(wm)@ == focus_toward(old(wm)@, dx, dy),
{
    let current = match wm.get_focused_window() {
        Some(current) => current,
        None => {
            return ;
        },
    };
    proof {
        wm@.lemma_focused_window_is_managed();
    }
    let from = match wm.get_window(current) {
        Some(record) => record.geometry,
        None => {
            return ;
        },
    };
    let tag = wm.current_tag;
    let list = wm.get_windows_for_current_tag();
    let ghost state = wm@;
    let mut best: Option<(WindowId, i64)> = None;
    let mut i: usize = 0;
    while i < list.len()
        invariant
            i <= list.len(),
            state == wm@,
            wm.wf(),
            from == state.windows[current].geometry,
            list@ == state.tags[state.current()].windows,
            match best {
                Some(found) => nearest_toward(state, list@, current, dx, dy, i as int) == Some(
                    Nearest { window: found.0, distance: found.1 as int },
                ),
                None => nearest_toward(state, list@, current, dx, dy, i as int) is None,
            },
        decreases list.len() - i,
    {
        let id = list[i];
        if id != current {
            match wm.get_window(id) {
                Some(other) => {
                    match distance(&from, &other.geometry, dx, dy) {
                        Some(d) => {
                            let nearer = match best {
                                Some(found) => d < found.1,
                                None => true,
                            };
                            if nearer {
                                best = Some((id, d));
                            }
                        },
                        None => {},
                    }
                },
                None => {},
            }
        }
        i += 1;
    }
    match best {
        Some(found) => {
            proof {
                lemma_nearest_is_candidate(state, list@, current, dx, dy, list.len() as int);
                assert(list@.take(list.len() as int) =~= list@);
            }
            let _ = wm.focus_window(found.0);
            proof {
                state.lemma_only_its_tag_lists(found.0);
            }
        },
        None => {},
    }
}

impl InputHandler {
    /// An input handler that holds no window and has not seen the Super key
    /// go down.
    pub fn new(config: Config) -> (handler: Self)
        ensures
            handler.config == config,
            !handler.mod_key_pressed,
            handler.drag_state is None,
            handler.resize_state is None,
    {
        InputHandler { config, mod_key_pressed: false, drag_state: None, resize_state: None }
    }

    /// The handler differs from `other` at most in whether Super is held.
    pub open spec fn same_but_modifier(&self, other: &InputHandler) -> bool {
        &&& self.config == other.config
        &&& self.drag_state == other.drag_state
        &&& self.resize_state == other.resize_state
    }

    /// Carries out an action that a key binding has triggered. A line
    /// without words, an unknown verb, a missing or unreadable argument and
    /// a tag number that names no tag change nothing and are no error.
    pub fn execute_action(&mut self, wm: &mut WindowManager, action: &str) -> (effect:
        ActionEffect)
        requires
            old(wm).wf(),
        ensures
            *final(self) == *old(self),
            final(wm).wf(),
            final(wm).same_settings(old(wm)),
            final(wm)@ == after_input_action(old(wm)@, words(action@)),
            effect@ == input_action_effect(old(wm)@, words(action@)),
    {
        let parts = split_whitespace(action);
        let ghost line = words(action@);
        if parts.len() == 0 {
            return ActionEffect::Nothing;
        }
        assert(line[0] == parts@[0]@);
        let verb = match parse_verb(parts[0]) {
            Some(verb) => verb,
            None => {
                return ActionEffect::Nothing;
            },
        };
        match verb {
            Verb::Spawn => {
                if parts.len() > 1 {
                    assert(line[1] == parts@[1]@);
                    ActionEffect::Spawn(owned(parts[1]))
                } else {
                    ActionEffect::Nothing
                }
            },
            Verb::CloseWindow => match wm.get_focused_window() {
                Some(window) => {
                    wm.unmanage_window(window);
                    ActionEffect::CloseWindow(window)
                },
                None => ActionEffect::Nothing,
            },
            Verb::ToggleFloating => {
                match wm.get_focused_window() {
                    Some(window) => {
                        proof {
                            old(wm)@.lemma_focused_window_is_managed();
                        }
                        let _ = wm.toggle_floating(window);
                    },
                    None => {},
                }
                ActionEffect::Nothing
            },
            Verb::SwitchTag => match read_tag_argument(&parts) {
                Some(tag) => match wm.switch_to_tag(tag) {
                    Some(switch) => {
                        proof {
                            assert(wm@.tags =~= old(wm)@.tags);
                        }
                        ActionEffect::Switched(switch)
                    },
                    None => ActionEffect::Nothing,
                },
                None => ActionEffect::Nothing,
            },
            Verb::MoveToTag => {
                match read_tag_argument(&parts) {
                    Some(tag) => match wm.get_focused_window() {
                        Some(window) => {
                            proof {
                                old(wm)@.lemma_focused_window_is_managed();
                            }
                            let _ = wm.move_window_to_tag(window, tag);
                        },
                        None => {},
                    },
                    None => {},
                }
                ActionEffect::Nothing
            },
            Verb::FocusLeft => {
                focus_direction(wm, -1, 0);
                ActionEffect::Nothing
            },
            Verb::FocusDown => {
                focus_direction(wm, 0, 1);
                ActionEffect::Nothing
            },
            Verb::FocusUp => {
                focus_direction(wm, 0, -1);
                ActionEffect::Nothing
            },
            Verb::FocusRight => {
                focus_direction(wm, 1, 0);
                ActionEffect::Nothing
            },
            Verb::ReloadConfig => ActionEffect::ReloadConfig,
            Verb::Exit => ActionEffect::Exit,
            _ => ActionEffect::Nothing,
        }
    }

    /// Carries out the action that `Mod4` and a key are bound to. Only the
    /// digits `1` to `9`, `Return`, `space` and the letters `e`, `f`, `h`,
    /// `j`, `k`, `l`, `q` and `r` can be bound in this way.
    fn handle_keybinding(&mut self, wm: &mut WindowManager, keysym: u32) -> (outcome: KeyOutcome)
        requires
            old(wm).wf(),
        ensures
            *final(self) == *old(self),
            final(wm).wf(),
            final(wm).same_settings(old(wm)),
            outcome.handled == old(self).binds(keysym),
            old(self).binds(keysym) ==> {
                &&& final(wm)@ == after_input_action(old(wm)@, old(self).bound_words(keysym))
                &&& outcome.effect@ == input_action_effect(old(wm)@, old(self).bound_words(keysym))
            },
            !old(self).binds(keysym) ==> {
                &&& final(wm)@ == old(wm)@
                &&& outcome.effect@ == EffectView::Nothing
            },
    {
        let name = match bound_key(keysym) {
            Some(name) => name,
            None => {
                return KeyOutcome { handled: false, effect: ActionEffect::Nothing };
            },
        };
        let binding = String::from_str("Mod4+").concat(name);
        let action = match self.config.keybindings.get(binding.as_str()) {
            Some(action) => action.clone(),
            None => {
                return KeyOutcome { handled: false, effect: ActionEffect::Nothing };
            },
        };
        let effect = self.execute_action(wm, action.as_str());
        KeyOutcome { handled: true, effect }
    }

    /// `Mod4` and the key `keysym` are bound to an action.
    pub open spec fn binds(&self, keysym: u32) -> bool {
        match bound_key_name(keysym) {
            Some(name) => self.config.keybindings@.contains_key("Mod4+"@ + name),
            None => false,
        }
    }

    /// The words of the action that `Mod4` and the key `keysym` are bound
    /// to.
    pub open spec fn bound_words(&self, keysym: u32) -> Seq<Seq<char>> {
        words(self.config.keybindings@["Mod4+"@ + bound_key_name(keysym).unwrap()]@)
    }

    /// Takes a key event. The Super keys are remembered as they go down and
    /// come up. Any other key that goes down while Super is held triggers
    /// the action that it is bound to.
    pub fn handle_keyboard_event(&mut self, wm: &mut WindowManager, keysym: u32, state: KeyState) -> (outcome:
        KeyOutcome)
        requires
            old(wm).wf(),
        ensures
            final(self).same_but_modifier(old(self)),
            final(wm).wf(),
            final(wm).same_settings(old(wm)),
            final(self).mod_key_pressed == if keysym == KEY_SUPER_L || keysym == KEY_SUPER_R {
                state == KeyState::Pressed
            } else {
                old(self).mod_key_pressed
            },
            ({
                let triggers = state == KeyState::Pressed && keysym != KEY_SUPER_L && keysym
                    != KEY_SUPER_R && old(self).mod_key_pressed && old(self).binds(keysym);
                &&& outcome.handled == triggers
                &&& triggers ==> {
                    &&& final(wm)@ == after_input_action(old(wm)@, old(self).bound_words(keysym))
                    &&& outcome.effect@ == input_action_effect(
                        old(wm)@,
                        old(self).bound_words(keysym),
                    )
                }
                &&& !triggers ==> {
                    &&& final(wm)@ == old(wm)@
                    &&& outcome.effect@ == EffectView::Nothing
                }
            }),
    {
        let is_super = keysym == KEY_SUPER_L || keysym == KEY_SUPER_R;
        match state {
            KeyState::Pressed => {
                if is_super {
                    self.mod_key_pressed = true;
                    return KeyOutcome { handled: false, effect: ActionEffect::Nothing };
                }
                if self.mod_key_pressed {
                    self.handle_keybinding(wm, keysym)
                } else {
                    KeyOutcome { handled: false, effect: ActionEffect::Nothing }
                }
            },
            KeyState::Released => {
                if is_super {
                    self.mod_key_pressed = false;
                }
                KeyOutcome { handled: false, effect: ActionEffect::Nothing }
            },
        }
    }

    /// Takes a move of the pointer to `pos`. A window that is being dragged
    /// follows the pointer; else a window that is being resized has its
    /// right or bottom edge follow it. Returns whether a window was being
    /// dragged or resized.
    pub fn handle_pointer_motion(&mut self, wm: &mut WindowManager, pos: (i32, i32)) -> (handled:
        bool)
        requires
            old(wm).wf(),
        ensures
            *final(self) == *old(self),
            final(wm).wf(),
            final(wm).same_settings(old(wm)),
            handled == (old(self).drag_state is Some || old(self).resize_state is Some),
            final(wm)@ == match (old(self).drag_state, old(self).resize_state) {
                (Some(drag), _) => if old(wm)@.windows.contains_key(drag.window_id) {
                    old(wm)@.set_geometry(
                        drag.window_id,
                        dragged(
                            Rectangle {
                                x: drag.start_geometry.x,
                                y: drag.start_geometry.y,
                                ..old(wm)@.windows[drag.window_id].geometry
                            },
                            drag.start_pos,
                            pos,
                        ),
                    )
                } else {
                    old(wm)@
                },
                (None, Some(resize)) => if old(wm)@.windows.contains_key(resize.window_id) {
                    old(wm)@.set_geometry(
                        resize.window_id,
                        resized(
                            old(wm)@.windows[resize.window_id].geometry,
                            resize.start_geometry,
                            resize.edge,
                            resize.start_pos,
                            pos,
                        ),
                    )
                } else {
                    old(wm)@
                },
                (None, None) => old(wm)@,
            },
    {
        match self.drag_state {
            Some(drag) => {
                let delta_x: i64 = pos.0 as i64 - drag.start_pos.0 as i64;
                let delta_y: i64 = pos.1 as i64 - drag.start_pos.1 as i64;
                match wm.get_window(drag.window_id) {
                    Some(record) => {
                        let mut geometry = record.geometry;
                        geometry.x = pin(drag.start_geometry.x as i64 + delta_x);
                        geometry.y = pin(drag.start_geometry.y as i64 + delta_y);
                        let _ = wm.set_window_geometry(drag.window_id, geometry);
                    },
                    None => {},
                }
                return true;
            },
            None => {},
        }
        match self.resize_state {
            Some(resize) => {
                let delta_x: i64 = pos.0 as i64 - resize.start_pos.0 as i64;
                let delta_y: i64 = pos.1 as i64 - resize.start_pos.1 as i64;
                match wm.get_window(resize.window_id) {
                    Some(record) => {
                        let mut geometry = record.geometry;
                        match resize.edge {
                            ResizeEdge::Right => {
                                geometry.width = pull(resize.start_geometry.width, delta_x);
                            },
                            ResizeEdge::Bottom => {
                                geometry.height = pull(resize.start_geometry.height, delta_y);
                            },
                            ResizeEdge::BottomRight => {
                                geometry.width = pull(resize.start_geometry.width, delta_x);
                                geometry.height = pull(resize.start_geometry.height, delta_y);
                            },
                            _ => {},
                        }
                        let _ = wm.set_window_geometry(resize.window_id, geometry);
                    },
                    None => {},
                }
                true
            },
            None => false,
        }
    }

    /// The edge of `rect` that a pointer at `pos` takes hold of.
    pub fn determine_resize_edge(&self, rect: &Rectangle, pos: (i32, i32)) -> (edge: ResizeEdge)
        ensures
            edge == edge_near(*rect, pos),
    {
        let threshold: i64 = EDGE_THRESHOLD as i64;
        let right: i64 = rect.x as i64 + rect.width as i64;
        let bottom: i64 = rect.y as i64 + rect.height as i64;
        let from_right: i64 = pos.0 as i64 - right;
        let from_bottom: i64 = pos.1 as i64 - bottom;
        let near_right = -threshold <= from_right && from_right <= threshold;
        let near_bottom = -threshold <= from_bottom && from_bottom <= threshold;
        if near_right && near_bottom {
            ResizeEdge::BottomRight
        } else if near_bottom {
            ResizeEdge::Bottom
        } else {
            ResizeEdge::Right
        }
    }

    /// Takes a press of the left button at `pos`: the windows of the current
    /// tag that lie under the pointer are focused in the order of the tag's
    /// list, and the first floating one among them is taken hold of to be
    /// dragged. Returns whether a window was taken hold of.
    fn start_drag_or_focus(&mut self, wm: &mut WindowManager, pos: (i32, i32)) -> (held: bool)
        requires
            old(wm).wf(),
        ensures
            final(wm).wf(),
            final(wm).same_settings(old(wm)),
            final(wm).window_info == old(wm).window_info,
            final(self).config == old(self).config,
            final(self).mod_key_pressed == old(self).mod_key_pressed,
            final(self).resize_state == old(self).resize_state,
            ({
                let state = old(wm)@;
                let t = state.current();
                let found = scan_press(state, state.tags[t].windows, pos, 0, None);
                &&& held == found.held is Some
                &&& final(wm)@ == match found.focus {
                    Some(id) => state.with_focus(t, Some(id)),
                    None => state,
                }
                &&& final(self).drag_state == match found.held {
                    Some(id) => Some(
                        DragState {
                            window_id: id,
                            start_pos: pos,
                            start_geometry: state.windows[id].geometry,
                        },
                    ),
                    None => old(self).drag_state,
                }
            }),
    {
        let ghost state = wm@;
        let ghost t = state.current();
        let tag = wm.current_tag;
        let list = wm.get_windows_for_current_tag();
        let ghost mut focus: Option<WindowId> = None;
        let mut i: usize = 0;
        while i < list.len()
            invariant
                i <= list.len(),
                state == old(wm)@,
                t == state.current(),
                state.wf(),
                wm.wf(),
                wm.same_settings(old(wm)),
                wm.window_info == old(wm).window_info,
                *self == *old(self),
                list@ == state.tags[t].windows,
                wm@ == match focus {
                    Some(id) => state.with_focus(t, Some(id)),
                    None => state,
                },
                scan_press(state, list@, pos, 0, None) == scan_press(state, list@, pos, i as int, focus),
            decreases list.len() - i,
        {
            let id = list[i];
            let hit = match wm.get_window(id) {
                Some(record) => if record.geometry.contains(pos) {
                    Some((record.floating, record.geometry))
                } else {
                    None
                },
                None => None,
            };
            proof {
                assert(wm@.windows =~= state.windows);
            }
            match hit {
                Some(found) => {
                    proof {
                        assert(state.tags[t].windows[i as int] == id);
                        assert(state.windows.contains_key(state.tags[t].windows[i as int]));
                        wm@.lemma_only_its_tag_lists(id);
                    }
                    let _ = wm.focus_window(id);
                    proof {
                        focus = Some(id);
                        assert(wm@.tags =~= state.with_focus(t, Some(id)).tags);
                    }
                    if found.0 {
                        self.drag_state = Some(
                            DragState { window_id: id, start_pos: pos, start_geometry: found.1 },
                        );
                        return true;
                    }
                },
                None => {},
            }
            i += 1;
        }
        false
    }

    /// Takes a press of the right button at `pos`: the first floating window
    /// of the current tag under the pointer is taken hold of to be resized.
    /// Returns whether a window was taken hold of.
    fn start_resize(&mut self, wm: &WindowManager, pos: (i32, i32)) -> (held: bool)
        requires
            wm.wf(),
        ensures
            final(self).config == old(self).config,
            final(self).mod_key_pressed == old(self).mod_key_pressed,
            final(self).drag_state == old(self).drag_state,
            ({
                let state = wm@;
                let found = first_floating_under(state, state.tags[state.current()].windows, pos, 0);
                &&& held == found is Some
                &&& final(self).resize_state == match found {
                    Some(id) => Some(
                        ResizeState {
                            window_id: id,
                            start_pos: pos,
                            start_geometry: state.windows[id].geometry,
                            edge: edge_near(state.windows[id].geometry, pos),
                        },
                    ),
                    None => old(self).resize_state,
                }
            }),
    {
        let ghost state = wm@;
        let list = wm.get_windows_for_current_tag();
        let mut i: usize = 0;
        while i < list.len()
            invariant
                i <= list.len(),
                state == wm@,
                *self == *old(self),
                list@ == state.tags[state.current()].windows,
                first_floating_under(state, list@, pos, 0) == first_floating_under(
                    state,
                    list@,
                    pos,
                    i as int,
                ),
            decreases list.len() - i,
        {
            let id = list[i];
            match wm.get_window(id) {
                Some(record) => {
                    if record.geometry.contains(pos) && record.floating {
                        let edge = self.determine_resize_edge(&record.geometry, pos);
                        self.resize_state = Some(
                            ResizeState {
                                window_id: id,
                                start_pos: pos,
                                start_geometry: record.geometry,
                                edge,
                            },
                        );
                        return true;
                    }
                },
                None => {},
            }
            i += 1;
        }
        false
    }

    /// Takes a press or a release of a pointer button at `pos`. A press of
    /// the left button focuses the windows under the pointer and takes hold
    /// of a floating one to drag it; a press of the right button takes hold
    /// of a floating window to resize it; a release of the left button lets
    /// go. Returns whether a window was taken hold of.
    pub fn handle_pointer_button(
        &mut self,
        wm: &mut WindowManager,
        pos: (i32, i32),
        button: u32,
        state: KeyState,
    ) -> (held: bool)
        requires
            old(wm).wf(),
        ensures
            final(wm).wf(),
            final(wm).same_settings(old(wm)),
            final(wm).window_info == old(wm).window_info,
            final(self).config == old(self).config,
            final(self).mod_key_pressed == old(self).mod_key_pressed,
            ({
                let before = old(wm)@;
                let t = before.current();
                let list = before.tags[t].windows;
                if button == BUTTON_LEFT && state == KeyState::Pressed {
                    let found = scan_press(before, list, pos, 0, None);
                    &&& held == found.held is Some
                    &&& final(wm)@ == match found.focus {
                        Some(id) => before.with_focus(t, Some(id)),
                        None => before,
                    }
                    &&& final(self).resize_state == old(self).resize_state
                    &&& final(self).drag_state == match found.held {
                        Some(id) => Some(
                            DragState {
                                window_id: id,
                                start_pos: pos,
                                start_geometry: before.windows[id].geometry,
                            },
                        ),
                        None => old(self).drag_state,
                    }
                } else if button == BUTTON_RIGHT && state == KeyState::Pressed {
                    let found = first_floating_under(before, list, pos, 0);
                    &&& held == found is Some
                    &&& final(wm)@ == before
                    &&& final(self).drag_state == old(self).drag_state
                    &&& final(self).resize_state == match found {
                        Some(id) => Some(
                            ResizeState {
                                window_id: id,
                                start_pos: pos,
                                start_geometry: before.windows[id].geometry,
                                edge: edge_near(before.windows[id].geometry, pos),
                            },
                        ),
                        None => old(self).resize_state,
                    }
                } else if button == BUTTON_LEFT && state == KeyState::Released {
                    &&& !held
                    &&& final(wm)@ == before
                    &&& final(self).drag_state is None
                    &&& final(self).resize_state is None
                } else {
                    &&& !held
                    &&& final(wm)@ == before
                    &&& final(self).drag_state == old(self).drag_state
                    &&& final(self).resize_state == old(self).resize_state
                }
            }),
    {
        if button == BUTTON_LEFT && state == KeyState::Pressed {
            self.start_drag_or_focus(wm, pos)
        } else if button == BUTTON_RIGHT && state == KeyState::Pressed {
            self.start_resize(wm, pos)
        } else if button == BUTTON_LEFT && state == KeyState::Released {
            self.drag_state = None;
            self.resize_state = None;
            false
        } else {
            false
        }
    }
}

} // verus!
