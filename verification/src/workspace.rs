//! A workspace of the plain compositor loop: a list of windows under one
//! master-stack layout.

use crate::keybindings::{handle_key_event, workspace_of_key, Modifiers};
use crate::layouts::{pin_coordinate, Layout, TileLayout, Window};
use crate::types::{Rectangle, WindowId};
use vstd::prelude::*;

verus! {

/// A list of windows and the layout that places them.
pub struct Workspace {
    windows: Vec<Window>,
    layout: TileLayout,
}

impl Workspace {
    /// The windows, in the order in which they were added.
    pub closed spec fn view(&self) -> Seq<Window> {
        self.windows@
    }

    /// The layout that places the windows.
    pub closed spec fn layout(&self) -> TileLayout {
        self.layout
    }

    /// An empty workspace under the default layout.
    pub fn new() -> (workspace: Self)
        ensures
            workspace@ == Seq::<Window>::empty(),
            workspace.layout() == (TileLayout { mfact: 550, nmaster: 1 }),
    {
        Workspace { windows: Vec::new(), layout: TileLayout::default() }
    }

    /// Adds a window after the others.
    pub fn add_window(&mut self, window: Window)
        ensures
            final(self)@ == old(self)@.push(window),
            final(self).layout() == old(self).layout(),
    {
        self.windows.push(window);
    }

    /// Gives every window the rectangle that the layout assigns to it
    /// within `area`.
    pub fn arrange(&mut self, area: Rectangle)
        ensures
            final(self).layout() == old(self).layout(),
            final(self)@ == Seq::new(
                old(self)@.len(),
                |i: int|
                    Window {
                        id: old(self)@[i].id,
                        geometry: old(self).layout().cell(area, old(self)@.len() as int, i),
                    },
            ),
    {
        let layout = self.layout;
        layout.arrange(&mut self.windows, area);
        assert(self@ =~= Seq::new(
            old(self)@.len(),
            |i: int|
                Window {
                    id: old(self)@[i].id,
                    geometry: old(self).layout().cell(area, old(self)@.len() as int, i),
                },
        ));
    }

    /// The windows, in the order in which they were added.
    pub fn windows(&self) -> (windows: &Vec<Window>)
        ensures
            windows@ == self@,
    {
        &self.windows
    }

    /// The symbol of the workspace's layout.
    pub fn layout_symbol(&self) -> (symbol: &'static str)
        ensures
            symbol@ == self.layout().spec_symbol(),
    {
        self.layout.symbol()
    }
}

/// Number of workspaces of a session.
pub const WORKSPACE_COUNT: usize = 9;

/// What the display layer reports of the keyboard and the pointer.
#[derive(Debug, Clone, Copy)]
pub enum InputEvent {
    /// A key went down or came up.
    Keyboard { keysym: u32 },
    /// The pointer moved to a place.
    PointerMotion { location: (i32, i32) },
    /// A pointer button went down (`pressed`) or came up while the pointer
    /// stood at a place.
    PointerButton { pressed: bool, location: (i32, i32) },
    /// The held modifiers changed.
    Modifiers { modifiers: Modifiers },
    /// Anything else.
    Other,
}

/// What is left to do in the display layer after an input event.
#[derive(Debug, Clone, Copy, PartialEq, Eq, Structural)]
pub enum InputAction {
    /// Nothing.
    Nothing,
    /// Give the keyboard focus to this window.
    Focus(WindowId),
}

/// A window that the pointer has taken hold of, and where it did so.
#[derive(Debug, Clone, Copy)]
pub struct Grab {
    pub window: WindowId,
    pub start: (i32, i32),
}

/// The state of the plain compositor loop: the workspaces, the one that is
/// shown, the held modifiers, and the window that is being dragged or
/// resized.
pub struct State {
    pub workspaces: Vec<Workspace>,
    pub active_workspace: usize,
    pub modifiers: Modifiers,
    pub drag_data: Option<Grab>,
    pub resize_data: Option<Grab>,
}

/// The position of the first window with the handle `id`.
pub open spec fn first_with(windows: Seq<Window>, id: WindowId, from: int) -> Option<int>
    decreases windows.len() - from,
{
    if from < 0 || from >= windows.len() {
        None
    } else if windows[from].id == id {
        Some(from)
    } else {
        first_with(windows, id, from + 1)
    }
}

/// The position of the first window whose rectangle holds the point.
pub open spec fn first_under(windows: Seq<Window>, point: (i32, i32), from: int) -> Option<int>
    decreases windows.len() - from,
{
    if from < 0 || from >= windows.len() {
        None
    } else if windows[from].geometry.spec_contains(point) {
        Some(from)
    } else {
        first_under(windows, point, from + 1)
    }
}

/// A side of a window stretched by `delta`: no less than nothing and no
/// more than `u32` holds.
pub open spec fn stretched(extent: u32, delta: int) -> u32 {
    if extent + delta < 0 {
        0
    } else if extent + delta > u32::MAX {
        u32::MAX
    } else {
        (extent + delta) as u32
    }
}

/// A window after the pointer has gone from `start` to `location` while
/// resizing it: both sides are stretched by the way that the pointer went.
pub open spec fn resized_window(window: Window, start: (i32, i32), location: (i32, i32)) -> Window {
    Window {
        geometry: Rectangle {
            width: stretched(window.geometry.width, location.0 - start.0),
            height: stretched(window.geometry.height, location.1 - start.1),
            ..window.geometry
        },
        ..window
    }
}

/// A window after the pointer has gone from `start` to `location` while
/// dragging it: the window is moved by the way that the pointer went.
pub open spec fn dragged_window(window: Window, start: (i32, i32), location: (i32, i32)) -> Window {
    Window {
        geometry: Rectangle {
            x: pin_coordinate(window.geometry.x + (location.0 - start.0)),
            y: pin_coordinate(window.geometry.y + (location.1 - start.1)),
            ..window.geometry
        },
        ..window
    }
}

fn stretch(extent: u32, delta: i64) -> (r: u32)
    requires
        -0x1_0000_0000 <= delta <= 0x1_0000_0000,
    ensures
        r == stretched(extent, delta as int),
{
    let wide: i64 = extent as i64 + delta;
    if wide < 0 {
        0
    } else if wide > u32::MAX as i64 {
        u32::MAX
    } else {
        wide as u32
    }
}

fn shift(base: i32, delta: i64) -> (r: i32)
    requires
        -0x1_0000_0000 <= delta <= 0x1_0000_0000,
    ensures
        r == pin_coordinate(base + delta),
{
    let wide: i64 = base as i64 + delta;
    if wide > i32::MAX as i64 {
        i32::MAX
    } else if wide < i32::MIN as i64 {
        i32::MIN
    } else {
        wide as i32
    }
}

impl Workspace {
    /// The position of the first window with the handle `id`.
    pub fn find(&self, id: WindowId) -> (found: Option<usize>)
        ensures
            match found {
                Some(i) => first_with(self@, id, 0) == Some(i as int) && i < self@.len(),
                None => first_with(self@, id, 0) is None,
            },
    {
        let mut i: usize = 0;
        while i < self.windows.len()
            invariant
                i <= self.windows.len(),
                first_with(self@, id, 0) == first_with(self@, id, i as int),
            decreases self.windows.len() - i,
        {
            if self.windows[i].id == id {
                return Some(i);
            }
            i += 1;
        }
        None
    }

    /// The position of the first window whose rectangle holds the point.
    pub fn find_under(&self, point: (i32, i32)) -> (found: Option<usize>)
        ensures
            match found {
                Some(i) => first_under(self@, point, 0) == Some(i as int) && i < self@.len(),
                None => first_under(self@, point, 0) is None,
            },
    {
        let mut i: usize = 0;
        while i < self.windows.len()
            invariant
                i <= self.windows.len(),
                first_under(self@, point, 0) == first_under(self@, point, i as int),
            decreases self.windows.len() - i,
        {
            if self.windows[i].geometry.contains(point) {
                return Some(i);
            }
            i += 1;
        }
        None
    }

    /// Puts `window` in the place of the window at `index`.
    pub fn replace(&mut self, index: usize, window: Window)
        requires
            index < old(self)@.len(),
        ensures
            final(self)@ == old(self)@.update(index as int, window),
            final(self).layout() == old(self).layout(),
    {
        self.windows.set(index, window);
    }
}

impl State {
    /// One workspace is shown.
    pub open spec fn wf(&self) -> bool {
        self.active_workspace < self.workspaces.len()
    }

    /// The windows of the workspace that is shown.
    pub open spec fn shown(&self) -> Seq<Window> {
        self.workspaces[self.active_workspace as int]@
    }

    /// Nine empty workspaces, the first of them shown; no modifier held and
    /// no window taken hold of.
    pub fn new() -> (state: Self)
        ensures
            state.wf(),
            state.workspaces.len() == WORKSPACE_COUNT,
            forall|i: int| 0 <= i < WORKSPACE_COUNT ==> (#[trigger] state.workspaces[i])@.len() == 0,
            state.active_workspace == 0,
            state.modifiers == (Modifiers { ctrl: false, alt: false, shift: false, logo: false }),
            state.drag_data is None,
            state.resize_data is None,
    {
        let mut workspaces: Vec<Workspace> = Vec::new();
        let mut i: usize = 0;
        while i < WORKSPACE_COUNT
            invariant
                i <= WORKSPACE_COUNT,
                workspaces.len() == i,
                forall|j: int| 0 <= j < i ==> (#[trigger] workspaces[j])@.len() == 0,
            decreases WORKSPACE_COUNT - i,
        {
            workspaces.push(Workspace::new());
            i += 1;
        }
        State {
            workspaces,
            active_workspace: 0,
            modifiers: Modifiers { ctrl: false, alt: false, shift: false, logo: false },
            drag_data: None,
            resize_data: None,
        }
    }

    /// The other workspaces and the modifiers are as in `other`.
    pub open spec fn same_frame(&self, other: &State) -> bool {
        &&& self.workspaces.len() == other.workspaces.len()
        &&& forall|i: int|
            0 <= i < self.workspaces.len() && i != other.active_workspace
                ==> self.workspaces[i] == other.workspaces[i]
        &&& self.workspaces[other.active_workspace as int].layout()
            == other.workspaces[other.active_workspace as int].layout()
    }

    /// Takes an input event and says what is left to do for it.
    ///
    /// A digit key pressed with Super shows the workspace of that number,
    /// where the session has one. A move of the pointer resizes the window
    /// that is being resized, else drags the window that is being dragged,
    /// else asks for the focus to go to the first window under the pointer.
    /// A pressed button takes hold of the first window under the pointer: to
    /// resize it where Super and Ctrl are held, to drag it where Super alone
    /// is held. A released button lets go.
    pub fn process_input_event(&mut self, event: InputEvent) -> (action: InputAction)
        requires
            old(self).wf(),
        ensures
            final(self).wf(),
            final(self).same_frame(old(self)),
            match event {
                InputEvent::Keyboard { keysym } => {
                    &&& action == InputAction::Nothing
                    &&& final(self).active_workspace == (if old(self).modifiers.logo
                        && workspace_of_key(keysym) is Some && workspace_of_key(keysym).unwrap()
                        < old(self).workspaces.len() {
                        workspace_of_key(keysym).unwrap()
                    } else {
                        old(self).active_workspace
                    })
                    &&& final(self).shown_before(old(self)) == old(self).shown()
                    &&& final(self).modifiers == old(self).modifiers
                    &&& final(self).drag_data == old(self).drag_data
                    &&& final(self).resize_data == old(self).resize_data
                },
                InputEvent::PointerMotion { location } => {
                    &&& final(self).active_workspace == old(self).active_workspace
                    &&& final(self).modifiers == old(self).modifiers
                    &&& final(self).drag_data == old(self).drag_data
                    &&& final(self).resize_data == old(self).resize_data
                    &&& match (old(self).resize_data, old(self).drag_data) {
                        (Some(grab), _) => {
                            &&& action == InputAction::Nothing
                            &&& final(self).shown() == match first_with(
                                old(self).shown(),
                                grab.window,
                                0,
                            ) {
                                Some(i) => old(self).shown().update(
                                    i,
                                    resized_window(old(self).shown()[i], grab.start, location),
                                ),
                                None => old(self).shown(),
                            }
                        },
                        (None, Some(grab)) => {
                            &&& action == InputAction::Nothing
                            &&& final(self).shown() == match first_with(
                                old(self).shown(),
                                grab.window,
                                0,
                            ) {
                                Some(i) => old(self).shown().update(
                                    i,
                                    dragged_window(old(self).shown()[i], grab.start, location),
                                ),
                                None => old(self).shown(),
                            }
                        },
                        (None, None) => {
                            &&& final(self).shown() == old(self).shown()
                            &&& action == match first_under(old(self).shown(), location, 0) {
                                Some(i) => InputAction::Focus(old(self).shown()[i].id),
                                None => InputAction::Nothing,
                            }
                        },
                    }
                },
                InputEvent::PointerButton { pressed, location } => {
                    let under = first_under(old(self).shown(), location, 0);
                    let grab = match under {
                        Some(i) => Some(Grab { window: old(self).shown()[i].id, start: location }),
                        None => None,
                    };
                    &&& action == InputAction::Nothing
                    &&& final(self).active_workspace == old(self).active_workspace
                    &&& final(self).modifiers == old(self).modifiers
                    &&& final(self).shown() == old(self).shown()
                    &&& final(self).resize_data == (if !pressed {
                        None
                    } else if old(self).modifiers.logo && old(self).modifiers.ctrl && under is Some {
                        grab
                    } else {
                        old(self).resize_data
                    })
                    &&& final(self).drag_data == (if !pressed {
                        None
                    } else if old(self).modifiers.logo && !old(self).modifiers.ctrl && under is Some {
                        grab
                    } else {
                        old(self).drag_data
                    })
                },
                InputEvent::Modifiers { modifiers } => {
                    &&& action == InputAction::Nothing
                    &&& final(self).modifiers == modifiers
                    &&& final(self).active_workspace == old(self).active_workspace
                    &&& final(self).shown() == old(self).shown()
                    &&& final(self).drag_data == old(self).drag_data
                    &&& final(self).resize_data == old(self).resize_data
                },
                InputEvent::Other => {
                    &&& action == InputAction::Nothing
                    &&& final(self).modifiers == old(self).modifiers
                    &&& final(self).active_workspace == old(self).active_workspace
                    &&& final(self).shown() == old(self).shown()
                    &&& final(self).drag_data == old(self).drag_data
                    &&& final(self).resize_data == old(self).resize_data
                },
            },
    {
        let active: usize = self.active_workspace;
        match event {
            InputEvent::Keyboard { keysym } => {
                let chosen = handle_key_event(active, keysym, self.modifiers);
                if chosen < self.workspaces.len() {
                    self.active_workspace = chosen;
                }
                InputAction::Nothing
            },
            InputEvent::PointerMotion { location } => {
                match (self.resize_data, self.drag_data) {
                    (Some(grab), _) => {
                        let delta_x: i64 = location.0 as i64 - grab.start.0 as i64;
                        let delta_y: i64 = location.1 as i64 - grab.start.1 as i64;
                        match self.workspaces[active].find(grab.window) {
                            Some(i) => {
                                let mut window = self.workspaces[active].windows[i];
                                window.geometry.width = stretch(window.geometry.width, delta_x);
                                window.geometry.height = stretch(window.geometry.height, delta_y);
                                self.workspaces[active].replace(i, window);
                            },
                            None => {},
                        }
                        InputAction::Nothing
                    },
                    (None, Some(grab)) => {
                        let delta_x: i64 = location.0 as i64 - grab.start.0 as i64;
                        let delta_y: i64 = location.1 as i64 - grab.start.1 as i64;
                        match self.workspaces[active].find(grab.window) {
                            Some(i) => {
                                let mut window = self.workspaces[active].windows[i];
                                window.geometry.x = shift(window.geometry.x, delta_x);
                                window.geometry.y = shift(window.geometry.y, delta_y);
                                self.workspaces[active].replace(i, window);
                            },
                            None => {},
                        }
                        InputAction::Nothing
                    },
                    (None, None) => match self.workspaces[active].find_under(location) {
                        Some(i) => InputAction::Focus(self.workspaces[active].windows[i].id),
                        None => InputAction::Nothing,
                    },
                }
            },
            InputEvent::PointerButton { pressed, location } => {
                if pressed {
                    if self.modifiers.logo {
                        match self.workspaces[active].find_under(location) {
                            Some(i) => {
                                let grab = Grab {
                                    window: self.workspaces[active].windows[i].id,
                                    start: location,
                                };
                                if self.modifiers.ctrl {
                                    self.resize_data = Some(grab);
                                } else {
                                    self.drag_data = Some(grab);
                                }
                            },
                            None => {},
                        }
                    }
                } else {
                    self.drag_data = None;
                    self.resize_data = None;
                }
                InputAction::Nothing
            },
            InputEvent::Modifiers { modifiers } => {
                self.modifiers = modifiers;
                InputAction::Nothing
            },
            InputEvent::Other => InputAction::Nothing,
        }
    }

    /// The windows of the workspace that `before` showed, as they are now.
    pub open spec fn shown_before(&self, before: &State) -> Seq<Window> {
        self.workspaces[before.active_workspace as int]@
    }
}

} // verus!
