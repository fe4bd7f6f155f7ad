//! The plain data that the window manager works on: geometry, handles,
//! window records, tags and layout parameters.

use crate::table::StringMap;
use vstd::prelude::*;

verus! {

/// Handle of a managed window. A handle names one window for as long as the
/// window is managed; it may be handed out again after the window is gone.
#[derive(Debug, Clone, Copy, PartialEq, Eq, Structural, Hash)]
pub struct WindowId(pub u64);

impl WindowId {
    pub fn new(raw: u64) -> (id: Self)
        ensures
            id == WindowId(raw),
    {
        WindowId(raw)
    }

    pub fn as_u64(&self) -> (raw: u64)
        ensures
            raw == self.0,
    {
        self.0
    }
}

/// Handle of a tag: its position in the manager's tag list.
#[derive(Debug, Clone, Copy, PartialEq, Eq, Structural, Hash)]
pub struct TagId(pub u32);

impl TagId {
    pub fn new(index: u32) -> (id: Self)
        ensures
            id == TagId(index),
    {
        TagId(index)
    }

    pub fn as_u32(&self) -> (index: u32)
        ensures
            index == self.0,
    {
        self.0
    }
}

/// What a change of the current tag asks of the display layer: to hide the
/// windows of one tag and to show those of another.
#[derive(Debug, Clone, Copy, PartialEq, Eq, Structural)]
pub struct TagSwitch {
    pub hidden: TagId,
    pub shown: TagId,
}

/// An axis-aligned rectangle on the screen, in pixels.
#[derive(Debug, Clone, Copy, PartialEq, Eq, Structural)]
pub struct Rectangle {
    pub x: i32,
    pub y: i32,
    pub width: u32,
    pub height: u32,
}

impl Rectangle {
    /// First column to the right of the rectangle.
    pub open spec fn right(self) -> int {
        self.x + self.width
    }

    /// First row below the rectangle.
    pub open spec fn bottom(self) -> int {
        self.y + self.height
    }

    /// The point lies inside the rectangle. The left and top edges belong to
    /// it, the right and bottom edges do not.
    pub open spec fn spec_contains(self, point: (i32, i32)) -> bool {
        &&& self.x <= point.0 < self.right()
        &&& self.y <= point.1 < self.bottom()
    }

    /// The two rectangles share an area. Rectangles that only touch along an
    /// edge do not intersect.
    pub open spec fn spec_intersects(self, other: Rectangle) -> bool {
        &&& self.x < other.right()
        &&& self.right() > other.x
        &&& self.y < other.bottom()
        &&& self.bottom() > other.y
    }

    /// Every point of `inner` lies within `self`, edges included.
    pub open spec fn encloses(self, inner: Rectangle) -> bool {
        &&& self.x <= inner.x
        &&& inner.right() <= self.right()
        &&& self.y <= inner.y
        &&& inner.bottom() <= self.bottom()
    }

    /// Horizontal centre, rounded towards the left edge.
    pub open spec fn center_x(self) -> int {
        self.x + self.width / 2
    }

    /// Vertical centre, rounded towards the top edge.
    pub open spec fn center_y(self) -> int {
        self.y + self.height / 2
    }

    pub fn new(x: i32, y: i32, width: u32, height: u32) -> (r: Self)
        ensures
            r == (Rectangle { x, y, width, height }),
    {
        Rectangle { x, y, width, height }
    }

    pub fn contains(&self, point: (i32, i32)) -> (r: bool)
        ensures
            r == self.spec_contains(point),
    {
        let px: i64 = point.0 as i64;
        let py: i64 = point.1 as i64;
        let left: i64 = self.x as i64;
        let top: i64 = self.y as i64;
        px >= left && px < left + self.width as i64 && py >= top && py < top + self.height as i64
    }

    pub fn intersects(&self, other: &Rectangle) -> (r: bool)
        ensures
            r == self.spec_intersects(*other),
    {
        let left: i64 = self.x as i64;
        let top: i64 = self.y as i64;
        let other_left: i64 = other.x as i64;
        let other_top: i64 = other.y as i64;
        left < other_left + other.width as i64 && left + self.width as i64 > other_left && top
            < other_top + other.height as i64 && top + self.height as i64 > other_top
    }

    /// The centre of the rectangle, widened so that it cannot overflow.
    pub fn center(&self) -> (c: (i64, i64))
        ensures
            c.0 == self.center_x(),
            c.1 == self.center_y(),
    {
        (self.x as i64 + (self.width / 2) as i64, self.y as i64 + (self.height / 2) as i64)
    }
}

/// How a tag places its tiled windows.
#[derive(Debug, Clone, Copy, PartialEq, Eq, Structural)]
pub enum LayoutType {
    Tiling,
    Floating,
    Monocle,
}

/// Smallest master ratio that runtime adjustment produces, in thousandths.
pub const MIN_MASTER_RATIO: u32 = 100;

/// Largest master ratio that runtime adjustment produces, in thousandths.
pub const MAX_MASTER_RATIO: u32 = 900;

/// The whole width, in thousandths.
pub const RATIO_SCALE: u32 = 1000;

/// Layout parameters of one tag.
///
/// `master_ratio` is the share of the usable width that the master column
/// takes, in thousandths: 600 stands for 0.6. It lies strictly between 0 and
/// 1000, and `master_count` is at least 1; `in_range` says so.
#[derive(Debug, Clone, Copy, PartialEq, Eq, Structural)]
pub struct LayoutConfig {
    pub layout_type: LayoutType,
    pub master_ratio: u32,
    pub master_count: usize,
}

impl LayoutConfig {
    /// The parameters are within their ranges: the master column takes more
    /// than nothing and less than the whole width, and has at least one
    /// slot.
    pub open spec fn in_range(self) -> bool {
        0 < self.master_ratio < RATIO_SCALE && self.master_count >= 1
    }

    /// The parameters within their ranges that are nearest to these: a
    /// ratio of nothing becomes one thousandth, a ratio of the whole width or
    /// more becomes 999 thousandths, and no master slot becomes one.
    pub open spec fn nearest_in_range(self) -> LayoutConfig {
        LayoutConfig {
            layout_type: self.layout_type,
            master_ratio: if self.master_ratio < 1 {
                1
            } else if self.master_ratio >= RATIO_SCALE {
                (RATIO_SCALE - 1) as u32
            } else {
                self.master_ratio
            },
            master_count: if self.master_count < 1 {
                1
            } else {
                self.master_count
            },
        }
    }

    /// Whether the parameters are within their ranges.
    pub fn is_in_range(&self) -> (r: bool)
        ensures
            r == self.in_range(),
    {
        0 < self.master_ratio && self.master_ratio < RATIO_SCALE && self.master_count >= 1
    }

    /// Brings the parameters into their ranges. Parameters that are within
    /// their ranges stay as they are.
    pub fn normalized(&self) -> (r: LayoutConfig)
        ensures
            r == self.nearest_in_range(),
            r.in_range(),
            self.in_range() ==> r == *self,
    {
        LayoutConfig {
            layout_type: self.layout_type,
            master_ratio: if self.master_ratio < 1 {
                1
            } else if self.master_ratio >= RATIO_SCALE {
                RATIO_SCALE - 1
            } else {
                self.master_ratio
            },
            master_count: if self.master_count < 1 {
                1
            } else {
                self.master_count
            },
        }
    }
}

/// A tag (workspace): an ordered list of windows with its own layout.
#[derive(Debug, Clone)]
pub struct Tag {
    pub id: TagId,
    pub name: String,
    pub layout: LayoutConfig,
    pub windows: Vec<WindowId>,
    pub focused_window: Option<WindowId>,
}

/// What a `Tag` holds, as mathematical values.
pub struct TagView {
    pub id: TagId,
    pub name: Seq<char>,
    pub layout: LayoutConfig,
    pub windows: Seq<WindowId>,
    pub focused_window: Option<WindowId>,
}

impl View for Tag {
    type V = TagView;

    open spec fn view(&self) -> TagView {
        TagView {
            id: self.id,
            name: self.name@,
            layout: self.layout,
            windows: self.windows@,
            focused_window: self.focused_window,
        }
    }
}

/// The record of one managed window.
#[derive(Debug, Clone)]
pub struct WindowState {
    pub id: WindowId,
    pub title: String,
    pub class: String,
    pub floating: bool,
    pub minimized: bool,
    pub fullscreen: bool,
    pub tag: TagId,
    pub geometry: Rectangle,
    pub requested_geometry: Rectangle,
}

/// What a `WindowState` holds, as mathematical values.
pub struct WindowView {
    pub id: WindowId,
    pub title: Seq<char>,
    pub class: Seq<char>,
    pub floating: bool,
    pub minimized: bool,
    pub fullscreen: bool,
    pub tag: TagId,
    pub geometry: Rectangle,
    pub requested_geometry: Rectangle,
}

impl WindowView {
    /// The layout engine places the window: it is neither floating, nor
    /// minimized, nor fullscreen.
    pub open spec fn is_tiled(self) -> bool {
        !self.floating && !self.minimized && !self.fullscreen
    }
}

impl View for WindowState {
    type V = WindowView;

    open spec fn view(&self) -> WindowView {
        WindowView {
            id: self.id,
            title: self.title@,
            class: self.class@,
            floating: self.floating,
            minimized: self.minimized,
            fullscreen: self.fullscreen,
            tag: self.tag,
            geometry: self.geometry,
            requested_geometry: self.requested_geometry,
        }
    }
}

impl WindowState {
    pub fn is_tiled(&self) -> (r: bool)
        ensures
            r == self@.is_tiled(),
    {
        !self.floating && !self.minimized && !self.fullscreen
    }
}

/// A key combination and the action it triggers.
#[derive(Debug, Clone)]
pub struct Keybinding {
    pub keys: Vec<String>,
    pub action: String,
}

/// Commands that the spawn actions start.
#[derive(Debug, Clone)]
pub struct GeneralConfig {
    pub mod_key: String,
    pub terminal: String,
    pub browser: String,
    pub launcher: String,
    pub screenshot: String,
}

/// Names of the tags, and the layout names that the tags take in turn.
#[derive(Debug, Clone)]
pub struct TagsConfig {
    pub names: Vec<String>,
    pub layouts: Vec<String>,
}

/// Borders, gaps and the bar.
#[derive(Debug, Clone)]
pub struct AppearanceConfig {
    pub border_width: u32,
    pub border_focus: String,
    pub border_normal: String,
    pub gap_size: u32,
    pub inner_gap: u32,
    pub bar_height: u32,
    pub bar_background: String,
    pub bar_foreground: String,
    pub bar_font: String,
    pub bar_font_size: u32,
}

/// A rule that is tried when a window is first managed. `class` and `title`
/// are compared with the window's; a field that is `None` fits every
/// window. `instance` is kept for the configuration file and takes no part
/// in matching, since windows carry no instance name.
#[derive(Debug, Clone)]
pub struct WindowRule {
    pub class: Option<String>,
    pub instance: Option<String>,
    pub title: Option<String>,
    pub floating: bool,
    pub tag: Option<u32>,
}

/// The settings of a session.
#[derive(Debug, Clone)]
pub struct Config {
    pub general: GeneralConfig,
    pub tags: TagsConfig,
    pub appearance: AppearanceConfig,
    /// From a key combination, such as `Mod4+Return`, to an action.
    pub keybindings: StringMap<String>,
    /// From a layout's name to its parameters.
    pub layouts: StringMap<LayoutConfig>,
    /// The window rules; the first that matches a new window applies.
    pub rules: Vec<WindowRule>,
}

/// A command sent to the running manager.
#[derive(Debug, Clone)]
pub struct IpcMessage {
    pub command: String,
    pub args: Vec<String>,
}

/// The answer to an `IpcMessage`. `data` holds the payload as JSON text.
#[derive(Debug, Clone)]
pub struct IpcResponse {
    pub success: bool,
    pub data: Option<String>,
    pub error: Option<String>,
}

} // verus!
