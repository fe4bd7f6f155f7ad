//! The bar at the top of the screen: which segments it shows for a given
//! state of the window manager, and which action a click on it triggers.

use crate::layouts::pin_coordinate;
use crate::model::WmView;
use crate::text::{chars_of, decimal, owned, push_decimal};
use crate::types::{Config, LayoutType, Rectangle};
use crate::window_manager::WindowManager;
use vstd::prelude::*;
use vstd::string::StrSliceExecFns;
use vstd::string::StringExecFns;
use vstd::string::StringSliceAdditionalSpecFns;

verus! {

/// A colour with eight bits per channel.
#[derive(Debug, Clone, Copy, PartialEq, Eq, Structural)]
pub struct Color {
    pub red: u8,
    pub green: u8,
    pub blue: u8,
    pub alpha: u8,
}

/// Opaque black, the colour of a text that names no colour.
pub open spec fn black() -> Color {
    Color { red: 0, green: 0, blue: 0, alpha: 255 }
}

/// The state of the bar.
pub struct TopBar {
    pub config: Config,
    pub screen_width: u32,
    pub height: u32,
    pub visible: bool,
    pub background_color: Color,
    pub text_color: Color,
}

/// One piece of the bar's content.
#[derive(Debug, Clone)]
pub struct TopBarSegment {
    pub text: String,
    pub x: i32,
    pub width: u32,
    pub clickable: bool,
    pub action: Option<String>,
}

/// What a `TopBarSegment` holds, as mathematical values.
pub struct SegmentView {
    pub text: Seq<char>,
    pub x: i32,
    pub width: u32,
    pub clickable: bool,
    pub action: Option<Seq<char>>,
}

impl View for TopBarSegment {
    type V = SegmentView;

    open spec fn view(&self) -> SegmentView {
        SegmentView {
            text: self.text@,
            x: self.x,
            width: self.width,
            clickable: self.clickable,
            action: match self.action {
                Some(action) => Some(action@),
                None => None,
            },
        }
    }
}

/// The content of the bar.
#[derive(Debug, Clone)]
pub struct TopBarState {
    pub segments: Vec<TopBarSegment>,
    pub total_width: u32,
    pub needs_redraw: bool,
}

/// The views of a list of segments.
pub open spec fn segment_views(segments: Seq<TopBarSegment>) -> Seq<SegmentView> {
    Seq::new(segments.len(), |i: int| segments[i]@)
}

/// The value of a hexadecimal digit, if the character is one.
pub open spec fn hex_value(c: char) -> Option<u8> {
    if '0' <= c <= '9' {
        Some((c as u32 - '0' as u32) as u8)
    } else if 'a' <= c <= 'f' {
        Some((c as u32 - 'a' as u32 + 10) as u8)
    } else if 'A' <= c <= 'F' {
        Some((c as u32 - 'A' as u32 + 10) as u8)
    } else {
        None
    }
}

/// The channel that two characters write: two hexadecimal digits, or a `+`
/// and one hexadecimal digit.
pub open spec fn channel_value(high: char, low: char) -> Option<u8> {
    match hex_value(low) {
        Some(units) => if high == '+' {
            Some(units)
        } else {
            match hex_value(high) {
                Some(sixteens) => Some((sixteens * 16 + units) as u8),
                None => None,
            }
        },
        None => None,
    }
}

/// The colour that a text names: `#` and three channels of two characters
/// each give that colour, opaque; every other text gives opaque black.
pub open spec fn color_of(text: Seq<char>) -> Color {
    if text.len() == 7 && text[0] == '#' {
        match (
            channel_value(text[1], text[2]),
            channel_value(text[3], text[4]),
            channel_value(text[5], text[6]),
        ) {
            (Some(red), Some(green), Some(blue)) => Color { red, green, blue, alpha: 255 },
            _ => black(),
        }
    } else {
        black()
    }
}

fn hex_digit(c: char) -> (r: Option<u8>)
    ensures
        r == hex_value(c),
{
    if '0' <= c && c <= '9' {
        Some((c as u32 - '0' as u32) as u8)
    } else if 'a' <= c && c <= 'f' {
        Some((c as u32 - 'a' as u32 + 10) as u8)
    } else if 'A' <= c && c <= 'F' {
        Some((c as u32 - 'A' as u32 + 10) as u8)
    } else {
        None
    }
}

fn channel(high: char, low: char) -> (r: Option<u8>)
    ensures
        r == channel_value(high, low),
{
    match hex_digit(low) {
        Some(units) => if high == '+' {
            Some(units)
        } else {
            match hex_digit(high) {
                Some(sixteens) => Some(sixteens * 16 + units),
                None => None,
            }
        },
        None => None,
    }
}

/// Reads a colour such as `#536DFE`. A text that names no colour gives
/// opaque black.
pub fn parse_color(text: &str) -> (color: Color)
    ensures
        color == color_of(text@),
{
    let fallback = Color { red: 0, green: 0, blue: 0, alpha: 255 };
    let chars = chars_of(text);
    if chars.len() != 7 || chars[0] != '#' {
        return fallback;
    }
    match (channel(chars[1], chars[2]), channel(chars[3], chars[4]), channel(chars[5], chars[6])) {
        (Some(red), Some(green), Some(blue)) => Color { red, green, blue, alpha: 255 },
        _ => fallback,
    }
}

/// The width of one character at a font size: six tenths of the size,
/// rounded down.
pub open spec fn char_width(font_size: u32) -> int {
    (font_size * 6) / 10
}

/// The estimated width of a text of `length` bytes: the width of one
/// character times the length, but at least 20 and at most the largest
/// `u32`.
pub open spec fn text_width(length: int, font_size: u32) -> u32 {
    let raw = length * char_width(font_size);
    if raw < 20 {
        20
    } else if raw > u32::MAX {
        u32::MAX
    } else {
        raw as u32
    }
}

/// Estimates how wide a text is when drawn at a font size.
pub fn estimate_text_width(text: &str, font_size: u32) -> (width: u32)
    ensures
        width == text_width(text.spec_bytes().len() as int, font_size),
{
    let per_char: u128 = (font_size as u128 * 6) / 10;
    let bytes = text.as_bytes();
    let length: u128 = bytes.len() as u128;
    assert(length * per_char <= 0xffff_ffff_ffff_ffff * 0xffff_ffff) by (nonlinear_arith)
        requires
            0 <= length <= 0xffff_ffff_ffff_ffff,
            0 <= per_char <= 0xffff_ffff,
    ;
    let raw: u128 = length * per_char;
    if raw < 20 {
        20
    } else if raw > u32::MAX as u128 {
        u32::MAX
    } else {
        raw as u32
    }
}

/// A number below 100 with two digits.
pub open spec fn two_digits(n: nat) -> Seq<char> {
    decimal(n / 10) + decimal(n % 10)
}

/// The time of day of a count of seconds since the epoch, as `HH:MM`;
/// `??:??` where the clock gave no count.
pub open spec fn clock_text(seconds: Option<u64>) -> Seq<char> {
    match seconds {
        Some(s) => two_digits(((s / 3600) % 24) as nat) + ":"@ + two_digits(((s / 60) % 60) as nat),
        None => "??:??"@,
    }
}

/// Seconds since the Unix epoch, as `SystemTime::elapsed` counts them from
/// `UNIX_EPOCH` to now; `None` where the clock stands before the epoch.
/// Nothing is claimed of the count: it depends on the clock.
#[verifier::external_body]
fn unix_seconds() -> (seconds: Option<u64>) {
    match std::time::UNIX_EPOCH.elapsed() {
        Ok(since) => Some(since.as_secs()),
        Err(_) => None,
    }
}

/// Writes a time of day.
pub fn format_clock(seconds: Option<u64>) -> (text: String)
    ensures
        text@ == clock_text(seconds),
{
    match seconds {
        Some(s) => {
            let hours: u64 = (s / 3600) % 24;
            let minutes: u64 = (s / 60) % 60;
            let mut text = String::new();
            push_decimal(&mut text, hours / 10);
            push_decimal(&mut text, hours % 10);
            text.append(":");
            push_decimal(&mut text, minutes / 10);
            push_decimal(&mut text, minutes % 10);
            assert(text@ =~= clock_text(seconds));
            text
        },
        None => owned("??:??"),
    }
}

/// The time of day as the clock gives it, in UTC.
pub fn get_current_time() -> (text: String)
    ensures
        exists|seconds: Option<u64>| text@ == clock_text(seconds),
{
    format_clock(unix_seconds())
}

/// The name of a layout as the bar shows it.
pub open spec fn layout_name(layout: LayoutType) -> Seq<char> {
    match layout {
        LayoutType::Tiling => "Tiling"@,
        LayoutType::Floating => "Floating"@,
        LayoutType::Monocle => "Monocle"@,
    }
}

/// How the bar shows a tag: the current tag in square brackets, another tag
/// with windows in round brackets, an empty tag by its name alone.
pub open spec fn tag_label(name: Seq<char>, current: bool, occupied: bool) -> Seq<char> {
    if current {
        "["@ + name + "]"@
    } else if occupied {
        "("@ + name + ")"@
    } else {
        name
    }
}

/// The longest title that the bar shows whole, in characters.
pub const TITLE_LIMIT: usize = 50;

/// The characters that are left of a longer title, before three dots.
pub const TITLE_KEPT: usize = 47;

/// The title as the bar shows it: a title of more than 50 characters is cut
/// to its first 47 and three dots.
pub open spec fn shown_title(title: Seq<char>) -> Seq<char> {
    if title.len() > TITLE_LIMIT {
        title.take(TITLE_KEPT as int) + "..."@
    } else {
        title
    }
}

/// The length of a text in bytes.
pub open spec fn byte_length(text: Seq<char>) -> int {
    vstd::utf8::encode_utf8(text).len() as int
}

/// What the bar shows of one state of the window manager.
pub struct BarInput {
    pub wm: WmView,
    pub font_size: u32,
    pub screen_width: u32,
}

impl BarInput {
    /// The label of tag `i`.
    pub open spec fn label(self, i: int) -> Seq<char> {
        tag_label(self.wm.tags[i].name, i == self.wm.current(), self.wm.tags[i].windows.len() > 0)
    }

    /// The width of the segment of tag `i`.
    pub open spec fn label_width(self, i: int) -> u32 {
        text_width(byte_length(self.label(i)), self.font_size)
    }

    /// Where the segment of tag `i` starts: the first at 10, each further
    /// one 5 after the end of the one before.
    pub open spec fn tag_x(self, i: int) -> i32
        decreases i,
    {
        if i <= 0 {
            10
        } else {
            pin_coordinate(self.tag_x(i - 1) + self.label_width(i - 1) + 5)
        }
    }

    /// The segment of tag `i`: a click on it switches to the tag.
    pub open spec fn tag_segment(self, i: int) -> SegmentView {
        SegmentView {
            text: self.label(i),
            x: self.tag_x(i),
            width: self.label_width(i),
            clickable: true,
            action: Some("switch_tag "@ + decimal((i + 1) as nat)),
        }
    }

    /// Where the separator stands: 20 after the tags.
    pub open spec fn separator_x(self) -> i32 {
        pin_coordinate(self.tag_x(self.wm.tags.len() as int) + 20)
    }

    /// Where the layout's name starts: 15 after the separator.
    pub open spec fn layout_x(self) -> i32 {
        pin_coordinate(self.separator_x() + 15)
    }

    /// The name of the current tag's layout.
    pub open spec fn layout_text(self) -> Seq<char> {
        layout_name(self.wm.tags[self.wm.current()].layout.layout_type)
    }

    /// Where the title starts: 20 after the layout's name.
    pub open spec fn title_x(self) -> i32 {
        pin_coordinate(
            self.layout_x() + text_width(byte_length(self.layout_text()), self.font_size) + 20,
        )
    }

    /// The room that is left for the title: what remains of the screen's
    /// width after the title's start and 200 for the right side.
    pub open spec fn title_room(self) -> u32 {
        if self.screen_width - self.title_x() - 200 < 0 {
            0
        } else {
            (self.screen_width - self.title_x() - 200) as u32
        }
    }

    /// The title segment for a focused window with this title.
    pub open spec fn title_segment(self, title: Seq<char>) -> SegmentView {
        let text = shown_title(title);
        let wanted = text_width(byte_length(text), self.font_size);
        SegmentView {
            text,
            x: self.title_x(),
            width: if wanted < self.title_room() {
                wanted
            } else {
                self.title_room()
            },
            clickable: false,
            action: None,
        }
    }

    /// The segments on the left of the bar: one per tag, a separator, the
    /// layout of the current tag, and the title of the focused window where
    /// a window is focused.
    pub open spec fn left_segments(self) -> Seq<SegmentView> {
        let tags = Seq::new(self.wm.tags.len(), |i: int| self.tag_segment(i));
        let fixed = tags.push(
            SegmentView {
                text: "|"@,
                x: self.separator_x(),
                width: 10,
                clickable: false,
                action: None,
            },
        ).push(
            SegmentView {
                text: self.layout_text(),
                x: self.layout_x(),
                width: text_width(byte_length(self.layout_text()), self.font_size),
                clickable: true,
                action: Some("cycle_layout"@),
            },
        );
        match self.wm.focused() {
            Some(id) => fixed.push(self.title_segment(self.wm.windows[id].title)),
            None => fixed,
        }
    }

    /// The clock at the right end of the bar, 10 from the edge.
    pub open spec fn clock_segment(self, clock: Seq<char>) -> SegmentView {
        let width = text_width(byte_length(clock), self.font_size);
        SegmentView {
            text: clock,
            x: pin_coordinate(self.screen_width - width - 10),
            width,
            clickable: false,
            action: None,
        }
    }

    /// All segments of the bar at a time of day.
    pub open spec fn segments(self, clock: Seq<char>) -> Seq<SegmentView> {
        self.left_segments().push(self.clock_segment(clock))
    }
}

/// The action of the first segment that can be clicked and spans the column
/// `x`.
pub open spec fn clicked_action(segments: Seq<SegmentView>, x: i32) -> Option<Seq<char>>
    decreases segments.len(),
{
    if segments.len() == 0 {
        None
    } else if segments[0].clickable && segments[0].x <= x < segments[0].x + segments[0].width {
        segments[0].action
    } else {
        clicked_action(segments.drop_first(), x)
    }
}

fn advance(x: i32, by: u64) -> (r: i32)
    requires
        by <= 0x2_0000_0000,
    ensures
        r == pin_coordinate(x + by),
{
    let wide: i64 = x as i64 + by as i64;
    if wide > i32::MAX as i64 {
        i32::MAX
    } else {
        wide as i32
    }
}

impl TopBar {
    /// What the bar reads of the window manager.
    pub open spec fn input(&self, wm: &WindowManager) -> BarInput {
        BarInput {
            wm: wm@,
            font_size: self.config.appearance.bar_font_size,
            screen_width: self.screen_width,
        }
    }

    /// A visible bar with the height and the colours of the configuration.
    pub fn new(config: Config, screen_width: u32) -> (bar: Self)
        ensures
            bar.config == config,
            bar.screen_width == screen_width,
            bar.height == config.appearance.bar_height,
            bar.visible,
            bar.background_color == color_of(config.appearance.bar_background@),
            bar.text_color == color_of(config.appearance.bar_foreground@),
    {
        let height = config.appearance.bar_height;
        let background_color = parse_color(config.appearance.bar_background.as_str());
        let text_color = parse_color(config.appearance.bar_foreground.as_str());
        TopBar { config, screen_width, height, visible: true, background_color, text_color }
    }

    /// Shows a hidden bar and hides a visible one.
    pub fn toggle_visibility(&mut self)
        ensures
            final(self).visible == !old(self).visible,
            final(self).config == old(self).config,
            final(self).screen_width == old(self).screen_width,
            final(self).height == old(self).height,
            final(self).background_color == old(self).background_color,
            final(self).text_color == old(self).text_color,
    {
        self.visible = !self.visible;
    }

    fn label_of(name: &str, current: bool, occupied: bool) -> (label: String)
        ensures
            label@ == tag_label(name@, current, occupied),
    {
        if current {
            let label = String::from_str("[").concat(name).concat("]");
            assert(label@ =~= tag_label(name@, current, occupied));
            label
        } else if occupied {
            let label = String::from_str("(").concat(name).concat(")");
            assert(label@ =~= tag_label(name@, current, occupied));
            label
        } else {
            owned(name)
        }
    }

    fn cut_title(title: &str) -> (text: String)
        ensures
            text@ == shown_title(title@),
    {
        if title.unicode_len() > TITLE_LIMIT {
            String::from_str(title.substring_char(0, TITLE_KEPT)).concat("...")
        } else {
            owned(title)
        }
    }

    /// The segments on the left of the bar.
    fn left_part(&self, wm: &WindowManager) -> (r: (Vec<TopBarSegment>, i32))
        requires
            wm.wf(),
        ensures
            segment_views(r.0@) == self.input(wm).left_segments(),
    {
        let ghost input = self.input(wm);
        let font_size: u32 = self.config.appearance.bar_font_size;
        let mut segments: Vec<TopBarSegment> = Vec::new();
        let mut x_offset: i32 = 10;
        let mut i: usize = 0;
        while i < wm.tags.len()
            invariant
                i <= wm.tags.len(),
                wm.wf(),
                input == self.input(wm),
                font_size == input.font_size,
                x_offset == input.tag_x(i as int),
                segments.len() == i,
                forall|j: int| 0 <= j < i ==> (#[trigger] segments[j])@ == input.tag_segment(j),
            decreases wm.tags.len() - i,
        {
            let tag = &wm.tags[i];
            assert(tag@ == input.wm.tags[i as int]);
            let label = Self::label_of(
                tag.name.as_str(),
                i == wm.current_tag.0 as usize,
                tag.windows.len() > 0,
            );
            let width: u32 = estimate_text_width(label.as_str(), font_size);
            let mut action = String::from_str("switch_tag ");
            push_decimal(&mut action, i as u64 + 1);
            segments.push(
                TopBarSegment { text: label, x: x_offset, width, clickable: true, action: Some(action) },
            );
            x_offset = advance(x_offset, width as u64 + 5);
            i += 1;
        }
        x_offset = advance(x_offset, 20);
        segments.push(
            TopBarSegment {
                text: String::from_str("|"),
                x: x_offset,
                width: 10,
                clickable: false,
                action: None,
            },
        );
        x_offset = advance(x_offset, 15);
        let layout_text = match wm.current_layout() {
            LayoutType::Tiling => String::from_str("Tiling"),
            LayoutType::Floating => String::from_str("Floating"),
            LayoutType::Monocle => String::from_str("Monocle"),
        };
        let layout_width: u32 = estimate_text_width(layout_text.as_str(), font_size);
        segments.push(
            TopBarSegment {
                text: layout_text,
                x: x_offset,
                width: layout_width,
                clickable: true,
                action: Some(String::from_str("cycle_layout")),
            },
        );
        x_offset = advance(x_offset, layout_width as u64 + 20);
        match wm.get_focused_window() {
            Some(id) => {
                proof {
                    wm@.lemma_focused_window_is_managed();
                }
                match wm.get_window(id) {
                    Some(record) => {
                        let room: i64 = self.screen_width as i64 - x_offset as i64 - 200;
                        let room: u32 = if room < 0 {
                            0
                        } else {
                            room as u32
                        };
                        let text = Self::cut_title(record.title.as_str());
                        let wanted: u32 = estimate_text_width(text.as_str(), font_size);
                        let width: u32 = if wanted < room {
                            wanted
                        } else {
                            room
                        };
                        segments.push(
                            TopBarSegment { text, x: x_offset, width, clickable: false, action: None },
                        );
                    },
                    None => {},
                }
            },
            None => {},
        }
        assert(segment_views(segments@) =~= input.left_segments());
        (segments, x_offset)
    }

    /// The content of the bar at a time of day.
    pub fn render(&self, wm: &WindowManager, clock: &str) -> (state: TopBarState)
        requires
            wm.wf(),
        ensures
            segment_views(state.segments@) == self.input(wm).segments(clock@),
            state.total_width == self.screen_width,
            state.needs_redraw,
    {
        let (mut segments, _end) = self.left_part(wm);
        let width: u32 = estimate_text_width(clock, self.config.appearance.bar_font_size);
        let x: i64 = self.screen_width as i64 - width as i64 - 10;
        let ghost before = segment_views(segments@);
        segments.push(
            TopBarSegment {
                text: owned(clock),
                x: if x > i32::MAX as i64 {
                    i32::MAX
                } else if x < i32::MIN as i64 {
                    i32::MIN
                } else {
                    x as i32
                },
                width,
                clickable: false,
                action: None,
            },
        );
        assert(segment_views(segments@) =~= before.push(
            self.input(wm).clock_segment(clock@),
        ));
        TopBarState { segments, total_width: self.screen_width, needs_redraw: true }
    }

    /// The content of the bar now: the segments of the window manager's
    /// state and the clock's time of day.
    pub fn update(&mut self, wm: &WindowManager) -> (state: TopBarState)
        requires
            wm.wf(),
        ensures
            *final(self) == *old(self),
            exists|seconds: Option<u64>|
                segment_views(state.segments@) == old(self).input(wm).segments(
                    clock_text(seconds),
                ),
            state.total_width == old(self).screen_width,
            state.needs_redraw,
    {
        let clock = get_current_time();
        self.render(wm, clock.as_str())
    }

    /// The action that a click at `(x, y)` triggers: that of the first
    /// segment that can be clicked and spans the column `x`. A click on a
    /// hidden bar or outside the bar's rows triggers nothing.
    pub fn handle_click(&mut self, wm: &WindowManager, x: i32, y: i32) -> (action: Option<String>)
        requires
            wm.wf(),
        ensures
            *final(self) == *old(self),
            match action {
                Some(text) => Some(text@),
                None => None,
            } == if old(self).visible && 0 <= y < old(self).height {
                clicked_action(old(self).input(wm).left_segments(), x)
            } else {
                None
            },
    {
        if !self.visible || y < 0 || y as i64 >= self.height as i64 {
            return None;
        }
        let (segments, _end) = self.left_part(wm);
        let ghost all = segment_views(segments@);
        let mut i: usize = 0;
        assert(all.skip(0) =~= all);
        while i < segments.len()
            invariant
                i <= segments.len(),
                *self == *old(self),
                self.visible && 0 <= y < self.height,
                all == segment_views(segments@),
                all == self.input(wm).left_segments(),
                clicked_action(all, x) == clicked_action(all.skip(i as int), x),
            decreases segments.len() - i,
        {
            let segment = &segments[i];
            assert(all.skip(i as int)[0] == segment@);
            assert(all.skip(i as int).drop_first() =~= all.skip(i as int + 1));
            if segment.clickable && x as i64 >= segment.x as i64 && (x as i64) < segment.x as i64
                + segment.width as i64 {
                assert(clicked_action(all.skip(i as int), x) == segment@.action);
                return match &segment.action {
                    Some(action) => Some(action.clone()),
                    None => None,
                };
            }
            i += 1;
        }
        None
    }

    /// The rectangle of the bar: the top rows of the screen while the bar is
    /// visible, an empty rectangle while it is hidden.
    pub fn geometry(&self) -> (r: Rectangle)
        ensures
            r == if self.visible {
                Rectangle { x: 0, y: 0, width: self.screen_width, height: self.height }
            } else {
                Rectangle { x: 0, y: 0, width: 0, height: 0 }
            },
    {
        if self.visible {
            Rectangle { x: 0, y: 0, width: self.screen_width, height: self.height }
        } else {
            Rectangle { x: 0, y: 0, width: 0, height: 0 }
        }
    }

    pub fn is_visible(&self) -> (r: bool)
        ensures
            r == self.visible,
    {
        self.visible
    }

    /// The rows that the bar takes: its height while visible, none while
    /// hidden.
    pub fn effective_height(&self) -> (r: u32)
        ensures
            r == if self.visible {
                self.height
            } else {
                0
            },
    {
        if self.visible {
            self.height
        } else {
            0
        }
    }

    /// Takes over the width of the screen after the display has changed.
    pub fn update_screen_width(&mut self, width: u32)
        ensures
            final(self).screen_width == width,
            final(self).config == old(self).config,
            final(self).height == old(self).height,
            final(self).visible == old(self).visible,
            final(self).background_color == old(self).background_color,
            final(self).text_color == old(self).text_color,
    {
        self.screen_width = width;
    }

    pub fn background_color(&self) -> (color: Color)
        ensures
            color == self.background_color,
    {
        self.background_color
    }

    pub fn text_color(&self) -> (color: Color)
        ensures
            color == self.text_color,
    {
        self.text_color
    }
}

} // verus!
