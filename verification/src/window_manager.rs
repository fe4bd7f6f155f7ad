//! The window manager: the one object that owns the tags and the window
//! registry and performs every change to them.

use crate::error::InstantError;
use crate::layouts::{arrange, arrangement, compute_usable_area, usable_area, Placement};
use crate::action::{
    parse_verb, read_tag_argument, spawn_command, tag_argument, verb_named, ActionEffect,
    EffectView, Verb,
};
use crate::config::matching_rules;
use crate::keybindings::{format_keybinding, keybinding_name, Modifiers};
use crate::model::{
    adjusted_count, adjusted_ratio, focus_after_leaving, lemma_step_backwards, lemma_step_forwards,
    next_focus, next_layout, prev_focus, swapped, without, WmView,
};
use crate::text::{owned, split_whitespace, str_eq, words};
pub use crate::types::Tag;
use crate::types::{
    AppearanceConfig, Config, LayoutConfig, LayoutType, Rectangle, TagId, TagSwitch, TagView,
    WindowId, WindowRule, WindowState, WindowView, MAX_MASTER_RATIO, MIN_MASTER_RATIO,
};
use std::collections::HashMap;
use vstd::prelude::*;
use vstd::std_specs::iter::IteratorSpec;
use vstd::string::StringExecFns;

verus! {

broadcast use vstd::std_specs::hash::group_hash_axioms;

/// The record of a managed window, under the name by which the manager's
/// users know it.
pub type WindowInfo = WindowState;

/// The master ratio that every tag starts with, in thousandths.
pub const INITIAL_MASTER_RATIO: u32 = 600;

/// The state of a session: tags, windows, and the settings they are laid out
/// by.
pub struct WindowManager {
    pub tags: Vec<Tag>,
    pub current_tag: TagId,
    pub window_info: HashMap<u64, WindowState>,
    pub config: Config,
    pub screen_geometry: Rectangle,
    pub next_window_offset: (i32, i32),
    /// The handle that the next window gets, if it is free.
    pub next_window_id: u64,
}

/// The layout that the tag at `index` starts with: the tags take the names
/// in `layouts` in turn; `floating` and `monocle` name those layouts, every
/// other name the tiling layout.
pub open spec fn initial_layout(layouts: Seq<String>, index: int) -> LayoutConfig {
    let layout_type = if layouts.len() == 0 {
        LayoutType::Tiling
    } else {
        let name = layouts[index % (layouts.len() as int)]@;
        if name == "floating"@ {
            LayoutType::Floating
        } else if name == "monocle"@ {
            LayoutType::Monocle
        } else {
            LayoutType::Tiling
        }
    };
    LayoutConfig { layout_type, master_ratio: INITIAL_MASTER_RATIO, master_count: 1 }
}

/// The tags of a list as mathematical values.
pub open spec fn tag_views(tags: Seq<Tag>) -> Seq<TagView> {
    Seq::new(tags.len(), |i: int| tags[i]@)
}

/// The registry as a map from handles to records.
pub open spec fn registry_view(registry: Map<u64, WindowState>) -> Map<WindowId, WindowView> {
    Map::new(|id: WindowId| registry.contains_key(id.0), |id: WindowId| registry[id.0]@)
}

/// Whether a new window floats: as the first rule that matches it says, and
/// not at all where no rule matches.
pub open spec fn floats_by_rules(rules: Seq<WindowRule>, class: Seq<char>, title: Seq<char>) -> bool {
    let matching = matching_rules(rules, class, title);
    matching.len() > 0 && matching[0].floating
}

/// The tag that a new window joins: the one that the first matching rule
/// names, where that rule names a tag that is there, else the current tag.
pub open spec fn tag_by_rules(
    rules: Seq<WindowRule>,
    class: Seq<char>,
    title: Seq<char>,
    current: TagId,
    tags: nat,
) -> TagId {
    let matching = matching_rules(rules, class, title);
    if matching.len() > 0 {
        match matching[0].tag {
            Some(t) => if t < tags {
                TagId(t)
            } else {
                current
            },
            None => current,
        }
    } else {
        current
    }
}

/// The handle that follows `id`; the first handle follows the last.
pub open spec fn handle_after(id: WindowId) -> u64 {
    if id.0 == u64::MAX {
        0
    } else {
        (id.0 + 1) as u64
    }
}

/// A set of handles that holds every handle below `count` has at least
/// `count` elements.
proof fn lemma_handles_below(handles: Set<u64>, count: nat)
    requires
        handles.finite(),
        count <= u64::MAX + 1,
        forall|k: u64| k < count ==> handles.contains(k),
    ensures
        count <= handles.len(),
    decreases count,
{
    if count > 0 {
        let top: u64 = (count - 1) as u64;
        assert(handles.contains(top));
        lemma_handles_below(handles.remove(top), (count - 1) as nat);
    }
}

/// A copy of a list of handles.
pub fn copy_list(list: &Vec<WindowId>) -> (copy: Vec<WindowId>)
    ensures
        copy@ == list@,
{
    let mut copy: Vec<WindowId> = Vec::new();
    let mut i: usize = 0;
    while i < list.len()
        invariant
            i <= list.len(),
            copy@ == list@.take(i as int),
        decreases list.len() - i,
    {
        copy.push(list[i]);
        assert(list@.take(i as int + 1) =~= list@.take(i as int).push(list[i as int]));
        i += 1;
    }
    assert(list@.take(i as int) =~= list@);
    copy
}

/// The position of `id` in `list`.
pub fn position(list: &Vec<WindowId>, id: WindowId) -> (r: Option<usize>)
    ensures
        match r {
            Some(i) => i < list.len() && list[i as int] == id && forall|j: int|
                0 <= j < i ==> list[j] != id,
            None => !list@.contains(id),
        },
{
    let mut i: usize = 0;
    while i < list.len()
        invariant
            i <= list.len(),
            forall|j: int| 0 <= j < i ==> list[j] != id,
        decreases list.len() - i,
    {
        if list[i] == id {
            return Some(i);
        }
        i += 1;
    }
    None
}

impl WindowManager {
    /// The state as mathematical values.
    pub open spec fn view(&self) -> WmView {
        WmView {
            tags: tag_views(self.tags@),
            current_tag: self.current_tag,
            windows: registry_view(self.window_info@),
            screen: self.screen_geometry,
            area: usable_area(
                self.screen_geometry,
                self.config.appearance.bar_height,
                self.config.appearance.gap_size,
            ),
            gap: self.config.appearance.inner_gap,
        }
    }

    /// The state is consistent.
    pub open spec fn wf(&self) -> bool {
        self@.wf()
    }

    /// Starts a session with one empty tag per configured name, the first of
    /// them current. A configuration without tag names, or with more names
    /// than tag handles, is refused.
    pub fn new(config: Config, screen_geometry: Rectangle) -> (r: Result<Self, InstantError>)
        ensures
            r is Ok <==> 0 < config.tags.names.len() <= u32::MAX,
            match r {
                Ok(wm) => {
                    &&& wm.wf()
                    &&& wm.config == config
                    &&& wm.screen_geometry == screen_geometry
                    &&& wm.current_tag == TagId(0)
                    &&& wm.next_window_id == 0
                    &&& wm@.windows == Map::<WindowId, WindowView>::empty()
                    &&& wm@.tags.len() == config.tags.names.len()
                    &&& forall|i: int|
                        0 <= i < config.tags.names.len() ==> #[trigger] wm@.tags[i] == (TagView {
                            id: TagId(i as u32),
                            name: config.tags.names[i]@,
                            layout: initial_layout(config.tags.layouts@, i),
                            windows: Seq::empty(),
                            focused_window: None,
                        })
                },
                Err(e) => e matches InstantError::Config(reason) && reason@ == (
                if config.tags.names.len() == 0 {
                    "At least one tag must be configured"@
                } else {
                    "Too many tags are configured"@
                }),
            },
    {
        let count: usize = config.tags.names.len();
        if count == 0 {
            return Err(
                InstantError::Config(String::from_str("At least one tag must be configured")),
            );
        }
        if count > u32::MAX as usize {
            return Err(InstantError::Config(String::from_str("Too many tags are configured")));
        }
        let mut tags: Vec<Tag> = Vec::new();
        let mut i: usize = 0;
        while i < count
            invariant
                i <= count,
                count == config.tags.names.len(),
                count <= u32::MAX,
                tags.len() == i,
                forall|j: int|
                    0 <= j < i ==> (#[trigger] tags[j])@ == (TagView {
                        id: TagId(j as u32),
                        name: config.tags.names[j]@,
                        layout: initial_layout(config.tags.layouts@, j),
                        windows: Seq::empty(),
                        focused_window: None,
                    }),
            decreases count - i,
        {
            let layout_type = if config.tags.layouts.len() == 0 {
                LayoutType::Tiling
            } else {
                let name = config.tags.layouts[i % config.tags.layouts.len()].as_str();
                if str_eq(name, "floating") {
                    LayoutType::Floating
                } else if str_eq(name, "monocle") {
                    LayoutType::Monocle
                } else {
                    LayoutType::Tiling
                }
            };
            tags.push(
                Tag {
                    id: TagId(i as u32),
                    name: config.tags.names[i].clone(),
                    layout: LayoutConfig {
                        layout_type,
                        master_ratio: INITIAL_MASTER_RATIO,
                        master_count: 1,
                    },
                    windows: Vec::new(),
                    focused_window: None,
                },
            );
            i += 1;
        }
        let wm = WindowManager {
            tags,
            current_tag: TagId(0),
            window_info: HashMap::new(),
            config,
            screen_geometry,
            next_window_offset: (50, 50),
            next_window_id: 0,
        };
        proof {
            assert(wm@.windows =~= Map::<WindowId, WindowView>::empty());
            assert forall|j: int| 0 <= j < count implies #[trigger] wm@.tags[j] == (TagView {
                id: TagId(j as u32),
                name: wm.config.tags.names[j]@,
                layout: initial_layout(wm.config.tags.layouts@, j),
                windows: Seq::empty(),
                focused_window: None,
            }) by {
                assert(wm@.tags[j] == wm.tags[j]@);
            }
        }
        Ok(wm)
    }

    /// The part of the screen that tiled windows share.
    pub fn usable_area(&self) -> (area: Rectangle)
        ensures
            area == self@.area,
    {
        compute_usable_area(
            self.screen_geometry,
            self.config.appearance.bar_height,
            self.config.appearance.gap_size,
        )
    }

    /// Whether `tag` is one of the manager's tags.
    pub fn has_tag(&self, tag: TagId) -> (r: bool)
        ensures
            r == (tag.0 < self@.tags.len()),
    {
        (tag.0 as usize) < self.tags.len()
    }

    /// The record of the window `id`, if `id` is managed.
    pub fn get_window(&self, id: WindowId) -> (r: Option<&WindowState>)
        ensures
            match r {
                Some(record) => self@.windows.contains_key(id) && record@ == self@.windows[id]
                    && *record == self.window_info@[id.0],
                None => !self@.windows.contains_key(id),
            },
    {
        self.window_info.get(&id.0)
    }

    /// The place of the next floating window and the handle of the next
    /// window are those of `other`.
    pub open spec fn same_bookkeeping(&self, other: &WindowManager) -> bool {
        &&& self.next_window_offset == other.next_window_offset
        &&& self.next_window_id == other.next_window_id
    }

    /// The settings, the screen and the bookkeeping are those of `other`.
    pub open spec fn same_settings(&self, other: &WindowManager) -> bool {
        &&& self.config == other.config
        &&& self.screen_geometry == other.screen_geometry
        &&& self.same_bookkeeping(other)
    }

    /// The windows of `tag` that the layout engine places, in the tag's
    /// order.
    pub fn tiled_windows_of(&self, tag: TagId) -> (tiled: Vec<WindowId>)
        requires
            tag.0 < self@.tags.len(),
        ensures
            tiled@ == self@.tiled_windows(tag.0 as int),
    {
        let t: usize = tag.0 as usize;
        let ghost keep = |id: WindowId| self@.is_tiled(id);
        let ghost list = self@.tags[t as int].windows;
        let mut tiled: Vec<WindowId> = Vec::new();
        let mut i: usize = 0;
        assert(list == self.tags[t as int].windows@);
        assert(list.take(0) =~= Seq::<WindowId>::empty());
        proof {
            reveal(Seq::filter);
        }
        while i < self.tags[t].windows.len()
            invariant
                t < self.tags.len(),
                list == self.tags[t as int].windows@,
                keep == (|id: WindowId| self@.is_tiled(id)),
                i <= list.len(),
                tiled@ == list.take(i as int).filter(keep),
            decreases list.len() - i,
        {
            let id = self.tags[t].windows[i];
            let placed = match self.window_info.get(&id.0) {
                Some(record) => record.is_tiled(),
                None => false,
            };
            proof {
                assert(placed == keep(id));
                assert(list.take(i as int + 1) =~= list.take(i as int).push(id));
                list.take(i as int).lemma_filter_push(id, keep);
            }
            if placed {
                tiled.push(id);
            }
            i += 1;
        }
        assert(list.take(i as int) =~= list);
        tiled
    }

    /// Arranges a tag that the manager has.
    fn arrange_tag(&mut self, tag: TagId) -> (placements: Vec<Placement>)
        requires
            old(self).wf(),
            tag.0 < old(self)@.tags.len(),
        ensures
            final(self)@ == old(self)@.relayout(tag.0 as int),
            final(self).wf(),
            final(self).same_settings(old(self)),
            final(self).tags == old(self).tags,
            placements@ == arrangement(
                old(self)@.tiled_windows(tag.0 as int),
                old(self)@.area,
                old(self)@.tags[tag.0 as int].layout,
                old(self)@.gap,
            ),
    {
        let t: usize = tag.0 as usize;
        let ghost start = self@;
        let ghost registry = self.window_info@;
        let tiled = self.tiled_windows_of(tag);
        let area = self.usable_area();
        let gap: u32 = self.config.appearance.inner_gap;
        let placements = arrange(&tiled, area, &self.tags[t].layout, gap);
        let ghost layout = start.tags[t as int].layout;
        proof {
            start.lemma_tiled_windows(t as int);
            start.lemma_relayout_wf(t as int);
            assert(layout == self.tags[t as int].layout);
            assert(tiled@.take(0) =~= Seq::<WindowId>::empty());
        }
        let mut k: usize = 0;
        while k < placements.len()
            invariant
                k <= placements.len(),
                start == old(self)@,
                start.wf(),
                registry == old(self).window_info@,
                t == tag.0,
                t < start.tags.len(),
                layout == start.tags[t as int].layout,
                tiled@ == start.tiled_windows(t as int),
                tiled@.no_duplicates(),
                forall|i: int| 0 <= i < tiled.len() ==> registry.contains_key((#[trigger] tiled[i]).0),
                placements@ == arrangement(tiled@, start.area, layout, start.gap),
                self.tags == old(self).tags,
                self.current_tag == old(self).current_tag,
                self.same_settings(old(self)),
                forall|key: u64| self.window_info@.contains_key(key) == registry.contains_key(key),
                forall|key: u64| #[trigger]
                    registry.contains_key(key) ==> self.window_info@[key] == (if tiled@.take(
                        k as int,
                    ).contains(WindowId(key)) {
                        WindowState {
                            geometry: start.cell_of(t as int, WindowId(key)),
                            ..registry[key]
                        }
                    } else {
                        registry[key]
                    }),
            decreases placements.len() - k,
        {
            let placement = placements[k];
            let ghost id = tiled@[k as int];
            proof {
                assert(placements.len() == tiled.len());
                assert(placement.window == id);
                assert(registry.contains_key(tiled[k as int].0));
                assert(tiled@.index_of(id) == k);
                assert(placement.geometry == start.cell_of(t as int, id));
                assert(!tiled@.take(k as int).contains(id));
                assert(tiled@.take(k as int + 1) =~= tiled@.take(k as int).push(id));
            }
            match self.window_info.remove(&placement.window.0) {
                Some(record) => {
                    let mut record = record;
                    record.geometry = placement.geometry;
                    self.window_info.insert(placement.window.0, record);
                },
                None => {},
            }
            proof {
                assert forall|key: u64| #[trigger] registry.contains_key(key) implies
                    self.window_info@[key] == (if tiled@.take(k as int + 1).contains(WindowId(key)) {
                    WindowState {
                        geometry: start.cell_of(t as int, WindowId(key)),
                        ..registry[key]
                    }
                } else {
                    registry[key]
                }) by {
                    let shorter = tiled@.take(k as int);
                    let longer = tiled@.take(k as int + 1);
                    if key == id.0 {
                        assert(WindowId(key) == id);
                        assert(longer[k as int] == id);
                    } else {
                        if shorter.contains(WindowId(key)) {
                            let j = choose|j: int|
                                0 <= j < shorter.len() && #[trigger] shorter[j] == WindowId(key);
                            assert(longer[j] == WindowId(key));
                        }
                        if longer.contains(WindowId(key)) {
                            let j = choose|j: int|
                                0 <= j < longer.len() && #[trigger] longer[j] == WindowId(key);
                            assert(j < k);
                            assert(shorter[j] == WindowId(key));
                        }
                    }
                }
            }
            k += 1;
        }
        proof {
            let expected = start.relayout(t as int);
            if layout.layout_type != LayoutType::Floating {
                assert(placements.len() == tiled.len());
                assert(tiled@.take(k as int) =~= tiled@);
            }
            assert(self@.tags =~= expected.tags);
            assert forall|id: WindowId| self@.windows.contains_key(id) implies #[trigger] self@.windows[id]
                == expected.windows[id] by {
                assert(registry.contains_key(id.0));
                assert(WindowId(id.0) == id);
                if layout.layout_type == LayoutType::Floating {
                    assert(placements.len() == 0);
                    assert(!tiled@.take(k as int).contains(id));
                }
            }
            assert(self@.windows =~= expected.windows);
            assert(self@ =~= expected);
        }
        placements
    }

    /// Arranges `tag`: every tiled window of the tag gets the rectangle that
    /// the tag's layout assigns to it. Returns the rectangles that were
    /// assigned, for the display layer to apply. A tag that the manager does
    /// not have is left alone.
    pub fn arrange(&mut self, tag: TagId) -> (placements: Vec<Placement>)
        requires
            old(self).wf(),
        ensures
            final(self).wf(),
            final(self).same_settings(old(self)),
            final(self).tags == old(self).tags,
            tag.0 < old(self)@.tags.len() ==> {
                &&& final(self)@ == old(self)@.relayout(tag.0 as int)
                &&& placements@ == arrangement(
                    old(self)@.tiled_windows(tag.0 as int),
                    old(self)@.area,
                    old(self)@.tags[tag.0 as int].layout,
                    old(self)@.gap,
                )
            },
            tag.0 >= old(self)@.tags.len() ==> final(self)@ == old(self)@ && placements@.len() == 0,
    {
        if self.has_tag(tag) {
            self.arrange_tag(tag)
        } else {
            Vec::new()
        }
    }

    /// A handle that names no managed window: the next handle in turn, or,
    /// where that one is taken, the smallest free handle.
    fn fresh_id(&self) -> (id: WindowId)
        ensures
            !self@.windows.contains_key(id),
            !self@.windows.contains_key(WindowId(self.next_window_id)) ==> id.0
                == self.next_window_id,
            self@.windows.contains_key(WindowId(self.next_window_id)) ==> forall|k: u64|
                k < id.0 ==> self@.windows.contains_key(WindowId(k)),
    {
        if !self.window_info.contains_key(&self.next_window_id) {
            return WindowId(self.next_window_id);
        }
        let managed: usize = self.window_info.len();
        let mut candidate: u64 = 0;
        while self.window_info.contains_key(&candidate)
            invariant
                managed == self.window_info@.len(),
                self.window_info@.dom().finite(),
                forall|k: u64| k < candidate ==> self.window_info@.contains_key(k),
                candidate <= managed,
            decreases managed - candidate,
        {
            proof {
                lemma_handles_below(self.window_info@.dom(), (candidate + 1) as nat);
            }
            candidate += 1;
        }
        WindowId(candidate)
    }

    /// Takes a new window under management. The first rule of the
    /// configuration that matches its class and title decides whether it
    /// floats and which tag it joins; without such a rule it is tiled and
    /// joins the current tag. The window goes to the end of its tag's list
    /// and is focused there; then the tag is arranged.
    ///
    /// Handles are handed out in turn, each one above the last, so that a
    /// handle is not handed out again after its window is gone. Only where
    /// the handle in turn is taken, as after 2^64 windows, the window gets
    /// the smallest free handle.
    pub fn manage_window(&mut self, title: String, class: String, geometry: Rectangle) -> (id:
        WindowId)
        requires
            old(self).wf(),
        ensures
            final(self).wf(),
            final(self).config == old(self).config,
            final(self).screen_geometry == old(self).screen_geometry,
            final(self).next_window_offset == old(self).next_window_offset,
            !old(self)@.windows.contains_key(id),
            !old(self)@.windows.contains_key(WindowId(old(self).next_window_id)) ==> id.0 == old(
                self,
            ).next_window_id,
            old(self)@.windows.contains_key(WindowId(old(self).next_window_id)) ==> forall|k: u64|
                k < id.0 ==> old(self)@.windows.contains_key(WindowId(k)),
            final(self).next_window_id == handle_after(id),
            final(self)@ == old(self)@.manage(
                WindowView {
                    id,
                    title: title@,
                    class: class@,
                    floating: floats_by_rules(old(self).config.rules@, class@, title@),
                    minimized: false,
                    fullscreen: false,
                    tag: tag_by_rules(
                        old(self).config.rules@,
                        class@,
                        title@,
                        old(self).current_tag,
                        old(self)@.tags.len(),
                    ),
                    geometry,
                    requested_geometry: geometry,
                },
            ),
    {
        let mut floating = false;
        let mut target = self.current_tag;
        let rules = self.config.get_rules_for_window(class.as_str(), title.as_str());
        if rules.len() > 0 {
            let rule = rules[0];
            floating = rule.floating;
            match rule.tag {
                Some(t) => {
                    if (t as usize) < self.tags.len() {
                        target = TagId(t);
                    }
                },
                None => {},
            }
        }
        let id = self.fresh_id();
        self.next_window_id = if id.0 == u64::MAX {
            0
        } else {
            id.0 + 1
        };
        proof {
            assert(self@.tags =~= old(self)@.tags);
            assert(self@.windows =~= old(self)@.windows);
        }
        let record = WindowState {
            id,
            title,
            class,
            floating,
            minimized: false,
            fullscreen: false,
            tag: target,
            geometry,
            requested_geometry: geometry,
        };
        let ghost entered = old(self)@.enter(record@);
        let t: usize = target.0 as usize;
        self.window_info.insert(id.0, record);
        self.tags[t].windows.push(id);
        self.tags[t].focused_window = Some(id);
        proof {
            assert(self@.tags =~= entered.tags);
            assert(self@.windows =~= entered.windows);
            assert(self@ =~= entered);
            old(self)@.lemma_enter_wf(record@);
        }
        self.arrange_tag(target);
        id
    }

    /// Drops a window that is gone. A handle that names no managed window
    /// changes nothing and is no error. Otherwise the record is dropped, the
    /// window leaves its tag's list, a focus on it falls back to the last
    /// remaining window of the tag, and the tag is arranged.
    pub fn unmanage_window(&mut self, window: WindowId)
        requires
            old(self).wf(),
        ensures
            final(self).wf(),
            final(self).same_settings(old(self)),
            final(self)@ == old(self)@.unmanage(window),
    {
        match self.window_info.remove(&window.0) {
            Some(record) => {
                let tag = record.tag;
                let ghost left = old(self)@.leave(window);
                proof {
                    assert(old(self)@.windows.contains_key(window));
                    assert(record@ == old(self)@.windows[window]);
                }
                self.drop_from_list(tag, window);
                proof {
                    assert(self@.tags =~= left.tags);
                    assert(self@.windows =~= left.windows);
                    assert(self@ =~= left);
                    old(self)@.lemma_leave_wf(window);
                }
                self.arrange_tag(tag);
            },
            None => {
                proof {
                    assert(self@.windows =~= old(self)@.windows);
                    assert(self@.tags =~= old(self)@.tags);
                }
            },
        }
    }

    /// Takes `window` out of the list of `tag` and repairs the tag's focus.
    fn drop_from_list(&mut self, tag: TagId, window: WindowId)
        requires
            tag.0 < old(self).tags.len(),
            old(self).tags[tag.0 as int].windows@.no_duplicates(),
        ensures
            final(self).tags.len() == old(self).tags.len(),
            forall|u: int|
                0 <= u < old(self).tags.len() && u != tag.0 ==> final(self).tags[u] == old(
                    self,
                ).tags[u],
            final(self).tags[tag.0 as int]@ == (TagView {
                windows: without(old(self).tags[tag.0 as int].windows@, window),
                focused_window: focus_after_leaving(
                    without(old(self).tags[tag.0 as int].windows@, window),
                    old(self).tags[tag.0 as int].focused_window,
                    window,
                ),
                ..old(self).tags[tag.0 as int]@
            }),
            final(self).window_info == old(self).window_info,
            final(self).current_tag == old(self).current_tag,
            final(self).same_settings(old(self)),
    {
        let t: usize = tag.0 as usize;
        let ghost list = self.tags[t as int].windows@;
        match position(&self.tags[t].windows, window) {
            Some(at) => {
                proof {
                    assert(list.contains(window));
                    assert(list.index_of(window) == at);
                }
                self.tags[t].windows.remove(at);
            },
            None => {},
        }
        if self.tags[t].focused_window == Some(window) {
            let remaining: usize = self.tags[t].windows.len();
            if remaining > 0 {
                let last = self.tags[t].windows[remaining - 1];
                self.tags[t].focused_window = Some(last);
            } else {
                self.tags[t].focused_window = None;
            }
        }
    }

    /// Makes `tag_id` the current tag. Returns which tag the display layer
    /// has to hide and which to show. Nothing happens, and nothing is
    /// returned, where `tag_id` names no tag or the current one.
    pub fn switch_to_tag(&mut self, tag_id: u32) -> (switch: Option<TagSwitch>)
        requires
            old(self).wf(),
        ensures
            final(self).wf(),
            final(self).same_settings(old(self)),
            final(self).tags == old(self).tags,
            final(self).window_info == old(self).window_info,
            tag_id < old(self)@.tags.len() && TagId(tag_id) != old(self).current_tag ==> {
                &&& final(self).current_tag == TagId(tag_id)
                &&& switch == Some(TagSwitch { hidden: old(self).current_tag, shown: TagId(tag_id) })
            },
            !(tag_id < old(self)@.tags.len() && TagId(tag_id) != old(self).current_tag) ==> {
                &&& final(self).current_tag == old(self).current_tag
                &&& switch is None
            },
    {
        if (tag_id as usize) < self.tags.len() && tag_id != self.current_tag.0 {
            let hidden = self.current_tag;
            self.current_tag = TagId(tag_id);
            Some(TagSwitch { hidden, shown: TagId(tag_id) })
        } else {
            None
        }
    }

    /// Moves a window to the tag `tag_id`: the window leaves its tag's list,
    /// where a focus on it falls back to the last remaining window, goes to
    /// the end of the new tag's list and is focused there; both tags are
    /// arranged. The current tag does not change, so a window that moves to
    /// another tag is hidden, not destroyed.
    pub fn move_window_to_tag(&mut self, window: WindowId, tag_id: u32) -> (r: Result<
        (),
        InstantError,
    >)
        requires
            old(self).wf(),
        ensures
            final(self).wf(),
            final(self).same_settings(old(self)),
            r is Ok <==> old(self)@.windows.contains_key(window) && tag_id < old(self)@.tags.len(),
            r is Ok ==> final(self)@ == old(self)@.move_to_tag(window, tag_id as int),
            r is Err ==> r == Err::<(), InstantError>(InstantError::NotFound) && final(self)@ == old(
                self,
            )@,
    {
        if (tag_id as usize) >= self.tags.len() {
            return Err(InstantError::NotFound);
        }
        let target = TagId(tag_id);
        let source = match self.window_info.remove(&window.0) {
            Some(record) => {
                let source = record.tag;
                let mut record = record;
                record.tag = target;
                self.window_info.insert(window.0, record);
                source
            },
            None => {
                proof {
                    assert(self@.windows =~= old(self)@.windows);
                    assert(self@.tags =~= old(self)@.tags);
                }
                return Err(InstantError::NotFound);
            },
        };
        let ghost moved = old(self)@.detach(window).attach(window, tag_id as int);
        proof {
            assert(old(self)@.windows.contains_key(window));
        }
        self.drop_from_list(source, window);
        let t: usize = tag_id as usize;
        self.tags[t].windows.push(window);
        self.tags[t].focused_window = Some(window);
        proof {
            assert(self@.tags =~= moved.tags);
            assert(self@.windows =~= moved.windows);
            assert(self@ =~= moved);
            old(self)@.lemma_move_wf(window, tag_id as int);
        }
        self.arrange_tag(source);
        self.arrange_tag(target);
        Ok(())
    }

    /// Puts `record` in the place of the record of the same window.
    fn replace_record(&mut self, record: WindowState)
        requires
            old(self).wf(),
            old(self)@.windows.contains_key(record.id),
            record.tag == old(self)@.windows[record.id].tag,
        ensures
            final(self).wf(),
            final(self).same_settings(old(self)),
            final(self).tags == old(self).tags,
            final(self).current_tag == old(self).current_tag,
            final(self)@ == old(self)@.with_record(record.id, record@),
    {
        let ghost expected = old(self)@.with_record(record.id, record@);
        let id = record.id;
        self.window_info.insert(id.0, record);
        proof {
            assert(self@.windows =~= expected.windows);
            assert(self@.tags =~= expected.tags);
            old(self)@.lemma_with_record_wf(id, record@);
        }
    }

    /// A copy of the record of a managed window.
    fn copy_record(&self, window: WindowId) -> (r: Option<WindowState>)
        ensures
            match r {
                Some(record) => self@.windows.contains_key(window) && record
                    == self.window_info@[window.0],
                None => !self@.windows.contains_key(window),
            },
    {
        match self.window_info.get(&window.0) {
            Some(record) => Some(
                WindowState {
                    id: record.id,
                    title: record.title.clone(),
                    class: record.class.clone(),
                    floating: record.floating,
                    minimized: record.minimized,
                    fullscreen: record.fullscreen,
                    tag: record.tag,
                    geometry: record.geometry,
                    requested_geometry: record.requested_geometry,
                },
            ),
            None => None,
        }
    }

    /// Makes a tiled window floating or a floating window tiled, and
    /// arranges the window's tag.
    pub fn toggle_floating(&mut self, window: WindowId) -> (r: Result<(), InstantError>)
        requires
            old(self).wf(),
        ensures
            final(self).wf(),
            final(self).same_settings(old(self)),
            r is Ok <==> old(self)@.windows.contains_key(window),
            r is Ok ==> final(self)@ == old(self)@.toggle_floating(window),
            r is Err ==> r == Err::<(), InstantError>(InstantError::NotFound) && final(self)@ == old(
                self,
            )@,
    {
        match self.copy_record(window) {
            Some(record) => {
                let mut record = record;
                let tag = record.tag;
                record.floating = !record.floating;
                self.replace_record(record);
                self.arrange_tag(tag);
                Ok(())
            },
            None => Err(InstantError::NotFound),
        }
    }

    /// Minimizes or restores a window, and arranges the window's tag.
    pub fn set_minimized(&mut self, window: WindowId, minimized: bool) -> (r: Result<
        (),
        InstantError,
    >)
        requires
            old(self).wf(),
        ensures
            final(self).wf(),
            final(self).same_settings(old(self)),
            r is Ok <==> old(self)@.windows.contains_key(window),
            r is Ok ==> final(self)@ == old(self)@.set_minimized(window, minimized),
            r is Err ==> r == Err::<(), InstantError>(InstantError::NotFound) && final(self)@ == old(
                self,
            )@,
    {
        match self.copy_record(window) {
            Some(record) => {
                let mut record = record;
                let tag = record.tag;
                record.minimized = minimized;
                self.replace_record(record);
                self.arrange_tag(tag);
                Ok(())
            },
            None => Err(InstantError::NotFound),
        }
    }

    /// Lets a window enter or leave fullscreen, and arranges the window's
    /// tag. On entering, the window's rectangle is kept as its requested
    /// geometry before the window takes the whole screen. On leaving, the
    /// window takes its requested geometry back, unless the layout engine
    /// then places it.
    pub fn toggle_fullscreen(&mut self, window: WindowId) -> (r: Result<(), InstantError>)
        requires
            old(self).wf(),
        ensures
            final(self).wf(),
            final(self).same_settings(old(self)),
            r is Ok <==> old(self)@.windows.contains_key(window),
            r is Ok ==> final(self)@ == old(self)@.toggle_fullscreen(window),
            r is Err ==> r == Err::<(), InstantError>(InstantError::NotFound) && final(self)@ == old(
                self,
            )@,
    {
        match self.copy_record(window) {
            Some(record) => {
                let mut record = record;
                let tag = record.tag;
                if record.fullscreen {
                    record.fullscreen = false;
                    record.geometry = record.requested_geometry;
                } else {
                    record.fullscreen = true;
                    record.requested_geometry = record.geometry;
                    record.geometry = self.screen_geometry;
                }
                self.replace_record(record);
                self.arrange_tag(tag);
                Ok(())
            },
            None => Err(InstantError::NotFound),
        }
    }

    /// Sets the rectangle of a window by hand, as dragging and resizing do.
    /// The tag is not arranged: the rectangle stays until the layout engine
    /// next places the window.
    pub fn set_window_geometry(&mut self, window: WindowId, geometry: Rectangle) -> (r: Result<
        (),
        InstantError,
    >)
        requires
            old(self).wf(),
        ensures
            final(self).wf(),
            final(self).same_settings(old(self)),
            r is Ok <==> old(self)@.windows.contains_key(window),
            r is Ok ==> final(self)@ == old(self)@.set_geometry(window, geometry),
            r is Err ==> r == Err::<(), InstantError>(InstantError::NotFound) && final(self)@ == old(
                self,
            )@,
    {
        match self.copy_record(window) {
            Some(record) => {
                let mut record = record;
                record.geometry = geometry;
                self.replace_record(record);
                Ok(())
            },
            None => Err(InstantError::NotFound),
        }
    }

    /// Sets the focus of a tag that the manager has.
    fn set_focus(&mut self, tag: TagId, focus: Option<WindowId>)
        requires
            old(self).wf(),
            tag.0 < old(self)@.tags.len(),
            match focus {
                Some(id) => old(self)@.tags[tag.0 as int].windows.contains(id),
                None => true,
            },
        ensures
            final(self).wf(),
            final(self).same_settings(old(self)),
            final(self).window_info == old(self).window_info,
            final(self).current_tag == old(self).current_tag,
            final(self)@ == old(self)@.with_focus(tag.0 as int, focus),
    {
        let ghost expected = old(self)@.with_focus(tag.0 as int, focus);
        let t: usize = tag.0 as usize;
        self.tags[t].focused_window = focus;
        proof {
            assert(self@.tags =~= expected.tags);
            old(self)@.lemma_with_focus_wf(tag.0 as int, focus);
        }
    }

    /// Focuses a window on the tag that holds it. The current tag does not
    /// change: a focus on a window of another tag shows once that tag
    /// becomes current.
    pub fn focus_window(&mut self, window: WindowId) -> (r: Result<(), InstantError>)
        requires
            old(self).wf(),
        ensures
            final(self).wf(),
            final(self).same_settings(old(self)),
            final(self).window_info == old(self).window_info,
            r is Ok <==> old(self)@.windows.contains_key(window),
            r is Ok ==> final(self)@ == old(self)@.with_focus(
                old(self)@.tag_of(window),
                Some(window),
            ),
            r is Err ==> r == Err::<(), InstantError>(InstantError::NotFound) && final(self)@ == old(
                self,
            )@,
    {
        let tag = match self.window_info.get(&window.0) {
            Some(record) => record.tag,
            None => {
                return Err(InstantError::NotFound);
            },
        };
        assert(self@.windows.contains_key(window));
        self.set_focus(tag, Some(window));
        Ok(())
    }

    /// Moves the focus of the current tag to the next window of its list,
    /// from the last window to the first. With no focus, the first window
    /// is focused. Nothing happens on a tag without windows.
    pub fn focus_next(&mut self)
        requires
            old(self).wf(),
        ensures
            final(self).wf(),
            final(self).same_settings(old(self)),
            final(self).window_info == old(self).window_info,
            final(self)@ == old(self)@.focus_next(),
    {
        let tag = self.current_tag;
        let t: usize = tag.0 as usize;
        let count: usize = self.tags[t].windows.len();
        let ghost list = self@.tags[t as int].windows;
        assert(list == self.tags[t as int].windows@);
        let focus = if count == 0 {
            self.tags[t].focused_window
        } else {
            match self.tags[t].focused_window {
                Some(current) => match position(&self.tags[t].windows, current) {
                    Some(at) => {
                        assert(list.index_of(current) == at);
                        proof {
                            lemma_step_forwards(at as int, count as int);
                        }
                        let next: usize = if at + 1 == count {
                            0
                        } else {
                            at + 1
                        };
                        Some(self.tags[t].windows[next])
                    },
                    None => Some(current),
                },
                None => Some(self.tags[t].windows[0]),
            }
        };
        assert(focus == next_focus(list, self.tags[t as int].focused_window));
        proof {
            match focus {
                Some(id) => {
                    if count > 0 {
                        assert(exists|i: int| 0 <= i < list.len() && list[i] == id);
                    }
                },
                None => {},
            }
        }
        self.set_focus(tag, focus);
    }

    /// Moves the focus of the current tag to the previous window of its
    /// list, from the first window to the last. With no focus, the last
    /// window is focused. Nothing happens on a tag without windows.
    pub fn focus_prev(&mut self)
        requires
            old(self).wf(),
        ensures
            final(self).wf(),
            final(self).same_settings(old(self)),
            final(self).window_info == old(self).window_info,
            final(self)@ == old(self)@.focus_prev(),
    {
        let tag = self.current_tag;
        let t: usize = tag.0 as usize;
        let count: usize = self.tags[t].windows.len();
        let ghost list = self@.tags[t as int].windows;
        assert(list == self.tags[t as int].windows@);
        let focus = if count == 0 {
            self.tags[t].focused_window
        } else {
            match self.tags[t].focused_window {
                Some(current) => match position(&self.tags[t].windows, current) {
                    Some(at) => {
                        assert(list.index_of(current) == at);
                        proof {
                            lemma_step_backwards(at as int, count as int);
                        }
                        let previous: usize = if at == 0 {
                            count - 1
                        } else {
                            at - 1
                        };
                        Some(self.tags[t].windows[previous])
                    },
                    None => Some(current),
                },
                None => Some(self.tags[t].windows[count - 1]),
            }
        };
        assert(focus == prev_focus(list, self.tags[t as int].focused_window));
        proof {
            match focus {
                Some(id) => {
                    if count > 0 {
                        assert(exists|i: int| 0 <= i < list.len() && list[i] == id);
                    }
                },
                None => {},
            }
        }
        self.set_focus(tag, focus);
    }

    /// Exchanges the focused window of the current tag with a neighbour in
    /// the tag's list and arranges the tag.
    fn shift_focused(&mut self, towards_front: bool)
        requires
            old(self).wf(),
        ensures
            final(self).wf(),
            final(self).same_settings(old(self)),
            final(self)@ == old(self)@.shift_focused(towards_front),
    {
        let tag = self.current_tag;
        let t: usize = tag.0 as usize;
        let count: usize = self.tags[t].windows.len();
        let ghost list = self@.tags[t as int].windows;
        assert(list == self.tags[t as int].windows@);
        let focused = match self.tags[t].focused_window {
            Some(id) => id,
            None => {
                return ;
            },
        };
        let at: usize = match position(&self.tags[t].windows, focused) {
            Some(at) => at,
            None => {
                return ;
            },
        };
        assert(list.index_of(focused) == at);
        if towards_front && at == 0 {
            return ;
        }
        if !towards_front && at + 1 >= count {
            return ;
        }
        let other: usize = if towards_front {
            at - 1
        } else {
            at + 1
        };
        let neighbour = self.tags[t].windows[other];
        let ghost expected = old(self)@.with_windows(t as int, swapped(list, at as int, other as int));
        self.tags[t].windows.set(at, neighbour);
        self.tags[t].windows.set(other, focused);
        proof {
            assert(self.tags[t as int].windows@ =~= swapped(list, at as int, other as int));
            assert(self@.tags =~= expected.tags);
            assert(self@ =~= expected);
            old(self)@.lemma_swap_wf(t as int, at as int, other as int);
        }
        self.arrange_tag(tag);
    }

    /// Moves the focused window of the current tag one place towards the
    /// front of the tag's list and arranges the tag. Nothing happens where
    /// no window is focused or the focused window is the first.
    pub fn move_window_up(&mut self)
        requires
            old(self).wf(),
        ensures
            final(self).wf(),
            final(self).same_settings(old(self)),
            final(self)@ == old(self)@.shift_focused(true),
    {
        self.shift_focused(true);
    }

    /// Moves the focused window of the current tag one place towards the
    /// end of the tag's list and arranges the tag. Nothing happens where no
    /// window is focused or the focused window is the last.
    pub fn move_window_down(&mut self)
        requires
            old(self).wf(),
        ensures
            final(self).wf(),
            final(self).same_settings(old(self)),
            final(self)@ == old(self)@.shift_focused(false),
    {
        self.shift_focused(false);
    }

    /// The window that is focused on the current tag.
    pub fn get_focused_window(&self) -> (r: Option<WindowId>)
        requires
            self.wf(),
        ensures
            r == self@.focused(),
    {
        self.tags[self.current_tag.0 as usize].focused_window
    }

    /// The window that a request to close the focused window is for. The
    /// window stays managed until the display layer reports that it is gone.
    pub fn close_focused_window(&self) -> (r: Option<WindowId>)
        requires
            self.wf(),
        ensures
            r == self@.focused(),
    {
        self.get_focused_window()
    }

    /// The current tag.
    pub fn get_current_tag(&self) -> (tag: &Tag)
        requires
            self.wf(),
        ensures
            *tag == self.tags[self@.current()],
            tag@ == self@.tags[self@.current()],
    {
        &self.tags[self.current_tag.0 as usize]
    }

    /// The current tag, to be changed in place. Whoever changes the tag's
    /// list or focus answers for the state's consistency, which
    /// `is_consistent` tells.
    pub fn get_current_tag_mut(&mut self) -> (tag: &mut Tag)
        requires
            old(self).wf(),
        ensures
            *tag == old(self).tags[old(self)@.current()],
            final(self).tags@ == old(self).tags@.update(old(self)@.current(), *final(tag)),
            final(self).current_tag == old(self).current_tag,
            final(self).window_info == old(self).window_info,
            final(self).same_settings(old(self)),
    {
        let t: usize = self.current_tag.0 as usize;
        &mut self.tags[t]
    }

    /// The layout of the current tag.
    pub fn current_layout(&self) -> (layout: LayoutType)
        requires
            self.wf(),
        ensures
            layout == self@.tags[self@.current()].layout.layout_type,
    {
        self.tags[self.current_tag.0 as usize].layout.layout_type
    }

    /// The windows of the current tag, in the tag's order.
    pub fn get_windows_for_current_tag(&self) -> (windows: Vec<WindowId>)
        requires
            self.wf(),
        ensures
            windows@ == self@.tags[self@.current()].windows,
    {
        copy_list(&self.tags[self.current_tag.0 as usize].windows)
    }

    /// The windows of `tag`, in the tag's order; none for a tag that the
    /// manager does not have.
    pub fn get_windows_for_tag(&self, tag: TagId) -> (windows: Vec<WindowId>)
        ensures
            windows@ == if tag.0 < self@.tags.len() {
                self@.tags[tag.0 as int].windows
            } else {
                Seq::empty()
            },
    {
        if (tag.0 as usize) < self.tags.len() {
            copy_list(&self.tags[tag.0 as usize].windows)
        } else {
            Vec::new()
        }
    }

    /// The windows of the current tag that the layout engine places: those
    /// that are neither floating, nor minimized, nor fullscreen.
    pub fn get_tiled_windows_for_current_tag(&self) -> (windows: Vec<WindowId>)
        requires
            self.wf(),
        ensures
            windows@ == self@.tiled_windows(self@.current()),
    {
        self.tiled_windows_of(self.current_tag)
    }

    /// Whether `window` is a managed window that floats.
    pub fn is_window_floating(&self, window: WindowId) -> (r: bool)
        ensures
            r == (self@.windows.contains_key(window) && self@.windows[window].floating),
    {
        match self.window_info.get(&window.0) {
            Some(record) => record.floating,
            None => false,
        }
    }

    /// Gives a tag that the manager has new layout parameters and arranges
    /// it.
    fn change_layout(&mut self, tag: TagId, layout: LayoutConfig)
        requires
            old(self).wf(),
            tag.0 < old(self)@.tags.len(),
            layout.in_range(),
        ensures
            final(self).wf(),
            final(self).same_settings(old(self)),
            final(self)@ == old(self)@.change_layout(tag.0 as int, layout),
    {
        let ghost expected = old(self)@.with_layout(tag.0 as int, layout);
        let t: usize = tag.0 as usize;
        self.tags[t].layout = layout;
        proof {
            assert(self@.tags =~= expected.tags);
            assert(self@ =~= expected);
            old(self)@.lemma_with_layout_wf(tag.0 as int, layout);
        }
        self.arrange_tag(tag);
    }

    /// Gives the current tag the layout `layout` and arranges it.
    pub fn set_layout(&mut self, layout: LayoutType)
        requires
            old(self).wf(),
        ensures
            final(self).wf(),
            final(self).same_settings(old(self)),
            final(self)@ == old(self)@.change_layout(
                old(self)@.current(),
                LayoutConfig { layout_type: layout, ..old(self)@.tags[old(self)@.current()].layout },
            ),
    {
        let tag = self.current_tag;
        let mut changed = self.tags[tag.0 as usize].layout;
        changed.layout_type = layout;
        assert(self@.tags[tag.0 as int].layout.in_range());
        self.change_layout(tag, changed);
    }

    /// Gives the current tag the next layout, from tiling to floating to
    /// monocle and back to tiling, and arranges it.
    pub fn cycle_layout(&mut self)
        requires
            old(self).wf(),
        ensures
            final(self).wf(),
            final(self).same_settings(old(self)),
            final(self)@ == old(self)@.change_layout(
                old(self)@.current(),
                LayoutConfig {
                    layout_type: next_layout(
                        old(self)@.tags[old(self)@.current()].layout.layout_type,
                    ),
                    ..old(self)@.tags[old(self)@.current()].layout
                },
            ),
    {
        let next = match self.current_layout() {
            LayoutType::Tiling => LayoutType::Floating,
            LayoutType::Floating => LayoutType::Monocle,
            LayoutType::Monocle => LayoutType::Tiling,
        };
        self.set_layout(next);
    }

    /// Gives `tag` the layout parameters `layout`, brought into their ranges
    /// where they are outside, and arranges the tag.
    pub fn set_tag_layout(&mut self, tag: TagId, layout: LayoutConfig) -> (r: Result<
        (),
        InstantError,
    >)
        requires
            old(self).wf(),
        ensures
            final(self).wf(),
            final(self).same_settings(old(self)),
            r is Ok <==> tag.0 < old(self)@.tags.len(),
            r is Ok ==> final(self)@ == old(self)@.change_layout(
                tag.0 as int,
                layout.nearest_in_range(),
            ),
            r is Err ==> r == Err::<(), InstantError>(InstantError::NotFound) && final(self)@ == old(
                self,
            )@,
    {
        if !self.has_tag(tag) {
            return Err(InstantError::NotFound);
        }
        self.change_layout(tag, layout.normalized());
        Ok(())
    }

    /// Widens or narrows the master column of the current tag by `delta`
    /// thousandths of the usable width, within 100 and 900 thousandths, and
    /// arranges the tag.
    pub fn adjust_master_ratio(&mut self, delta: i32)
        requires
            old(self).wf(),
        ensures
            final(self).wf(),
            final(self).same_settings(old(self)),
            final(self)@ == old(self)@.change_layout(
                old(self)@.current(),
                LayoutConfig {
                    master_ratio: adjusted_ratio(
                        old(self)@.tags[old(self)@.current()].layout.master_ratio,
                        delta,
                    ),
                    ..old(self)@.tags[old(self)@.current()].layout
                },
            ),
    {
        let tag = self.current_tag;
        let mut changed = self.tags[tag.0 as usize].layout;
        let moved: i64 = changed.master_ratio as i64 + delta as i64;
        changed.master_ratio = if moved < MIN_MASTER_RATIO as i64 {
            MIN_MASTER_RATIO
        } else if moved > MAX_MASTER_RATIO as i64 {
            MAX_MASTER_RATIO
        } else {
            moved as u32
        };
        assert(self@.tags[tag.0 as int].layout.in_range());
        self.change_layout(tag, changed);
    }

    /// Adds `delta` master slots to the current tag, keeping at least one
    /// and, where the tag has windows, no more than it has windows; then
    /// arranges the tag.
    pub fn adjust_master_count(&mut self, delta: i32)
        requires
            old(self).wf(),
        ensures
            final(self).wf(),
            final(self).same_settings(old(self)),
            final(self)@ == old(self)@.change_layout(
                old(self)@.current(),
                LayoutConfig {
                    master_count: adjusted_count(
                        old(self)@.tags[old(self)@.current()].layout.master_count,
                        delta,
                        old(self)@.tags[old(self)@.current()].windows.len() as int,
                    ),
                    ..old(self)@.tags[old(self)@.current()].layout
                },
            ),
    {
        let tag = self.current_tag;
        let t: usize = tag.0 as usize;
        let mut changed = self.tags[t].layout;
        let windows: u128 = self.tags[t].windows.len() as u128;
        let moved: i128 = changed.master_count as i128 + delta as i128;
        let at_least_one: u128 = if moved < 1 {
            1
        } else {
            moved as u128
        };
        let kept: u128 = if at_least_one > windows {
            if windows < 1 {
                1
            } else {
                windows
            }
        } else {
            at_least_one
        };
        changed.master_count = kept as usize;
        assert(self@.tags[t as int].windows.len() == self.tags[t as int].windows.len());
        self.change_layout(tag, changed);
    }

    /// Sets the gap along the edges of the screen and arranges every tag.
    pub fn set_gap(&mut self, size: u32)
        requires
            old(self).wf(),
        ensures
            final(self).wf(),
            final(self).config == (Config {
                appearance: AppearanceConfig { gap_size: size, ..old(self).config.appearance },
                ..old(self).config
            }),
            final(self).screen_geometry == old(self).screen_geometry,
            final(self).same_bookkeeping(old(self)),
            final(self)@ == (WmView {
                area: usable_area(
                    old(self).screen_geometry,
                    old(self).config.appearance.bar_height,
                    size,
                ),
                ..old(self)@
            }).relayout_tags(old(self)@.tags.len() as int),
    {
        self.config.appearance.gap_size = size;
        let ghost base = self@;
        let ghost settings = self.config;
        assert(base.tags =~= old(self)@.tags);
        assert(base.windows =~= old(self)@.windows);
        let count: usize = self.tags.len();
        let mut i: usize = 0;
        while i < count
            invariant
                i <= count,
                count == base.tags.len(),
                count <= u32::MAX,
                self.wf(),
                self@.tags.len() == count,
                self@ == base.relayout_tags(i as int),
                self.config == settings,
                self.screen_geometry == old(self).screen_geometry,
                self.same_bookkeeping(old(self)),
            decreases count - i,
        {
            self.arrange_tag(TagId(i as u32));
            i += 1;
        }
    }

    /// Sets the width of the window borders.
    pub fn set_border_width(&mut self, width: u32)
        requires
            old(self).wf(),
        ensures
            final(self).wf(),
            final(self).config == (Config {
                appearance: AppearanceConfig { border_width: width, ..old(self).config.appearance },
                ..old(self).config
            }),
            final(self).screen_geometry == old(self).screen_geometry,
            final(self).same_bookkeeping(old(self)),
            final(self)@ == old(self)@,
    {
        self.config.appearance.border_width = width;
        proof {
            assert(self@.tags =~= old(self)@.tags);
            assert(self@.windows =~= old(self)@.windows);
        }
    }

    /// What an action leaves to do outside the manager: `spawn` with a
    /// target asks for a command line to be started; `close_window` asks the
    /// focused window to close; `switch_tag` with the number of another tag
    /// asks for that tag to be shown; `reload_config` and `exit` ask for
    /// just that. Every other action leaves nothing.
    pub open spec fn action_effect(&self, words: Seq<Seq<char>>) -> EffectView {
        if words.len() == 0 {
            EffectView::Nothing
        } else {
            match verb_named(words[0]) {
                Some(Verb::Spawn) => if words.len() > 1 {
                    EffectView::Spawn(spawn_command(self.config.general, words[1]))
                } else {
                    EffectView::Nothing
                },
                Some(Verb::CloseWindow) => match self@.focused() {
                    Some(window) => EffectView::CloseWindow(window),
                    None => EffectView::Nothing,
                },
                Some(Verb::SwitchTag) => match tag_argument(words) {
                    Some(t) => if t < self@.tags.len() && t != self@.current() {
                        EffectView::Switched(
                            TagSwitch { hidden: self.current_tag, shown: TagId(t as u32) },
                        )
                    } else {
                        EffectView::Nothing
                    },
                    None => EffectView::Nothing,
                },
                Some(Verb::ReloadConfig) => EffectView::ReloadConfig,
                Some(Verb::Exit) => EffectView::Exit,
                _ => EffectView::Nothing,
            }
        }
    }

    /// The command line that `spawn` starts for `target`.
    fn resolve_spawn(&self, target: &str) -> (command: String)
        ensures
            command@ == spawn_command(self.config.general, target@),
    {
        if str_eq(target, "terminal") {
            self.config.general.terminal.clone()
        } else if str_eq(target, "browser") {
            self.config.general.browser.clone()
        } else if str_eq(target, "launcher") {
            self.config.general.launcher.clone()
        } else {
            owned(target)
        }
    }

    /// Carries out an action. The action is a line of words, the first of
    /// them a verb; tags are counted from one. A line without words, an
    /// unknown verb, a missing or unreadable argument and a tag number that
    /// names no tag change nothing and are no error. Returns what is left to
    /// do outside the manager.
    pub fn execute_action(&mut self, action: &str) -> (effect: ActionEffect)
        requires
            old(self).wf(),
        ensures
            final(self).wf(),
            final(self).same_settings(old(self)),
            final(self)@ == old(self)@.after_action(words(action@)),
            effect@ == old(self).action_effect(words(action@)),
    {
        let parts = split_whitespace(action);
        let ghost line = words(action@);
        if parts.len() == 0 {
            return ActionEffect::Nothing;
        }
        assert(line[0] == parts@[0]@);
        let verb = match parse_verb(parts[0]) {
            Some(verb) => verb,
            None => {
                return ActionEffect::Nothing;
            },
        };
        match verb {
            Verb::Spawn => {
                if parts.len() > 1 {
                    assert(line[1] == parts@[1]@);
                    ActionEffect::Spawn(self.resolve_spawn(parts[1]))
                } else {
                    ActionEffect::Nothing
                }
            },
            Verb::CloseWindow => match self.close_focused_window() {
                Some(window) => ActionEffect::CloseWindow(window),
                None => ActionEffect::Nothing,
            },
            Verb::ToggleFloating => {
                match self.get_focused_window() {
                    Some(window) => {
                        proof {
                            old(self)@.lemma_focused_window_is_managed();
                        }
                        let _ = self.toggle_floating(window);
                    },
                    None => {},
                }
                ActionEffect::Nothing
            },
            Verb::ToggleFullscreen => {
                match self.get_focused_window() {
                    Some(window) => {
                        proof {
                            old(self)@.lemma_focused_window_is_managed();
                        }
                        let _ = self.toggle_fullscreen(window);
                    },
                    None => {},
                }
                ActionEffect::Nothing
            },
            Verb::CycleLayout => {
                self.cycle_layout();
                ActionEffect::Nothing
            },
            Verb::SwitchTag => match read_tag_argument(&parts) {
                Some(tag) => match self.switch_to_tag(tag) {
                    Some(switch) => {
                        proof {
                            assert(self@.tags =~= old(self)@.tags);
                        }
                        ActionEffect::Switched(switch)
                    },
                    None => ActionEffect::Nothing,
                },
                None => ActionEffect::Nothing,
            },
            Verb::MoveToTag => {
                match read_tag_argument(&parts) {
                    Some(tag) => match self.get_focused_window() {
                        Some(window) => {
                            proof {
                                old(self)@.lemma_focused_window_is_managed();
                            }
                            let _ = self.move_window_to_tag(window, tag);
                        },
                        None => {},
                    },
                    None => {},
                }
                ActionEffect::Nothing
            },
            Verb::FocusLeft | Verb::FocusUp => {
                self.focus_prev();
                ActionEffect::Nothing
            },
            Verb::FocusRight | Verb::FocusDown => {
                self.focus_next();
                ActionEffect::Nothing
            },
            Verb::MoveLeft | Verb::MoveUp => {
                self.move_window_up();
                ActionEffect::Nothing
            },
            Verb::MoveRight | Verb::MoveDown => {
                self.move_window_down();
                ActionEffect::Nothing
            },
            Verb::IncreaseMaster => {
                self.adjust_master_ratio(50);
                ActionEffect::Nothing
            },
            Verb::DecreaseMaster => {
                self.adjust_master_ratio(-50);
                ActionEffect::Nothing
            },
            Verb::IncreaseMasterCount => {
                self.adjust_master_count(1);
                ActionEffect::Nothing
            },
            Verb::DecreaseMasterCount => {
                self.adjust_master_count(-1);
                ActionEffect::Nothing
            },
            Verb::ReloadConfig => ActionEffect::ReloadConfig,
            Verb::Exit => ActionEffect::Exit,
        }
    }

    /// Carries out the action that a key combination is bound to, if it is
    /// bound to one.
    pub fn handle_keybinding(&mut self, keysym: u32, modifiers: Modifiers) -> (effect: ActionEffect)
        requires
            old(self).wf(),
        ensures
            final(self).wf(),
            final(self).same_settings(old(self)),
            ({
                let key = keybinding_name(keysym, modifiers);
                if old(self).config.keybindings@.contains_key(key) {
                    let line = words(old(self).config.keybindings@[key]@);
                    &&& final(self)@ == old(self)@.after_action(line)
                    &&& effect@ == old(self).action_effect(line)
                } else {
                    &&& final(self)@ == old(self)@
                    &&& effect@ == EffectView::Nothing
                }
            }),
    {
        let key = format_keybinding(keysym, modifiers);
        let action = match self.config.keybindings.get(key.as_str()) {
            Some(action) => action.clone(),
            None => {
                return ActionEffect::Nothing;
            },
        };
        self.execute_action(action.as_str())
    }

    /// Whether tag `t` has its own handle, layout parameters within their
    /// ranges, a list without repetition, a focus within the list, and only
    /// windows whose records name the tag.
    fn tag_is_consistent(&self, t: usize) -> (ok: bool)
        requires
            t < self.tags.len(),
            self.tags.len() <= u32::MAX,
        ensures
            ok == {
                &&& self@.tags[t as int].id == TagId(t as u32)
                &&& self@.tags[t as int].windows.no_duplicates()
                &&& self@.tags[t as int].layout.in_range()
                &&& match self@.tags[t as int].focused_window {
                    Some(id) => self@.tags[t as int].windows.contains(id),
                    None => true,
                }
                &&& forall|i: int|
                    0 <= i < self@.tags[t as int].windows.len() ==> {
                        &&& self@.windows.contains_key(#[trigger] self@.tags[t as int].windows[i])
                        &&& self@.windows[self@.tags[t as int].windows[i]].tag == TagId(t as u32)
                    }
            },
    {
        let tag = &self.tags[t];
        let ghost list = self@.tags[t as int].windows;
        assert(list == tag.windows@);
        if tag.id.0 != t as u32 || !tag.layout.is_in_range() {
            return false;
        }
        match tag.focused_window {
            Some(id) => {
                if position(&tag.windows, id).is_none() {
                    return false;
                }
            },
            None => {},
        }
        let mut i: usize = 0;
        while i < tag.windows.len()
            invariant
                i <= tag.windows.len(),
                t < self.tags.len(),
                tag == &self.tags[t as int],
                list == tag.windows@,
                list == self@.tags[t as int].windows,
                forall|a: int, b: int| 0 <= a < b < i ==> list[a] != list[b],
                forall|j: int|
                    0 <= j < i ==> {
                        &&& self@.windows.contains_key(#[trigger] list[j])
                        &&& self@.windows[list[j]].tag == TagId(t as u32)
                    },
            decreases tag.windows.len() - i,
        {
            let id = tag.windows[i];
            match position(&tag.windows, id) {
                Some(first) => {
                    if first != i {
                        assert(list[first as int] == list[i as int]);
                        return false;
                    }
                },
                None => {
                    assert(list[i as int] == id);
                    return false;
                },
            }
            match self.window_info.get(&id.0) {
                Some(record) => {
                    if record.tag.0 != t as u32 {
                        assert(self@.windows[list[i as int]].tag != TagId(t as u32));
                        return false;
                    }
                },
                None => {
                    assert(!self@.windows.contains_key(list[i as int]));
                    return false;
                },
            }
            i += 1;
        }
        true
    }

    /// Whether the record under the handle `key` carries that handle and
    /// names a tag that lists it.
    fn record_is_consistent(&self, key: u64) -> (ok: bool)
        requires
            self.window_info@.contains_key(key),
        ensures
            ok == {
                let id = WindowId(key);
                &&& self@.windows[id].id == id
                &&& self@.windows[id].tag.0 < self@.tags.len()
                &&& self@.tags[self@.windows[id].tag.0 as int].windows.contains(id)
            },
    {
        match self.window_info.get(&key) {
            Some(record) => {
                if record.id.0 != key {
                    return false;
                }
                let t: usize = record.tag.0 as usize;
                if t >= self.tags.len() {
                    return false;
                }
                assert(self@.tags[t as int].windows == self.tags[t as int].windows@);
                position(&self.tags[t].windows, WindowId(key)).is_some()
            },
            None => false,
        }
    }

    /// Whether the state is consistent. Code that has changed the fields by
    /// hand can ask before it calls an operation that needs a consistent
    /// state.
    pub fn is_consistent(&self) -> (ok: bool)
        ensures
            ok == self.wf(),
    {
        let count: usize = self.tags.len();
        if count == 0 || count > u32::MAX as usize || self.current_tag.0 as usize >= count {
            return false;
        }
        let mut t: usize = 0;
        while t < count
            invariant
                t <= count,
                count == self.tags.len(),
                0 < count <= u32::MAX,
                forall|u: int|
                    0 <= u < t ==> {
                        &&& (#[trigger] self@.tags[u]).id == TagId(u as u32)
                        &&& self@.tags[u].windows.no_duplicates()
                        &&& self@.tags[u].layout.in_range()
                        &&& match self@.tags[u].focused_window {
                            Some(id) => self@.tags[u].windows.contains(id),
                            None => true,
                        }
                    },
                forall|u: int, i: int|
                    0 <= u < t && 0 <= i < self@.tags[u].windows.len() ==> {
                        &&& self@.windows.contains_key(#[trigger] self@.tags[u].windows[i])
                        &&& self@.windows[self@.tags[u].windows[i]].tag == TagId(u as u32)
                    },
            decreases count - t,
        {
            if !self.tag_is_consistent(t) {
                assert(!self.wf()) by {
                    if self.wf() {
                        assert(self@.tags[t as int].id == TagId(t as u32));
                    }
                }
                return false;
            }
            t += 1;
        }
        let keys = self.window_info.keys();
        let ghost all = keys.remaining().unref();
        assert(all.to_set() == self.window_info@.dom());
        let mut ok = true;
        for key in it: keys
            invariant
                it.seq().unref() == all,
                all.to_set() == self.window_info@.dom(),
                ok <==> forall|j: int|
                    0 <= j < it.index() ==> {
                        let id = WindowId(#[trigger] all[j]);
                        &&& self@.windows[id].id == id
                        &&& self@.windows[id].tag.0 < self@.tags.len()
                        &&& self@.tags[self@.windows[id].tag.0 as int].windows.contains(id)
                    },
        {
            assert(all[it.index() as int] == *key);
            assert(all.to_set().contains(all[it.index() as int]));
            if !self.record_is_consistent(*key) {
                ok = false;
            }
        }
        proof {
            if ok {
                assert forall|id: WindowId| #[trigger] self@.windows.contains_key(id) implies {
                    &&& self@.windows[id].id == id
                    &&& self@.windows[id].tag.0 < self@.tags.len()
                    &&& self@.tags[self@.windows[id].tag.0 as int].windows.contains(id)
                } by {
                    assert(all.to_set().contains(id.0));
                    let j = choose|j: int| 0 <= j < all.len() && all[j] == id.0;
                    assert(WindowId(all[j]) == id);
                }
            } else {
                let j = choose|j: int|
                    0 <= j < all.len() && !({
                        let id = WindowId(#[trigger] all[j]);
                        &&& self@.windows[id].id == id
                        &&& self@.windows[id].tag.0 < self@.tags.len()
                        &&& self@.tags[self@.windows[id].tag.0 as int].windows.contains(id)
                    });
                assert(all.to_set().contains(all[j]));
                assert(self@.windows.contains_key(WindowId(all[j])));
            }
        }
        ok
    }
}

} // verus!

