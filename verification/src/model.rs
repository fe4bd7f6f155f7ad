//! The window manager's state as mathematical values, the state's invariant
//! and the transitions that the manager's operations perform.

use crate::action::{tag_argument, verb_named, Verb};
use crate::layouts::layout_cell;
use crate::types::{
    LayoutConfig, LayoutType, Rectangle, TagId, TagView, WindowId, WindowView, MAX_MASTER_RATIO,
    MIN_MASTER_RATIO,
};
use vstd::arithmetic::div_mod::{
    lemma_add_mod_noop_right, lemma_mod_add_multiples_vanish, lemma_mod_bound, lemma_mod_self_0,
    lemma_small_mod,
};
use vstd::prelude::*;

verus! {

/// The state of the window manager.
#[verifier::ext_equal]
pub struct WmView {
    /// The tags, in the order of their handles.
    pub tags: Seq<TagView>,
    /// The tag that is shown.
    pub current_tag: TagId,
    /// The window registry.
    pub windows: Map<WindowId, WindowView>,
    /// The whole screen.
    pub screen: Rectangle,
    /// The part of the screen that tiled windows share.
    pub area: Rectangle,
    /// The gap between neighbouring tiled windows.
    pub gap: u32,
}

/// `list` without `id`.
pub open spec fn without(list: Seq<WindowId>, id: WindowId) -> Seq<WindowId> {
    if list.contains(id) {
        list.remove(list.index_of(id))
    } else {
        list
    }
}

/// The focus of a tag after `id` has left it and `remaining` are the windows
/// that stay: a focus on another window stays; a focus on `id` falls back
/// to the last of the remaining windows, or to none.
pub open spec fn focus_after_leaving(
    remaining: Seq<WindowId>,
    focused: Option<WindowId>,
    id: WindowId,
) -> Option<WindowId> {
    if focused == Some(id) {
        if remaining.len() > 0 {
            Some(remaining.last())
        } else {
            None
        }
    } else {
        focused
    }
}

/// The focus after one step forwards through `windows`, wrapping around.
pub open spec fn next_focus(windows: Seq<WindowId>, focused: Option<WindowId>) -> Option<
    WindowId,
> {
    if windows.len() == 0 {
        focused
    } else {
        match focused {
            Some(id) => if windows.contains(id) {
                Some(windows[(windows.index_of(id) + 1) % (windows.len() as int)])
            } else {
                focused
            },
            None => Some(windows[0]),
        }
    }
}

/// The focus after one step backwards through `windows`, wrapping around.
pub open spec fn prev_focus(windows: Seq<WindowId>, focused: Option<WindowId>) -> Option<
    WindowId,
> {
    if windows.len() == 0 {
        focused
    } else {
        match focused {
            Some(id) => if windows.contains(id) {
                Some(
                    windows[(windows.index_of(id) + windows.len() - 1) % (windows.len() as int)],
                )
            } else {
                focused
            },
            None => Some(windows.last()),
        }
    }
}

/// One step forwards from `at` among `count` places, wrapping around.
pub proof fn lemma_step_forwards(at: int, count: int)
    requires
        0 <= at < count,
    ensures
        (at + 1) % count == if at + 1 == count {
            0
        } else {
            at + 1
        },
{
    if at + 1 == count {
        lemma_mod_self_0(count);
    } else {
        lemma_small_mod((at + 1) as nat, count as nat);
    }
}

/// One step backwards from `at` among `count` places, wrapping around.
pub proof fn lemma_step_backwards(at: int, count: int)
    requires
        0 <= at < count,
    ensures
        (at + count - 1) % count == if at == 0 {
            count - 1
        } else {
            at - 1
        },
{
    if at == 0 {
        lemma_small_mod((count - 1) as nat, count as nat);
    } else {
        lemma_mod_add_multiples_vanish(at - 1, count);
        lemma_small_mod((at - 1) as nat, count as nat);
        assert(at + count - 1 == count + (at - 1));
    }
}

/// `list` with the entries at `first` and `second` exchanged.
pub open spec fn swapped(list: Seq<WindowId>, first: int, second: int) -> Seq<WindowId> {
    list.update(first, list[second]).update(second, list[first])
}

/// The layout that follows `layout` when the layouts are cycled through.
pub open spec fn next_layout(layout: LayoutType) -> LayoutType {
    match layout {
        LayoutType::Tiling => LayoutType::Floating,
        LayoutType::Floating => LayoutType::Monocle,
        LayoutType::Monocle => LayoutType::Tiling,
    }
}

/// A master ratio moved by `delta` thousandths and kept between 100 and 900.
pub open spec fn adjusted_ratio(ratio: u32, delta: i32) -> u32 {
    if ratio + delta < MIN_MASTER_RATIO {
        MIN_MASTER_RATIO
    } else if ratio + delta > MAX_MASTER_RATIO {
        MAX_MASTER_RATIO
    } else {
        (ratio + delta) as u32
    }
}

/// A master count moved by `delta` and kept between one and the number of
/// windows on the tag, but never below one.
pub open spec fn adjusted_count(count: usize, delta: i32, windows: int) -> usize {
    let moved = if count + delta < 1 {
        1
    } else {
        count + delta
    };
    if moved > windows {
        if windows < 1 {
            1
        } else {
            windows as usize
        }
    } else {
        moved as usize
    }
}

impl WmView {
    /// The state is consistent: one tag is current; the layout parameters
    /// of each tag are within their ranges; each tag lists a window at most
    /// once and focuses only a window that it lists; a tag lists exactly the
    /// windows whose records name that tag.
    pub open spec fn wf(self) -> bool {
        &&& 0 < self.tags.len() <= u32::MAX
        &&& self.current_tag.0 < self.tags.len()
        &&& forall|t: int|
            0 <= t < self.tags.len() ==> {
                &&& (#[trigger] self.tags[t]).id == TagId(t as u32)
                &&& self.tags[t].windows.no_duplicates()
                &&& self.tags[t].layout.in_range()
                &&& match self.tags[t].focused_window {
                    Some(id) => self.tags[t].windows.contains(id),
                    None => true,
                }
            }
        &&& forall|t: int, i: int|
            0 <= t < self.tags.len() && 0 <= i < self.tags[t].windows.len() ==> {
                &&& self.windows.contains_key(#[trigger] self.tags[t].windows[i])
                &&& self.windows[self.tags[t].windows[i]].tag == TagId(t as u32)
            }
        &&& forall|id: WindowId| #[trigger]
            self.windows.contains_key(id) ==> {
                &&& self.windows[id].id == id
                &&& self.windows[id].tag.0 < self.tags.len()
                &&& self.tags[self.windows[id].tag.0 as int].windows.contains(id)
            }
    }

    /// The position of the current tag.
    pub open spec fn current(self) -> int {
        self.current_tag.0 as int
    }

    /// The position of the tag that holds the window `id`.
    pub open spec fn tag_of(self, id: WindowId) -> int {
        self.windows[id].tag.0 as int
    }

    /// The window that is focused on the current tag.
    pub open spec fn focused(self) -> Option<WindowId> {
        self.tags[self.current()].focused_window
    }

    /// `id` is a window that the layout engine places.
    pub open spec fn is_tiled(self, id: WindowId) -> bool {
        self.windows.contains_key(id) && self.windows[id].is_tiled()
    }

    /// The windows of tag `t` that the layout engine places, in the tag's
    /// order.
    pub open spec fn tiled_windows(self, t: int) -> Seq<WindowId> {
        self.tags[t].windows.filter(|id: WindowId| self.is_tiled(id))
    }

    /// The rectangle that the layout of tag `t` assigns to its tiled window
    /// `id`.
    pub open spec fn cell_of(self, t: int, id: WindowId) -> Rectangle {
        let tiled = self.tiled_windows(t);
        layout_cell(self.area, self.tags[t].layout, self.gap, tiled.len() as int, tiled.index_of(id))
    }

    /// The layout of tag `t` places the window `id`.
    pub open spec fn is_placed(self, t: int, id: WindowId) -> bool {
        self.tags[t].layout.layout_type != LayoutType::Floating && self.tiled_windows(t).contains(
            id,
        )
    }

    /// The state after the layout engine has arranged tag `t`: each tiled
    /// window of the tag has the rectangle that the tag's layout assigns to
    /// it; nothing else has changed. Under the floating layout nothing
    /// changes at all.
    pub open spec fn relayout(self, t: int) -> WmView {
        WmView {
            windows: Map::new(
                |id: WindowId| self.windows.contains_key(id),
                |id: WindowId|
                    if self.is_placed(t, id) {
                        WindowView { geometry: self.cell_of(t, id), ..self.windows[id] }
                    } else {
                        self.windows[id]
                    },
            ),
            ..self
        }
    }

    /// The state with tag `t` replaced.
    pub open spec fn with_tag(self, t: int, tag: TagView) -> WmView {
        WmView { tags: self.tags.update(t, tag), ..self }
    }

    /// The state with the record of `id` replaced.
    pub open spec fn with_record(self, id: WindowId, record: WindowView) -> WmView {
        WmView { windows: self.windows.insert(id, record), ..self }
    }

    /// A new window enters: its record joins the registry, its tag lists it
    /// last and focuses it.
    pub open spec fn enter(self, record: WindowView) -> WmView {
        let t = record.tag.0 as int;
        WmView {
            tags: self.tags.update(
                t,
                TagView {
                    windows: self.tags[t].windows.push(record.id),
                    focused_window: Some(record.id),
                    ..self.tags[t]
                },
            ),
            windows: self.windows.insert(record.id, record),
            ..self
        }
    }

    /// The window `id` leaves the list of its tag; the tag's focus is
    /// repaired. The record stays.
    pub open spec fn detach(self, id: WindowId) -> WmView {
        let t = self.tag_of(id);
        let remaining = without(self.tags[t].windows, id);
        self.with_tag(
            t,
            TagView {
                windows: remaining,
                focused_window: focus_after_leaving(remaining, self.tags[t].focused_window, id),
                ..self.tags[t]
            },
        )
    }

    /// The window `id` leaves: its tag no longer lists it and its record is
    /// dropped.
    pub open spec fn leave(self, id: WindowId) -> WmView {
        let detached = self.detach(id);
        WmView { windows: detached.windows.remove(id), ..detached }
    }

    /// The window `id`, which no tag lists, joins tag `t`: the tag lists it
    /// last and focuses it, and its record names the tag.
    pub open spec fn attach(self, id: WindowId, t: int) -> WmView {
        WmView {
            tags: self.tags.update(
                t,
                TagView {
                    windows: self.tags[t].windows.push(id),
                    focused_window: Some(id),
                    ..self.tags[t]
                },
            ),
            windows: self.windows.insert(
                id,
                WindowView { tag: TagId(t as u32), ..self.windows[id] },
            ),
            ..self
        }
    }

    /// The state after `manage_window`'s record has entered and its tag has
    /// been arranged.
    pub open spec fn manage(self, record: WindowView) -> WmView {
        self.enter(record).relayout(record.tag.0 as int)
    }

    /// The state after the window `id` is gone: unchanged where `id` is not
    /// managed; otherwise the window has left and its tag has been arranged.
    pub open spec fn unmanage(self, id: WindowId) -> WmView {
        if self.windows.contains_key(id) {
            self.leave(id).relayout(self.tag_of(id))
        } else {
            self
        }
    }

    /// The state after the window `id` has moved to tag `target`: it has
    /// left its old tag, joined the new one, and both tags have been
    /// arranged.
    pub open spec fn move_to_tag(self, id: WindowId, target: int) -> WmView {
        self.detach(id).attach(id, target).relayout(self.tag_of(id)).relayout(target)
    }

    /// The state with the focus of tag `t` set.
    pub open spec fn with_focus(self, t: int, focus: Option<WindowId>) -> WmView {
        self.with_tag(t, TagView { focused_window: focus, ..self.tags[t] })
    }

    /// The state with the window list of tag `t` replaced.
    pub open spec fn with_windows(self, t: int, windows: Seq<WindowId>) -> WmView {
        self.with_tag(t, TagView { windows, ..self.tags[t] })
    }

    /// The state with the layout parameters of tag `t` replaced.
    pub open spec fn with_layout(self, t: int, layout: LayoutConfig) -> WmView {
        self.with_tag(t, TagView { layout, ..self.tags[t] })
    }

    /// The state after the focus of the current tag has moved one window
    /// forwards.
    pub open spec fn focus_next(self) -> WmView {
        let t = self.current();
        self.with_focus(t, next_focus(self.tags[t].windows, self.tags[t].focused_window))
    }

    /// The state after the focus of the current tag has moved one window
    /// backwards.
    pub open spec fn focus_prev(self) -> WmView {
        let t = self.current();
        self.with_focus(t, prev_focus(self.tags[t].windows, self.tags[t].focused_window))
    }

    /// The state after the window `id` has become floating or stopped being
    /// so, and its tag has been arranged.
    pub open spec fn toggle_floating(self, id: WindowId) -> WmView {
        let record = self.windows[id];
        self.with_record(id, WindowView { floating: !record.floating, ..record }).relayout(
            self.tag_of(id),
        )
    }

    /// The state after the window `id` has been minimized or restored, and
    /// its tag has been arranged.
    pub open spec fn set_minimized(self, id: WindowId, minimized: bool) -> WmView {
        let record = self.windows[id];
        self.with_record(id, WindowView { minimized, ..record }).relayout(self.tag_of(id))
    }

    /// The state after the window `id` has entered or left fullscreen, and
    /// its tag has been arranged. On entering, the window's rectangle is
    /// remembered as its requested geometry and the window takes the whole
    /// screen. On leaving, the window takes its requested geometry back,
    /// unless the layout engine then places it.
    pub open spec fn toggle_fullscreen(self, id: WindowId) -> WmView {
        let record = self.windows[id];
        let changed = if record.fullscreen {
            WindowView { fullscreen: false, geometry: record.requested_geometry, ..record }
        } else {
            WindowView {
                fullscreen: true,
                requested_geometry: record.geometry,
                geometry: self.screen,
                ..record
            }
        };
        self.with_record(id, changed).relayout(self.tag_of(id))
    }

    /// The state after the rectangle of the window `id` has been set by
    /// hand.
    pub open spec fn set_geometry(self, id: WindowId, geometry: Rectangle) -> WmView {
        self.with_record(id, WindowView { geometry, ..self.windows[id] })
    }

    /// The state after the focused window of the current tag has changed
    /// places with the window before it (`towards_front`) or after it, and
    /// the tag has been arranged. Nothing changes where no window is focused
    /// or the focused window stands at that end of the list.
    pub open spec fn shift_focused(self, towards_front: bool) -> WmView {
        let t = self.current();
        let list = self.tags[t].windows;
        match self.tags[t].focused_window {
            Some(id) => {
                let at = list.index_of(id);
                let other = if towards_front {
                    at - 1
                } else {
                    at + 1
                };
                if list.contains(id) && 0 <= other < list.len() {
                    self.with_windows(t, swapped(list, at, other)).relayout(t)
                } else {
                    self
                }
            },
            None => self,
        }
    }

    /// The state after the layout parameters of tag `t` have been replaced
    /// and the tag has been arranged.
    pub open spec fn change_layout(self, t: int, layout: LayoutConfig) -> WmView {
        self.with_layout(t, layout).relayout(t)
    }

    /// The state after the tags before `upto` have been arranged, in order.
    pub open spec fn relayout_tags(self, upto: int) -> WmView
        decreases upto,
    {
        if upto <= 0 {
            self
        } else {
            self.relayout_tags(upto - 1).relayout(upto - 1)
        }
    }
}

/// Filtering keeps a list free of duplicates.
pub proof fn lemma_filter_no_duplicates<A>(list: Seq<A>, keep: spec_fn(A) -> bool)
    requires
        list.no_duplicates(),
    ensures
        list.filter(keep).no_duplicates(),
    decreases list.len(),
{
    reveal(Seq::filter);
    if list.len() > 0 {
        let front = list.drop_last();
        lemma_filter_no_duplicates(front, keep);
        if keep(list.last()) {
            let kept = front.filter(keep);
            if kept.contains(list.last()) {
                front.lemma_filter_contains_rev(keep, list.last());
                let i = choose|i: int| 0 <= i < front.len() && front[i] == list.last();
                assert(list[i] == list[list.len() - 1]);
            }
            assert forall|i: int, j: int|
                0 <= i < kept.push(list.last()).len() && 0 <= j < kept.push(list.last()).len() && i
                    != j implies kept.push(list.last())[i] != kept.push(list.last())[j] by {
                if i == kept.len() {
                    assert(kept[j] == kept.push(list.last())[j]);
                } else if j == kept.len() {
                    assert(kept[i] == kept.push(list.last())[i]);
                }
            }
        }
    }
}

/// A filter keeps an element of the list exactly when the element passes.
pub proof fn lemma_filter_membership<A>(list: Seq<A>, keep: spec_fn(A) -> bool, x: A)
    ensures
        list.filter(keep).contains(x) <==> list.contains(x) && keep(x),
{
    if list.filter(keep).contains(x) {
        list.lemma_filter_contains_rev(keep, x);
        let i = choose|i: int| 0 <= i < list.filter(keep).len() && list.filter(keep)[i] == x;
        list.lemma_filter_pred(keep, i);
    }
    if list.contains(x) && keep(x) {
        let i = choose|i: int| 0 <= i < list.len() && list[i] == x;
        list.lemma_filter_contains(keep, i);
    }
}

/// Two filters that agree on every element of the list keep the same
/// elements.
pub proof fn lemma_filter_agree<A>(
    list: Seq<A>,
    first: spec_fn(A) -> bool,
    second: spec_fn(A) -> bool,
)
    requires
        forall|i: int| 0 <= i < list.len() ==> first(#[trigger] list[i]) == second(list[i]),
    ensures
        list.filter(first) == list.filter(second),
    decreases list.len(),
{
    reveal(Seq::filter);
    if list.len() > 0 {
        let front = list.drop_last();
        assert forall|i: int| 0 <= i < front.len() implies first(#[trigger] front[i]) == second(
            front[i],
        ) by {
            assert(front[i] == list[i]);
        }
        lemma_filter_agree(front, first, second);
        assert(first(list[list.len() - 1]) == second(list[list.len() - 1]));
    }
}

impl WmView {
    /// The tiled windows of a tag are windows of the tag, each listed once.
    pub proof fn lemma_tiled_windows(self, t: int)
        requires
            self.wf(),
            0 <= t < self.tags.len(),
        ensures
            self.tiled_windows(t).no_duplicates(),
            forall|id: WindowId|
                self.tiled_windows(t).contains(id) <==> self.tags[t].windows.contains(id)
                    && self.is_tiled(id),
            forall|i: int|
                0 <= i < self.tiled_windows(t).len() ==> self.windows.contains_key(
                    #[trigger] self.tiled_windows(t)[i],
                ),
    {
        let keep = |id: WindowId| self.is_tiled(id);
        let list = self.tags[t].windows;
        lemma_filter_no_duplicates(list, keep);
        assert forall|id: WindowId|
            self.tiled_windows(t).contains(id) <==> self.tags[t].windows.contains(id)
                && self.is_tiled(id) by {
            lemma_filter_membership(list, keep, id);
        }
        assert forall|i: int| 0 <= i < self.tiled_windows(t).len() implies self.windows.contains_key(
            #[trigger] self.tiled_windows(t)[i],
        ) by {
            assert(self.tiled_windows(t).contains(self.tiled_windows(t)[i]));
        }
    }

    /// Arranging a tag changes rectangles only.
    pub proof fn lemma_relayout_keeps(self, t: int)
        ensures
            self.relayout(t).tags == self.tags,
            self.relayout(t).current_tag == self.current_tag,
            self.relayout(t).area == self.area,
            self.relayout(t).screen == self.screen,
            self.relayout(t).gap == self.gap,
            forall|id: WindowId|
                self.relayout(t).windows.contains_key(id) == self.windows.contains_key(id),
            forall|id: WindowId| #[trigger]
                self.windows.contains_key(id) ==> self.relayout(t).windows[id] == (WindowView {
                    geometry: self.relayout(t).windows[id].geometry,
                    ..self.windows[id]
                }),
    {
    }

    /// Arranging a tag keeps the state consistent.
    pub proof fn lemma_relayout_wf(self, t: int)
        requires
            self.wf(),
        ensures
            self.relayout(t).wf(),
    {
        self.lemma_relayout_keeps(t);
        let after = self.relayout(t);
        assert forall|id: WindowId| #[trigger] after.windows.contains_key(id) implies {
            &&& after.windows[id].id == id
            &&& after.windows[id].tag.0 < after.tags.len()
            &&& after.tags[after.windows[id].tag.0 as int].windows.contains(id)
        } by {
            assert(self.windows.contains_key(id));
        }
    }

    /// Arranging a tag does not change which windows are tiled.
    pub proof fn lemma_relayout_keeps_tiled(self, t: int, other: int)
        requires
            self.wf(),
            0 <= other < self.tags.len(),
        ensures
            self.relayout(t).tiled_windows(other) == self.tiled_windows(other),
    {
        let after = self.relayout(t);
        lemma_filter_agree(
            self.tags[other].windows,
            |id: WindowId| after.is_tiled(id),
            |id: WindowId| self.is_tiled(id),
        );
    }

    /// Arranging a tag a second time changes nothing: the engine gives the
    /// same rectangles whenever its input is the same.
    pub proof fn lemma_relayout_idempotent(self, t: int)
        requires
            self.wf(),
            0 <= t < self.tags.len(),
        ensures
            self.relayout(t).relayout(t) == self.relayout(t),
    {
        let once = self.relayout(t);
        let twice = once.relayout(t);
        self.lemma_relayout_keeps_tiled(t, t);
        assert forall|id: WindowId| once.windows.contains_key(id) implies #[trigger] twice.windows[id]
            == once.windows[id] by {
            assert(once.is_placed(t, id) == self.is_placed(t, id));
            assert(once.cell_of(t, id) == self.cell_of(t, id));
        }
        assert(twice.windows =~= once.windows);
    }
}

/// What `without` leaves of a list that holds no window twice.
pub proof fn lemma_without(list: Seq<WindowId>, id: WindowId)
    requires
        list.no_duplicates(),
    ensures
        without(list, id).no_duplicates(),
        !without(list, id).contains(id),
        forall|other: WindowId|
            other != id ==> without(list, id).contains(other) == list.contains(other),
        list.contains(id) ==> without(list, id).len() == list.len() - 1,
{
    let rest = without(list, id);
    if list.contains(id) {
        let at = list.index_of(id);
        assert forall|i: int, j: int| 0 <= i < rest.len() && 0 <= j < rest.len() && i != j implies rest[i]
            != rest[j] by {
            let from_i = if i < at {
                i
            } else {
                i + 1
            };
            let from_j = if j < at {
                j
            } else {
                j + 1
            };
            assert(list[from_i] != list[from_j]);
        }
        assert forall|i: int| 0 <= i < rest.len() implies rest[i] != id by {
            let from_i = if i < at {
                i
            } else {
                i + 1
            };
            assert(list[from_i] != list[at]);
        }
        assert forall|other: WindowId| other != id implies rest.contains(other) == list.contains(
            other,
        ) by {
            if list.contains(other) {
                let i = choose|i: int| 0 <= i < list.len() && list[i] == other;
                let to = if i < at {
                    i
                } else {
                    i - 1
                };
                assert(rest[to] == other);
            }
            if rest.contains(other) {
                let i = choose|i: int| 0 <= i < rest.len() && rest[i] == other;
                let from_i = if i < at {
                    i
                } else {
                    i + 1
                };
                assert(list[from_i] == other);
            }
        }
    }
}

/// Exchanging two entries keeps a list's elements, each as often as before.
pub proof fn lemma_swapped(list: Seq<WindowId>, first: int, second: int)
    requires
        list.no_duplicates(),
        0 <= first < list.len(),
        0 <= second < list.len(),
    ensures
        swapped(list, first, second).no_duplicates(),
        swapped(list, first, second).len() == list.len(),
        forall|id: WindowId| swapped(list, first, second).contains(id) == list.contains(id),
{
    let after = swapped(list, first, second);
    let origin = |i: int|
        if i == first {
            second
        } else if i == second {
            first
        } else {
            i
        };
    assert forall|i: int| 0 <= i < after.len() implies after[i] == list[origin(i)] by {}
    assert forall|i: int, j: int| 0 <= i < after.len() && 0 <= j < after.len() && i != j implies after[i]
        != after[j] by {
        assert(after[i] == list[origin(i)]);
        assert(after[j] == list[origin(j)]);
    }
    assert forall|id: WindowId| after.contains(id) == list.contains(id) by {
        if list.contains(id) {
            let i = choose|i: int| 0 <= i < list.len() && list[i] == id;
            assert(after[origin(i)] == id);
        }
        if after.contains(id) {
            let i = choose|i: int| 0 <= i < after.len() && after[i] == id;
            assert(list[origin(i)] == id);
        }
    }
}

impl WmView {
    /// A window with a new handle may enter a tag that is there.
    pub proof fn lemma_enter_wf(self, record: WindowView)
        requires
            self.wf(),
            !self.windows.contains_key(record.id),
            record.tag.0 < self.tags.len(),
        ensures
            self.enter(record).wf(),
    {
        let after = self.enter(record);
        let target = record.tag.0 as int;
        let before = self.tags[target].windows;
        assert(!before.contains(record.id)) by {
            if before.contains(record.id) {
                let i = choose|i: int| 0 <= i < before.len() && before[i] == record.id;
                assert(self.windows.contains_key(self.tags[target].windows[i]));
            }
        }
        assert forall|t: int| 0 <= t < after.tags.len() implies {
            &&& (#[trigger] after.tags[t]).id == TagId(t as u32)
            &&& after.tags[t].windows.no_duplicates()
            &&& after.tags[t].layout.in_range()
            &&& match after.tags[t].focused_window {
                Some(id) => after.tags[t].windows.contains(id),
                None => true,
            }
        } by {
            assert(self.tags[t].id == TagId(t as u32));
            if t == target {
                let list = after.tags[t].windows;
                assert(list[list.len() - 1] == record.id);
                assert forall|i: int, j: int|
                    0 <= i < list.len() && 0 <= j < list.len() && i != j implies list[i]
                    != list[j] by {
                    if i < before.len() {
                        assert(before.contains(before[i]));
                    }
                    if j < before.len() {
                        assert(before.contains(before[j]));
                    }
                }
            } else {
                match self.tags[t].focused_window {
                    Some(id) => {
                        assert(self.tags[t].windows.contains(id));
                    },
                    None => {},
                }
            }
        }
        assert forall|t: int, i: int|
            0 <= t < after.tags.len() && 0 <= i < after.tags[t].windows.len() implies {
            &&& after.windows.contains_key(#[trigger] after.tags[t].windows[i])
            &&& after.windows[after.tags[t].windows[i]].tag == TagId(t as u32)
        } by {
            if t == target && i == before.len() {
            } else {
                assert(self.windows.contains_key(self.tags[t].windows[i]));
            }
        }
        assert forall|id: WindowId| #[trigger] after.windows.contains_key(id) implies {
            &&& after.windows[id].id == id
            &&& after.windows[id].tag.0 < after.tags.len()
            &&& after.tags[after.windows[id].tag.0 as int].windows.contains(id)
        } by {
            if id == record.id {
                let list = after.tags[target].windows;
                assert(list[list.len() - 1] == id);
            } else {
                assert(self.windows.contains_key(id));
                let t = self.windows[id].tag.0 as int;
                let i = choose|i: int|
                    0 <= i < self.tags[t].windows.len() && self.tags[t].windows[i] == id;
                assert(after.tags[t].windows[i] == id);
            }
        }
    }

    /// A managed window may leave.
    pub proof fn lemma_leave_wf(self, id: WindowId)
        requires
            self.wf(),
            self.windows.contains_key(id),
        ensures
            self.leave(id).wf(),
            self.leave(id).tags.len() == self.tags.len(),
    {
        let after = self.leave(id);
        let source = self.tag_of(id);
        lemma_without(self.tags[source].windows, id);
        self.lemma_only_its_tag_lists(id);
        assert forall|t: int| 0 <= t < after.tags.len() implies {
            &&& (#[trigger] after.tags[t]).id == TagId(t as u32)
            &&& after.tags[t].windows.no_duplicates()
            &&& after.tags[t].layout.in_range()
            &&& match after.tags[t].focused_window {
                Some(w) => after.tags[t].windows.contains(w),
                None => true,
            }
        } by {
            assert(self.tags[t].id == TagId(t as u32));
            if t == source {
                let rest = after.tags[t].windows;
                if rest.len() > 0 {
                    assert(rest[rest.len() - 1] == rest.last());
                }
            }
        }
        assert forall|t: int, i: int|
            0 <= t < after.tags.len() && 0 <= i < after.tags[t].windows.len() implies {
            &&& after.windows.contains_key(#[trigger] after.tags[t].windows[i])
            &&& after.windows[after.tags[t].windows[i]].tag == TagId(t as u32)
        } by {
            let w = after.tags[t].windows[i];
            assert(after.tags[t].windows.contains(w));
            assert(self.tags[t].windows.contains(w));
            let j = choose|j: int| 0 <= j < self.tags[t].windows.len() && self.tags[t].windows[j] == w;
            assert(self.windows.contains_key(self.tags[t].windows[j]));
        }
        assert forall|w: WindowId| #[trigger] after.windows.contains_key(w) implies {
            &&& after.windows[w].id == w
            &&& after.windows[w].tag.0 < after.tags.len()
            &&& after.tags[after.windows[w].tag.0 as int].windows.contains(w)
        } by {
            assert(self.windows.contains_key(w));
        }
    }

    /// Only the tag that a window's record names lists the window.
    pub proof fn lemma_only_its_tag_lists(self, id: WindowId)
        requires
            self.wf(),
        ensures
            forall|t: int|
                0 <= t < self.tags.len() && (#[trigger] self.tags[t]).windows.contains(id) ==> {
                    &&& self.windows.contains_key(id)
                    &&& t == self.tag_of(id)
                },
    {
        assert forall|t: int|
            0 <= t < self.tags.len() && (#[trigger] self.tags[t]).windows.contains(id) implies {
            &&& self.windows.contains_key(id)
            &&& t == self.tag_of(id)
        } by {
            let i = choose|i: int| 0 <= i < self.tags[t].windows.len() && self.tags[t].windows[i] == id;
            assert(self.windows.contains_key(self.tags[t].windows[i]));
        }
    }

    /// A managed window may move to a tag that is there.
    pub proof fn lemma_move_wf(self, id: WindowId, target: int)
        requires
            self.wf(),
            self.windows.contains_key(id),
            0 <= target < self.tags.len(),
        ensures
            self.detach(id).attach(id, target).wf(),
            self.detach(id).attach(id, target).tags.len() == self.tags.len(),
    {
        let source = self.tag_of(id);
        let detached = self.detach(id);
        let after = detached.attach(id, target);
        lemma_without(self.tags[source].windows, id);
        self.lemma_only_its_tag_lists(id);
        let before = detached.tags[target].windows;
        assert(!before.contains(id));
        assert forall|t: int| 0 <= t < after.tags.len() implies {
            &&& (#[trigger] after.tags[t]).id == TagId(t as u32)
            &&& after.tags[t].windows.no_duplicates()
            &&& after.tags[t].layout.in_range()
            &&& match after.tags[t].focused_window {
                Some(w) => after.tags[t].windows.contains(w),
                None => true,
            }
        } by {
            assert(self.tags[t].id == TagId(t as u32));
            if t == target {
                let list = after.tags[t].windows;
                assert(list[list.len() - 1] == id);
                assert forall|i: int, j: int|
                    0 <= i < list.len() && 0 <= j < list.len() && i != j implies list[i]
                    != list[j] by {
                    if i < before.len() {
                        assert(before.contains(before[i]));
                    }
                    if j < before.len() {
                        assert(before.contains(before[j]));
                    }
                }
            } else if t == source {
                let rest = after.tags[t].windows;
                if rest.len() > 0 {
                    assert(rest[rest.len() - 1] == rest.last());
                }
            }
        }
        assert forall|t: int, i: int|
            0 <= t < after.tags.len() && 0 <= i < after.tags[t].windows.len() implies {
            &&& after.windows.contains_key(#[trigger] after.tags[t].windows[i])
            &&& after.windows[after.tags[t].windows[i]].tag == TagId(t as u32)
        } by {
            let w = after.tags[t].windows[i];
            if t == target && i == before.len() {
            } else {
                assert(detached.tags[t].windows[i] == w);
                assert(detached.tags[t].windows.contains(w));
                assert(self.tags[t].windows.contains(w));
                let j = choose|j: int|
                    0 <= j < self.tags[t].windows.len() && self.tags[t].windows[j] == w;
                assert(self.windows.contains_key(self.tags[t].windows[j]));
                assert(w != id);
            }
        }
        assert forall|w: WindowId| #[trigger] after.windows.contains_key(w) implies {
            &&& after.windows[w].id == w
            &&& after.windows[w].tag.0 < after.tags.len()
            &&& after.tags[after.windows[w].tag.0 as int].windows.contains(w)
        } by {
            assert(self.windows.contains_key(w));
            if w == id {
                let list = after.tags[target].windows;
                assert(list[list.len() - 1] == id);
            } else {
                let t = self.windows[w].tag.0 as int;
                assert(detached.tags[t].windows.contains(w));
                let i = choose|i: int|
                    0 <= i < detached.tags[t].windows.len() && detached.tags[t].windows[i] == w;
                assert(after.tags[t].windows[i] == w);
            }
        }
    }

    /// A record may be replaced by one of the same window on the same tag.
    pub proof fn lemma_with_record_wf(self, id: WindowId, record: WindowView)
        requires
            self.wf(),
            self.windows.contains_key(id),
            record.id == id,
            record.tag == self.windows[id].tag,
        ensures
            self.with_record(id, record).wf(),
    {
        let after = self.with_record(id, record);
        assert forall|t: int, i: int|
            0 <= t < after.tags.len() && 0 <= i < after.tags[t].windows.len() implies {
            &&& after.windows.contains_key(#[trigger] after.tags[t].windows[i])
            &&& after.windows[after.tags[t].windows[i]].tag == TagId(t as u32)
        } by {
            assert(self.windows.contains_key(self.tags[t].windows[i]));
        }
        assert forall|w: WindowId| #[trigger] after.windows.contains_key(w) implies {
            &&& after.windows[w].id == w
            &&& after.windows[w].tag.0 < after.tags.len()
            &&& after.tags[after.windows[w].tag.0 as int].windows.contains(w)
        } by {
            assert(self.windows.contains_key(w));
        }
    }

    /// A tag may focus any window that it lists, or none.
    pub proof fn lemma_with_focus_wf(self, t: int, focus: Option<WindowId>)
        requires
            self.wf(),
            0 <= t < self.tags.len(),
            match focus {
                Some(id) => self.tags[t].windows.contains(id),
                None => true,
            },
        ensures
            self.with_focus(t, focus).wf(),
    {
        let after = self.with_focus(t, focus);
        assert forall|u: int| 0 <= u < after.tags.len() implies {
            &&& (#[trigger] after.tags[u]).id == TagId(u as u32)
            &&& after.tags[u].windows.no_duplicates()
            &&& after.tags[u].layout.in_range()
            &&& match after.tags[u].focused_window {
                Some(w) => after.tags[u].windows.contains(w),
                None => true,
            }
        } by {
            assert(self.tags[u].id == TagId(u as u32));
        }
        assert forall|u: int, i: int|
            0 <= u < after.tags.len() && 0 <= i < after.tags[u].windows.len() implies {
            &&& after.windows.contains_key(#[trigger] after.tags[u].windows[i])
            &&& after.windows[after.tags[u].windows[i]].tag == TagId(u as u32)
        } by {
            assert(self.windows.contains_key(self.tags[u].windows[i]));
        }
        assert forall|w: WindowId| #[trigger] after.windows.contains_key(w) implies {
            &&& after.windows[w].id == w
            &&& after.windows[w].tag.0 < after.tags.len()
            &&& after.tags[after.windows[w].tag.0 as int].windows.contains(w)
        } by {
            assert(self.windows.contains_key(w));
        }
    }

    /// A tag may take any layout parameters that are within their ranges.
    pub proof fn lemma_with_layout_wf(self, t: int, layout: LayoutConfig)
        requires
            self.wf(),
            0 <= t < self.tags.len(),
            layout.in_range(),
        ensures
            self.with_layout(t, layout).wf(),
    {
        let after = self.with_layout(t, layout);
        assert forall|u: int| 0 <= u < after.tags.len() implies {
            &&& (#[trigger] after.tags[u]).id == TagId(u as u32)
            &&& after.tags[u].windows.no_duplicates()
            &&& after.tags[u].layout.in_range()
            &&& match after.tags[u].focused_window {
                Some(w) => after.tags[u].windows.contains(w),
                None => true,
            }
        } by {
            assert(self.tags[u].id == TagId(u as u32));
        }
        assert forall|u: int, i: int|
            0 <= u < after.tags.len() && 0 <= i < after.tags[u].windows.len() implies {
            &&& after.windows.contains_key(#[trigger] after.tags[u].windows[i])
            &&& after.windows[after.tags[u].windows[i]].tag == TagId(u as u32)
        } by {
            assert(self.windows.contains_key(self.tags[u].windows[i]));
        }
        assert forall|w: WindowId| #[trigger] after.windows.contains_key(w) implies {
            &&& after.windows[w].id == w
            &&& after.windows[w].tag.0 < after.tags.len()
            &&& after.tags[after.windows[w].tag.0 as int].windows.contains(w)
        } by {
            assert(self.windows.contains_key(w));
        }
    }

    /// Two windows of a tag may change places.
    pub proof fn lemma_swap_wf(self, t: int, first: int, second: int)
        requires
            self.wf(),
            0 <= t < self.tags.len(),
            0 <= first < self.tags[t].windows.len(),
            0 <= second < self.tags[t].windows.len(),
        ensures
            self.with_windows(t, swapped(self.tags[t].windows, first, second)).wf(),
    {
        let list = self.tags[t].windows;
        let after = self.with_windows(t, swapped(list, first, second));
        lemma_swapped(list, first, second);
        assert forall|u: int| 0 <= u < after.tags.len() implies {
            &&& (#[trigger] after.tags[u]).id == TagId(u as u32)
            &&& after.tags[u].windows.no_duplicates()
            &&& after.tags[u].layout.in_range()
            &&& match after.tags[u].focused_window {
                Some(w) => after.tags[u].windows.contains(w),
                None => true,
            }
        } by {
            assert(self.tags[u].id == TagId(u as u32));
        }
        assert forall|u: int, i: int|
            0 <= u < after.tags.len() && 0 <= i < after.tags[u].windows.len() implies {
            &&& after.windows.contains_key(#[trigger] after.tags[u].windows[i])
            &&& after.windows[after.tags[u].windows[i]].tag == TagId(u as u32)
        } by {
            let w = after.tags[u].windows[i];
            assert(after.tags[u].windows.contains(w));
            assert(self.tags[u].windows.contains(w));
            let j = choose|j: int| 0 <= j < self.tags[u].windows.len() && self.tags[u].windows[j] == w;
            assert(self.windows.contains_key(self.tags[u].windows[j]));
        }
        assert forall|w: WindowId| #[trigger] after.windows.contains_key(w) implies {
            &&& after.windows[w].id == w
            &&& after.windows[w].tag.0 < after.tags.len()
            &&& after.tags[after.windows[w].tag.0 as int].windows.contains(w)
        } by {
            assert(self.windows.contains_key(w));
        }
    }
}

impl WmView {
    /// The state after `times` steps of the focus forwards.
    pub open spec fn focus_next_times(self, times: nat) -> WmView
        decreases times,
    {
        if times == 0 {
            self
        } else {
            self.focus_next_times((times - 1) as nat).focus_next()
        }
    }

    /// The state after `times` steps of the focus backwards.
    pub open spec fn focus_prev_times(self, times: nat) -> WmView
        decreases times,
    {
        if times == 0 {
            self
        } else {
            self.focus_prev_times((times - 1) as nat).focus_prev()
        }
    }

    /// The current tag focuses a window, or has no window to focus.
    pub open spec fn focus_is_settled(self) -> bool {
        self.focused() is Some || self.tags[self.current()].windows.len() == 0
    }

    /// The state with the focus of the current tag on the window that
    /// stands `offset` places after the focused one, counted around the
    /// tag's list.
    pub open spec fn focus_moved_by(self, offset: int) -> WmView {
        let t = self.current();
        let list = self.tags[t].windows;
        match self.tags[t].focused_window {
            Some(id) => self.with_focus(
                t,
                Some(list[(list.index_of(id) + offset) % (list.len() as int)]),
            ),
            None => self,
        }
    }

    /// In every consistent state, a tag that focuses a window lists it.
    pub proof fn lemma_focused_window_is_listed(self, t: int)
        requires
            self.wf(),
            0 <= t < self.tags.len(),
        ensures
            match self.tags[t].focused_window {
                Some(id) => self.tags[t].windows.contains(id),
                None => true,
            },
    {
        assert(self.tags[t].id == TagId(t as u32));
    }

    /// In every consistent state, the tag that a window's record names lists
    /// the window exactly once, and no other tag lists it.
    pub proof fn lemma_window_is_listed_once(self, id: WindowId)
        requires
            self.wf(),
            self.windows.contains_key(id),
        ensures
            0 <= self.tag_of(id) < self.tags.len(),
            exists|i: int|
                0 <= i < self.tags[self.tag_of(id)].windows.len() && #[trigger] self.tags[self.tag_of(
                    id,
                )].windows[i] == id,
            forall|i: int, j: int|
                0 <= i < self.tags[self.tag_of(id)].windows.len() && 0 <= j < self.tags[self.tag_of(
                    id,
                )].windows.len() && self.tags[self.tag_of(id)].windows[i] == id
                    && self.tags[self.tag_of(id)].windows[j] == id ==> i == j,
            forall|t: int|
                0 <= t < self.tags.len() && t != self.tag_of(id) ==> !(#[trigger] self.tags[t]).windows.contains(
                    id,
                ),
    {
        let home = self.tag_of(id);
        assert(self.tags[home].id == TagId(home as u32));
        assert(self.tags[home].windows.contains(id));
        self.lemma_only_its_tag_lists(id);
    }

    /// Every operation of the manager keeps the state consistent: each of
    /// the transitions below leads from a consistent state to a consistent
    /// state.
    pub proof fn lemma_transitions_keep_wf(self, id: WindowId, record: WindowView, target: int)
        requires
            self.wf(),
        ensures
            !self.windows.contains_key(record.id) && record.tag.0 < self.tags.len()
                ==> self.manage(record).wf(),
            self.unmanage(id).wf(),
            self.windows.contains_key(id) && 0 <= target < self.tags.len() ==> self.move_to_tag(
                id,
                target,
            ).wf(),
            self.windows.contains_key(id) ==> self.toggle_floating(id).wf(),
            self.windows.contains_key(id) ==> self.toggle_fullscreen(id).wf(),
            self.focus_next().wf(),
            self.focus_prev().wf(),
            self.shift_focused(true).wf(),
            self.shift_focused(false).wf(),
    {
        if !self.windows.contains_key(record.id) && record.tag.0 < self.tags.len() {
            self.lemma_enter_wf(record);
            self.enter(record).lemma_relayout_wf(record.tag.0 as int);
        }
        if self.windows.contains_key(id) {
            self.lemma_leave_wf(id);
            self.leave(id).lemma_relayout_wf(self.tag_of(id));
            if 0 <= target < self.tags.len() {
                self.lemma_move_wf(id, target);
                let moved = self.detach(id).attach(id, target);
                moved.lemma_relayout_wf(self.tag_of(id));
                moved.relayout(self.tag_of(id)).lemma_relayout_wf(target);
            }
            let old_record = self.windows[id];
            let floated = WindowView { floating: !old_record.floating, ..old_record };
            self.lemma_with_record_wf(id, floated);
            self.with_record(id, floated).lemma_relayout_wf(self.tag_of(id));
            let full = if old_record.fullscreen {
                WindowView {
                    fullscreen: false,
                    geometry: old_record.requested_geometry,
                    ..old_record
                }
            } else {
                WindowView {
                    fullscreen: true,
                    requested_geometry: old_record.geometry,
                    geometry: self.screen,
                    ..old_record
                }
            };
            self.lemma_with_record_wf(id, full);
            self.with_record(id, full).lemma_relayout_wf(self.tag_of(id));
        }
        self.lemma_focus_step_wf();
        self.lemma_shift_wf(true);
        self.lemma_shift_wf(false);
    }

    /// A step of the focus keeps the state consistent.
    pub proof fn lemma_focus_step_wf(self)
        requires
            self.wf(),
        ensures
            self.focus_next().wf(),
            self.focus_prev().wf(),
    {
        let t = self.current();
        let list = self.tags[t].windows;
        assert(self.tags[t].id == TagId(t as u32));
        if list.len() > 0 {
            match self.tags[t].focused_window {
                Some(id) => {
                    let at = list.index_of(id);
                    lemma_mod_bound(at + 1, list.len() as int);
                    lemma_mod_bound(at + list.len() - 1, list.len() as int);
                    assert(list.contains(list[(at + 1) % (list.len() as int)]));
                    assert(list.contains(list[(at + list.len() - 1) % (list.len() as int)]));
                },
                None => {
                    assert(list.contains(list[0]));
                    assert(list.contains(list[list.len() - 1]));
                },
            }
        }
        self.lemma_with_focus_wf(t, next_focus(list, self.tags[t].focused_window));
        self.lemma_with_focus_wf(t, prev_focus(list, self.tags[t].focused_window));
    }

    /// Moving the focused window in its tag's list keeps the state
    /// consistent.
    pub proof fn lemma_shift_wf(self, towards_front: bool)
        requires
            self.wf(),
        ensures
            self.shift_focused(towards_front).wf(),
    {
        let t = self.current();
        let list = self.tags[t].windows;
        match self.tags[t].focused_window {
            Some(id) => {
                let at = list.index_of(id);
                let other = if towards_front {
                    at - 1
                } else {
                    at + 1
                };
                if list.contains(id) && 0 <= other < list.len() {
                    self.lemma_swap_wf(t, at, other);
                    self.with_windows(t, swapped(list, at, other)).lemma_relayout_wf(t);
                }
            },
            None => {},
        }
    }

    /// Where the focus is at `offset` places from where it started, a step
    /// forwards brings it to `offset + 1` places, a step backwards to
    /// `offset - 1`.
    pub proof fn lemma_focus_step_moves(self, offset: int)
        requires
            self.wf(),
            self.focused() is Some,
        ensures
            self.focus_moved_by(offset).focus_next() == self.focus_moved_by(offset + 1),
            self.focus_moved_by(offset).focus_prev() == self.focus_moved_by(offset - 1),
    {
        let t = self.current();
        let list = self.tags[t].windows;
        let count = list.len() as int;
        let id = self.tags[t].focused_window.unwrap();
        assert(self.tags[t].id == TagId(t as u32));
        let start = list.index_of(id);
        let at = (start + offset) % count;
        lemma_mod_bound(start + offset, count);
        lemma_mod_bound(start + offset + 1, count);
        lemma_mod_bound(start + offset - 1, count);
        let moved = self.focus_moved_by(offset);
        assert(moved.tags[t].windows == list);
        assert(moved.tags[t].focused_window == Some(list[at]));
        assert(list.contains(list[at]));
        assert(list.index_of(list[at]) == at);
        assert((at + 1) % count == (start + offset + 1) % count) by {
            lemma_add_mod_noop_right(1, start + offset, count);
        }
        assert((at + count - 1) % count == (start + offset - 1) % count) by {
            lemma_add_mod_noop_right(count - 1, start + offset, count);
            lemma_mod_add_multiples_vanish(start + offset - 1, count);
            assert(count - 1 + (start + offset) == count + (start + offset - 1));
        }
        assert(moved.focus_next().tags =~= self.focus_moved_by(offset + 1).tags);
        assert(moved.focus_prev().tags =~= self.focus_moved_by(offset - 1).tags);
    }

    /// The focus that has not moved, or has moved once around the tag's
    /// list in either direction, is where it started.
    pub proof fn lemma_focus_moved_around(self)
        requires
            self.wf(),
            self.focused() is Some,
        ensures
            self.focus_moved_by(0) == self,
            self.focus_moved_by(self.tags[self.current()].windows.len() as int) == self,
            self.focus_moved_by(-(self.tags[self.current()].windows.len() as int)) == self,
    {
        let t = self.current();
        let list = self.tags[t].windows;
        let count = list.len() as int;
        let id = self.tags[t].focused_window.unwrap();
        assert(self.tags[t].id == TagId(t as u32));
        let start = list.index_of(id);
        lemma_small_mod(start as nat, count as nat);
        lemma_mod_add_multiples_vanish(start, count);
        lemma_mod_add_multiples_vanish(start - count, count);
        assert(start + count == count + start);
        assert(count + (start - count) == start);
        assert(self.focus_moved_by(0).tags =~= self.tags);
        assert(self.focus_moved_by(count).tags =~= self.tags);
        assert(self.focus_moved_by(-count).tags =~= self.tags);
    }

    /// After `times` steps forwards the focus stands `times` places after
    /// where it started; after `times` steps backwards, `times` places
    /// before.
    pub proof fn lemma_focus_steps(self, times: nat)
        requires
            self.wf(),
            self.focused() is Some,
        ensures
            self.focus_next_times(times) == self.focus_moved_by(times as int),
            self.focus_prev_times(times) == self.focus_moved_by(-(times as int)),
        decreases times,
    {
        if times == 0 {
            self.lemma_focus_moved_around();
        } else {
            self.lemma_focus_steps((times - 1) as nat);
            self.lemma_focus_step_moves(times - 1);
            self.lemma_focus_step_moves(-(times - 1));
        }
    }

    /// On a tag without windows no step moves the focus.
    pub proof fn lemma_focus_steps_on_empty_tag(self, times: nat)
        requires
            self.wf(),
            self.tags[self.current()].windows.len() == 0,
        ensures
            self.focus_next_times(times) == self,
            self.focus_prev_times(times) == self,
        decreases times,
    {
        if times > 0 {
            self.lemma_focus_steps_on_empty_tag((times - 1) as nat);
            assert(self.focus_next().tags =~= self.tags);
            assert(self.focus_prev().tags =~= self.tags);
        }
    }

    /// Focus cycle. On a tag with `N` windows of which one is focused, `N`
    /// steps forwards bring the focus back to the window it started on, and
    /// so do `N` steps backwards.
    pub proof fn lemma_focus_cycle(self)
        requires
            self.wf(),
            self.focus_is_settled(),
        ensures
            self.focus_next_times(self.tags[self.current()].windows.len()) == self,
            self.focus_prev_times(self.tags[self.current()].windows.len()) == self,
    {
        let count = self.tags[self.current()].windows.len();
        if self.focused() is Some {
            self.lemma_focus_steps(count);
            self.lemma_focus_moved_around();
        } else {
            self.lemma_focus_steps_on_empty_tag(count);
        }
    }

    /// Any number of steps forwards followed by as many steps backwards
    /// brings the focus back to the window it started on; so does a single
    /// step forwards followed by a single step backwards, and the reverse.
    pub proof fn lemma_focus_there_and_back(self, times: nat)
        requires
            self.wf(),
            self.focus_is_settled(),
        ensures
            self.focus_next_times(times).focus_prev_times(times) == self,
            self.focus_prev_times(times).focus_next_times(times) == self,
            self.focus_next().focus_prev() == self,
            self.focus_prev().focus_next() == self,
    {
        if self.focused() is Some {
            self.lemma_focus_steps(times);
            self.lemma_focus_moved_around();
            self.lemma_focus_back(times as int, times);
            self.lemma_focus_forth(-(times as int), times);
            self.lemma_focus_step_moves(0);
            self.lemma_focus_step_moves(1);
            self.lemma_focus_step_moves(-1);
        } else {
            self.lemma_focus_steps_on_empty_tag(times);
            self.lemma_focus_steps_on_empty_tag(1);
            assert(self.focus_next_times(1) == self.focus_next_times(0).focus_next());
            assert(self.focus_prev_times(1) == self.focus_prev_times(0).focus_prev());
        }
    }

    /// From `offset` places after the start, `times` steps backwards lead to
    /// `offset - times` places after the start.
    pub proof fn lemma_focus_back(self, offset: int, times: nat)
        requires
            self.wf(),
            self.focused() is Some,
        ensures
            self.focus_moved_by(offset).focus_prev_times(times) == self.focus_moved_by(
                offset - times,
            ),
        decreases times,
    {
        if times > 0 {
            self.lemma_focus_back(offset, (times - 1) as nat);
            self.lemma_focus_step_moves(offset - (times - 1));
        }
    }

    /// From `offset` places after the start, `times` steps forwards lead to
    /// `offset + times` places after the start.
    pub proof fn lemma_focus_forth(self, offset: int, times: nat)
        requires
            self.wf(),
            self.focused() is Some,
        ensures
            self.focus_moved_by(offset).focus_next_times(times) == self.focus_moved_by(
                offset + times,
            ),
        decreases times,
    {
        if times > 0 {
            self.lemma_focus_forth(offset, (times - 1) as nat);
            self.lemma_focus_step_moves(offset + (times - 1));
        }
    }
}

impl WmView {
    /// The state after tag `t` has become current; unchanged where `t` is no
    /// tag or the current one.
    pub open spec fn switch_tag(self, t: int) -> WmView {
        if 0 <= t < self.tags.len() && t != self.current() {
            WmView { current_tag: TagId(t as u32), ..self }
        } else {
            self
        }
    }

    /// The state after the layout of the current tag has changed to the
    /// next one.
    pub open spec fn cycle_layout(self) -> WmView {
        let t = self.current();
        self.change_layout(
            t,
            LayoutConfig {
                layout_type: next_layout(self.tags[t].layout.layout_type),
                ..self.tags[t].layout
            },
        )
    }

    /// The state after the master ratio of the current tag has moved by
    /// `delta` thousandths.
    pub open spec fn adjust_master_ratio(self, delta: i32) -> WmView {
        let t = self.current();
        self.change_layout(
            t,
            LayoutConfig {
                master_ratio: adjusted_ratio(self.tags[t].layout.master_ratio, delta),
                ..self.tags[t].layout
            },
        )
    }

    /// The state after the master count of the current tag has moved by
    /// `delta`.
    pub open spec fn adjust_master_count(self, delta: i32) -> WmView {
        let t = self.current();
        self.change_layout(
            t,
            LayoutConfig {
                master_count: adjusted_count(
                    self.tags[t].layout.master_count,
                    delta,
                    self.tags[t].windows.len() as int,
                ),
                ..self.tags[t].layout
            },
        )
    }

    /// The state after an action, given as its words, has been carried out.
    ///
    /// `focus_left` and `focus_up` step the focus backwards through the
    /// current tag's list, `focus_right` and `focus_down` forwards;
    /// `move_left` and `move_up` move the focused window towards the front
    /// of the list, `move_right` and `move_down` towards its end.
    /// `increase_master` and `decrease_master` move the master ratio by 50
    /// thousandths. Actions on the focused window change nothing where no
    /// window is focused. `spawn`, `close_window`, `reload_config` and
    /// `exit` leave the state as it is.
    pub open spec fn after_action(self, words: Seq<Seq<char>>) -> WmView {
        if words.len() == 0 {
            self
        } else {
            match verb_named(words[0]) {
                Some(Verb::ToggleFloating) => match self.focused() {
                    Some(id) => self.toggle_floating(id),
                    None => self,
                },
                Some(Verb::ToggleFullscreen) => match self.focused() {
                    Some(id) => self.toggle_fullscreen(id),
                    None => self,
                },
                Some(Verb::CycleLayout) => self.cycle_layout(),
                Some(Verb::SwitchTag) => match tag_argument(words) {
                    Some(t) => self.switch_tag(t),
                    None => self,
                },
                Some(Verb::MoveToTag) => match (tag_argument(words), self.focused()) {
                    (Some(t), Some(id)) => if t < self.tags.len() {
                        self.move_to_tag(id, t)
                    } else {
                        self
                    },
                    _ => self,
                },
                Some(Verb::FocusLeft) | Some(Verb::FocusUp) => self.focus_prev(),
                Some(Verb::FocusRight) | Some(Verb::FocusDown) => self.focus_next(),
                Some(Verb::MoveLeft) | Some(Verb::MoveUp) => self.shift_focused(true),
                Some(Verb::MoveRight) | Some(Verb::MoveDown) => self.shift_focused(false),
                Some(Verb::IncreaseMaster) => self.adjust_master_ratio(50),
                Some(Verb::DecreaseMaster) => self.adjust_master_ratio(-50i32),
                Some(Verb::IncreaseMasterCount) => self.adjust_master_count(1),
                Some(Verb::DecreaseMasterCount) => self.adjust_master_count(-1i32),
                _ => self,
            }
        }
    }

    /// In a consistent state the focused window of the current tag is
    /// managed.
    pub proof fn lemma_focused_window_is_managed(self)
        requires
            self.wf(),
        ensures
            match self.focused() {
                Some(id) => self.windows.contains_key(id) && self.tag_of(id) == self.current(),
                None => true,
            },
    {
        let t = self.current();
        assert(self.tags[t].id == TagId(t as u32));
        match self.focused() {
            Some(id) => {
                let i = choose|i: int|
                    0 <= i < self.tags[t].windows.len() && self.tags[t].windows[i] == id;
                assert(self.windows.contains_key(self.tags[t].windows[i]));
            },
            None => {},
        }
    }

    /// Dropping a window that is not managed changes nothing: no record, no
    /// list and no focus.
    pub proof fn lemma_unmanage_unknown(self, id: WindowId)
        requires
            !self.windows.contains_key(id),
        ensures
            self.unmanage(id) == self,
    {
    }

    /// A tag number that names no tag leaves the current tag as it is: the
    /// number 0, which lies before the first tag, and every number above
    /// the number of tags.
    pub proof fn lemma_switch_out_of_range(self, words: Seq<Seq<char>>)
        requires
            words.len() > 0,
            verb_named(words[0]) == Some(Verb::SwitchTag),
            match tag_argument(words) {
                Some(t) => t >= self.tags.len(),
                None => true,
            },
        ensures
            self.after_action(words) == self,
    {
    }
}

} // verus!
