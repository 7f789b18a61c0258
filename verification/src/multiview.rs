//! A section group: a fixed, ordered set of lists shown side by side (for
//! example the album results and the track results of one search), with
//! exactly one section active for command routing at a time.
//!
//! Directional commands go to the active section's list. When the cursor
//! escapes that list — or the list is still empty — the group moves to the
//! adjacent section in the same direction and places the cursor on the
//! item nearest the crossing, so the user always lands on an item. An
//! escape past the first or last section is reported to the parent.

use vstd::prelude::*;

use crate::denselist;
use crate::denselist::ListView;
use crate::denselist::spec_accept;
use crate::denselist::spec_mark_failed;
use crate::denselist::spec_descend;
use crate::denselist::spec_move_next;
use crate::denselist::spec_move_result;
use crate::denselist::spec_move_to;
use crate::denselist::spec_play_context;
use crate::model::ItemView;
use crate::model::PlayContext;
use crate::model::PlayContextView;
use crate::model::SpotItem;
use crate::navigation::MoveResult;
use crate::navigation::NavCommand;
use crate::navigation::NavOutput;
use crate::navigation::NavOutputView;

verus! {

/// Mathematical value of a section group: the lists in display order, the
/// index of the active section, and the next generation tag to hand to a
/// freshly created list.
#[verifier::ext_equal]
pub struct GroupView {
    pub sections: Seq<ListView>,
    pub cur_section: int,
    pub next_generation: int,
}

impl GroupView {
    /// The group's invariant: the active index is valid whenever there are
    /// sections, every section is well formed, only the active section may
    /// hold a cursor, and every section's generation is below the next one
    /// to be handed out (so a fresh list never reuses a live tag).
    pub open spec fn wf(self) -> bool {
        &&& self.sections.len() <= usize::MAX
        &&& if self.sections.len() == 0 {
            self.cur_section == 0
        } else {
            0 <= self.cur_section < self.sections.len()
        }
        &&& forall|i: int| 0 <= i < self.sections.len() ==> (#[trigger] self.sections[i]).wf()
        &&& forall|i: int|
            0 <= i < self.sections.len() && i != self.cur_section ==> (
            #[trigger] self.sections[i]).cursor is None
        &&& forall|i: int|
            0 <= i < self.sections.len() ==> (#[trigger] self.sections[i]).generation
                < self.next_generation
        &&& 0 <= self.next_generation <= u64::MAX
    }

    /// The active section, meaningful only when there are sections.
    pub open spec fn active(self) -> ListView {
        self.sections[self.cur_section]
    }
}

/// The lists a group starts with: one empty loading list per source, each
/// tagged with the next free generation.
pub open spec fn spec_fresh_sections(sources: Seq<ItemView>, base: int) -> Seq<ListView> {
    Seq::new(
        sources.len(),
        |i: int|
            ListView {
                source: sources[i],
                items: Seq::empty(),
                cursor: None,
                generation: base + i,
                failed: false,
            },
    )
}

/// The state of a freshly constructed group.
pub open spec fn spec_new_group(sources: Seq<ItemView>) -> GroupView {
    GroupView {
        sections: spec_fresh_sections(sources, 0),
        cur_section: 0,
        next_generation: sources.len() as int,
    }
}

/// The group state after replacing all sections with fresh lists for
/// `sources`: the active index returns to 0 and the new lists take tags
/// from the old `next_generation` on, so deliveries for the replaced
/// lists are stale.
pub open spec fn spec_reset_sections(g: GroupView, sources: Seq<ItemView>) -> GroupView {
    GroupView {
        sections: spec_fresh_sections(sources, g.next_generation),
        cur_section: 0,
        next_generation: g.next_generation + sources.len(),
    }
}

/// The group state after moving to the adjacent section: the outgoing
/// section's cursor is cleared, the target becomes active, and its cursor
/// takes one step in the same direction — entering at index 0 moving
/// forward, at the last index moving backward. Out of bounds, nothing
/// changes.
pub open spec fn spec_change_next(g: GroupView, delta: int) -> GroupView {
    let target = g.cur_section + delta;
    if g.sections.len() > 0 && 0 <= target < g.sections.len() {
        let cleared = g.sections.update(
            g.cur_section,
            ListView { cursor: None, ..g.sections[g.cur_section] },
        );
        GroupView {
            sections: cleared.update(target, spec_move_next(cleared[target], delta)),
            cur_section: target,
            ..g
        }
    } else {
        g
    }
}

/// What moving to the adjacent section reports: the item the cursor landed
/// on, or nothing when the move was out of bounds or the target section is
/// still empty.
pub open spec fn spec_change_result(g: GroupView, delta: int) -> Option<NavOutputView> {
    let target = g.cur_section + delta;
    if g.sections.len() > 0 && 0 <= target < g.sections.len() {
        let entered = g.sections[target];
        match spec_move_result(entered, delta) {
            MoveResult::MovedTo(i) => Some(NavOutputView::CursorIsNowAt(entered.items[i as int])),
            _ => None,
        }
    } else {
        None
    }
}

/// The group state after routing one navigation command: a cursor clear
/// goes to the active section; a directional move that stays inside the
/// active list just moves its cursor; a move that escapes it — or finds it
/// empty — moves to the adjacent section.
pub open spec fn spec_dispatch_next(g: GroupView, cmd: NavCommand) -> GroupView {
    if g.sections.len() == 0 {
        g
    } else if cmd is ClearCursor {
        GroupView {
            sections: g.sections.update(
                g.cur_section,
                ListView { cursor: None, ..g.active() },
            ),
            ..g
        }
    } else {
        let delta = cmd.spec_delta();
        let g1 = GroupView {
            sections: g.sections.update(g.cur_section, spec_move_next(g.active(), delta)),
            ..g
        };
        match spec_move_result(g.active(), delta) {
            MoveResult::MovedTo(i) => g1,
            _ => spec_change_next(g1, delta),
        }
    }
}

/// What routing one navigation command reports: the newly selected item,
/// or — when the move escaped past the first or last section — the escape,
/// handed up for the parent to resolve.
pub open spec fn spec_dispatch_result(g: GroupView, cmd: NavCommand) -> Option<NavOutputView> {
    if g.sections.len() == 0 || cmd is ClearCursor {
        None
    } else {
        let delta = cmd.spec_delta();
        match spec_move_result(g.active(), delta) {
            MoveResult::MovedTo(i) => Some(
                NavOutputView::CursorIsNowAt(g.active().items[i as int]),
            ),
            _ => {
                let g1 = GroupView {
                    sections: g.sections.update(g.cur_section, spec_move_next(g.active(), delta)),
                    ..g
                };
                if 0 <= g.cur_section + delta < g.sections.len() {
                    spec_change_result(g1, delta)
                } else {
                    Some(
                        if delta < 0 {
                            NavOutputView::EscapedUp
                        } else {
                            NavOutputView::EscapedDown
                        },
                    )
                }
            },
        }
    }
}

/// The group state after a delivery for section `section` tagged
/// `generation`: handed to that section's list when the section exists,
/// dropped otherwise.
pub open spec fn spec_group_accept(
    g: GroupView,
    section: int,
    generation: int,
    item: ItemView,
) -> GroupView {
    if 0 <= section < g.sections.len() {
        GroupView {
            sections: g.sections.update(
                section,
                spec_accept(g.sections[section], generation, item),
            ),
            ..g
        }
    } else {
        g
    }
}

/// The group state after the load pass of section `section` tagged
/// `generation` reports failure: recorded by that section's list when the
/// section exists, dropped otherwise.
pub open spec fn spec_group_mark_failed(g: GroupView, section: int, generation: int) -> GroupView {
    if 0 <= section < g.sections.len() {
        GroupView {
            sections: g.sections.update(
                section,
                spec_mark_failed(g.sections[section], generation),
            ),
            ..g
        }
    } else {
        g
    }
}

/// The group state after a direct selection (a click) of item `index` in
/// section `section`: the previously active section loses its cursor, the
/// clicked section becomes active with its cursor on the item. A target
/// that does not exist — possible when a click races with loading — leaves
/// the group unchanged.
pub open spec fn spec_group_move_to(g: GroupView, section: int, index: int) -> GroupView {
    if 0 <= section < g.sections.len() && 0 <= index < g.sections[section].items.len() {
        let cleared = g.sections.update(
            g.cur_section,
            ListView { cursor: None, ..g.sections[g.cur_section] },
        );
        GroupView {
            sections: cleared.update(section, spec_move_to(cleared[section], index)),
            cur_section: section,
            ..g
        }
    } else {
        g
    }
}

/// What descending resolves to for the whole group: whatever it resolves
/// to for the active section.
pub open spec fn spec_group_descend(g: GroupView) -> Option<ItemView> {
    if g.sections.len() == 0 {
        None
    } else {
        spec_descend(g.active())
    }
}

/// The playable context of the whole group: that of the active section.
pub open spec fn spec_group_play_context(g: GroupView) -> Option<PlayContextView> {
    if g.sections.len() == 0 {
        None
    } else {
        spec_play_context(g.active())
    }
}

/// The selected item of the whole group: that of the active section.
pub open spec fn spec_group_current_item(g: GroupView) -> Option<ItemView> {
    if g.sections.len() == 0 {
        None
    } else {
        g.active().spec_current_item()
    }
}

/// A section group: an ordered set of lists with one active section.
#[derive(Debug)]
pub struct Model {
    sections: Vec<denselist::Model>,
    cur_section: usize,
    next_generation: u64,
}

impl View for Model {
    type V = GroupView;

    closed spec fn view(&self) -> GroupView {
        GroupView {
            sections: self.sections.deep_view(),
            cur_section: self.cur_section as int,
            next_generation: self.next_generation as int,
        }
    }
}

/// A mutable borrow of one section.
fn section_mut(sections: &mut Vec<denselist::Model>, i: usize) -> (r: &mut denselist::Model)
    requires
        i < old(sections)@.len(),
    ensures
        *r == old(sections)@[i as int],
        final(sections)@ == old(sections)@.update(i as int, *final(r)),
{
    &mut sections[i]
}

/// One position of a vector of lists holds the mathematical value of the
/// list stored there.
proof fn lemma_deep_view_index(a: Vec<denselist::Model>, i: int)
    requires
        0 <= i < a@.len(),
    ensures
        a.deep_view()[i] == a@[i]@,
{
}

/// Updating one element of a vector of lists updates the same position of
/// its mathematical value.
proof fn lemma_deep_view_update(a: Vec<denselist::Model>, b: Vec<denselist::Model>, i: int)
    requires
        0 <= i < a@.len(),
        b@ == a@.update(i, b@[i]),
    ensures
        b.deep_view() == a.deep_view().update(i, b@[i]@),
{
    assert forall|k: int| 0 <= k < b.deep_view().len() implies b.deep_view()[k] == a.deep_view()
        .update(i, b@[i]@)[k] by {
        if k != i {
            assert(b@[k] == a@[k]);
        }
    }
    assert(b.deep_view() =~= a.deep_view().update(i, b@[i]@));
}

/// One fresh loading list per source, tagged `base`, `base + 1`, ...
fn build_sections(sources: Vec<SpotItem>, base: u64) -> (r: Vec<denselist::Model>)
    requires
        forall|i: int| 0 <= i < sources@.len() ==> (#[trigger] sources@[i]@).is_descendable(),
        base + sources@.len() <= u64::MAX,
    ensures
        r.deep_view() == spec_fresh_sections(sources.deep_view(), base as int),
{
    let mut r: Vec<denselist::Model> = Vec::new();
    let mut i: usize = 0;
    while i < sources.len()
        invariant
            i <= sources@.len(),
            base + sources@.len() <= u64::MAX,
            forall|k: int| 0 <= k < sources@.len() ==> (#[trigger] sources@[k]@).is_descendable(),
            r@.len() == i,
            forall|k: int|
                0 <= k < i ==> #[trigger] r@[k]@ == (ListView {
                    source: sources@[k]@,
                    items: Seq::<ItemView>::empty(),
                    cursor: None,
                    generation: base + k,
                    failed: false,
                }),
        decreases sources@.len() - i,
    {
        let l = denselist::Model::new(sources[i].clone(), base + i as u64);
        r.push(l);
        i = i + 1;
    }
    proof {
        assert forall|k: int| 0 <= k < r@.len() implies r.deep_view()[k] == spec_fresh_sections(
            sources.deep_view(),
            base as int,
        )[k] by {
            lemma_deep_view_index(r, k);
            assert(sources.deep_view()[k] == sources@[k]@);
        }
        assert(r.deep_view() =~= spec_fresh_sections(sources.deep_view(), base as int));
    }
    r
}

impl Model {
    /// A group showing one fresh loading list per source, with the first
    /// section active.
    pub fn new(sources: Vec<SpotItem>) -> (r: Model)
        requires
            forall|i: int| 0 <= i < sources@.len() ==> (#[trigger] sources@[i]@).is_descendable(),
            sources@.len() <= u64::MAX,
        ensures
            r@ == spec_new_group(sources.deep_view()),
            r@.wf(),
    {
        let next_generation = sources.len() as u64;
        let sections = build_sections(sources, 0);
        Model { sections, cur_section: 0, next_generation }
    }

    /// Number of sections in the group.
    pub fn num_sections(&self) -> (n: usize)
        ensures
            n == self@.sections.len(),
    {
        self.sections.len()
    }

    /// Index of the active section.
    pub fn cur_section(&self) -> (i: usize)
        ensures
            i == self@.cur_section,
    {
        self.cur_section
    }

    /// Read access to one section's list.
    pub fn section_at(&self, i: usize) -> (r: &denselist::Model)
        requires
            i < self@.sections.len(),
        ensures
            r@ == self@.sections[i as int],
    {
        &self.sections[i]
    }

    /// Replaces all sections with fresh loading lists for `sources` and
    /// makes the first one active. Deliveries for the replaced lists carry
    /// old generation tags and will be dropped.
    pub fn reset_sections(&mut self, sources: Vec<SpotItem>)
        requires
            old(self)@.wf(),
            forall|i: int| 0 <= i < sources@.len() ==> (#[trigger] sources@[i]@).is_descendable(),
            old(self)@.next_generation + sources@.len() <= u64::MAX,
        ensures
            final(self)@ == spec_reset_sections(old(self)@, sources.deep_view()),
            final(self)@.wf(),
    {
        let ghost n = sources@.len();
        let base = self.next_generation;
        self.next_generation = self.next_generation + sources.len() as u64;
        self.cur_section = 0;
        self.sections = build_sections(sources, base);
    }

    /// Routes one navigation command into the group; see
    /// [`spec_dispatch_next`] and [`spec_dispatch_result`].
    pub fn dispatch(&mut self, cmd: NavCommand) -> (r: Option<NavOutput>)
        requires
            old(self)@.wf(),
        ensures
            final(self)@ == spec_dispatch_next(old(self)@, cmd),
            r.deep_view() == spec_dispatch_result(old(self)@, cmd),
            final(self)@.wf(),
    {
        if self.sections.len() == 0 {
            return None;
        }
        match cmd {
            NavCommand::ClearCursor => {
                let cur = self.cur_section;
                let s = section_mut(&mut self.sections, cur);
                s.clear_cursor();
                proof {
                    lemma_deep_view_update(old(self).sections, self.sections, cur as int);
                }
                None
            },
            _ => {
                let delta = cmd.delta();
                let cur = self.cur_section;
                let s = section_mut(&mut self.sections, cur);
                let mr = s.move_cursor(delta);
                proof {
                    lemma_deep_view_update(old(self).sections, self.sections, cur as int);
                }
                match mr {
                    MoveResult::MovedTo(i) => {
                        let it = self.sections[cur].item_at(i).clone();
                        Some(NavOutput::CursorIsNowAt(it))
                    },
                    // The move escaped the active list, or found it still
                    // empty: route it to the adjacent section, or report
                    // it upward when there is none.
                    _ => {
                        let in_bounds = self.change_target(delta).is_some();
                        let ev = self.change_section(delta);
                        if in_bounds {
                            ev
                        } else {
                            Some(escape_event(delta))
                        }
                    },
                }
            },
        }
    }

    /// The index of the adjacent section in direction `delta`, when it
    /// exists.
    fn change_target(&self, delta: i32) -> (t: Option<usize>)
        requires
            self@.wf(),
            self@.sections.len() > 0,
            delta == 1i32 || delta == -1i32,
        ensures
            t matches Some(i) ==> i as int == self@.cur_section + delta && 0 <= self@.cur_section
                + delta < self@.sections.len(),
            t is None ==> !(0 <= self@.cur_section + delta < self@.sections.len()),
    {
        if delta < 0 {
            if self.cur_section == 0 {
                None
            } else {
                Some(self.cur_section - 1)
            }
        } else {
            if self.cur_section + 1 < self.sections.len() {
                Some(self.cur_section + 1)
            } else {
                None
            }
        }
    }

    /// Moves to the adjacent section in direction `delta`: clears the
    /// outgoing section's cursor and enters the target with the cursor one
    /// step in. Out of bounds, the group is unchanged and nothing is
    /// reported.
    pub fn change_section(&mut self, delta: i32) -> (r: Option<NavOutput>)
        requires
            old(self)@.wf(),
            delta == 1i32 || delta == -1i32,
        ensures
            final(self)@ == spec_change_next(old(self)@, delta as int),
            r.deep_view() == spec_change_result(old(self)@, delta as int),
            final(self)@.wf(),
    {
        if self.sections.len() == 0 {
            return None;
        }
        let target_opt = self.change_target(delta);
        match target_opt {
            None => None,
            Some(target) => {
                let cur = self.cur_section;
                proof {
                    lemma_deep_view_index(self.sections, cur as int);
                }
                let s = section_mut(&mut self.sections, cur);
                s.clear_cursor();
                proof {
                    lemma_deep_view_update(old(self).sections, self.sections, cur as int);
                }
                let ghost mid = self.sections;
                self.cur_section = target;
                proof {
                    assert(target != cur);
                    lemma_deep_view_index(self.sections, target as int);
                }
                let s2 = section_mut(&mut self.sections, target);
                let mr = s2.move_cursor(delta);
                proof {
                    lemma_deep_view_update(mid, self.sections, target as int);
                }
                match mr {
                    MoveResult::MovedTo(i) => {
                        let it = self.sections[target].item_at(i).clone();
                        Some(NavOutput::CursorIsNowAt(it))
                    },
                    _ => None,
                }
            },
        }
    }

    /// Accepts one streamed item for section `section`: handed to that
    /// section's list (which drops it when the generation tag is stale),
    /// dropped when the section no longer exists. Reports whether the item
    /// was kept.
    pub fn accept_item(&mut self, section: usize, generation: u64, item: SpotItem) -> (accepted:
        bool)
        requires
            old(self)@.wf(),
        ensures
            final(self)@ == spec_group_accept(
                old(self)@,
                section as int,
                generation as int,
                item@,
            ),
            accepted == (section < old(self)@.sections.len() && generation as int == old(
                self,
            )@.sections[section as int].generation && old(self)@.sections[section as int].items.len()
                < usize::MAX),
            final(self)@.wf(),
    {
        if section < self.sections.len() {
            let s = section_mut(&mut self.sections, section);
            let accepted = s.accept_item(generation, item);
            proof {
                lemma_deep_view_update(old(self).sections, self.sections, section as int);
            }
            accepted
        } else {
            false
        }
    }

    /// Records that section `section`'s load pass tagged `generation`
    /// failed; dropped when the section no longer exists or the tag is
    /// stale. Reports whether the failure was recorded.
    pub fn mark_load_failed(&mut self, section: usize, generation: u64) -> (noted: bool)
        requires
            old(self)@.wf(),
        ensures
            final(self)@ == spec_group_mark_failed(old(self)@, section as int, generation as int),
            noted == (section < old(self)@.sections.len() && generation as int == old(
                self,
            )@.sections[section as int].generation),
            final(self)@.wf(),
    {
        if section < self.sections.len() {
            let s = section_mut(&mut self.sections, section);
            let noted = s.mark_load_failed(generation);
            proof {
                lemma_deep_view_update(old(self).sections, self.sections, section as int);
            }
            noted
        } else {
            false
        }
    }

    /// Selects item `index` of section `section` directly, as when the
    /// item is clicked: the clicked section becomes active with its cursor
    /// on the item, and the previously active section loses its cursor.
    /// Returns the selected item, or nothing when the target does not
    /// exist (a click racing with loading).
    pub fn move_cursor_to(&mut self, section: usize, index: usize) -> (r: Option<SpotItem>)
        requires
            old(self)@.wf(),
        ensures
            final(self)@ == spec_group_move_to(old(self)@, section as int, index as int),
            r matches Some(it) ==> section < old(self)@.sections.len() && index < old(
                self,
            )@.sections[section as int].items.len() && it@ == old(self)@.sections[section as int].items[index as int],
            r is None <==> !(section < old(self)@.sections.len() && index < old(self)@.sections[
                section as int
            ].items.len()),
            final(self)@.wf(),
    {
        if section >= self.sections.len() {
            return None;
        }
        if index >= self.sections[section].len() {
            return None;
        }
        let cur = self.cur_section;
        let s = section_mut(&mut self.sections, cur);
        s.clear_cursor();
        proof {
            lemma_deep_view_update(old(self).sections, self.sections, cur as int);
        }
        let ghost mid = self.sections;
        self.cur_section = section;
        let s2 = section_mut(&mut self.sections, section);
        let r = s2.move_cursor_to(index);
        proof {
            lemma_deep_view_update(mid, self.sections, section as int);
        }
        r
    }

    /// The source descriptor for descending into the current selection of
    /// the active section.
    pub fn descend(&self) -> (r: Option<SpotItem>)
        requires
            self@.wf(),
        ensures
            r.deep_view() == spec_group_descend(self@),
    {
        if self.sections.len() == 0 {
            return None;
        }
        self.sections[self.cur_section].descend()
    }

    /// The playable context of the active section.
    pub fn play_context(&self) -> (r: Option<PlayContext>)
        requires
            self@.wf(),
        ensures
            r.deep_view() == spec_group_play_context(self@),
    {
        if self.sections.len() == 0 {
            return None;
        }
        self.sections[self.cur_section].play_context()
    }

    /// The item under the active section's cursor.
    pub fn current_item(&self) -> (r: Option<SpotItem>)
        requires
            self@.wf(),
        ensures
            r.deep_view() == spec_group_current_item(self@),
    {
        if self.sections.len() == 0 {
            return None;
        }
        self.sections[self.cur_section].current_item()
    }
}

/// The escape event reported upward when a move in direction `delta`
/// cannot be resolved inside the group.
fn escape_event(delta: i32) -> (r: NavOutput)
    requires
        delta == 1i32 || delta == -1i32,
    ensures
        r@ == if delta < 0 {
            NavOutputView::EscapedUp
        } else {
            NavOutputView::EscapedDown
        },
{
    if delta < 0 {
        NavOutput::EscapedUp
    } else {
        NavOutput::EscapedDown
    }
}

/// A section switch lands with the cursor set: when a dispatch escapes the
/// active section and the adjacent section in that direction exists and is
/// not empty, the group ends with that section active and its cursor on
/// index 0 (moving forward) or its last index (moving backward).
pub proof fn lemma_section_switch_lands(g: GroupView, delta: int)
    requires
        g.wf(),
        delta == 1 || delta == -1,
        g.sections.len() > 0,
        0 <= g.cur_section + delta < g.sections.len(),
        g.sections[g.cur_section + delta].items.len() > 0,
    ensures
        spec_change_next(g, delta).cur_section == g.cur_section + delta,
        spec_change_next(g, delta).sections[g.cur_section + delta].cursor == Some(
            if delta > 0 {
                0int
            } else {
                g.sections[g.cur_section + delta].items.len() - 1
            },
        ),
{
    assert(g.cur_section + delta != g.cur_section);
    assert(g.sections[g.cur_section + delta].cursor is None);
}

} // verus!
