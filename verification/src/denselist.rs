//! A single scrollable list of items with at most one cursor.
//!
//! The list is populated incrementally: an external loader streams items in
//! and each delivery is tagged with the generation the load was started
//! for, so deliveries that race with a reset are dropped. Cursor moves that
//! would leave the list's bounds clear the cursor and report an escape, in
//! the direction matching the sign of the move; the parent view decides
//! what an escape means.

use vstd::prelude::*;

use crate::model::ItemView;
use crate::model::PlayContext;
use crate::model::PlayContextView;
use crate::model::SpotItem;
use crate::model::search_title;
use crate::model::spec_search_title;
use crate::navigation::MoveResult;
use crate::navigation::NavCommand;
use crate::navigation::NavOutput;
use crate::navigation::NavOutputView;

verus! {

/// Mathematical value of a list: its source descriptor, the items loaded
/// so far in arrival order, the cursor, the generation of the current load
/// pass, and whether that pass reported failure.
#[verifier::ext_equal]
pub struct ListView {
    pub source: ItemView,
    pub items: Seq<ItemView>,
    pub cursor: Option<int>,
    pub generation: int,
    pub failed: bool,
}

impl ListView {
    /// The list's one invariant: a cursor, when present, is a valid index.
    /// A single track is never shown as a list, so the source is always a
    /// collection. The items are held in memory, so there are never more
    /// than the machine can index.
    pub open spec fn wf(self) -> bool {
        &&& match self.cursor {
            Some(c) => 0 <= c < self.items.len(),
            None => true,
        }
        &&& self.source.is_descendable()
        &&& self.items.len() <= usize::MAX
    }

    /// The item under the cursor, if a cursor is set.
    pub open spec fn spec_current_item(self) -> Option<ItemView> {
        match self.cursor {
            Some(c) => Some(self.items[c]),
            None => None,
        }
    }
}

/// What a cursor move by `delta` reports on a list in state `v`.
///
/// With a cursor set, the move either lands on the neighbouring index or
/// escapes past the end it crossed. With no cursor set, the move enters
/// the list at the end it came from: index 0 moving forward, the last
/// index moving backward. On an empty list the move does nothing.
pub open spec fn spec_move_result(v: ListView, delta: int) -> MoveResult {
    match v.cursor {
        Some(c) => {
            if c + delta < 0 {
                MoveResult::EscapedBack
            } else if c + delta >= v.items.len() {
                MoveResult::EscapedForward
            } else {
                MoveResult::MovedTo((c + delta) as usize)
            }
        },
        None => {
            if v.items.len() == 0 {
                MoveResult::NoOp
            } else if delta > 0 {
                MoveResult::MovedTo(0)
            } else {
                MoveResult::MovedTo((v.items.len() - 1) as usize)
            }
        },
    }
}

/// The list state after a cursor move by `delta`: the cursor lands on the
/// reported index, or is cleared when the move escaped.
pub open spec fn spec_move_next(v: ListView, delta: int) -> ListView {
    match spec_move_result(v, delta) {
        MoveResult::NoOp => v,
        MoveResult::MovedTo(i) => ListView { cursor: Some(i as int), ..v },
        MoveResult::EscapedBack => ListView { cursor: None, ..v },
        MoveResult::EscapedForward => ListView { cursor: None, ..v },
    }
}

/// The list state after a direct cursor set: lands on `index` when it is
/// in bounds, otherwise the list is unchanged.
pub open spec fn spec_move_to(v: ListView, index: int) -> ListView {
    if 0 <= index < v.items.len() {
        ListView { cursor: Some(index), ..v }
    } else {
        v
    }
}

/// The list state after accepting a delivery tagged `generation`: the item
/// is appended when the tag matches the current load pass, otherwise the
/// delivery is stale and dropped. A list that already holds as many items
/// as the machine can index also drops the delivery.
pub open spec fn spec_accept(v: ListView, generation: int, item: ItemView) -> ListView {
    if generation == v.generation && v.items.len() < usize::MAX {
        ListView { items: v.items.push(item), ..v }
    } else {
        v
    }
}

/// The list state after a reset to a new source: cursor cleared, items
/// cleared, and a new generation so that deliveries for the old load are
/// recognised as stale.
pub open spec fn spec_reset(v: ListView, source: ItemView) -> ListView {
    ListView {
        source: source,
        items: Seq::empty(),
        cursor: None,
        generation: v.generation + 1,
        failed: false,
    }
}

/// The list state after the load pass tagged `generation` reports
/// failure: the failure is recorded when the tag matches the current
/// pass, and dropped as stale otherwise.
pub open spec fn spec_mark_failed(v: ListView, generation: int) -> ListView {
    if generation == v.generation {
        ListView { failed: true, ..v }
    } else {
        v
    }
}

/// What descending into the current selection yields: the selected item
/// when it is a collection, nothing when nothing is selected or a single
/// track is selected.
pub open spec fn spec_descend(v: ListView) -> Option<ItemView> {
    match v.spec_current_item() {
        Some(it) => if it.is_descendable() {
            Some(it)
        } else {
            None
        },
        None => None,
    }
}

/// The playable context of the list: when the list itself is a playable
/// collection, that collection with the selected item as the offset;
/// otherwise the selected item's own collection identifier, with no
/// offset; otherwise nothing.
pub open spec fn spec_play_context(v: ListView) -> Option<PlayContextView> {
    match v.source.spec_context_id() {
        Some(ctx) => Some(
            PlayContextView {
                context: ctx,
                offset_uri: match v.spec_current_item() {
                    Some(it) => it.spec_uri(),
                    None => None,
                },
            },
        ),
        None => match v.spec_current_item() {
            Some(it) => match it.spec_context_id() {
                Some(ctx) => Some(PlayContextView { context: ctx, offset_uri: None }),
                None => None,
            },
            None => None,
        },
    }
}

/// What a navigation command reports: nothing for a cursor clear or a move
/// on an empty list, the escape direction when the move left the list, or
/// the item the cursor now rests on.
pub open spec fn spec_handle_result(v: ListView, cmd: NavCommand) -> Option<NavOutputView> {
    if cmd is ClearCursor {
        None
    } else {
        match spec_move_result(v, cmd.spec_delta()) {
            MoveResult::NoOp => None,
            MoveResult::MovedTo(i) => Some(NavOutputView::CursorIsNowAt(v.items[i as int])),
            MoveResult::EscapedBack => Some(NavOutputView::EscapedUp),
            MoveResult::EscapedForward => Some(NavOutputView::EscapedDown),
        }
    }
}

/// The list state after a navigation command.
pub open spec fn spec_handle_next(v: ListView, cmd: NavCommand) -> ListView {
    if cmd is ClearCursor {
        ListView { cursor: None, ..v }
    } else {
        spec_move_next(v, cmd.spec_delta())
    }
}

/// One list of items with a single optional cursor, loaded incrementally
/// from a source descriptor.
#[derive(Debug)]
pub struct Model {
    source: SpotItem,
    items: Vec<SpotItem>,
    cursor: Option<usize>,
    generation: u64,
    failed: bool,
}

impl View for Model {
    type V = ListView;

    closed spec fn view(&self) -> ListView {
        ListView {
            source: self.source@,
            items: self.items.deep_view(),
            cursor: match self.cursor {
                Some(c) => Some(c as int),
                None => None,
            },
            generation: self.generation as int,
            failed: self.failed,
        }
    }
}

impl DeepView for Model {
    type V = ListView;

    open spec fn deep_view(&self) -> ListView {
        self.view()
    }
}

impl Model {
    /// A fresh list for `source`, empty and without a cursor; its items
    /// stream in later through [`Self::accept_item`] tagged with
    /// `generation`.
    pub fn new(source: SpotItem, generation: u64) -> (r: Model)
        requires
            source@.is_descendable(),
        ensures
            r@ == (ListView {
                source: source@,
                items: Seq::<ItemView>::empty(),
                cursor: None,
                generation: generation as int,
                failed: false,
            }),
            r@.wf(),
    {
        let r = Model { source, items: Vec::new(), cursor: None, generation, failed: false };
        proof {
            assert(r@.items =~= Seq::<ItemView>::empty());
        }
        r
    }

    /// Number of items loaded so far.
    pub fn len(&self) -> (n: usize)
        ensures
            n == self@.items.len(),
    {
        self.items.len()
    }

    /// The cursor position, if one is set.
    pub fn cursor(&self) -> (c: Option<usize>)
        ensures
            c matches Some(i) ==> self@.cursor == Some(i as int),
            c is None ==> self@.cursor is None,
    {
        self.cursor
    }

    /// The source descriptor this list was loaded from.
    pub fn source(&self) -> (s: &SpotItem)
        ensures
            s@ == self@.source,
    {
        &self.source
    }

    /// The generation tag of the current load pass.
    pub fn generation(&self) -> (g: u64)
        ensures
            g as int == self@.generation,
    {
        self.generation
    }

    /// The item at a known-valid index.
    pub fn item_at(&self, index: usize) -> (r: &SpotItem)
        requires
            index < self@.items.len(),
        ensures
            r@ == self@.items[index as int],
    {
        &self.items[index]
    }

    /// Accepts one streamed item: appends it when `generation` matches the
    /// current load pass, drops it as stale otherwise (or when the list is
    /// already as long as the machine can index). Reports whether the item
    /// was accepted.
    pub fn accept_item(&mut self, generation: u64, item: SpotItem) -> (accepted: bool)
        requires
            old(self)@.wf(),
        ensures
            final(self)@ == spec_accept(old(self)@, generation as int, item@),
            accepted == (generation as int == old(self)@.generation && old(self)@.items.len()
                < usize::MAX),
            final(self)@.wf(),
    {
        if generation == self.generation && self.items.len() < usize::MAX {
            self.items.push(item);
            proof {
                assert(self@.items =~= old(self)@.items.push(item@));
            }
            true
        } else {
            false
        }
    }

    /// Whether the current load pass reported failure.
    pub fn load_failed(&self) -> (b: bool)
        ensures
            b == self@.failed,
    {
        self.failed
    }

    /// Records that the load pass tagged `generation` failed, so the UI
    /// can show the list as failed rather than forever loading. A stale
    /// tag — the pass was superseded by a reset — is dropped. Reports
    /// whether the failure was recorded.
    pub fn mark_load_failed(&mut self, generation: u64) -> (noted: bool)
        requires
            old(self)@.wf(),
        ensures
            final(self)@ == spec_mark_failed(old(self)@, generation as int),
            noted == (generation as int == old(self)@.generation),
            final(self)@.wf(),
    {
        if generation == self.generation {
            self.failed = true;
            true
        } else {
            false
        }
    }

    /// Clears the cursor and the items, and starts a new load pass for
    /// `new_source` under the next generation.
    pub fn reset(&mut self, new_source: SpotItem)
        requires
            old(self)@.wf(),
            new_source@.is_descendable(),
            old(self)@.generation < u64::MAX,
        ensures
            final(self)@ == spec_reset(old(self)@, new_source@),
            final(self)@.wf(),
    {
        self.cursor = None;
        self.items = Vec::new();
        self.source = new_source;
        self.generation = self.generation + 1;
        self.failed = false;
        proof {
            assert(self@.items =~= Seq::<ItemView>::empty());
        }
    }

    /// Unconditionally clears the cursor; used when focus leaves the list.
    pub fn clear_cursor(&mut self)
        requires
            old(self)@.wf(),
        ensures
            final(self)@ == (ListView { cursor: None, ..old(self)@ }),
            final(self)@.wf(),
    {
        self.cursor = None;
    }

    /// Moves the cursor by one step. With no cursor set, a forward move
    /// selects the first item and a backward move the last; on an empty
    /// list nothing happens. A move past either end clears the cursor and
    /// reports the escape instead of clamping, so the parent can decide
    /// whether to switch lists or bounce.
    pub fn move_cursor(&mut self, delta: i32) -> (r: MoveResult)
        requires
            old(self)@.wf(),
            delta == 1i32 || delta == -1i32,
        ensures
            final(self)@ == spec_move_next(old(self)@, delta as int),
            r == spec_move_result(old(self)@, delta as int),
            final(self)@.wf(),
    {
        match self.cursor {
            Some(c) => {
                self.cursor = None;
                if delta < 0 {
                    if c == 0 {
                        MoveResult::EscapedBack
                    } else {
                        self.cursor = Some(c - 1);
                        MoveResult::MovedTo(c - 1)
                    }
                } else {
                    if c + 1 >= self.items.len() {
                        MoveResult::EscapedForward
                    } else {
                        self.cursor = Some(c + 1);
                        MoveResult::MovedTo(c + 1)
                    }
                }
            },
            None => {
                if self.items.len() == 0 {
                    MoveResult::NoOp
                } else if delta > 0 {
                    self.cursor = Some(0);
                    MoveResult::MovedTo(0)
                } else {
                    let last = self.items.len() - 1;
                    self.cursor = Some(last);
                    MoveResult::MovedTo(last)
                }
            },
        }
    }

    /// Sets the cursor directly to `index`, as when an item is clicked,
    /// and returns the newly selected item. An index at or past the loaded
    /// length — possible when a click races with a still-loading list —
    /// leaves the list unchanged and returns nothing.
    pub fn move_cursor_to(&mut self, index: usize) -> (r: Option<SpotItem>)
        requires
            old(self)@.wf(),
        ensures
            final(self)@ == spec_move_to(old(self)@, index as int),
            r matches Some(it) ==> index < old(self)@.items.len() && it@ == old(
                self,
            )@.items[index as int],
            r is None <==> index >= old(self)@.items.len(),
            final(self)@.wf(),
    {
        if index < self.items.len() {
            self.cursor = Some(index);
            Some(self.items[index].clone())
        } else {
            None
        }
    }

    /// The item under the cursor, if a cursor is set.
    pub fn current_item(&self) -> (r: Option<SpotItem>)
        requires
            self@.wf(),
        ensures
            r.deep_view() == self@.spec_current_item(),
    {
        match self.cursor {
            Some(c) => Some(self.items[c].clone()),
            None => None,
        }
    }

    /// The source descriptor for descending into the current selection:
    /// the selected item when it is a collection, nothing when nothing is
    /// selected or the selection is a single track.
    pub fn descend(&self) -> (r: Option<SpotItem>)
        requires
            self@.wf(),
        ensures
            r.deep_view() == spec_descend(self@),
    {
        match self.cursor {
            Some(c) => {
                let it = &self.items[c];
                match it {
                    SpotItem::Track(_) => None,
                    _ => Some(it.clone()),
                }
            },
            None => None,
        }
    }

    /// The playable context for the current state of this list; see
    /// [`spec_play_context`] for the resolution order.
    pub fn play_context(&self) -> (r: Option<PlayContext>)
        requires
            self@.wf(),
        ensures
            r.deep_view() == spec_play_context(self@),
    {
        let ctx = self.source.context_id();
        match ctx {
            Some(ctx) => {
                let offset_uri = match self.current_item() {
                    Some(it) => it.uri(),
                    None => None,
                };
                Some(PlayContext { context: ctx, offset_uri })
            },
            None => match self.current_item() {
                Some(it) => match it.context_id() {
                    Some(ctx) => Some(PlayContext { context: ctx, offset_uri: None }),
                    None => None,
                },
                None => None,
            },
        }
    }

    /// Routes one navigation command into this list: a cursor clear or a
    /// one-step move, reporting the escape or the newly selected item.
    pub fn handle_nav(&mut self, cmd: NavCommand) -> (r: Option<NavOutput>)
        requires
            old(self)@.wf(),
        ensures
            final(self)@ == spec_handle_next(old(self)@, cmd),
            r.deep_view() == spec_handle_result(old(self)@, cmd),
            final(self)@.wf(),
    {
        match cmd {
            NavCommand::ClearCursor => {
                self.clear_cursor();
                None
            },
            _ => {
                let delta = cmd.delta();
                match self.move_cursor(delta) {
                    MoveResult::NoOp => None,
                    MoveResult::MovedTo(i) => Some(
                        NavOutput::CursorIsNowAt(self.items[i].clone()),
                    ),
                    MoveResult::EscapedBack => Some(NavOutput::EscapedUp),
                    MoveResult::EscapedForward => Some(NavOutput::EscapedDown),
                }
            },
        }
    }

    /// The heading shown above the list: the search description for a
    /// search-result list, empty for anything else.
    pub fn list_title(&self) -> (r: String)
        ensures
            r@ == spec_list_title(self@),
    {
        match &self.source {
            SpotItem::SearchResults { st, query } => search_title(st, query.as_str()),
            _ => String::new(),
        }
    }
}

/// The heading shown above a list; see [`Model::list_title`].
pub open spec fn spec_list_title(v: ListView) -> Seq<char> {
    match v.source {
        ItemView::SearchResults { st, query } => spec_search_title(st, query),
        _ => Seq::empty(),
    }
}

/// Every list operation keeps the cursor inside the loaded items: moving
/// the cursor, setting it directly, accepting a delivery, clearing, and
/// resetting each take a well-formed list to a well-formed list.
pub proof fn lemma_operations_preserve_wf(
    v: ListView,
    delta: int,
    index: int,
    generation: int,
    item: ItemView,
    source: ItemView,
)
    requires
        v.wf(),
        source.is_descendable(),
    ensures
        spec_move_next(v, delta).wf(),
        spec_move_to(v, index).wf(),
        spec_accept(v, generation, item).wf(),
        spec_reset(v, source).wf(),
        spec_mark_failed(v, generation).wf(),
        (ListView { cursor: None, ..v }).wf(),
{
}

/// Descend gating: descending resolves to something exactly when an item
/// is selected and that item is a collection (an album, a playlist, a
/// root, a search) — never for a single track, never without a selection —
/// and what it resolves to is the selection itself.
pub proof fn lemma_descend_gating(v: ListView)
    requires
        v.wf(),
    ensures
        spec_descend(v) is Some <==> (v.spec_current_item() matches Some(it)
            && it.is_descendable()),
        v.spec_current_item() matches Some(it) ==> (it.is_descendable() ==> spec_descend(v)
            == Some(it)) && (it is Track ==> spec_descend(v) is None),
        v.cursor is None ==> spec_descend(v) is None,
{
}

/// Escape symmetry, first half: a one-step move from a cursor that sits at
/// the edge of a non-empty list escapes in the direction of the move and
/// clears the cursor.
pub proof fn lemma_escape_clears_cursor(v: ListView, delta: int)
    requires
        v.wf(),
        delta == 1 || delta == -1,
        v.cursor matches Some(c) && (c + delta < 0 || c + delta >= v.items.len()),
    ensures
        spec_move_result(v, delta) == if delta < 0 {
            MoveResult::EscapedBack
        } else {
            MoveResult::EscapedForward
        },
        spec_move_next(v, delta).cursor is None,
{
}

/// Escape symmetry, second half: on a non-empty list with no cursor, a
/// forward move selects index 0 and a backward move selects the last
/// index.
pub proof fn lemma_reentry_selects_edge(v: ListView, delta: int)
    requires
        v.wf(),
        delta == 1 || delta == -1,
        v.cursor is None,
        v.items.len() > 0,
    ensures
        spec_move_result(v, delta) == MoveResult::MovedTo(
            if delta > 0 {
                0usize
            } else {
                (v.items.len() - 1) as usize
            },
        ),
        spec_move_next(v, delta).cursor == Some(
            if delta > 0 {
                0int
            } else {
                v.items.len() - 1
            },
        ),
{
}

} // verus!
