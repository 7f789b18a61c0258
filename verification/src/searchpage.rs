//! The search page: a section group that starts with no sections and, each
//! time a query is executed, is rebuilt as two search-result sections —
//! matching albums and matching tracks — loading side by side.
//!
//! The text box the query is typed into belongs to the UI layer; this
//! model receives the finished query string.

use vstd::prelude::*;

use crate::model::ItemView;
use crate::model::PlayContext;
use crate::model::SearchType;
use crate::model::SpotItem;
use crate::multiview;
use crate::multiview::GroupView;
use crate::multiview::spec_dispatch_next;
use crate::multiview::spec_dispatch_result;
use crate::multiview::spec_group_accept;
use crate::multiview::spec_group_current_item;
use crate::multiview::spec_group_descend;
use crate::multiview::spec_group_mark_failed;
use crate::multiview::spec_group_move_to;
use crate::multiview::spec_group_play_context;
use crate::multiview::spec_new_group;
use crate::multiview::spec_reset_sections;
use crate::navigation::NavCommand;
use crate::navigation::NavOutput;

verus! {

/// The two sections a search for `query` shows: matching albums, then
/// matching tracks.
pub open spec fn spec_search_sections(query: Seq<char>) -> Seq<ItemView> {
    seq![
        ItemView::SearchResults { st: SearchType::Album, query },
        ItemView::SearchResults { st: SearchType::Track, query },
    ]
}

/// The group state after executing a search: all sections replaced by the
/// two fresh search-result sections.
pub open spec fn spec_execute_search(g: GroupView, query: Seq<char>) -> GroupView {
    spec_reset_sections(g, spec_search_sections(query))
}

/// A search page: a section group rebuilt on every executed query.
#[derive(Debug)]
pub struct Model {
    multiview: multiview::Model,
}

impl View for Model {
    type V = GroupView;

    closed spec fn view(&self) -> GroupView {
        self.multiview@
    }
}

impl Model {
    /// A fresh search page with no sections: nothing has been searched for
    /// yet.
    pub fn new() -> (r: Model)
        ensures
            r@ == spec_new_group(Seq::<ItemView>::empty()),
            r@.wf(),
    {
        let sources: Vec<SpotItem> = Vec::new();
        let r = Model { multiview: multiview::Model::new(sources) };
        proof {
            assert(r@.sections =~= spec_new_group(Seq::<ItemView>::empty()).sections);
        }
        r
    }

    /// Read access to the page's section group.
    pub fn group(&self) -> (r: &multiview::Model)
        ensures
            r@ == self@,
    {
        &self.multiview
    }

    /// Executes a search: replaces the page's sections with two fresh
    /// loading sections, matching albums and matching tracks for `query`.
    pub fn execute_search(&mut self, query: String)
        requires
            old(self)@.wf(),
            old(self)@.next_generation + 2 <= u64::MAX,
        ensures
            final(self)@ == spec_execute_search(old(self)@, query@),
            final(self)@.wf(),
    {
        let mut sources: Vec<SpotItem> = Vec::new();
        sources.push(SpotItem::SearchResults { st: SearchType::Album, query: query.clone() });
        sources.push(SpotItem::SearchResults { st: SearchType::Track, query });
        proof {
            assert(sources.deep_view() =~= spec_search_sections(query@));
        }
        self.multiview.reset_sections(sources);
    }

    /// Routes one navigation command into the page's sections.
    pub fn dispatch(&mut self, cmd: NavCommand) -> (r: Option<NavOutput>)
        requires
            old(self)@.wf(),
        ensures
            final(self)@ == spec_dispatch_next(old(self)@, cmd),
            r.deep_view() == spec_dispatch_result(old(self)@, cmd),
            final(self)@.wf(),
    {
        self.multiview.dispatch(cmd)
    }

    /// Accepts one streamed result for section `section`.
    pub fn accept_item(&mut self, section: usize, generation: u64, item: SpotItem) -> (accepted:
        bool)
        requires
            old(self)@.wf(),
        ensures
            final(self)@ == spec_group_accept(
                old(self)@,
                section as int,
                generation as int,
                item@,
            ),
            accepted == (section < old(self)@.sections.len() && generation as int == old(
                self,
            )@.sections[section as int].generation && old(self)@.sections[section as int].items.len()
                < usize::MAX),
            final(self)@.wf(),
    {
        self.multiview.accept_item(section, generation, item)
    }

    /// Records that one result section's load failed.
    pub fn mark_load_failed(&mut self, section: usize, generation: u64) -> (noted: bool)
        requires
            old(self)@.wf(),
        ensures
            final(self)@ == spec_group_mark_failed(old(self)@, section as int, generation as int),
            noted == (section < old(self)@.sections.len() && generation as int == old(
                self,
            )@.sections[section as int].generation),
            final(self)@.wf(),
    {
        self.multiview.mark_load_failed(section, generation)
    }

    /// Selects a result directly, as when it is clicked.
    pub fn move_cursor_to(&mut self, section: usize, index: usize) -> (r: Option<SpotItem>)
        requires
            old(self)@.wf(),
        ensures
            final(self)@ == spec_group_move_to(old(self)@, section as int, index as int),
            r matches Some(it) ==> section < old(self)@.sections.len() && index < old(
                self,
            )@.sections[section as int].items.len() && it@ == old(self)@.sections[
                section as int
            ].items[index as int],
            r is None <==> !(section < old(self)@.sections.len() && index < old(
                self,
            )@.sections[section as int].items.len()),
            final(self)@.wf(),
    {
        self.multiview.move_cursor_to(section, index)
    }

    /// The source descriptor for descending into the selected result.
    pub fn descend(&self) -> (r: Option<SpotItem>)
        requires
            self@.wf(),
        ensures
            r.deep_view() == spec_group_descend(self@),
    {
        self.multiview.descend()
    }

    /// The playable context of the selected result's section.
    pub fn play_context(&self) -> (r: Option<PlayContext>)
        requires
            self@.wf(),
        ensures
            r.deep_view() == spec_group_play_context(self@),
    {
        self.multiview.play_context()
    }

    /// The selected result, if any.
    pub fn current_item(&self) -> (r: Option<SpotItem>)
        requires
            self@.wf(),
        ensures
            r.deep_view() == spec_group_current_item(self@),
    {
        self.multiview.current_item()
    }
}

} // verus!
