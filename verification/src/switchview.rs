//! The view stack: the pages the user has descended through, topmost page
//! active. The stack always holds at least one page — a root — and
//! supports descending into the current selection (push), going back
//! (pop, refused at the root), and resetting to a fresh root.
//!
//! An escape that the top page cannot resolve is bounced: the stack turns
//! it into its mirror-image command and re-sends it to the same page once,
//! so cursor movement at the outermost page re-enters the page instead of
//! leaving the application. If even the mirrored command escapes (an
//! entirely empty page), the move is absorbed.
//!
//! Every page carries an identifier that is never reused; deliveries from
//! loads owned by a page that was popped or replaced no longer match any
//! live identifier and are dropped.

use vstd::prelude::*;

use crate::model::ItemView;
use crate::model::PlayContext;
use crate::model::SpotItem;
use crate::multiview;
use crate::multiview::GroupView;
use crate::multiview::spec_dispatch_next;
use crate::multiview::spec_dispatch_result;
use crate::multiview::spec_group_accept;
use crate::multiview::spec_group_mark_failed;
use crate::multiview::spec_group_current_item;
use crate::multiview::spec_group_descend;
use crate::multiview::spec_group_play_context;
use crate::multiview::spec_new_group;
use crate::navigation::NavCommand;
use crate::navigation::NavOutput;
use crate::navigation::NavOutputView;
use crate::searchpage;
use crate::searchpage::spec_execute_search;

verus! {

/// One page of the stack: either a plain section group (a browsing page)
/// or the search page.
#[derive(Debug)]
pub enum ChildContent {
    MultiView(multiview::Model),
    SearchPage(searchpage::Model),
}

/// Mathematical value of a page: which kind it is, and its section group.
#[verifier::ext_equal]
pub enum PageView {
    MultiView(GroupView),
    SearchPage(GroupView),
}

impl PageView {
    /// The page's section group, whichever kind the page is.
    pub open spec fn group(self) -> GroupView {
        match self {
            PageView::MultiView(g) => g,
            PageView::SearchPage(g) => g,
        }
    }

    /// The same page with its section group replaced.
    pub open spec fn with_group(self, g: GroupView) -> PageView {
        match self {
            PageView::MultiView(_) => PageView::MultiView(g),
            PageView::SearchPage(_) => PageView::SearchPage(g),
        }
    }

    pub open spec fn wf(self) -> bool {
        self.group().wf()
    }
}

impl View for ChildContent {
    type V = PageView;

    open spec fn view(&self) -> PageView {
        match self {
            ChildContent::MultiView(mv) => PageView::MultiView(mv@),
            ChildContent::SearchPage(sp) => PageView::SearchPage(sp@),
        }
    }
}

impl DeepView for ChildContent {
    type V = PageView;

    open spec fn deep_view(&self) -> PageView {
        self.view()
    }
}

/// The page state after routing one navigation command into its group.
pub open spec fn spec_page_dispatch_next(p: PageView, cmd: NavCommand) -> PageView {
    p.with_group(spec_dispatch_next(p.group(), cmd))
}

/// What routing one navigation command into the page reports.
pub open spec fn spec_page_dispatch_result(p: PageView, cmd: NavCommand) -> Option<NavOutputView> {
    spec_dispatch_result(p.group(), cmd)
}

/// What descending resolves to on this page.
pub open spec fn spec_page_descend(p: PageView) -> Option<ItemView> {
    spec_group_descend(p.group())
}

impl ChildContent {
    /// Routes one navigation command into the page.
    pub fn dispatch(&mut self, cmd: NavCommand) -> (r: Option<NavOutput>)
        requires
            old(self)@.wf(),
        ensures
            final(self)@ == spec_page_dispatch_next(old(self)@, cmd),
            r.deep_view() == spec_page_dispatch_result(old(self)@, cmd),
            final(self)@.wf(),
    {
        match self {
            ChildContent::MultiView(mv) => mv.dispatch(cmd),
            ChildContent::SearchPage(sp) => sp.dispatch(cmd),
        }
    }

    /// The source descriptor for descending into the page's current
    /// selection.
    pub fn descend(&self) -> (r: Option<SpotItem>)
        requires
            self@.wf(),
        ensures
            r.deep_view() == spec_page_descend(self@),
    {
        match self {
            ChildContent::MultiView(mv) => mv.descend(),
            ChildContent::SearchPage(sp) => sp.descend(),
        }
    }

    /// The playable context of the page's current selection.
    pub fn play_context(&self) -> (r: Option<PlayContext>)
        requires
            self@.wf(),
        ensures
            r.deep_view() == spec_group_play_context(self@.group()),
    {
        match self {
            ChildContent::MultiView(mv) => mv.play_context(),
            ChildContent::SearchPage(sp) => sp.play_context(),
        }
    }

    /// The page's currently selected item.
    pub fn current_item(&self) -> (r: Option<SpotItem>)
        requires
            self@.wf(),
        ensures
            r.deep_view() == spec_group_current_item(self@.group()),
    {
        match self {
            ChildContent::MultiView(mv) => mv.current_item(),
            ChildContent::SearchPage(sp) => sp.current_item(),
        }
    }

    /// Read access to the page's section group.
    pub fn group_ref(&self) -> (r: &multiview::Model)
        ensures
            r@ == self@.group(),
    {
        match self {
            ChildContent::MultiView(mv) => mv,
            ChildContent::SearchPage(sp) => sp.group(),
        }
    }

    /// Accepts one streamed item for section `section` of this page.
    pub fn accept_item(&mut self, section: usize, generation: u64, item: SpotItem) -> (accepted:
        bool)
        requires
            old(self)@.wf(),
        ensures
            final(self)@ == old(self)@.with_group(
                spec_group_accept(old(self)@.group(), section as int, generation as int, item@),
            ),
            accepted == (section < old(self)@.group().sections.len() && generation as int == old(
                self,
            )@.group().sections[section as int].generation && old(self)@.group().sections[
                section as int
            ].items.len() < usize::MAX),
            final(self)@.wf(),
    {
        match self {
            ChildContent::MultiView(mv) => mv.accept_item(section, generation, item),
            ChildContent::SearchPage(sp) => sp.accept_item(section, generation, item),
        }
    }

    /// Records that one of this page's sections failed to load.
    pub fn mark_load_failed(&mut self, section: usize, generation: u64) -> (noted: bool)
        requires
            old(self)@.wf(),
        ensures
            final(self)@ == old(self)@.with_group(
                spec_group_mark_failed(old(self)@.group(), section as int, generation as int),
            ),
            noted == (section < old(self)@.group().sections.len() && generation as int == old(
                self,
            )@.group().sections[section as int].generation),
            final(self)@.wf(),
    {
        match self {
            ChildContent::MultiView(mv) => mv.mark_load_failed(section, generation),
            ChildContent::SearchPage(sp) => sp.mark_load_failed(section, generation),
        }
    }

    /// Selects an item of this page directly, as when it is clicked.
    pub fn move_cursor_to(&mut self, section: usize, index: usize) -> (r: Option<SpotItem>)
        requires
            old(self)@.wf(),
        ensures
            final(self)@ == old(self)@.with_group(
                crate::multiview::spec_group_move_to(
                    old(self)@.group(),
                    section as int,
                    index as int,
                ),
            ),
            r matches Some(it) ==> section < old(self)@.group().sections.len() && index < old(
                self,
            )@.group().sections[section as int].items.len() && it@ == old(self)@.group().sections[
                section as int
            ].items[index as int],
            r is None <==> !(section < old(self)@.group().sections.len() && index < old(
                self,
            )@.group().sections[section as int].items.len()),
            final(self)@.wf(),
    {
        match self {
            ChildContent::MultiView(mv) => mv.move_cursor_to(section, index),
            ChildContent::SearchPage(sp) => sp.move_cursor_to(section, index),
        }
    }
}

/// Mathematical value of the stack: the pages bottom to top, each page's
/// identifier, and the next identifier to hand out.
#[verifier::ext_equal]
pub struct StackView {
    pub pages: Seq<PageView>,
    pub page_ids: Seq<u64>,
    pub next_page_id: int,
}

impl StackView {
    /// The stack's invariant: never empty, one identifier per page, all
    /// identifiers below the next one to be handed out and pairwise
    /// distinct — an identifier is never reused, so a delivery for a page
    /// that is gone matches nothing.
    pub open spec fn wf(self) -> bool {
        &&& self.pages.len() == self.page_ids.len()
        &&& 1 <= self.pages.len() <= usize::MAX
        &&& forall|i: int| 0 <= i < self.pages.len() ==> (#[trigger] self.pages[i]).wf()
        &&& forall|i: int|
            0 <= i < self.page_ids.len() ==> (#[trigger] self.page_ids[i]) < self.next_page_id
        &&& forall|i: int, j: int|
            #![trigger self.page_ids[i], self.page_ids[j]]
            0 <= i < j < self.page_ids.len() ==> self.page_ids[i] != self.page_ids[j]
        &&& 0 <= self.next_page_id <= u64::MAX
    }

    /// The active (topmost) page.
    pub open spec fn top(self) -> PageView {
        self.pages.last()
    }
}

/// The root page the stack starts from: the user's saved playlists.
pub open spec fn spec_initial_page() -> PageView {
    PageView::MultiView(spec_new_group(seq![ItemView::UserPlaylists]))
}

/// A freshly initialised stack: the saved-playlists root alone.
pub open spec fn spec_initial_stack() -> StackView {
    StackView { pages: seq![spec_initial_page()], page_ids: seq![0u64], next_page_id: 1 }
}

/// Whether a page reported an escape (rather than a new selection or
/// nothing at all).
pub open spec fn spec_is_escape(r: Option<NavOutputView>) -> bool {
    match r {
        Some(ev) => !(ev is CursorIsNowAt),
        None => false,
    }
}

/// The stack state after one directional command: the command goes to the
/// top page; if it escapes, the mirrored command is re-sent to the same
/// page once.
pub open spec fn spec_nav_next(s: StackView, cmd: NavCommand) -> StackView {
    let top = s.pages.len() - 1;
    let p1 = spec_page_dispatch_next(s.pages[top], cmd);
    if spec_is_escape(spec_page_dispatch_result(s.pages[top], cmd)) {
        let p2 = spec_page_dispatch_next(p1, cmd.spec_mirror());
        StackView { pages: s.pages.update(top, p2), ..s }
    } else {
        StackView { pages: s.pages.update(top, p1), ..s }
    }
}

/// What one directional command reports: the new selection, or nothing
/// when the command was absorbed. An escape of the mirrored command (an
/// entirely empty page) is absorbed.
pub open spec fn spec_nav_result(s: StackView, cmd: NavCommand) -> Option<NavOutputView> {
    let top = s.pages.len() - 1;
    let r1 = spec_page_dispatch_result(s.pages[top], cmd);
    if spec_is_escape(r1) {
        let p1 = spec_page_dispatch_next(s.pages[top], cmd);
        let r2 = spec_page_dispatch_result(p1, cmd.spec_mirror());
        if spec_is_escape(r2) {
            None
        } else {
            r2
        }
    } else {
        r1
    }
}

/// The stack state after descending: when the top page's selection can be
/// descended into, a fresh browsing page for it is pushed under a new
/// identifier; otherwise nothing changes.
pub open spec fn spec_descend_next(s: StackView) -> StackView {
    match spec_page_descend(s.top()) {
        Some(src) => StackView {
            pages: s.pages.push(PageView::MultiView(spec_new_group(seq![src]))),
            page_ids: s.page_ids.push(s.next_page_id as u64),
            next_page_id: s.next_page_id + 1,
        },
        None => s,
    }
}

/// The stack state after going back: the top page is popped, unless it is
/// the only page — the root is never popped.
pub open spec fn spec_back_next(s: StackView) -> StackView {
    if s.pages.len() > 1 {
        StackView { pages: s.pages.drop_last(), page_ids: s.page_ids.drop_last(), ..s }
    } else {
        s
    }
}

/// The stack state after resetting to the saved-playlists root: one fresh
/// page under a new identifier.
pub open spec fn spec_reset_playlists_next(s: StackView) -> StackView {
    StackView {
        pages: seq![spec_initial_page()],
        page_ids: seq![s.next_page_id as u64],
        next_page_id: s.next_page_id + 1,
    }
}

/// The stack state after resetting to the search page: one fresh, empty
/// search page under a new identifier.
pub open spec fn spec_reset_search_next(s: StackView) -> StackView {
    StackView {
        pages: seq![PageView::SearchPage(spec_new_group(Seq::<ItemView>::empty()))],
        page_ids: seq![s.next_page_id as u64],
        next_page_id: s.next_page_id + 1,
    }
}

/// The stack state after a delivery addressed to page `page` under
/// identifier `page_id`: handed to that page when the identifier still
/// matches, dropped otherwise (the page was popped or replaced since the
/// load started).
pub open spec fn spec_stack_accept(
    s: StackView,
    page: int,
    page_id: u64,
    section: int,
    generation: int,
    item: ItemView,
) -> StackView {
    if 0 <= page < s.pages.len() && s.page_ids[page] == page_id {
        StackView {
            pages: s.pages.update(
                page,
                s.pages[page].with_group(
                    spec_group_accept(s.pages[page].group(), section, generation, item),
                ),
            ),
            ..s
        }
    } else {
        s
    }
}

/// The stack state after a failure notice addressed to page `page` under
/// identifier `page_id`, for that page's section `section`: recorded when
/// the identifier still matches, dropped otherwise.
pub open spec fn spec_stack_mark_failed(
    s: StackView,
    page: int,
    page_id: u64,
    section: int,
    generation: int,
) -> StackView {
    if 0 <= page < s.pages.len() && s.page_ids[page] == page_id {
        StackView {
            pages: s.pages.update(
                page,
                s.pages[page].with_group(
                    spec_group_mark_failed(s.pages[page].group(), section, generation),
                ),
            ),
            ..s
        }
    } else {
        s
    }
}

/// The stack state after executing a search: the top page's sections are
/// rebuilt for the query when the top page is the search page; otherwise
/// nothing changes.
pub open spec fn spec_stack_search_next(s: StackView, query: Seq<char>) -> StackView {
    if s.top() is SearchPage {
        StackView {
            pages: s.pages.update(
                s.pages.len() - 1,
                s.top().with_group(spec_execute_search(s.top().group(), query)),
            ),
            ..s
        }
    } else {
        s
    }
}

/// The view stack itself.
#[derive(Debug)]
pub struct Model {
    views: Vec<ChildContent>,
    page_ids: Vec<u64>,
    next_page_id: u64,
}

impl View for Model {
    type V = StackView;

    closed spec fn view(&self) -> StackView {
        StackView {
            pages: self.views.deep_view(),
            page_ids: self.page_ids@,
            next_page_id: self.next_page_id as int,
        }
    }
}

/// A mutable borrow of one page.
fn page_mut(views: &mut Vec<ChildContent>, i: usize) -> (r: &mut ChildContent)
    requires
        i < old(views)@.len(),
    ensures
        *r == old(views)@[i as int],
        final(views)@ == old(views)@.update(i as int, *final(r)),
{
    &mut views[i]
}

/// One position of a vector of pages holds the mathematical value of the
/// page stored there.
proof fn lemma_pages_deep_index(a: Vec<ChildContent>, i: int)
    requires
        0 <= i < a@.len(),
    ensures
        a.deep_view()[i] == a@[i]@,
{
}

/// Updating one element of a vector of pages updates the same position of
/// its mathematical value.
proof fn lemma_pages_deep_update(a: Vec<ChildContent>, b: Vec<ChildContent>, i: int)
    requires
        0 <= i < a@.len(),
        b@ == a@.update(i, b@[i]),
    ensures
        b.deep_view() == a.deep_view().update(i, b@[i]@),
{
    assert forall|k: int| 0 <= k < b.deep_view().len() implies b.deep_view()[k] == a.deep_view()
        .update(i, b@[i]@)[k] by {
        if k != i {
            assert(b@[k] == a@[k]);
        }
    }
    assert(b.deep_view() =~= a.deep_view().update(i, b@[i]@));
}

/// Appending a page appends its mathematical value.
proof fn lemma_pages_deep_push(a: Vec<ChildContent>, b: Vec<ChildContent>, x: ChildContent)
    requires
        b@ == a@.push(x),
    ensures
        b.deep_view() == a.deep_view().push(x@),
{
    assert forall|k: int| 0 <= k < b.deep_view().len() implies b.deep_view()[k] == a.deep_view()
        .push(x@)[k] by {
        if k < a@.len() {
            assert(b@[k] == a@[k]);
        } else {
            assert(b@[k] == x);
        }
    }
    assert(b.deep_view() =~= a.deep_view().push(x@));
}

/// Dropping the last page drops the last mathematical value.
proof fn lemma_pages_deep_drop_last(a: Vec<ChildContent>, b: Vec<ChildContent>)
    requires
        a@.len() > 0,
        b@ == a@.drop_last(),
    ensures
        b.deep_view() == a.deep_view().drop_last(),
{
    assert forall|k: int| 0 <= k < b.deep_view().len() implies b.deep_view()[k] == a.deep_view()
        .drop_last()[k] by {
        assert(b@[k] == a@[k]);
    }
    assert(b.deep_view() =~= a.deep_view().drop_last());
}

/// Whether a reported event is an escape.
fn is_escape(r: &Option<NavOutput>) -> (b: bool)
    ensures
        b == spec_is_escape(r.deep_view()),
{
    match r {
        Some(NavOutput::CursorIsNowAt(_)) => false,
        Some(_) => true,
        None => false,
    }
}

impl Model {
    /// A stack holding the saved-playlists root alone.
    pub fn new() -> (r: Model)
        ensures
            r@ == spec_initial_stack(),
            r@.wf(),
    {
        let mut sources: Vec<SpotItem> = Vec::new();
        sources.push(SpotItem::UserPlaylists);
        proof {
            assert(sources.deep_view() =~= seq![ItemView::UserPlaylists]);
        }
        let root = ChildContent::MultiView(multiview::Model::new(sources));
        let mut views: Vec<ChildContent> = Vec::new();
        views.push(root);
        let mut page_ids: Vec<u64> = Vec::new();
        page_ids.push(0);
        let r = Model { views, page_ids, next_page_id: 1 };
        proof {
            assert(r@.pages =~= spec_initial_stack().pages);
            assert(r@.page_ids =~= spec_initial_stack().page_ids);
        }
        r
    }

    /// Number of pages on the stack; always at least 1.
    pub fn depth(&self) -> (n: usize)
        ensures
            n == self@.pages.len(),
    {
        self.views.len()
    }

    /// The identifier of the page at position `i`.
    pub fn page_id_at(&self, i: usize) -> (id: u64)
        requires
            self@.wf(),
            i < self@.pages.len(),
        ensures
            id == self@.page_ids[i as int],
    {
        self.page_ids[i]
    }

    /// The identifier of the top page.
    pub fn top_page_id(&self) -> (id: u64)
        requires
            self@.wf(),
        ensures
            id == self@.page_ids.last(),
    {
        self.page_ids[self.page_ids.len() - 1]
    }

    /// Read access to the page at position `i`.
    pub fn page_at(&self, i: usize) -> (r: &ChildContent)
        requires
            i < self@.pages.len(),
        ensures
            r@ == self@.pages[i as int],
    {
        proof {
            lemma_pages_deep_index(self.views, i as int);
        }
        &self.views[i]
    }

    /// Read access to the top page.
    pub fn top_page(&self) -> (r: &ChildContent)
        requires
            self@.wf(),
        ensures
            r@ == self@.top(),
    {
        proof {
            lemma_pages_deep_index(self.views, self@.pages.len() - 1);
        }
        &self.views[self.views.len() - 1]
    }

    /// Routes one navigation command to the top page, bouncing an escape
    /// back into the page once; see [`spec_nav_next`].
    pub fn nav(&mut self, cmd: NavCommand) -> (r: Option<NavOutput>)
        requires
            old(self)@.wf(),
        ensures
            final(self)@ == spec_nav_next(old(self)@, cmd),
            r.deep_view() == spec_nav_result(old(self)@, cmd),
            final(self)@.wf(),
    {
        let last = self.views.len() - 1;
        proof {
            lemma_pages_deep_index(self.views, last as int);
        }
        let p = page_mut(&mut self.views, last);
        let r1 = p.dispatch(cmd);
        proof {
            lemma_pages_deep_update(old(self).views, self.views, last as int);
        }
        if is_escape(&r1) {
            let ghost mid = self.views;
            proof {
                lemma_pages_deep_index(self.views, last as int);
            }
            let p2 = page_mut(&mut self.views, last);
            let r2 = p2.dispatch(cmd.mirror());
            proof {
                lemma_pages_deep_update(mid, self.views, last as int);
            }
            if is_escape(&r2) {
                None
            } else {
                r2
            }
        } else {
            r1
        }
    }

    /// Descends into the top page's current selection: pushes a fresh
    /// browsing page loading that collection and returns its source
    /// descriptor. With nothing selected, or a single track selected,
    /// nothing changes and nothing is returned.
    pub fn nav_descend(&mut self) -> (r: Option<SpotItem>)
        requires
            old(self)@.wf(),
            old(self)@.pages.len() < usize::MAX,
            old(self)@.next_page_id < u64::MAX,
        ensures
            final(self)@ == spec_descend_next(old(self)@),
            r.deep_view() == spec_page_descend(old(self)@.top()),
            final(self)@.wf(),
    {
        proof {
            lemma_pages_deep_index(self.views, self@.pages.len() - 1);
        }
        let d = self.views[self.views.len() - 1].descend();
        match d {
            Some(src) => {
                let ghost pre = self.views;
                let mut sources: Vec<SpotItem> = Vec::new();
                let returned = src.clone();
                sources.push(src);
                proof {
                    assert(sources.deep_view() =~= seq![sources@[0]@]);
                }
                let group = multiview::Model::new(sources);
                self.views.push(ChildContent::MultiView(group));
                self.page_ids.push(self.next_page_id);
                self.next_page_id = self.next_page_id + 1;
                proof {
                    lemma_pages_deep_push(
                        pre,
                        self.views,
                        self.views@[self.views@.len() - 1],
                    );
                }
                Some(returned)
            },
            None => None,
        }
    }

    /// Pops the top page, unless it is the root: the stack never goes
    /// below one page. Reports whether a page was popped.
    pub fn nav_back(&mut self) -> (popped: bool)
        requires
            old(self)@.wf(),
        ensures
            final(self)@ == spec_back_next(old(self)@),
            popped == (old(self)@.pages.len() > 1),
            final(self)@.pages.len() >= 1,
            final(self)@.wf(),
    {
        if self.views.len() == 1 {
            false
        } else {
            let ghost pre = self.views;
            let _ = self.views.pop();
            let _ = self.page_ids.pop();
            proof {
                assert(self.views@ =~= pre@.drop_last());
                lemma_pages_deep_drop_last(pre, self.views);
                assert(self.page_ids@ =~= old(self).page_ids@.drop_last());
            }
            true
        }
    }

    /// Resets the stack to a single fresh saved-playlists root.
    pub fn nav_reset_playlists(&mut self)
        requires
            old(self)@.wf(),
            old(self)@.next_page_id < u64::MAX,
        ensures
            final(self)@ == spec_reset_playlists_next(old(self)@),
            final(self)@.wf(),
    {
        let mut sources: Vec<SpotItem> = Vec::new();
        sources.push(SpotItem::UserPlaylists);
        proof {
            assert(sources.deep_view() =~= seq![ItemView::UserPlaylists]);
        }
        let root = ChildContent::MultiView(multiview::Model::new(sources));
        let mut views: Vec<ChildContent> = Vec::new();
        views.push(root);
        let mut page_ids: Vec<u64> = Vec::new();
        page_ids.push(self.next_page_id);
        self.views = views;
        self.page_ids = page_ids;
        self.next_page_id = self.next_page_id + 1;
        proof {
            assert(self@.pages =~= spec_reset_playlists_next(old(self)@).pages);
            assert(self@.page_ids =~= spec_reset_playlists_next(old(self)@).page_ids);
        }
    }

    /// Resets the stack to a single fresh, empty search page.
    pub fn nav_reset_search(&mut self)
        requires
            old(self)@.wf(),
            old(self)@.next_page_id < u64::MAX,
        ensures
            final(self)@ == spec_reset_search_next(old(self)@),
            final(self)@.wf(),
    {
        let root = ChildContent::SearchPage(searchpage::Model::new());
        let mut views: Vec<ChildContent> = Vec::new();
        views.push(root);
        let mut page_ids: Vec<u64> = Vec::new();
        page_ids.push(self.next_page_id);
        self.views = views;
        self.page_ids = page_ids;
        self.next_page_id = self.next_page_id + 1;
        proof {
            assert(self@.pages =~= spec_reset_search_next(old(self)@).pages);
            assert(self@.page_ids =~= spec_reset_search_next(old(self)@).page_ids);
        }
    }

    /// Executes a search on the top page when it is the search page;
    /// otherwise nothing changes. Reports whether a search ran.
    pub fn execute_search(&mut self, query: String) -> (ran: bool)
        requires
            old(self)@.wf(),
            old(self)@.top() is SearchPage ==> old(self)@.top().group().next_generation + 2
                <= u64::MAX,
        ensures
            final(self)@ == spec_stack_search_next(old(self)@, query@),
            ran == (old(self)@.top() is SearchPage),
            final(self)@.wf(),
    {
        let last = self.views.len() - 1;
        proof {
            lemma_pages_deep_index(self.views, last as int);
        }
        let p = page_mut(&mut self.views, last);
        match p {
            ChildContent::SearchPage(sp) => {
                sp.execute_search(query);
                proof {
                    lemma_pages_deep_update(old(self).views, self.views, last as int);
                }
                true
            },
            _ => {
                proof {
                    lemma_pages_deep_update(old(self).views, self.views, last as int);
                    assert(self@.pages =~= old(self)@.pages);
                }
                false
            },
        }
    }

    /// Accepts one streamed item addressed to the page at position `page`
    /// under identifier `page_id`, for that page's section `section`. The
    /// delivery is dropped when the identifier no longer matches — its
    /// page was popped or replaced — or when the section's list drops it
    /// as stale. Reports whether the item was kept.
    pub fn accept_item(
        &mut self,
        page: usize,
        page_id: u64,
        section: usize,
        generation: u64,
        item: SpotItem,
    ) -> (accepted: bool)
        requires
            old(self)@.wf(),
        ensures
            final(self)@ == spec_stack_accept(
                old(self)@,
                page as int,
                page_id,
                section as int,
                generation as int,
                item@,
            ),
            accepted == (page < old(self)@.pages.len() && old(self)@.page_ids[page as int]
                == page_id && section < old(self)@.pages[page as int].group().sections.len()
                && generation as int == old(self)@.pages[page as int].group().sections[
                section as int
            ].generation && old(self)@.pages[page as int].group().sections[section as int].items.len()
                < usize::MAX),
            final(self)@.wf(),
    {
        if page >= self.views.len() {
            return false;
        }
        if self.page_ids[page] != page_id {
            return false;
        }
        proof {
            lemma_pages_deep_index(self.views, page as int);
        }
        let p = page_mut(&mut self.views, page);
        let accepted = p.accept_item(section, generation, item);
        proof {
            lemma_pages_deep_update(old(self).views, self.views, page as int);
        }
        accepted
    }

    /// Records a load failure addressed to the page at position `page`
    /// under identifier `page_id`, for that page's section `section`.
    /// Dropped when the identifier no longer matches or the tag is stale.
    /// Reports whether the failure was recorded.
    pub fn mark_load_failed(
        &mut self,
        page: usize,
        page_id: u64,
        section: usize,
        generation: u64,
    ) -> (noted: bool)
        requires
            old(self)@.wf(),
        ensures
            final(self)@ == spec_stack_mark_failed(
                old(self)@,
                page as int,
                page_id,
                section as int,
                generation as int,
            ),
            noted == (page < old(self)@.pages.len() && old(self)@.page_ids[page as int] == page_id
                && section < old(self)@.pages[page as int].group().sections.len()
                && generation as int == old(self)@.pages[page as int].group().sections[
                section as int
            ].generation),
            final(self)@.wf(),
    {
        if page >= self.views.len() {
            return false;
        }
        if self.page_ids[page] != page_id {
            return false;
        }
        proof {
            lemma_pages_deep_index(self.views, page as int);
        }
        let p = page_mut(&mut self.views, page);
        let noted = p.mark_load_failed(section, generation);
        proof {
            lemma_pages_deep_update(old(self).views, self.views, page as int);
        }
        noted
    }

    /// The playable context of the top page's selection.
    pub fn play_context(&self) -> (r: Option<PlayContext>)
        requires
            self@.wf(),
        ensures
            r.deep_view() == spec_group_play_context(self@.top().group()),
    {
        self.top_page().play_context()
    }

    /// The top page's currently selected item.
    pub fn current_item(&self) -> (r: Option<SpotItem>)
        requires
            self@.wf(),
        ensures
            r.deep_view() == spec_group_current_item(self@.top().group()),
    {
        self.top_page().current_item()
    }
}

/// Going back never empties the stack: there is always a root page.
pub proof fn lemma_back_keeps_root(s: StackView)
    requires
        s.wf(),
    ensures
        spec_back_next(s).pages.len() >= 1,
        spec_back_next(s).pages.len() == if s.pages.len() > 1 {
            s.pages.len() - 1
        } else {
            s.pages.len() as int
        },
{
}

/// Descending and immediately going back restores the stack's pages
/// exactly — same pages, same contents, same cursors, same identifiers.
/// (Pages keep their state while covered; nothing is reloaded on the way
/// back. Only the never-reused identifier counter has moved on.)
pub proof fn lemma_descend_back_roundtrip(s: StackView)
    requires
        s.wf(),
        spec_page_descend(s.top()) is Some,
    ensures
        spec_back_next(spec_descend_next(s)).pages == s.pages,
        spec_back_next(spec_descend_next(s)).page_ids == s.page_ids,
{
    let pushed = spec_descend_next(s);
    assert(pushed.pages.len() == s.pages.len() + 1);
    assert(spec_back_next(pushed).pages =~= s.pages);
    assert(spec_back_next(pushed).page_ids =~= s.page_ids);
}

} // verus!
