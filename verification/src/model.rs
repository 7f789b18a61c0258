//! The data model: one displayable item of the music catalogue, carried as
//! plain values. An item is either a single track or a conceptual
//! collection (album, playlist, the user's saved playlists, or one kind of
//! search result); collections can be descended into, tracks cannot.
//!
//! Fetching these values from the backend happens outside this crate; the
//! engine only reads them.

use vstd::prelude::*;

verus! {

/// The kind of catalogue entry a search asks for.
#[derive(Clone, Copy, Debug, PartialEq, Eq, Structural)]
pub enum SearchType {
    Artist,
    Track,
    Album,
    Show,
    Episode,
    Playlist,
}

/// One playable track.
#[derive(Debug, PartialEq)]
pub struct TrackInfo {
    /// Full identifier of the form "spotify:track:...", if the track has one.
    pub uri: Option<String>,
    /// Track title.
    pub name: String,
    /// Names of the performing artists, in credit order.
    pub artists: Vec<String>,
    /// Web URL of the track, if known.
    pub href: Option<String>,
    /// Cover image URLs, largest first.
    pub images: Vec<String>,
}

/// One album.
#[derive(Debug, PartialEq)]
pub struct AlbumInfo {
    /// Full identifier of the form "spotify:album:...", if the album has one.
    pub uri: Option<String>,
    /// Album title.
    pub name: String,
    /// Names of the album artists, in credit order.
    pub artists: Vec<String>,
    /// Web URL of the album, if known.
    pub href: Option<String>,
    /// Cover image URLs, largest first.
    pub images: Vec<String>,
}

/// One playlist.
#[derive(Debug, PartialEq)]
pub struct PlaylistInfo {
    /// Full identifier of the form "spotify:playlist:...". Always present.
    pub uri: String,
    /// Playlist title.
    pub name: String,
    /// Display name of the owning user, if it has one.
    pub owner: Option<String>,
    /// Web URL of the playlist.
    pub href: String,
    /// Cover image URLs, largest first.
    pub images: Vec<String>,
}

/// Either a single catalogue item (track) or a conceptual collection of
/// items (album, playlist, the saved-playlists root, a search).
#[derive(Debug, PartialEq)]
pub enum SpotItem {
    Track(TrackInfo),
    Album(AlbumInfo),
    Playlist(PlaylistInfo),
    UserPlaylists,
    SearchResults { st: SearchType, query: String },
}

/// Identifier of a collection that the player can start from directly.
#[derive(Debug, PartialEq)]
pub enum ContextId {
    Album(String),
    Playlist(String),
}

/// Everything the playback sink needs to start playing: a collection
/// identifier, and optionally the URI of the item to start at.
#[derive(Debug, PartialEq)]
pub struct PlayContext {
    pub context: ContextId,
    pub offset_uri: Option<String>,
}

/// Mathematical value of a [`TrackInfo`] or [`AlbumInfo`]: every string as
/// a sequence of characters.
#[verifier::ext_equal]
pub struct CollectionView {
    pub uri: Option<Seq<char>>,
    pub name: Seq<char>,
    pub artists: Seq<Seq<char>>,
    pub href: Option<Seq<char>>,
    pub images: Seq<Seq<char>>,
}

/// Mathematical value of a [`PlaylistInfo`].
#[verifier::ext_equal]
pub struct PlaylistView {
    pub uri: Seq<char>,
    pub name: Seq<char>,
    pub owner: Option<Seq<char>>,
    pub href: Seq<char>,
    pub images: Seq<Seq<char>>,
}

/// Mathematical value of a [`SpotItem`].
#[verifier::ext_equal]
pub enum ItemView {
    Track(CollectionView),
    Album(CollectionView),
    Playlist(PlaylistView),
    UserPlaylists,
    SearchResults { st: SearchType, query: Seq<char> },
}

/// Mathematical value of a [`ContextId`].
#[verifier::ext_equal]
pub enum ContextIdView {
    Album(Seq<char>),
    Playlist(Seq<char>),
}

/// Mathematical value of a [`PlayContext`].
#[verifier::ext_equal]
pub struct PlayContextView {
    pub context: ContextIdView,
    pub offset_uri: Option<Seq<char>>,
}

impl View for TrackInfo {
    type V = CollectionView;

    open spec fn view(&self) -> CollectionView {
        CollectionView {
            uri: self.uri.deep_view(),
            name: self.name@,
            artists: self.artists.deep_view(),
            href: self.href.deep_view(),
            images: self.images.deep_view(),
        }
    }
}

impl View for AlbumInfo {
    type V = CollectionView;

    open spec fn view(&self) -> CollectionView {
        CollectionView {
            uri: self.uri.deep_view(),
            name: self.name@,
            artists: self.artists.deep_view(),
            href: self.href.deep_view(),
            images: self.images.deep_view(),
        }
    }
}

impl View for PlaylistInfo {
    type V = PlaylistView;

    open spec fn view(&self) -> PlaylistView {
        PlaylistView {
            uri: self.uri@,
            name: self.name@,
            owner: self.owner.deep_view(),
            href: self.href@,
            images: self.images.deep_view(),
        }
    }
}

impl View for SpotItem {
    type V = ItemView;

    open spec fn view(&self) -> ItemView {
        match self {
            SpotItem::Track(t) => ItemView::Track(t@),
            SpotItem::Album(a) => ItemView::Album(a@),
            SpotItem::Playlist(p) => ItemView::Playlist(p@),
            SpotItem::UserPlaylists => ItemView::UserPlaylists,
            SpotItem::SearchResults { st, query } => ItemView::SearchResults {
                st: *st,
                query: query@,
            },
        }
    }
}

impl View for ContextId {
    type V = ContextIdView;

    open spec fn view(&self) -> ContextIdView {
        match self {
            ContextId::Album(u) => ContextIdView::Album(u@),
            ContextId::Playlist(u) => ContextIdView::Playlist(u@),
        }
    }
}

impl DeepView for ContextId {
    type V = ContextIdView;

    open spec fn deep_view(&self) -> ContextIdView {
        self.view()
    }
}

impl DeepView for SpotItem {
    type V = ItemView;

    open spec fn deep_view(&self) -> ItemView {
        self.view()
    }
}

impl DeepView for PlayContext {
    type V = PlayContextView;

    open spec fn deep_view(&self) -> PlayContextView {
        self.view()
    }
}

impl View for PlayContext {
    type V = PlayContextView;

    open spec fn view(&self) -> PlayContextView {
        PlayContextView { context: self.context@, offset_uri: self.offset_uri.deep_view() }
    }
}

/// Copies a vector of strings; the copy has the same mathematical value.
fn clone_strings(v: &Vec<String>) -> (r: Vec<String>)
    ensures
        r.deep_view() == v.deep_view(),
{
    let mut r: Vec<String> = Vec::new();
    let mut i: usize = 0;
    while i < v.len()
        invariant
            i <= v.len(),
            r@.len() == i,
            forall|k: int| 0 <= k < i ==> r@[k].deep_view() == v@[k].deep_view(),
        decreases v.len() - i,
    {
        r.push(v[i].clone());
        i = i + 1;
    }
    proof {
        assert forall|k: int| 0 <= k < r@.len() implies r.deep_view()[k] == v.deep_view()[k] by {
            assert(r@[k].deep_view() == v@[k].deep_view());
        }
        assert(r.deep_view() =~= v.deep_view());
    }
    r
}

/// Copies an optional string; the copy has the same mathematical value.
fn clone_opt_string(o: &Option<String>) -> (r: Option<String>)
    ensures
        r.deep_view() == o.deep_view(),
{
    match o {
        Some(s) => Some(s.clone()),
        None => None,
    }
}

impl Clone for TrackInfo {
    fn clone(&self) -> (res: Self)
        ensures
            res@ == self@,
    {
        TrackInfo {
            uri: clone_opt_string(&self.uri),
            name: self.name.clone(),
            artists: clone_strings(&self.artists),
            href: clone_opt_string(&self.href),
            images: clone_strings(&self.images),
        }
    }
}

impl Clone for AlbumInfo {
    fn clone(&self) -> (res: Self)
        ensures
            res@ == self@,
    {
        AlbumInfo {
            uri: clone_opt_string(&self.uri),
            name: self.name.clone(),
            artists: clone_strings(&self.artists),
            href: clone_opt_string(&self.href),
            images: clone_strings(&self.images),
        }
    }
}

impl Clone for PlaylistInfo {
    fn clone(&self) -> (res: Self)
        ensures
            res@ == self@,
    {
        PlaylistInfo {
            uri: self.uri.clone(),
            name: self.name.clone(),
            owner: clone_opt_string(&self.owner),
            href: self.href.clone(),
            images: clone_strings(&self.images),
        }
    }
}

impl Clone for SpotItem {
    fn clone(&self) -> (res: Self)
        ensures
            res@ == self@,
    {
        match self {
            SpotItem::Track(t) => SpotItem::Track(t.clone()),
            SpotItem::Album(a) => SpotItem::Album(a.clone()),
            SpotItem::Playlist(p) => SpotItem::Playlist(p.clone()),
            SpotItem::UserPlaylists => SpotItem::UserPlaylists,
            SpotItem::SearchResults { st, query } => SpotItem::SearchResults {
                st: *st,
                query: query.clone(),
            },
        }
    }
}

impl Clone for ContextId {
    fn clone(&self) -> (res: Self)
        ensures
            res@ == self@,
    {
        match self {
            ContextId::Album(u) => ContextId::Album(u.clone()),
            ContextId::Playlist(u) => ContextId::Playlist(u.clone()),
        }
    }
}

impl Clone for PlayContext {
    fn clone(&self) -> (res: Self)
        ensures
            res@ == self@,
    {
        PlayContext {
            context: self.context.clone(),
            offset_uri: clone_opt_string(&self.offset_uri),
        }
    }
}

impl ItemView {
    /// Collections can be descended into; a single track cannot.
    pub open spec fn is_descendable(self) -> bool {
        !(self is Track)
    }

    /// The item's full identifier, if it has one.
    pub open spec fn spec_uri(self) -> Option<Seq<char>> {
        match self {
            ItemView::Track(t) => t.uri,
            ItemView::Album(a) => a.uri,
            ItemView::Playlist(p) => Some(p.uri),
            ItemView::UserPlaylists => None,
            ItemView::SearchResults { .. } => None,
        }
    }

    /// The item's web URL, if it has one.
    pub open spec fn spec_href(self) -> Option<Seq<char>> {
        match self {
            ItemView::Track(t) => t.href,
            ItemView::Album(a) => a.href,
            ItemView::Playlist(p) => Some(p.href),
            ItemView::UserPlaylists => None,
            ItemView::SearchResults { .. } => None,
        }
    }

    /// The first cover image URL, if there is any.
    pub open spec fn spec_img_url(self) -> Option<Seq<char>> {
        match self {
            ItemView::Track(t) => if t.images.len() > 0 {
                Some(t.images[0])
            } else {
                None
            },
            ItemView::Album(a) => if a.images.len() > 0 {
                Some(a.images[0])
            } else {
                None
            },
            ItemView::Playlist(p) => if p.images.len() > 0 {
                Some(p.images[0])
            } else {
                None
            },
            ItemView::UserPlaylists => None,
            ItemView::SearchResults { .. } => None,
        }
    }

    /// The playable-context identifier of the collection itself: playlists
    /// always have one, albums have one when they carry an identifier,
    /// nothing else can be played directly as a collection.
    pub open spec fn spec_context_id(self) -> Option<ContextIdView> {
        match self {
            ItemView::Track(_) => None,
            ItemView::Album(a) => match a.uri {
                Some(u) => Some(ContextIdView::Album(u)),
                None => None,
            },
            ItemView::Playlist(p) => Some(ContextIdView::Playlist(p.uri)),
            ItemView::UserPlaylists => None,
            ItemView::SearchResults { .. } => None,
        }
    }
}

/// What the external item source is asked to stream for one list: the
/// user's saved playlists, the tracks of a playlist or album, or one kind
/// of search result for a query.
#[derive(Debug, PartialEq)]
pub enum LoadRequest {
    UserPlaylists,
    PlaylistTracks(String),
    AlbumTracks(String),
    Search(SearchType, String),
}

/// Mathematical value of a [`LoadRequest`].
#[verifier::ext_equal]
pub enum LoadRequestView {
    UserPlaylists,
    PlaylistTracks(Seq<char>),
    AlbumTracks(Seq<char>),
    Search(SearchType, Seq<char>),
}

impl View for LoadRequest {
    type V = LoadRequestView;

    open spec fn view(&self) -> LoadRequestView {
        match self {
            LoadRequest::UserPlaylists => LoadRequestView::UserPlaylists,
            LoadRequest::PlaylistTracks(u) => LoadRequestView::PlaylistTracks(u@),
            LoadRequest::AlbumTracks(u) => LoadRequestView::AlbumTracks(u@),
            LoadRequest::Search(st, q) => LoadRequestView::Search(*st, q@),
        }
    }
}

impl DeepView for LoadRequest {
    type V = LoadRequestView;

    open spec fn deep_view(&self) -> LoadRequestView {
        self.view()
    }
}

/// What to stream for a list showing `it`: its tracks for a playlist or an
/// album (an album without an identifier cannot be fetched — nothing is
/// loaded), the saved playlists for the root, the results for a search.
pub open spec fn spec_load_request(it: ItemView) -> Option<LoadRequestView> {
    match it {
        ItemView::UserPlaylists => Some(LoadRequestView::UserPlaylists),
        ItemView::Playlist(p) => Some(LoadRequestView::PlaylistTracks(p.uri)),
        ItemView::Album(a) => match a.uri {
            Some(u) => Some(LoadRequestView::AlbumTracks(u)),
            None => None,
        },
        ItemView::SearchResults { st, query } => Some(LoadRequestView::Search(st, query)),
        ItemView::Track(_) => None,
    }
}

/// Exec counterpart of [`spec_load_request`]: the request the external
/// source should stream for a list sourced from `source`. A single track
/// is never shown as a list, so no request is defined for it.
pub fn load_request(source: &SpotItem) -> (r: Option<LoadRequest>)
    requires
        source@.is_descendable(),
    ensures
        r.deep_view() == spec_load_request(source@),
{
    match source {
        SpotItem::UserPlaylists => Some(LoadRequest::UserPlaylists),
        SpotItem::Playlist(p) => Some(LoadRequest::PlaylistTracks(p.uri.clone())),
        SpotItem::Album(a) => match &a.uri {
            Some(u) => Some(LoadRequest::AlbumTracks(u.clone())),
            None => None,
        },
        SpotItem::SearchResults { st, query } => Some(LoadRequest::Search(*st, query.clone())),
        SpotItem::Track(_) => None,
    }
}

/// The plural label shown for one kind of search result.
pub open spec fn search_label(st: SearchType) -> Seq<char> {
    match st {
        SearchType::Artist => "artists"@,
        SearchType::Track => "songs"@,
        SearchType::Album => "albums"@,
        SearchType::Show => "shows"@,
        SearchType::Episode => "episodes"@,
        SearchType::Playlist => "playlists"@,
    }
}

/// Exec counterpart of [`search_label`].
pub fn format_search_type(st: &SearchType) -> (r: &'static str)
    ensures
        r@ == search_label(*st),
{
    match st {
        SearchType::Artist => "artists",
        SearchType::Track => "songs",
        SearchType::Album => "albums",
        SearchType::Show => "shows",
        SearchType::Episode => "episodes",
        SearchType::Playlist => "playlists",
    }
}

/// The heading of a search-result collection: its kind, then the query.
pub open spec fn spec_search_title(st: SearchType, query: Seq<char>) -> Seq<char> {
    search_label(st) + " matching "@ + query
}

/// Exec counterpart of [`spec_search_title`].
pub fn search_title(st: &SearchType, query: &str) -> (r: String)
    ensures
        r@ == spec_search_title(*st, query@),
{
    let mut r = format_search_type(st).to_owned();
    r.append(" matching ");
    r.append(query);
    r
}

/// Names of a list of artists joined for display: separated by a comma and
/// a space, empty when there are none.
pub open spec fn spec_joined(names: Seq<Seq<char>>) -> Seq<char>
    decreases names.len(),
{
    if names.len() <= 0 {
        Seq::empty()
    } else if names.len() == 1 {
        names[0]
    } else {
        names[0] + ", "@ + spec_joined(names.skip(1))
    }
}

/// Appending one more name to a joined list appends a separator and the
/// name (or is just the name, when the list was empty).
pub proof fn lemma_joined_push(s: Seq<Seq<char>>, x: Seq<char>)
    ensures
        spec_joined(s.push(x)) == if s.len() == 0 {
            x
        } else {
            spec_joined(s) + ", "@ + x
        },
    decreases s.len(),
{
    if s.len() == 0 {
        assert(s.push(x)[0] == x);
    } else {
        lemma_joined_push(s.skip(1), x);
        assert(s.push(x).skip(1) =~= s.skip(1).push(x));
        assert(s.push(x)[0] == s[0]);
    }
}

/// Joins names with ", " for display.
pub fn join_names(v: &Vec<String>) -> (r: String)
    ensures
        r@ == spec_joined(v.deep_view()),
{
    let mut r = String::new();
    let mut i: usize = 0;
    while i < v.len()
        invariant
            i <= v.len(),
            r@ == spec_joined(v.deep_view().take(i as int)),
        decreases v.len() - i,
    {
        proof {
            lemma_joined_push(v.deep_view().take(i as int), v@[i as int].deep_view());
            assert(v.deep_view().take(i as int).push(v@[i as int].deep_view()) =~= v.deep_view()
                .take(i as int + 1));
        }
        if i == 0 {
            r.append(v[i].as_str());
            assert(r@ =~= spec_joined(v.deep_view().take(i as int + 1)));
        } else {
            r.append(", ");
            r.append(v[i].as_str());
        }
        i = i + 1;
    }
    proof {
        assert(v.deep_view().take(v@.len() as int) =~= v.deep_view());
    }
    r
}

impl ItemView {
    /// The primary display name of the item.
    pub open spec fn spec_name(self) -> Seq<char> {
        match self {
            ItemView::Track(t) => t.name,
            ItemView::Album(a) => a.name,
            ItemView::Playlist(p) => p.name,
            ItemView::UserPlaylists => "Saved playlists"@,
            ItemView::SearchResults { st, query } => spec_search_title(st, query),
        }
    }

    /// The artist line of the item: the credited artists joined for
    /// display, the owner for a playlist, a fixed label for the
    /// saved-playlists root.
    pub open spec fn spec_artist(self) -> Seq<char> {
        match self {
            ItemView::Track(t) => spec_joined(t.artists),
            ItemView::Album(a) => spec_joined(a.artists),
            ItemView::Playlist(p) => match p.owner {
                Some(o) => o,
                None => Seq::empty(),
            },
            ItemView::UserPlaylists => "You"@,
            ItemView::SearchResults { .. } => Seq::empty(),
        }
    }

    /// The secondary display line: what kind of collection it is and who
    /// made it, or just the artist line for anything else.
    pub open spec fn spec_second_line(self) -> Seq<char> {
        match self {
            ItemView::Album(_) => "Album by "@ + self.spec_artist(),
            ItemView::Playlist(_) => "Playlist by "@ + self.spec_artist(),
            _ => self.spec_artist(),
        }
    }
}

impl SpotItem {
    /// The primary display name of the item.
    pub fn name(&self) -> (r: String)
        ensures
            r@ == self@.spec_name(),
    {
        match self {
            SpotItem::Track(t) => t.name.clone(),
            SpotItem::Album(a) => a.name.clone(),
            SpotItem::Playlist(p) => p.name.clone(),
            SpotItem::UserPlaylists => "Saved playlists".to_owned(),
            SpotItem::SearchResults { st, query } => search_title(st, query.as_str()),
        }
    }

    /// The artist line of the item (the owner, for a playlist).
    pub fn artist(&self) -> (r: String)
        ensures
            r@ == self@.spec_artist(),
    {
        match self {
            SpotItem::Track(t) => join_names(&t.artists),
            SpotItem::Album(a) => join_names(&a.artists),
            SpotItem::Playlist(p) => match &p.owner {
                Some(o) => o.clone(),
                None => String::new(),
            },
            SpotItem::UserPlaylists => "You".to_owned(),
            SpotItem::SearchResults { .. } => String::new(),
        }
    }

    /// The secondary display line shown under the name.
    pub fn second_line(&self) -> (r: String)
        ensures
            r@ == self@.spec_second_line(),
    {
        match self {
            SpotItem::Album(_) => {
                let a = self.artist();
                let mut r = "Album by ".to_owned();
                r.append(a.as_str());
                r
            },
            SpotItem::Playlist(_) => {
                let a = self.artist();
                let mut r = "Playlist by ".to_owned();
                r.append(a.as_str());
                r
            },
            _ => self.artist(),
        }
    }

    /// The item's full identifier, for example "spotify:album:...".
    pub fn uri(&self) -> (r: Option<String>)
        ensures
            r.deep_view() == self@.spec_uri(),
    {
        match self {
            SpotItem::Track(t) => clone_opt_string(&t.uri),
            SpotItem::Album(a) => clone_opt_string(&a.uri),
            SpotItem::Playlist(p) => Some(p.uri.clone()),
            SpotItem::UserPlaylists => None,
            SpotItem::SearchResults { .. } => None,
        }
    }

    /// A web URL for the item or collection.
    pub fn href(&self) -> (r: Option<&str>)
        ensures
            r is Some <==> self@.spec_href() is Some,
            r matches Some(h) ==> Some(h@) == self@.spec_href(),
    {
        match self {
            SpotItem::Track(t) => match &t.href {
                Some(h) => Some(h.as_str()),
                None => None,
            },
            SpotItem::Album(a) => match &a.href {
                Some(h) => Some(h.as_str()),
                None => None,
            },
            SpotItem::Playlist(p) => Some(p.href.as_str()),
            SpotItem::UserPlaylists => None,
            SpotItem::SearchResults { .. } => None,
        }
    }

    /// A URL to load the item's image from.
    pub fn img_url(&self) -> (r: Option<&str>)
        ensures
            r is Some <==> self@.spec_img_url() is Some,
            r matches Some(u) ==> Some(u@) == self@.spec_img_url(),
    {
        let images: &Vec<String> = match self {
            SpotItem::Track(t) => &t.images,
            SpotItem::Album(a) => &a.images,
            SpotItem::Playlist(p) => &p.images,
            SpotItem::UserPlaylists => { return None; },
            SpotItem::SearchResults { .. } => { return None; },
        };
        if images.len() > 0 {
            Some(images[0].as_str())
        } else {
            None
        }
    }

    /// The playable-context identifier of the collection, if the collection
    /// can be played directly (playlists and albums).
    pub fn context_id(&self) -> (r: Option<ContextId>)
        ensures
            r.deep_view() == self@.spec_context_id(),
    {
        match self {
            SpotItem::Track(_) => None,
            SpotItem::Album(a) => match &a.uri {
                Some(u) => Some(ContextId::Album(u.clone())),
                None => None,
            },
            SpotItem::Playlist(p) => Some(ContextId::Playlist(p.uri.clone())),
            SpotItem::UserPlaylists => None,
            SpotItem::SearchResults { .. } => None,
        }
    }
}

} // verus!
