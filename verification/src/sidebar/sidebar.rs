//! The sidebar itself, and what it reads of the application and asks of it.

use super::destination::{
    PlaylistSummary, PlaylistSummaryView, SidebarDestination, SidebarDestinationView,
};
use super::item::{SidebarItem, SidebarItemKind, SidebarItemKindView, SidebarItemView};
use super::text::translate;
use crate::action::{
    AppAction, AppActionView, AppEvent, BrowserAction, BrowserActionView, BrowserEvent,
    PlaylistDescription, PlaylistDescriptionView,
};
use crate::app::{Component, EventListener};
use crate::dispatch::Dispatcher;
use crate::state::{AlbumModel, AlbumModelView, AppModel, AppModelView};
use vstd::prelude::*;

verus! {

/// How many entries of the sidebar are always there, above the playlists.
pub const NUM_FIXED_ENTRIES: usize = 6;

/// How many playlists the sidebar shows at most.
pub const NUM_PLAYLISTS: usize = 20;

/// The playlist entry for `album`, where `unnamed` is the title that stands in
/// for an empty one.
pub open spec fn playlist_destination(
    album: AlbumModelView,
    unnamed: Seq<char>,
) -> SidebarDestinationView {
    SidebarDestinationView::Playlist(
        PlaylistSummaryView {
            id: album.uri,
            title: if album.title.len() > 0 {
                album.title
            } else {
                unnamed
            },
        },
    )
}

/// Whether `destination` is the playlist entry for `album`: a playlist with
/// the identifier of the album, under the title of the album unless that is
/// empty.
pub open spec fn is_playlist_entry(
    destination: SidebarDestinationView,
    album: AlbumModelView,
) -> bool {
    exists|unnamed: Seq<char>| destination == #[trigger] playlist_destination(album, unnamed)
}

/// How many of `saved` playlists the sidebar shows.
pub open spec fn shown_playlists(saved: int) -> int {
    if saved < NUM_PLAYLISTS {
        saved
    } else {
        NUM_PLAYLISTS as int
    }
}

/// The action by which the sidebar takes one to `destination`: a playlist is
/// viewed, every other destination is a page of the home screen.
pub open spec fn navigation_action(destination: SidebarDestinationView) -> AppActionView {
    match destination {
        SidebarDestinationView::Playlist(summary) => AppActionView::ViewPlaylist(summary.id),
        _ => AppActionView::BrowserAction(BrowserActionView::SetHomeVisiblePage(destination.id())),
    }
}

/// The actions that follow the creation of `playlist`: it is put in front of
/// the saved playlists, and the user is told of it.
pub open spec fn creation_actions(playlist: PlaylistDescriptionView) -> Seq<AppActionView> {
    seq![
        AppActionView::BrowserAction(BrowserActionView::PrependPlaylistsContent(seq![playlist])),
        AppActionView::ShowPlaylistCreatedNotification(playlist.id),
    ]
}

/// The call to the remote service that creates a playlist.
#[derive(Debug, PartialEq, Eq)]
pub struct NewPlaylist {
    /// The name of the playlist to create.
    pub name: String,
    /// The user to create it for.
    pub user_id: String,
}

/// What the sidebar reads of the application and asks of it. It borrows the
/// model for reading, for as long as it lives.
pub struct SidebarModel<'a> {
    app_model: &'a AppModel,
}

impl<'a> View for SidebarModel<'a> {
    type V = AppModelView;

    /// The model that is read.
    closed spec fn view(&self) -> AppModelView {
        self.app_model@
    }
}

impl<'a> SidebarModel<'a> {
    /// A sidebar model that reads `app_model`.
    pub fn new(app_model: &'a AppModel) -> (model: Self)
        ensures
            model@ == app_model@,
    {
        Self { app_model }
    }

    /// The playlist entries of the sidebar: one for each saved playlist of the
    /// home screen, in their order, up to `NUM_PLAYLISTS` of them.
    pub fn get_playlists(&self) -> (destinations: Vec<SidebarDestination>)
        requires
            self@.state.home is Some,
        ensures
            destinations.len() == shown_playlists(self@.state.home->0.len() as int),
            forall|i: int|
                0 <= i < destinations.len() ==> is_playlist_entry(
                    #[trigger] destinations@[i]@,
                    self@.state.home->0[i],
                ),
    {
        let home = self.app_model.get_state().browser.home_state().unwrap();
        let shown: usize = if home.playlists.len() < NUM_PLAYLISTS {
            home.playlists.len()
        } else {
            NUM_PLAYLISTS
        };
        let mut destinations: Vec<SidebarDestination> = Vec::new();
        let mut i: usize = 0;
        while i < shown
            invariant
                i <= shown <= home.playlists.len(),
                home@ == self@.state.home->0,
                destinations.len() == i,
                forall|k: int|
                    0 <= k < i ==> is_playlist_entry(#[trigger] destinations@[k]@, home@[k]),
            decreases shown - i,
        {
            destinations.push(Self::map_to_destination(&home.playlists[i]));
            i += 1;
        }
        destinations
    }

    /// The playlist entry for `album`, in which a name in the user's language
    /// stands in for an empty title.
    pub fn map_to_destination(album: &AlbumModel) -> (destination: SidebarDestination)
        ensures
            is_playlist_entry(destination@, album@),
    {
        proof {
            reveal_strlit("Unnamed playlist");
        }
        let unnamed = translate("Unnamed playlist");
        Self::playlist_entry(album, unnamed)
    }

    /// The playlist entry for `album`, in which `unnamed` stands in for an
    /// empty title.
    pub fn playlist_entry(album: &AlbumModel, unnamed: String) -> (destination: SidebarDestination)
        ensures
            destination@ == playlist_destination(album@, unnamed@),
    {
        let title = album.album_title();
        let title = if title.as_str().is_empty() {
            unnamed
        } else {
            title
        };
        let id = album.uri();
        SidebarDestination::Playlist(PlaylistSummary { id, title })
    }

    /// The call to the remote service that creates a playlist named `name`
    /// for the user who is logged in.
    pub fn create_new_playlist(&self, name: String) -> (call: NewPlaylist)
        requires
            self@.state.user is Some,
        ensures
            call.name@ == name@,
            Some(call.user_id@) == self@.state.user,
    {
        let user_id = self.app_model.get_state().logged_user.user.clone().unwrap();
        NewPlaylist { name, user_id }
    }

    /// What the outcome of creating a playlist comes to: where the playlist
    /// was created, the actions that put it in front of the saved playlists
    /// and tell the user of it; where it was not, the failure as it is.
    pub fn playlist_created<E>(created: Result<PlaylistDescription, E>) -> (outcome: Result<
        Vec<AppAction>,
        E,
    >)
        ensures
            match created {
                Ok(playlist) => outcome is Ok && outcome->Ok_0.deep_view() == creation_actions(
                    playlist@,
                ),
                Err(failure) => outcome == Err::<Vec<AppAction>, E>(failure),
            },
    {
        match created {
            Ok(playlist) => {
                let mut added: Vec<PlaylistDescription> = Vec::new();
                added.push(playlist.clone());
                let mut actions: Vec<AppAction> = Vec::new();
                actions.push(AppAction::from(BrowserAction::PrependPlaylistsContent(added)));
                actions.push(AppAction::ShowPlaylistCreatedNotification(playlist.id));
                assert(added.deep_view() =~= seq![playlist@]);
                assert(actions.deep_view() =~= creation_actions(playlist@));
                Ok(actions)
            },
            Err(failure) => Err(failure),
        }
    }

    /// Submits the action that takes one to `destination`.
    pub fn navigate(&self, destination: SidebarDestination, dispatcher: &mut Dispatcher)
        ensures
            final(dispatcher)@ == old(dispatcher)@.push(navigation_action(destination@)),
    {
        let action = match destination {
            SidebarDestination::Playlist(PlaylistSummary { id, .. }) => AppAction::ViewPlaylist(id),
            _ => AppAction::from(BrowserAction::SetHomeVisiblePage(destination.id().to_owned())),
        };
        dispatcher.dispatch(action);
    }
}

/// How the row of an item is drawn.
#[derive(Clone, Copy, Debug, PartialEq, Eq, Structural)]
pub enum SidebarRowKind {
    /// A row that takes one to the destination of its item.
    Navigatable,
    /// A heading, which cannot be activated.
    SectionLabel,
    /// The row to which the dialog for a new playlist is attached.
    CreatePlaylist,
}

/// What activating a row asks for, beyond what was dispatched.
#[derive(Clone, Copy, Debug, PartialEq, Eq, Structural)]
pub enum RowActivation {
    /// The action that takes one to the destination of the row was submitted.
    Navigated,
    /// The dialog for a new playlist is to be shown.
    ShowCreatePlaylist,
}

/// Whether `items` start with the fixed entries of the sidebar, in their order.
pub open spec fn has_fixed_entries(items: Seq<SidebarItemView>) -> bool {
    &&& items.len() >= NUM_FIXED_ENTRIES
    &&& items[0].kind == SidebarItemKindView::Destination(SidebarDestinationView::Library)
    &&& items[1].kind == SidebarItemKindView::Destination(SidebarDestinationView::SavedTracks)
    &&& items[2].kind == SidebarItemKindView::Destination(SidebarDestinationView::NowPlaying)
    &&& items[3].kind == SidebarItemKindView::PlaylistsSection
    &&& items[4].kind == SidebarItemKindView::CreatePlaylist
    &&& items[5].kind == SidebarItemKindView::Destination(SidebarDestinationView::SavedPlaylists)
}

/// Whether `item` lists the playlist `album`: it takes one to the playlist
/// entry for the album, under the title of that entry.
pub open spec fn lists_playlist(item: SidebarItemView, album: AlbumModelView) -> bool {
    &&& item.kind matches SidebarItemKindView::Destination(destination)
    &&& is_playlist_entry(destination, album)
    &&& destination matches SidebarDestinationView::Playlist(summary)
    &&& item.title == summary.title
}

/// Whether `after` is `before` with the playlists below the fixed entries
/// replaced by `saved`: the fixed entries stay as they are, and below them
/// stands one item for each of the first `NUM_PLAYLISTS` of `saved`, in order.
pub open spec fn shows_playlists(
    before: Seq<SidebarItemView>,
    saved: Seq<AlbumModelView>,
    after: Seq<SidebarItemView>,
) -> bool {
    &&& after.len() == NUM_FIXED_ENTRIES + shown_playlists(saved.len() as int)
    &&& after.take(NUM_FIXED_ENTRIES as int) == before.take(NUM_FIXED_ENTRIES as int)
    &&& forall|i: int|
        0 <= i < shown_playlists(saved.len() as int) ==> lists_playlist(
            #[trigger] after[NUM_FIXED_ENTRIES + i],
            saved[i],
        )
}

/// The sidebar: the items that it lists, top to bottom. The fixed entries
/// are always there; the playlists follow them.
pub struct Sidebar {
    fixed: Vec<SidebarItem>,
    playlists: Vec<SidebarItem>,
}

impl View for Sidebar {
    type V = Seq<SidebarItemView>;

    /// The items, top to bottom.
    closed spec fn view(&self) -> Seq<SidebarItemView> {
        self.fixed.deep_view() + self.playlists.deep_view()
    }
}

impl Sidebar {
    #[verifier::type_invariant]
    spec fn keeps_fixed_entries(self) -> bool {
        &&& self.fixed.len() == NUM_FIXED_ENTRIES
        &&& has_fixed_entries(self.fixed.deep_view())
        &&& self.playlists.len() <= NUM_PLAYLISTS
    }

    /// A sidebar with the fixed entries and no playlists.
    pub fn new() -> (sidebar: Self)
        ensures
            sidebar@.len() == NUM_FIXED_ENTRIES,
            has_fixed_entries(sidebar@),
    {
        let mut fixed: Vec<SidebarItem> = Vec::new();
        fixed.push(SidebarItem::for_destination(SidebarDestination::Library));
        fixed.push(SidebarItem::for_destination(SidebarDestination::SavedTracks));
        fixed.push(SidebarItem::for_destination(SidebarDestination::NowPlaying));
        fixed.push(SidebarItem::playlists_section());
        fixed.push(SidebarItem::create_playlist_item());
        fixed.push(SidebarItem::for_destination(SidebarDestination::SavedPlaylists));
        Sidebar { fixed, playlists: Vec::new() }
    }

    /// The number of items.
    pub fn len(&self) -> (len: usize)
        ensures
            len == self@.len(),
            NUM_FIXED_ENTRIES <= len <= NUM_FIXED_ENTRIES + NUM_PLAYLISTS,
            has_fixed_entries(self@),
    {
        proof {
            use_type_invariant(self);
        }
        self.fixed.len() + self.playlists.len()
    }

    /// The item at `index`, counted from the top.
    pub fn item(&self, index: usize) -> (item: &SidebarItem)
        requires
            index < self@.len(),
        ensures
            item@ == self@[index as int],
    {
        proof {
            use_type_invariant(self);
        }
        if index < NUM_FIXED_ENTRIES {
            &self.fixed[index]
        } else {
            &self.playlists[index - NUM_FIXED_ENTRIES]
        }
    }

    /// How the row of `item` is drawn.
    pub fn row_kind(item: &SidebarItem) -> (kind: SidebarRowKind)
        ensures
            kind == match item@.kind {
                SidebarItemKindView::Destination(_) => SidebarRowKind::Navigatable,
                SidebarItemKindView::PlaylistsSection => SidebarRowKind::SectionLabel,
                SidebarItemKindView::CreatePlaylist => SidebarRowKind::CreatePlaylist,
            },
    {
        if item.navigatable() {
            SidebarRowKind::Navigatable
        } else {
            match &item.kind {
                SidebarItemKind::PlaylistsSection => SidebarRowKind::SectionLabel,
                _ => SidebarRowKind::CreatePlaylist,
            }
        }
    }

    /// What follows when the row of `item` is activated: where the item has a
    /// destination, the action that takes one there is submitted; the entry
    /// that offers to create a playlist asks for its dialog instead, and
    /// submits nothing. The heading has no row that can be activated.
    pub fn row_activated(
        item: &SidebarItem,
        model: &SidebarModel,
        dispatcher: &mut Dispatcher,
    ) -> (activation: RowActivation)
        requires
            item@.kind != SidebarItemKindView::PlaylistsSection,
        ensures
            match item@.kind {
                SidebarItemKindView::Destination(destination) => {
                    &&& activation == RowActivation::Navigated
                    &&& final(dispatcher)@ == old(dispatcher)@.push(navigation_action(destination))
                },
                _ => {
                    &&& activation == RowActivation::ShowCreatePlaylist
                    &&& final(dispatcher)@ == old(dispatcher)@
                },
            },
    {
        match item.destination() {
            Some(destination) => {
                model.navigate(destination, dispatcher);
                RowActivation::Navigated
            },
            None => RowActivation::ShowCreatePlaylist,
        }
    }

    /// Replaces the playlists below the fixed entries by the saved playlists
    /// of the home screen that `model` reads.
    pub fn update_playlists_in_sidebar(&mut self, model: &SidebarModel)
        requires
            model@.state.home is Some,
        ensures
            shows_playlists(old(self)@, model@.state.home->0, final(self)@),
            has_fixed_entries(final(self)@),
    {
        proof {
            use_type_invariant(&*self);
        }
        let ghost saved = model@.state.home->0;
        let destinations = model.get_playlists();
        let mut playlists: Vec<SidebarItem> = Vec::new();
        let mut i: usize = 0;
        while i < destinations.len()
            invariant
                i <= destinations.len(),
                playlists.len() == i,
                forall|k: int|
                    0 <= k < destinations.len() ==> is_playlist_entry(
                        #[trigger] destinations@[k]@,
                        saved[k],
                    ),
                forall|k: int| 0 <= k < i ==> lists_playlist(#[trigger] playlists@[k]@, saved[k]),
            decreases destinations.len() - i,
        {
            playlists.push(SidebarItem::for_destination(destinations[i].clone()));
            i += 1;
        }
        self.playlists = playlists;
        proof {
            assert(self@.take(NUM_FIXED_ENTRIES as int) =~= self.fixed.deep_view());
            assert(old(self)@.take(NUM_FIXED_ENTRIES as int) =~= self.fixed.deep_view());
            assert forall|k: int| 0 <= k < shown_playlists(saved.len() as int) implies lists_playlist(
                #[trigger] self@[NUM_FIXED_ENTRIES + k],
                saved[k],
            ) by {
                assert(self@[NUM_FIXED_ENTRIES + k] == self.playlists@[k]@);
            }
        }
    }
}

impl Component for Sidebar {
    /// Handling an action leaves the sidebar as it is.
    open spec fn handled(self, message: AppActionView, model: AppModelView, after: Self) -> bool {
        after@ == self@
    }

    fn handle(&mut self, _message: &AppAction, _model: &AppModel) {
    }
}

impl EventListener for Sidebar {
    /// Hearing that the saved playlists were updated makes the sidebar show
    /// the saved playlists of the home screen, where the home screen is
    /// available. Otherwise the sidebar stays as it is.
    open spec fn observed(self, event: AppEvent, model: AppModelView, after: Self) -> bool {
        match (event, model.state.home) {
            (AppEvent::BrowserEvent(BrowserEvent::SavedPlaylistsUpdated), Some(saved)) => {
                shows_playlists(self@, saved, after@)
            },
            _ => after@ == self@,
        }
    }

    fn on_event(&mut self, event: &AppEvent, model: &AppModel) {
        match event {
            AppEvent::BrowserEvent(BrowserEvent::SavedPlaylistsUpdated) => {
                if model.get_state().browser.home_state().is_some() {
                    self.update_playlists_in_sidebar(&SidebarModel::new(model));
                }
            },
        }
    }
}

} // verus!
