//! The vocabulary of the dispatch core: what can be asked of the application
//! state (actions) and what can be reported about it (events).
//!
//! Every type here is plain data. Each comes with a mathematical view in which
//! strings are sequences of characters and vectors are sequences of views; the
//! contracts of the rest of the crate speak of those views only.

use vstd::prelude::*;

verus! {

/// A track, as the playlist in view lists it.
#[derive(Debug, PartialEq, Eq)]
pub struct SongDescription {
    pub title: String,
    pub artist: String,
    pub uri: String,
    pub duration: u32,
}

/// View of a [`SongDescription`].
pub struct SongDescriptionView {
    pub title: Seq<char>,
    pub artist: Seq<char>,
    pub uri: Seq<char>,
    pub duration: u32,
}

impl View for SongDescription {
    type V = SongDescriptionView;

    open spec fn view(&self) -> SongDescriptionView {
        SongDescriptionView {
            title: self.title@,
            artist: self.artist@,
            uri: self.uri@,
            duration: self.duration,
        }
    }
}

impl DeepView for SongDescription {
    type V = SongDescriptionView;

    open spec fn deep_view(&self) -> SongDescriptionView {
        self@
    }
}

impl Clone for SongDescription {
    fn clone(&self) -> (copy: Self)
        ensures
            copy@ == self@,
    {
        SongDescription {
            title: self.title.clone(),
            artist: self.artist.clone(),
            uri: self.uri.clone(),
            duration: self.duration,
        }
    }
}

/// What a successful login yields: who logged in, and the session token that
/// later calls to the remote service present.
#[derive(Debug, PartialEq, Eq)]
pub struct Credentials {
    pub username: String,
    pub password: String,
    pub token: String,
}

/// View of [`Credentials`].
pub struct CredentialsView {
    pub username: Seq<char>,
    pub password: Seq<char>,
    pub token: Seq<char>,
}

impl View for Credentials {
    type V = CredentialsView;

    open spec fn view(&self) -> CredentialsView {
        CredentialsView { username: self.username@, password: self.password@, token: self.token@ }
    }
}

impl DeepView for Credentials {
    type V = CredentialsView;

    open spec fn deep_view(&self) -> CredentialsView {
        self@
    }
}

impl Clone for Credentials {
    fn clone(&self) -> (copy: Self)
        ensures
            copy@ == self@,
    {
        Credentials {
            username: self.username.clone(),
            password: self.password.clone(),
            token: self.token.clone(),
        }
    }
}

/// A playlist as the remote service describes it.
#[derive(Debug, PartialEq, Eq)]
pub struct PlaylistDescription {
    pub id: String,
    pub title: String,
}

/// View of a [`PlaylistDescription`].
pub struct PlaylistDescriptionView {
    pub id: Seq<char>,
    pub title: Seq<char>,
}

impl View for PlaylistDescription {
    type V = PlaylistDescriptionView;

    open spec fn view(&self) -> PlaylistDescriptionView {
        PlaylistDescriptionView { id: self.id@, title: self.title@ }
    }
}

impl DeepView for PlaylistDescription {
    type V = PlaylistDescriptionView;

    open spec fn deep_view(&self) -> PlaylistDescriptionView {
        self@
    }
}

impl Clone for PlaylistDescription {
    fn clone(&self) -> (copy: Self)
        ensures
            copy@ == self@,
    {
        PlaylistDescription { id: self.id.clone(), title: self.title.clone() }
    }
}

/// Copies a list of tracks.
fn clone_songs(songs: &Vec<SongDescription>) -> (copy: Vec<SongDescription>)
    ensures
        copy.deep_view() == songs.deep_view(),
{
    let mut copy: Vec<SongDescription> = Vec::new();
    let mut i: usize = 0;
    while i < songs.len()
        invariant
            i <= songs.len(),
            copy.len() == i,
            forall|k: int| 0 <= k < i ==> copy@[k]@ == songs@[k]@,
        decreases songs.len() - i,
    {
        copy.push(songs[i].clone());
        i += 1;
    }
    assert(copy.deep_view() =~= songs.deep_view());
    copy
}

/// Copies a list of playlists.
fn clone_playlists(playlists: &Vec<PlaylistDescription>) -> (copy: Vec<PlaylistDescription>)
    ensures
        copy.deep_view() == playlists.deep_view(),
{
    let mut copy: Vec<PlaylistDescription> = Vec::new();
    let mut i: usize = 0;
    while i < playlists.len()
        invariant
            i <= playlists.len(),
            copy.len() == i,
            forall|k: int| 0 <= k < i ==> copy@[k]@ == playlists@[k]@,
        decreases playlists.len() - i,
    {
        copy.push(playlists[i].clone());
        i += 1;
    }
    assert(copy.deep_view() =~= playlists.deep_view());
    copy
}

/// Requests that concern the browsing part of the application.
#[derive(Debug, PartialEq, Eq)]
pub enum BrowserAction {
    /// Show the page of the home screen that has this identifier.
    SetHomeVisiblePage(String),
    /// Put these playlists in front of the saved playlists.
    PrependPlaylistsContent(Vec<PlaylistDescription>),
}

/// View of a [`BrowserAction`].
pub enum BrowserActionView {
    SetHomeVisiblePage(Seq<char>),
    PrependPlaylistsContent(Seq<PlaylistDescriptionView>),
}

impl View for BrowserAction {
    type V = BrowserActionView;

    open spec fn view(&self) -> BrowserActionView {
        match self {
            BrowserAction::SetHomeVisiblePage(page) => BrowserActionView::SetHomeVisiblePage(page@),
            BrowserAction::PrependPlaylistsContent(playlists) => {
                BrowserActionView::PrependPlaylistsContent(playlists.deep_view())
            },
        }
    }
}

impl DeepView for BrowserAction {
    type V = BrowserActionView;

    open spec fn deep_view(&self) -> BrowserActionView {
        self@
    }
}

impl Clone for BrowserAction {
    fn clone(&self) -> (copy: Self)
        ensures
            copy@ == self@,
    {
        match self {
            BrowserAction::SetHomeVisiblePage(page) => BrowserAction::SetHomeVisiblePage(
                page.clone(),
            ),
            BrowserAction::PrependPlaylistsContent(playlists) => {
                BrowserAction::PrependPlaylistsContent(clone_playlists(playlists))
            },
        }
    }
}

/// A request to change the application state. The set is closed: these are all
/// the requests there are.
#[derive(Debug, PartialEq, Eq)]
pub enum AppAction {
    Play,
    Pause,
    Load(String),
    LoadPlaylist(Vec<SongDescription>),
    StartLogin,
    TryLogin(String, String),
    LoginSuccess(Credentials),
    Error,
    ViewPlaylist(String),
    ShowPlaylistCreatedNotification(String),
    BrowserAction(BrowserAction),
}

/// View of an [`AppAction`].
pub enum AppActionView {
    Play,
    Pause,
    Load(Seq<char>),
    LoadPlaylist(Seq<SongDescriptionView>),
    StartLogin,
    TryLogin(Seq<char>, Seq<char>),
    LoginSuccess(CredentialsView),
    Error,
    ViewPlaylist(Seq<char>),
    ShowPlaylistCreatedNotification(Seq<char>),
    BrowserAction(BrowserActionView),
}

impl View for AppAction {
    type V = AppActionView;

    open spec fn view(&self) -> AppActionView {
        match self {
            AppAction::Play => AppActionView::Play,
            AppAction::Pause => AppActionView::Pause,
            AppAction::Load(uri) => AppActionView::Load(uri@),
            AppAction::LoadPlaylist(tracks) => AppActionView::LoadPlaylist(tracks.deep_view()),
            AppAction::StartLogin => AppActionView::StartLogin,
            AppAction::TryLogin(username, password) => AppActionView::TryLogin(
                username@,
                password@,
            ),
            AppAction::LoginSuccess(credentials) => AppActionView::LoginSuccess(credentials@),
            AppAction::Error => AppActionView::Error,
            AppAction::ViewPlaylist(id) => AppActionView::ViewPlaylist(id@),
            AppAction::ShowPlaylistCreatedNotification(id) => {
                AppActionView::ShowPlaylistCreatedNotification(id@)
            },
            AppAction::BrowserAction(action) => AppActionView::BrowserAction(action@),
        }
    }
}

impl DeepView for AppAction {
    type V = AppActionView;

    open spec fn deep_view(&self) -> AppActionView {
        self@
    }
}

impl Clone for AppAction {
    fn clone(&self) -> (copy: Self)
        ensures
            copy@ == self@,
    {
        match self {
            AppAction::Play => AppAction::Play,
            AppAction::Pause => AppAction::Pause,
            AppAction::Load(uri) => AppAction::Load(uri.clone()),
            AppAction::LoadPlaylist(tracks) => AppAction::LoadPlaylist(clone_songs(tracks)),
            AppAction::StartLogin => AppAction::StartLogin,
            AppAction::TryLogin(username, password) => AppAction::TryLogin(
                username.clone(),
                password.clone(),
            ),
            AppAction::LoginSuccess(credentials) => AppAction::LoginSuccess(credentials.clone()),
            AppAction::Error => AppAction::Error,
            AppAction::ViewPlaylist(id) => AppAction::ViewPlaylist(id.clone()),
            AppAction::ShowPlaylistCreatedNotification(id) => {
                AppAction::ShowPlaylistCreatedNotification(id.clone())
            },
            AppAction::BrowserAction(action) => AppAction::BrowserAction(action.clone()),
        }
    }
}

impl From<BrowserAction> for AppAction {
    fn from(action: BrowserAction) -> (wrapped: Self) {
        AppAction::BrowserAction(action)
    }
}

impl vstd::std_specs::convert::FromSpecImpl<BrowserAction> for AppAction {
    open spec fn obeys_from_spec() -> bool {
        true
    }

    open spec fn from_spec(action: BrowserAction) -> Self {
        AppAction::BrowserAction(action)
    }
}

/// What changed in the browsing part of the state.
#[derive(Clone, Copy, Debug, PartialEq, Eq, Structural)]
pub enum BrowserEvent {
    /// The saved playlists are no longer what they were.
    SavedPlaylistsUpdated,
}

/// A notice that some aspect of the state has changed. An event is derived from
/// an action that was applied; it never changes the state itself.
#[derive(Clone, Copy, Debug, PartialEq, Eq, Structural)]
pub enum AppEvent {
    BrowserEvent(BrowserEvent),
}

} // verus!
