//! The application state and the rule by which an action changes it.
//!
//! The state is a tree of small sub-states that refer to tracks and playlists
//! by their identifiers only. The rule itself is [`apply`], a total function on
//! views: every action has a result, and for most actions the result is the
//! state as it was.

use crate::action::{
    AppActionView, AppEvent, BrowserActionView, BrowserEvent, CredentialsView, PlaylistDescription,
    PlaylistDescriptionView, SongDescription, SongDescriptionView,
};
use vstd::prelude::*;

verus! {

/// An entry of the saved playlists on the home screen.
#[derive(Debug, PartialEq, Eq)]
pub struct AlbumModel {
    pub uri: String,
    pub title: String,
}

/// View of an [`AlbumModel`].
pub struct AlbumModelView {
    pub uri: Seq<char>,
    pub title: Seq<char>,
}

impl View for AlbumModel {
    type V = AlbumModelView;

    open spec fn view(&self) -> AlbumModelView {
        AlbumModelView { uri: self.uri@, title: self.title@ }
    }
}

impl DeepView for AlbumModel {
    type V = AlbumModelView;

    open spec fn deep_view(&self) -> AlbumModelView {
        self@
    }
}

impl AlbumModel {
    /// The identifier under which the remote service knows the playlist.
    pub fn uri(&self) -> (uri: String)
        ensures
            uri@ == self@.uri,
    {
        self.uri.clone()
    }

    /// The title of the playlist, which may be empty.
    pub fn album_title(&self) -> (title: String)
        ensures
            title@ == self@.title,
    {
        self.title.clone()
    }
}

/// The home screen entry that stands for a playlist of the remote service.
pub open spec fn album_of(playlist: PlaylistDescriptionView) -> AlbumModelView {
    AlbumModelView { uri: playlist.id, title: playlist.title }
}

/// The saved playlists after `added` were put in front of `saved`.
pub open spec fn prepended(
    saved: Seq<AlbumModelView>,
    added: Seq<PlaylistDescriptionView>,
) -> Seq<AlbumModelView> {
    added.map_values(|playlist: PlaylistDescriptionView| album_of(playlist)) + saved
}

/// The home screen.
#[derive(Debug, PartialEq, Eq)]
pub struct HomeState {
    pub playlists: Vec<AlbumModel>,
}

impl View for HomeState {
    type V = Seq<AlbumModelView>;

    open spec fn view(&self) -> Seq<AlbumModelView> {
        self.playlists.deep_view()
    }
}

impl DeepView for HomeState {
    type V = Seq<AlbumModelView>;

    open spec fn deep_view(&self) -> Seq<AlbumModelView> {
        self@
    }
}

impl HomeState {
    /// A home screen without playlists.
    pub fn new() -> (home: Self)
        ensures
            home@ == Seq::<AlbumModelView>::empty(),
    {
        let home = HomeState { playlists: Vec::new() };
        assert(home@ =~= Seq::<AlbumModelView>::empty());
        home
    }

    /// Puts `added` in front of the saved playlists, keeping the order of both.
    pub fn prepend_playlists(&mut self, added: &Vec<PlaylistDescription>)
        ensures
            final(self)@ == prepended(old(self)@, added.deep_view()),
    {
        let mut playlists: Vec<AlbumModel> = Vec::new();
        let mut i: usize = 0;
        while i < added.len()
            invariant
                i <= added.len(),
                playlists.len() == i,
                forall|k: int| 0 <= k < i ==> playlists@[k]@ == album_of(#[trigger] added@[k]@),
            decreases added.len() - i,
        {
            let playlist = &added[i];
            playlists.push(AlbumModel { uri: playlist.id.clone(), title: playlist.title.clone() });
            i += 1;
        }
        playlists.append(&mut self.playlists);
        self.playlists = playlists;
        assert(self@ =~= prepended(old(self)@, added.deep_view()));
    }
}

/// The browsing part of the state. The home screen is the one screen that the
/// rest of the application reads; it may be unavailable.
#[derive(Debug, PartialEq, Eq)]
pub struct BrowserState {
    pub home: Option<HomeState>,
}

impl View for BrowserState {
    type V = Option<Seq<AlbumModelView>>;

    open spec fn view(&self) -> Option<Seq<AlbumModelView>> {
        self.home.deep_view()
    }
}

impl BrowserState {
    /// The home screen, where there is one.
    pub fn home_state(&self) -> (home: Option<&HomeState>)
        ensures
            home.deep_view() == self@,
    {
        self.home.as_ref()
    }
}

/// Who is logged in.
#[derive(Debug, PartialEq, Eq)]
pub struct LoginState {
    pub user: Option<String>,
}

impl View for LoginState {
    type V = Option<Seq<char>>;

    open spec fn view(&self) -> Option<Seq<char>> {
        self.user.deep_view()
    }
}

/// The one canonical state of the application.
#[derive(Debug, PartialEq, Eq)]
pub struct AppState {
    pub is_playing: bool,
    pub current_song_uri: Option<String>,
    pub playlist: Vec<SongDescription>,
    pub browser: BrowserState,
    pub logged_user: LoginState,
}

/// View of an [`AppState`].
pub struct AppStateView {
    pub is_playing: bool,
    pub current_song_uri: Option<Seq<char>>,
    pub playlist: Seq<SongDescriptionView>,
    /// The saved playlists of the home screen, where the home screen is available.
    pub home: Option<Seq<AlbumModelView>>,
    pub user: Option<Seq<char>>,
}

impl View for AppState {
    type V = AppStateView;

    open spec fn view(&self) -> AppStateView {
        AppStateView {
            is_playing: self.is_playing,
            current_song_uri: self.current_song_uri.deep_view(),
            playlist: self.playlist.deep_view(),
            home: self.browser@,
            user: self.logged_user@,
        }
    }
}

impl AppState {
    /// The state at startup: nothing plays, nobody is logged in, the home screen
    /// has no playlists yet, and `songs` is the playlist in view.
    pub fn new(songs: Vec<SongDescription>) -> (state: Self)
        ensures
            state@ == (AppStateView {
                is_playing: false,
                current_song_uri: None,
                playlist: songs.deep_view(),
                home: Some(Seq::empty()),
                user: None,
            }),
    {
        AppState {
            is_playing: false,
            current_song_uri: None,
            playlist: songs,
            browser: BrowserState { home: Some(HomeState::new()) },
            logged_user: LoginState { user: None },
        }
    }
}

/// What calls to the remote service present: the token of the session, once
/// there is one.
#[derive(Debug, PartialEq, Eq)]
pub struct ApiSession {
    pub token: Option<String>,
}

impl View for ApiSession {
    type V = Option<Seq<char>>;

    open spec fn view(&self) -> Option<Seq<char>> {
        self.token.deep_view()
    }
}

/// The state together with the session of the remote service. Components read
/// it; only the application that owns it writes it.
#[derive(Debug, PartialEq, Eq)]
pub struct AppModel {
    pub state: AppState,
    pub api: ApiSession,
}

/// View of an [`AppModel`].
pub struct AppModelView {
    pub state: AppStateView,
    pub token: Option<Seq<char>>,
}

impl View for AppModel {
    type V = AppModelView;

    open spec fn view(&self) -> AppModelView {
        AppModelView { state: self.state@, token: self.api@ }
    }
}

impl AppModel {
    /// A model around `state`, with no session yet.
    pub fn new(state: AppState) -> (model: Self)
        ensures
            model@ == (AppModelView { state: state@, token: None }),
    {
        AppModel { state, api: ApiSession { token: None } }
    }

    /// The state, for reading.
    pub fn get_state(&self) -> (state: &AppState)
        ensures
            state@ == self@.state,
    {
        &self.state
    }
}

/// Whether an action has a rule of its own. Every other action leaves the
/// state as it is.
pub open spec fn has_mutation_rule(action: AppActionView) -> bool {
    match action {
        AppActionView::Play => true,
        AppActionView::Pause => true,
        AppActionView::Load(_) => true,
        AppActionView::LoadPlaylist(_) => true,
        AppActionView::LoginSuccess(_) => true,
        AppActionView::BrowserAction(BrowserActionView::PrependPlaylistsContent(_)) => true,
        _ => false,
    }
}

/// The mutation rule: the model after `action` was applied to `model`.
///
/// * `Play` and `Pause` set the playing flag to true and to false.
/// * `Load` sets the playing flag and records the track.
/// * `LoadPlaylist` replaces the playlist in view.
/// * `LoginSuccess` installs the token of the credentials.
/// * `PrependPlaylistsContent` puts playlists in front of the saved ones, where
///   the home screen is available.
/// * Every other action changes nothing.
pub open spec fn apply(model: AppModelView, action: AppActionView) -> AppModelView {
    match action {
        AppActionView::Play => AppModelView {
            state: AppStateView { is_playing: true, ..model.state },
            ..model
        },
        AppActionView::Pause => AppModelView {
            state: AppStateView { is_playing: false, ..model.state },
            ..model
        },
        AppActionView::Load(uri) => AppModelView {
            state: AppStateView { is_playing: true, current_song_uri: Some(uri), ..model.state },
            ..model
        },
        AppActionView::LoadPlaylist(tracks) => AppModelView {
            state: AppStateView { playlist: tracks, ..model.state },
            ..model
        },
        AppActionView::LoginSuccess(credentials) => AppModelView {
            token: Some(credentials.token),
            ..model
        },
        AppActionView::BrowserAction(BrowserActionView::PrependPlaylistsContent(added)) => {
            match model.state.home {
                Some(saved) => AppModelView {
                    state: AppStateView { home: Some(prepended(saved, added)), ..model.state },
                    ..model
                },
                None => model,
            }
        },
        _ => model,
    }
}

/// The events that applying `action` to `model` gives rise to, in order.
/// Putting playlists in front of the saved ones reports that the saved
/// playlists were updated; nothing else reports anything.
pub open spec fn derived_events(model: AppModelView, action: AppActionView) -> Seq<AppEvent> {
    match action {
        AppActionView::BrowserAction(BrowserActionView::PrependPlaylistsContent(_)) => {
            if model.state.home is Some {
                seq![AppEvent::BrowserEvent(BrowserEvent::SavedPlaylistsUpdated)]
            } else {
                Seq::empty()
            }
        },
        _ => Seq::empty(),
    }
}

/// The credentials that applying `action` asks the credential store to keep:
/// those of a successful login, and nothing for any other action.
pub open spec fn credentials_to_save(action: AppActionView) -> Option<CredentialsView> {
    match action {
        AppActionView::LoginSuccess(credentials) => Some(credentials),
        _ => None,
    }
}

/// The model after each action of `actions` was applied in turn, first to
/// last: the fold of [`apply`] over the sequence.
pub open spec fn apply_all(model: AppModelView, actions: Seq<AppActionView>) -> AppModelView
    decreases actions.len(),
{
    if actions.len() == 0 {
        model
    } else {
        apply(apply_all(model, actions.drop_last()), actions.last())
    }
}

/// The credentials that applying each action of `actions` in turn asks the
/// credential store to keep, in the order of the actions.
pub open spec fn credentials_saved_by(actions: Seq<AppActionView>) -> Seq<CredentialsView>
    decreases actions.len(),
{
    if actions.len() == 0 {
        Seq::empty()
    } else {
        let earlier = credentials_saved_by(actions.drop_last());
        match credentials_to_save(actions.last()) {
            Some(credentials) => earlier.push(credentials),
            None => earlier,
        }
    }
}

} // verus!
