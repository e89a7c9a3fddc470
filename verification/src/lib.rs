//! The dispatch core of a music player: every change to the application state
//! is an action, actions are applied one at a time in the order in which they
//! arrived, and each applied action is then shown to every component.

pub mod action;
pub mod app;
pub mod dispatch;
pub mod laws;
pub mod sidebar;
pub mod state;

pub use action::{
    AppAction, AppEvent, BrowserAction, BrowserEvent, Credentials, PlaylistDescription,
    SongDescription,
};
pub use app::{App, Component, Effects, EventListener};
pub use dispatch::{DispatchLoop, Dispatcher, Step};
pub use sidebar::{
    NewPlaylist, PlaylistSummary, RowActivation, Sidebar, SidebarDestination, SidebarItem,
    SidebarItemKind, SidebarModel, SidebarRowKind, CREATE_PLAYLIST_ITEM, NUM_FIXED_ENTRIES,
    NUM_PLAYLISTS, SAVED_PLAYLISTS_SECTION,
};
pub use state::{AlbumModel, ApiSession, AppModel, AppState, BrowserState, HomeState, LoginState};
