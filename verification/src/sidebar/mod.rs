//! The sidebar: a component that lists the places one can go to and, below
//! them, the saved playlists.
//!
//! This is the sidebar's own state and rules. Drawing the list is left to
//! whoever owns the widgets.

pub mod destination;
pub mod item;
pub mod sidebar;
pub mod text;

pub use destination::{PlaylistSummary, SidebarDestination};
pub use item::{SidebarItem, SidebarItemKind, CREATE_PLAYLIST_ITEM, SAVED_PLAYLISTS_SECTION};
pub use sidebar::{
    NewPlaylist, RowActivation, Sidebar, SidebarModel, SidebarRowKind, NUM_FIXED_ENTRIES,
    NUM_PLAYLISTS,
};
