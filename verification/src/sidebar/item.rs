//! The items that the sidebar lists.

use super::destination::{SidebarDestination, SidebarDestinationView};
use super::text::translate;
use vstd::prelude::*;

verus! {

/// Identifier of the entry that heads the playlists.
pub const SAVED_PLAYLISTS_SECTION: &'static str = "saved_playlists_section";

/// Identifier of the entry that offers to create a playlist.
pub const CREATE_PLAYLIST_ITEM: &'static str = "create_playlist";

/// What an item of the sidebar is.
#[derive(Debug, PartialEq, Eq)]
pub enum SidebarItemKind {
    /// An entry that takes one somewhere.
    Destination(SidebarDestination),
    /// The heading above the playlists.
    PlaylistsSection,
    /// The entry that offers to create a playlist.
    CreatePlaylist,
}

/// View of a [`SidebarItemKind`].
pub enum SidebarItemKindView {
    Destination(SidebarDestinationView),
    PlaylistsSection,
    CreatePlaylist,
}

impl View for SidebarItemKind {
    type V = SidebarItemKindView;

    open spec fn view(&self) -> SidebarItemKindView {
        match self {
            SidebarItemKind::Destination(destination) => SidebarItemKindView::Destination(
                destination@,
            ),
            SidebarItemKind::PlaylistsSection => SidebarItemKindView::PlaylistsSection,
            SidebarItemKind::CreatePlaylist => SidebarItemKindView::CreatePlaylist,
        }
    }
}

impl Clone for SidebarItemKind {
    fn clone(&self) -> (copy: Self)
        ensures
            copy@ == self@,
    {
        match self {
            SidebarItemKind::Destination(destination) => SidebarItemKind::Destination(
                destination.clone(),
            ),
            SidebarItemKind::PlaylistsSection => SidebarItemKind::PlaylistsSection,
            SidebarItemKind::CreatePlaylist => SidebarItemKind::CreatePlaylist,
        }
    }
}

/// An item of the sidebar.
#[derive(Debug, PartialEq, Eq)]
pub struct SidebarItem {
    pub kind: SidebarItemKind,
    pub title: String,
}

/// View of a [`SidebarItem`].
pub struct SidebarItemView {
    pub kind: SidebarItemKindView,
    pub title: Seq<char>,
}

impl SidebarItemView {
    /// The identifier of the item: that of its destination, or its own where
    /// it has none.
    pub open spec fn id(self) -> Seq<char> {
        match self.kind {
            SidebarItemKindView::Destination(destination) => destination.id(),
            SidebarItemKindView::PlaylistsSection => SAVED_PLAYLISTS_SECTION@,
            SidebarItemKindView::CreatePlaylist => CREATE_PLAYLIST_ITEM@,
        }
    }

    /// The destination of the item, where it has one.
    pub open spec fn destination(self) -> Option<SidebarDestinationView> {
        match self.kind {
            SidebarItemKindView::Destination(destination) => Some(destination),
            _ => None,
        }
    }
}

impl View for SidebarItem {
    type V = SidebarItemView;

    open spec fn view(&self) -> SidebarItemView {
        SidebarItemView { kind: self.kind@, title: self.title@ }
    }
}

impl DeepView for SidebarItem {
    type V = SidebarItemView;

    open spec fn deep_view(&self) -> SidebarItemView {
        self@
    }
}

impl Clone for SidebarItem {
    fn clone(&self) -> (copy: Self)
        ensures
            copy@ == self@,
    {
        SidebarItem { kind: self.kind.clone(), title: self.title.clone() }
    }
}

impl SidebarItem {
    /// The item that takes one to `destination`. A playlist is listed under
    /// its own title, every other destination under a name in the user's
    /// language.
    pub fn for_destination(destination: SidebarDestination) -> (item: Self)
        ensures
            item@.kind == SidebarItemKindView::Destination(destination@),
            destination@ matches SidebarDestinationView::Playlist(summary) ==> item@.title
                == summary.title,
    {
        let title = destination.title();
        SidebarItem { kind: SidebarItemKind::Destination(destination), title }
    }

    /// The heading above the playlists.
    pub fn playlists_section() -> (item: Self)
        ensures
            item@.kind == SidebarItemKindView::PlaylistsSection,
    {
        proof {
            reveal_strlit("All Playlists");
        }
        SidebarItem { kind: SidebarItemKind::PlaylistsSection, title: translate("All Playlists") }
    }

    /// The entry that offers to create a playlist.
    pub fn create_playlist_item() -> (item: Self)
        ensures
            item@.kind == SidebarItemKindView::CreatePlaylist,
    {
        proof {
            reveal_strlit("New Playlist");
        }
        SidebarItem { kind: SidebarItemKind::CreatePlaylist, title: translate("New Playlist") }
    }

    /// The identifier of the item.
    pub fn id(&self) -> (id: &'static str)
        ensures
            id@ == self@.id(),
    {
        match &self.kind {
            SidebarItemKind::Destination(destination) => destination.id(),
            SidebarItemKind::PlaylistsSection => SAVED_PLAYLISTS_SECTION,
            SidebarItemKind::CreatePlaylist => CREATE_PLAYLIST_ITEM,
        }
    }

    /// The title under which the item is listed.
    pub fn title(&self) -> (title: String)
        ensures
            title@ == self@.title,
    {
        self.title.clone()
    }

    /// Whether the item takes one somewhere.
    pub fn navigatable(&self) -> (navigatable: bool)
        ensures
            navigatable == (self@.destination() is Some),
    {
        match &self.kind {
            SidebarItemKind::Destination(_) => true,
            _ => false,
        }
    }

    /// Where the item takes one, if anywhere.
    pub fn destination(&self) -> (destination: Option<SidebarDestination>)
        ensures
            destination.deep_view() == self@.destination(),
    {
        match &self.kind {
            SidebarItemKind::Destination(destination) => Some(destination.clone()),
            _ => None,
        }
    }
}

} // verus!
