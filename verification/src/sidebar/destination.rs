//! The places that the sidebar can take one to.

use super::text::translate;
use vstd::prelude::*;

verus! {

/// What a playlist entry of the sidebar refers to.
#[derive(Debug, PartialEq, Eq)]
pub struct PlaylistSummary {
    pub id: String,
    pub title: String,
}

/// View of a [`PlaylistSummary`].
pub struct PlaylistSummaryView {
    pub id: Seq<char>,
    pub title: Seq<char>,
}

impl View for PlaylistSummary {
    type V = PlaylistSummaryView;

    open spec fn view(&self) -> PlaylistSummaryView {
        PlaylistSummaryView { id: self.id@, title: self.title@ }
    }
}

impl DeepView for PlaylistSummary {
    type V = PlaylistSummaryView;

    open spec fn deep_view(&self) -> PlaylistSummaryView {
        self@
    }
}

impl Clone for PlaylistSummary {
    fn clone(&self) -> (copy: Self)
        ensures
            copy@ == self@,
    {
        PlaylistSummary { id: self.id.clone(), title: self.title.clone() }
    }
}

/// A place that the sidebar can take one to.
#[derive(Debug, PartialEq, Eq)]
pub enum SidebarDestination {
    Library,
    SavedTracks,
    NowPlaying,
    SavedPlaylists,
    Playlist(PlaylistSummary),
}

/// View of a [`SidebarDestination`].
pub enum SidebarDestinationView {
    Library,
    SavedTracks,
    NowPlaying,
    SavedPlaylists,
    Playlist(PlaylistSummaryView),
}

impl SidebarDestinationView {
    /// The identifier of the destination. All playlists share one.
    pub open spec fn id(self) -> Seq<char> {
        match self {
            SidebarDestinationView::Library => "library"@,
            SidebarDestinationView::SavedTracks => "saved_tracks"@,
            SidebarDestinationView::NowPlaying => "now_playing"@,
            SidebarDestinationView::SavedPlaylists => "saved_playlists"@,
            SidebarDestinationView::Playlist(_) => "playlist"@,
        }
    }
}

impl View for SidebarDestination {
    type V = SidebarDestinationView;

    open spec fn view(&self) -> SidebarDestinationView {
        match self {
            SidebarDestination::Library => SidebarDestinationView::Library,
            SidebarDestination::SavedTracks => SidebarDestinationView::SavedTracks,
            SidebarDestination::NowPlaying => SidebarDestinationView::NowPlaying,
            SidebarDestination::SavedPlaylists => SidebarDestinationView::SavedPlaylists,
            SidebarDestination::Playlist(summary) => SidebarDestinationView::Playlist(summary@),
        }
    }
}

impl DeepView for SidebarDestination {
    type V = SidebarDestinationView;

    open spec fn deep_view(&self) -> SidebarDestinationView {
        self@
    }
}

impl Clone for SidebarDestination {
    fn clone(&self) -> (copy: Self)
        ensures
            copy@ == self@,
    {
        match self {
            SidebarDestination::Library => SidebarDestination::Library,
            SidebarDestination::SavedTracks => SidebarDestination::SavedTracks,
            SidebarDestination::NowPlaying => SidebarDestination::NowPlaying,
            SidebarDestination::SavedPlaylists => SidebarDestination::SavedPlaylists,
            SidebarDestination::Playlist(summary) => SidebarDestination::Playlist(summary.clone()),
        }
    }
}

impl SidebarDestination {
    /// The identifier of the destination.
    pub fn id(&self) -> (id: &'static str)
        ensures
            id@ == self@.id(),
    {
        match self {
            SidebarDestination::Library => "library",
            SidebarDestination::SavedTracks => "saved_tracks",
            SidebarDestination::NowPlaying => "now_playing",
            SidebarDestination::SavedPlaylists => "saved_playlists",
            SidebarDestination::Playlist(_) => "playlist",
        }
    }

    /// The title under which the destination is listed: for a playlist its
    /// own title, for every other destination a name in the user's language.
    pub fn title(&self) -> (title: String)
        ensures
            self@ matches SidebarDestinationView::Playlist(summary) ==> title@ == summary.title,
    {
        match self {
            SidebarDestination::Library => {
                proof {
                    reveal_strlit("Library");
                }
                translate("Library")
            },
            SidebarDestination::SavedTracks => {
                proof {
                    reveal_strlit("Saved tracks");
                }
                translate("Saved tracks")
            },
            SidebarDestination::NowPlaying => {
                proof {
                    reveal_strlit("Now playing");
                }
                translate("Now playing")
            },
            SidebarDestination::SavedPlaylists => {
                proof {
                    reveal_strlit("Playlists");
                }
                translate("Playlists")
            },
            SidebarDestination::Playlist(summary) => summary.title.clone(),
        }
    }
}

} // verus!
