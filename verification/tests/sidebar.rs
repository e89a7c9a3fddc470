use spot::{
    AlbumModel, App, AppAction, AppEvent, AppModel, AppState, BrowserAction, BrowserEvent,
    Component, DispatchLoop, Dispatcher, EventListener, NewPlaylist, PlaylistDescription,
    PlaylistSummary, RowActivation, Sidebar, SidebarDestination, SidebarItem, SidebarItemKind,
    SidebarModel, SidebarRowKind, CREATE_PLAYLIST_ITEM, NUM_FIXED_ENTRIES, NUM_PLAYLISTS,
    SAVED_PLAYLISTS_SECTION,
};

fn album(uri: &str, title: &str) -> AlbumModel {
    AlbumModel { uri: uri.to_string(), title: title.to_string() }
}

fn playlist(id: &str, title: &str) -> SidebarDestination {
    SidebarDestination::Playlist(PlaylistSummary { id: id.to_string(), title: title.to_string() })
}

fn model_with_playlists(albums: Vec<AlbumModel>) -> AppModel {
    let mut state = AppState::new(Vec::new());
    state.browser.home.as_mut().unwrap().playlists = albums;
    AppModel::new(state)
}

fn ids(sidebar: &Sidebar) -> Vec<&'static str> {
    (0..sidebar.len()).map(|index| sidebar.item(index).id()).collect()
}

fn saved_playlists_updated() -> AppEvent {
    AppEvent::BrowserEvent(BrowserEvent::SavedPlaylistsUpdated)
}

#[test]
fn the_limits_of_the_sidebar() {
    assert_eq!(NUM_FIXED_ENTRIES, 6);
    assert_eq!(NUM_PLAYLISTS, 20);
}

#[test]
fn destinations_have_their_identifiers() {
    assert_eq!(SidebarDestination::Library.id(), "library");
    assert_eq!(SidebarDestination::SavedTracks.id(), "saved_tracks");
    assert_eq!(SidebarDestination::NowPlaying.id(), "now_playing");
    assert_eq!(SidebarDestination::SavedPlaylists.id(), "saved_playlists");
    assert_eq!(playlist("p:1", "One").id(), "playlist");
}

#[test]
fn a_playlist_is_listed_under_its_own_title() {
    assert_eq!(playlist("p:1", "Road trip").title(), "Road trip");
    let item = SidebarItem::for_destination(playlist("p:1", "Road trip"));
    assert_eq!(item.title(), "Road trip");
    assert_eq!(item.id(), "playlist");
    assert!(item.navigatable());
    assert_eq!(item.destination(), Some(playlist("p:1", "Road trip")));
}

#[test]
fn the_items_without_a_destination() {
    let section = SidebarItem::playlists_section();
    assert_eq!(section.kind, SidebarItemKind::PlaylistsSection);
    assert_eq!(section.id(), SAVED_PLAYLISTS_SECTION);
    assert_eq!(section.id(), "saved_playlists_section");
    assert!(!section.navigatable());
    assert_eq!(section.destination(), None);

    let create = SidebarItem::create_playlist_item();
    assert_eq!(create.kind, SidebarItemKind::CreatePlaylist);
    assert_eq!(create.id(), CREATE_PLAYLIST_ITEM);
    assert_eq!(create.id(), "create_playlist");
    assert!(!create.navigatable());
    assert_eq!(create.destination(), None);
}

#[test]
fn a_fixed_destination_makes_a_navigatable_item() {
    let item = SidebarItem::for_destination(SidebarDestination::NowPlaying);
    assert_eq!(item.kind, SidebarItemKind::Destination(SidebarDestination::NowPlaying));
    assert_eq!(item.id(), "now_playing");
    assert!(item.navigatable());
    assert_eq!(item.destination(), Some(SidebarDestination::NowPlaying));
}

#[test]
fn a_new_sidebar_lists_the_fixed_entries() {
    let sidebar = Sidebar::new();
    assert_eq!(sidebar.len(), 6);
    assert_eq!(
        ids(&sidebar),
        vec![
            "library",
            "saved_tracks",
            "now_playing",
            "saved_playlists_section",
            "create_playlist",
            "saved_playlists",
        ]
    );
}

#[test]
fn a_named_album_keeps_its_title() {
    assert_eq!(
        SidebarModel::map_to_destination(&album("p:1", "Road trip")),
        playlist("p:1", "Road trip")
    );
}

#[test]
fn an_unnamed_album_gets_the_title_that_stands_in() {
    assert_eq!(
        SidebarModel::playlist_entry(&album("p:2", ""), "Sans titre".to_string()),
        playlist("p:2", "Sans titre")
    );
    assert_eq!(
        SidebarModel::playlist_entry(&album("p:3", "Mine"), "Sans titre".to_string()),
        playlist("p:3", "Mine")
    );
}

#[test]
fn an_unnamed_album_is_still_a_playlist_entry() {
    match SidebarModel::map_to_destination(&album("p:2", "")) {
        SidebarDestination::Playlist(summary) => assert_eq!(summary.id, "p:2"),
        other => panic!("not a playlist: {:?}", other),
    }
}

#[test]
fn get_playlists_follows_the_saved_playlists() {
    let app_model = model_with_playlists(vec![album("p:1", "One"), album("p:2", "Two")]);
    let model = SidebarModel::new(&app_model);
    assert_eq!(model.get_playlists(), vec![playlist("p:1", "One"), playlist("p:2", "Two")]);
}

#[test]
fn get_playlists_of_an_empty_home_screen() {
    let app_model = AppModel::new(AppState::new(Vec::new()));
    assert!(SidebarModel::new(&app_model).get_playlists().is_empty());
}

#[test]
fn get_playlists_stops_at_the_limit() {
    let albums: Vec<AlbumModel> =
        (0..25).map(|n| album(&format!("p:{}", n), &format!("Playlist {}", n))).collect();
    let app_model = model_with_playlists(albums);

    let shown = SidebarModel::new(&app_model).get_playlists();

    assert_eq!(shown.len(), 20);
    assert_eq!(shown[0], playlist("p:0", "Playlist 0"));
    assert_eq!(shown[19], playlist("p:19", "Playlist 19"));
}

#[test]
fn get_playlists_with_exactly_the_limit() {
    let albums: Vec<AlbumModel> =
        (0..20).map(|n| album(&format!("p:{}", n), &format!("Playlist {}", n))).collect();
    let app_model = model_with_playlists(albums);
    assert_eq!(SidebarModel::new(&app_model).get_playlists().len(), 20);
}

#[test]
fn navigating_to_a_page_of_the_home_screen() {
    let app_model = AppModel::new(AppState::new(Vec::new()));
    let model = SidebarModel::new(&app_model);
    let mut dispatcher = Dispatcher::new();

    model.navigate(SidebarDestination::Library, &mut dispatcher);
    model.navigate(SidebarDestination::SavedTracks, &mut dispatcher);
    model.navigate(SidebarDestination::NowPlaying, &mut dispatcher);
    model.navigate(SidebarDestination::SavedPlaylists, &mut dispatcher);

    let pages: Vec<AppAction> = ["library", "saved_tracks", "now_playing", "saved_playlists"]
        .iter()
        .map(|page| AppAction::BrowserAction(BrowserAction::SetHomeVisiblePage(page.to_string())))
        .collect();
    assert_eq!(dispatcher.pending(), pages);
}

#[test]
fn navigating_to_a_playlist() {
    let app_model = AppModel::new(AppState::new(Vec::new()));
    let model = SidebarModel::new(&app_model);
    let mut dispatcher = Dispatcher::new();
    dispatcher.dispatch(AppAction::Play);

    model.navigate(playlist("p:9", "Nine"), &mut dispatcher);

    assert_eq!(
        dispatcher.pending(),
        vec![AppAction::Play, AppAction::ViewPlaylist("p:9".to_string())]
    );
}

#[test]
fn creating_a_playlist_is_for_the_user_who_is_logged_in() {
    let mut state = AppState::new(Vec::new());
    state.logged_user.user = Some("alice".to_string());
    let app_model = AppModel::new(state);

    let call = SidebarModel::new(&app_model).create_new_playlist("Road trip".to_string());

    assert_eq!(call, NewPlaylist { name: "Road trip".to_string(), user_id: "alice".to_string() });
}

#[test]
fn a_created_playlist_is_prepended_and_announced() {
    let created: Result<PlaylistDescription, String> =
        Ok(PlaylistDescription { id: "p:new".to_string(), title: "Road trip".to_string() });

    assert_eq!(
        SidebarModel::playlist_created(created),
        Ok(vec![
            AppAction::BrowserAction(BrowserAction::PrependPlaylistsContent(vec![
                PlaylistDescription { id: "p:new".to_string(), title: "Road trip".to_string() },
            ])),
            AppAction::ShowPlaylistCreatedNotification("p:new".to_string()),
        ])
    );
}

#[test]
fn a_playlist_that_was_not_created_stays_a_failure() {
    let failed: Result<PlaylistDescription, String> = Err("403".to_string());
    assert_eq!(SidebarModel::playlist_created(failed), Err("403".to_string()));
}

#[test]
fn rows_are_drawn_by_the_kind_of_their_item() {
    assert_eq!(
        Sidebar::row_kind(&SidebarItem::for_destination(SidebarDestination::Library)),
        SidebarRowKind::Navigatable
    );
    assert_eq!(
        Sidebar::row_kind(&SidebarItem::for_destination(playlist("p:1", "One"))),
        SidebarRowKind::Navigatable
    );
    assert_eq!(Sidebar::row_kind(&SidebarItem::playlists_section()), SidebarRowKind::SectionLabel);
    assert_eq!(
        Sidebar::row_kind(&SidebarItem::create_playlist_item()),
        SidebarRowKind::CreatePlaylist
    );
}

#[test]
fn activating_a_row_with_a_destination_navigates() {
    let app_model = AppModel::new(AppState::new(Vec::new()));
    let model = SidebarModel::new(&app_model);
    let mut dispatcher = Dispatcher::new();

    let item = SidebarItem::for_destination(playlist("p:4", "Four"));
    assert_eq!(Sidebar::row_activated(&item, &model, &mut dispatcher), RowActivation::Navigated);

    assert_eq!(dispatcher.pending(), vec![AppAction::ViewPlaylist("p:4".to_string())]);
}

#[test]
fn activating_the_create_row_asks_for_the_dialog() {
    let app_model = AppModel::new(AppState::new(Vec::new()));
    let model = SidebarModel::new(&app_model);
    let mut dispatcher = Dispatcher::new();

    let item = SidebarItem::create_playlist_item();
    assert_eq!(
        Sidebar::row_activated(&item, &model, &mut dispatcher),
        RowActivation::ShowCreatePlaylist
    );
    assert_eq!(dispatcher.len(), 0);
}

#[test]
fn the_sidebar_shows_the_saved_playlists_when_told_of_an_update() {
    let app_model = model_with_playlists(vec![album("p:1", "One"), album("p:2", "Two")]);
    let mut sidebar = Sidebar::new();

    sidebar.on_event(&saved_playlists_updated(), &app_model);

    assert_eq!(sidebar.len(), 8);
    assert_eq!(
        ids(&sidebar),
        vec![
            "library",
            "saved_tracks",
            "now_playing",
            "saved_playlists_section",
            "create_playlist",
            "saved_playlists",
            "playlist",
            "playlist",
        ]
    );
    assert_eq!(sidebar.item(6).destination(), Some(playlist("p:1", "One")));
    assert_eq!(sidebar.item(6).title(), "One");
    assert_eq!(sidebar.item(7).destination(), Some(playlist("p:2", "Two")));
}

#[test]
fn an_update_replaces_the_playlists_that_were_shown() {
    let mut sidebar = Sidebar::new();
    let before = model_with_playlists(vec![
        album("p:1", "One"),
        album("p:2", "Two"),
        album("p:3", "Three"),
    ]);
    sidebar.update_playlists_in_sidebar(&SidebarModel::new(&before));
    assert_eq!(sidebar.len(), 9);

    let after = model_with_playlists(vec![album("p:4", "Four")]);
    sidebar.update_playlists_in_sidebar(&SidebarModel::new(&after));

    assert_eq!(sidebar.len(), 7);
    assert_eq!(sidebar.item(5).id(), "saved_playlists");
    assert_eq!(sidebar.item(6).destination(), Some(playlist("p:4", "Four")));
}

#[test]
fn the_sidebar_never_shows_more_than_the_limit() {
    let albums: Vec<AlbumModel> =
        (0..30).map(|n| album(&format!("p:{}", n), &format!("Playlist {}", n))).collect();
    let app_model = model_with_playlists(albums);
    let mut sidebar = Sidebar::new();

    sidebar.on_event(&saved_playlists_updated(), &app_model);

    assert_eq!(sidebar.len(), 26);
    assert_eq!(sidebar.item(25).destination(), Some(playlist("p:19", "Playlist 19")));
}

#[test]
fn without_a_home_screen_the_sidebar_stays_as_it_is() {
    let mut sidebar = Sidebar::new();
    let shown = model_with_playlists(vec![album("p:1", "One")]);
    sidebar.on_event(&saved_playlists_updated(), &shown);
    assert_eq!(sidebar.len(), 7);

    let mut state = AppState::new(Vec::new());
    state.browser.home = None;
    sidebar.on_event(&saved_playlists_updated(), &AppModel::new(state));

    assert_eq!(sidebar.len(), 7);
    assert_eq!(sidebar.item(6).destination(), Some(playlist("p:1", "One")));
}

#[test]
fn actions_leave_the_sidebar_as_it_is() {
    let app_model = model_with_playlists(vec![album("p:1", "One")]);
    let mut sidebar = Sidebar::new();
    sidebar.handle(&AppAction::Play, &app_model);
    sidebar.handle(
        &BrowserAction::PrependPlaylistsContent(Vec::new()).into(),
        &app_model,
    );
    assert_eq!(sidebar.len(), 6);
}

#[test]
fn a_created_playlist_reaches_the_sidebar_through_the_loop() {
    let mut app = App::new(AppModel::new(AppState::new(Vec::new())), vec![Sidebar::new()]);
    let mut dispatch_loop = DispatchLoop::new();
    let created: Result<PlaylistDescription, String> =
        Ok(PlaylistDescription { id: "p:new".to_string(), title: "".to_string() });

    dispatch_loop
        .dispatcher
        .call_spotify_and_dispatch_many(move || SidebarModel::playlist_created(created));
    dispatch_loop.attach(&mut app);

    let home = app.model().state.browser.home_state().unwrap();
    assert_eq!(home.playlists, vec![album("p:new", "")]);
    let sidebar = &app.components()[0];
    assert_eq!(sidebar.len(), 7);
    match sidebar.item(6).destination() {
        Some(SidebarDestination::Playlist(summary)) => {
            assert_eq!(summary.id, "p:new");
            assert_eq!(sidebar.item(6).title(), summary.title);
        }
        other => panic!("not a playlist: {:?}", other),
    }
}
