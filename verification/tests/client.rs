use ferrite::client_state::{
    facing_names, ChunkCount, PendingConnect, PlayerInfoRes, SelectedServer, SelectedWorld, UiScreenState,
    button_action, cursor_grab_step, lan_refresh, on_back_to_game, on_connected, on_disconnect_button,
    on_disconnected, server_db_path, take_pending_connect, ui_panel_actions, ButtonAction, ConnectionFlags,
    CursorGrabState, PanelAction, PendingConnection, UiScreen,
};

#[test]
fn panels_follow_the_client_state() {
    let playing = ui_panel_actions(true, false, false, UiScreen::ServerList);
    assert_eq!(playing.hud, PanelAction::Show);
    assert_eq!(playing.pause, PanelAction::Remove);
    assert_eq!(playing.server_list, PanelAction::Remove);
    assert_eq!(ui_panel_actions(true, false, true, UiScreen::MainMenu).pause, PanelAction::Show);
    let connecting = ui_panel_actions(false, true, true, UiScreen::MainMenu);
    assert_eq!(connecting.menu, PanelAction::Remove);
    assert_eq!(connecting.hud, PanelAction::Remove);
    assert_eq!(connecting.pause, PanelAction::Keep);
    let menu = ui_panel_actions(false, false, false, UiScreen::WorldSelect);
    assert_eq!(
        (menu.menu, menu.world_select, menu.server_list, menu.hud, menu.pause),
        (PanelAction::Remove, PanelAction::Show, PanelAction::Remove, PanelAction::Remove, PanelAction::Remove)
    );
    assert_eq!(UiScreen::default(), UiScreen::MainMenu);
}

#[test]
fn escape_pauses_and_releases_the_cursor() {
    let grabbed = CursorGrabState { want_grabbed: true, was_grabbed: true };
    let s = cursor_grab_step(grabbed, false, true, true, false, true);
    assert!(s.paused);
    assert!(!s.cursor.want_grabbed);
    assert!(!s.cursor.was_grabbed);
    assert_eq!(s.lock, Some(false));
    assert_eq!(s.visible, Some(true));
    // Escape outside a world does nothing.
    let idle = CursorGrabState { want_grabbed: false, was_grabbed: false };
    let s = cursor_grab_step(idle, false, false, true, false, false);
    assert!(!s.paused);
    assert_eq!((s.lock, s.visible), (None, None));
}

#[test]
fn click_asks_for_the_cursor_then_it_is_locked() {
    let idle = CursorGrabState { want_grabbed: false, was_grabbed: false };
    let s = cursor_grab_step(idle, false, false, false, true, true);
    assert!(s.cursor.want_grabbed);
    assert_eq!(s.lock, None);
    let s2 = cursor_grab_step(s.cursor, s.paused, false, false, false, true);
    assert_eq!(s2.lock, Some(true));
    assert_eq!(s2.visible, Some(false));
    assert!(s2.cursor.was_grabbed);
    // The grab is lost from outside (e.g. focus change): the wish is dropped.
    let s3 = cursor_grab_step(s2.cursor, false, false, false, false, true);
    assert!(!s3.cursor.want_grabbed);
    assert_eq!(s3.visible, Some(true));
}

#[test]
fn button_labels() {
    assert_eq!(button_action("Single Player"), ButtonAction::OpenWorldSelect);
    assert_eq!(button_action("Demo World"), ButtonAction::StartDemoWorld);
    assert_eq!(button_action("Quit"), ButtonAction::Quit);
    assert_eq!(button_action("Back to Game"), ButtonAction::BackToGame);
    assert_eq!(button_action("Disconnect"), ButtonAction::Disconnect);
    assert_eq!(button_action("Multi Player"), ButtonAction::OpenServerList);
    assert_eq!(button_action("Back"), ButtonAction::BackToMainMenu);
    assert_eq!(button_action("Create New World"), ButtonAction::CreateNewWorld);
    assert_eq!(button_action("back"), ButtonAction::Nothing);
    assert_eq!(button_action(""), ButtonAction::Nothing);
}

fn pc(a: &str, s: bool, d: Option<&str>) -> PendingConnection {
    PendingConnection { address: a.to_string(), start_server: s, db_path: d.map(|x| x.to_string()) }
}

#[test]
fn pending_connections_start_one_at_a_time() {
    let mut q = vec![pc("127.0.0.1:25565", true, Some("world")), pc("10.0.0.2:25565", false, None)];
    assert_eq!(take_pending_connect(&mut q, true, false, false), None);
    assert_eq!(take_pending_connect(&mut q, false, true, false), None);
    assert_eq!(take_pending_connect(&mut q, false, false, true), None);
    assert_eq!(q.len(), 2);
    assert_eq!(take_pending_connect(&mut q, false, false, false), Some(pc("127.0.0.1:25565", true, Some("world"))));
    assert_eq!(q, vec![pc("10.0.0.2:25565", false, None)]);
    let mut empty: Vec<PendingConnection> = Vec::new();
    assert_eq!(take_pending_connect(&mut empty, false, false, false), None);
    assert_eq!(server_db_path(None), "world");
    assert_eq!(server_db_path(Some("saves/A".to_string())), "saves/A");
}

#[test]
fn connection_flags() {
    let f = ConnectionFlags { connected: false, connecting: true, paused: true, want_grabbed: true };
    let c = on_connected(f);
    assert_eq!(c, ConnectionFlags { connected: true, connecting: false, paused: true, want_grabbed: true });
    assert_eq!(
        on_disconnected(c),
        ConnectionFlags { connected: false, connecting: false, paused: false, want_grabbed: false }
    );
    assert_eq!(
        on_disconnect_button(c),
        ConnectionFlags { connected: false, connecting: false, paused: false, want_grabbed: true }
    );
    assert_eq!(
        on_back_to_game(ConnectionFlags { connected: true, connecting: false, paused: true, want_grabbed: false }),
        ConnectionFlags { connected: true, connecting: false, paused: false, want_grabbed: true }
    );
}

#[test]
fn lan_list_refresh() {
    let mut servers = vec!["a".to_string()];
    let mut generation = 3u64;
    lan_refresh(UiScreen::ServerList, false, vec!["b".to_string(), "c".to_string()], &mut servers, &mut generation);
    assert_eq!(servers, vec!["b".to_string(), "c".to_string()]);
    assert_eq!(generation, 4);
    lan_refresh(UiScreen::ServerList, false, Vec::new(), &mut servers, &mut generation);
    assert_eq!((servers.len(), generation), (2, 4));
    lan_refresh(UiScreen::MainMenu, false, vec!["d".to_string()], &mut servers, &mut generation);
    assert_eq!((servers.len(), generation), (0, 5));
    lan_refresh(UiScreen::ServerList, true, vec!["d".to_string()], &mut servers, &mut generation);
    assert_eq!((servers.len(), generation), (0, 5));
}

#[test]
fn facing_sectors() {
    assert_eq!(facing_names(0), ("South", "Towards positive Z"));
    assert_eq!(facing_names(22), ("South", "Towards positive Z"));
    assert_eq!(facing_names(23), ("Southwest", "Towards positive Z / negative X"));
    assert_eq!(facing_names(90), ("West", "Towards negative X"));
    assert_eq!(facing_names(135), ("Northwest", "Towards negative X / negative Z"));
    assert_eq!(facing_names(180), ("North", "Towards negative Z"));
    assert_eq!(facing_names(225), ("Northeast", "Towards negative Z / positive X"));
    assert_eq!(facing_names(270), ("East", "Towards positive X"));
    assert_eq!(facing_names(300), ("Southeast", "Towards positive X / positive Z"));
    assert_eq!(facing_names(338), ("South", "Towards positive Z"));
    assert_eq!(facing_names(360), ("South", "Towards positive Z"));
    assert_eq!(facing_names(361), ("Unknown", "Unknown"));
}

#[test]
fn resource_defaults() {
    assert_eq!(UiScreenState::default().0, UiScreen::MainMenu);
    assert!(SelectedServer::default().0.is_none());
    assert!(SelectedWorld::default().0.is_none());
    let info = PlayerInfoRes::default();
    assert_eq!((info.entity_id, info.game_mode), (None, None));
    assert_eq!(ChunkCount::default().0, 0);
    assert!(PendingConnect::default().0.is_empty());
}
