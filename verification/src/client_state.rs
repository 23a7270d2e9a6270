//! The decisions of the client's frame loop, apart from the windowing and networking
//! they drive: which menu panels to show, cursor grabbing, what a menu button does,
//! when a queued connection starts, and how connection events change the client.

use vstd::prelude::*;

verus! {

/// The menu screen shown while not in a world.
#[derive(Debug, Clone, Copy, PartialEq, Eq, Structural)]
pub enum UiScreen {
    MainMenu,
    WorldSelect,
    ServerList,
}

impl Default for UiScreen {
    fn default() -> (r: Self)
        ensures
            r == UiScreen::MainMenu,
    {
        Self::MainMenu
    }
}

/// What to do with one UI panel this frame.
#[derive(Debug, Clone, Copy, PartialEq, Eq, Structural)]
pub enum PanelAction {
    /// Leave it as it is.
    Keep,
    /// Despawn it if it is there.
    Remove,
    /// Spawn it if it is not there.
    Show,
}

/// What to do with each panel: main menu, world select, server list, HUD, pause menu.
#[derive(Debug, Clone, Copy, PartialEq, Eq, Structural)]
pub struct UiPanelActions {
    pub menu: PanelAction,
    pub world_select: PanelAction,
    pub server_list: PanelAction,
    pub hud: PanelAction,
    pub pause: PanelAction,
}

/// The panels of each state: in a world, the HUD, and the pause menu exactly while
/// paused; while connecting, no menu and no HUD (the pause menu is left alone); else
/// the menu of the current screen only.
pub open spec fn spec_ui_panel_actions(connected: bool, connecting: bool, paused: bool, screen: UiScreen) -> UiPanelActions {
    if connected {
        UiPanelActions {
            menu: PanelAction::Remove,
            world_select: PanelAction::Remove,
            server_list: PanelAction::Remove,
            hud: PanelAction::Show,
            pause: if paused { PanelAction::Show } else { PanelAction::Remove },
        }
    } else if connecting {
        UiPanelActions {
            menu: PanelAction::Remove,
            world_select: PanelAction::Remove,
            server_list: PanelAction::Remove,
            hud: PanelAction::Remove,
            pause: PanelAction::Keep,
        }
    } else {
        UiPanelActions {
            menu: if screen == UiScreen::MainMenu { PanelAction::Show } else { PanelAction::Remove },
            world_select: if screen == UiScreen::WorldSelect { PanelAction::Show } else { PanelAction::Remove },
            server_list: if screen == UiScreen::ServerList { PanelAction::Show } else { PanelAction::Remove },
            hud: PanelAction::Remove,
            pause: PanelAction::Remove,
        }
    }
}

/// Which UI panels to spawn and despawn this frame.
pub fn ui_panel_actions(connected: bool, connecting: bool, paused: bool, screen: UiScreen) -> (r: UiPanelActions)
    ensures
        r == spec_ui_panel_actions(connected, connecting, paused, screen),
{
    if connected {
        UiPanelActions {
            menu: PanelAction::Remove,
            world_select: PanelAction::Remove,
            server_list: PanelAction::Remove,
            hud: PanelAction::Show,
            pause: if paused {
                PanelAction::Show
            } else {
                PanelAction::Remove
            },
        }
    } else if connecting {
        UiPanelActions {
            menu: PanelAction::Remove,
            world_select: PanelAction::Remove,
            server_list: PanelAction::Remove,
            hud: PanelAction::Remove,
            pause: PanelAction::Keep,
        }
    } else {
        match screen {
            UiScreen::WorldSelect => UiPanelActions {
                menu: PanelAction::Remove,
                world_select: PanelAction::Show,
                server_list: PanelAction::Remove,
                hud: PanelAction::Remove,
                pause: PanelAction::Remove,
            },
            UiScreen::ServerList => UiPanelActions {
                menu: PanelAction::Remove,
                world_select: PanelAction::Remove,
                server_list: PanelAction::Show,
                hud: PanelAction::Remove,
                pause: PanelAction::Remove,
            },
            UiScreen::MainMenu => UiPanelActions {
                menu: PanelAction::Show,
                world_select: PanelAction::Remove,
                server_list: PanelAction::Remove,
                hud: PanelAction::Remove,
                pause: PanelAction::Remove,
            },
        }
    }
}

/// At most one menu panel is shown in any state, none while connecting, the HUD exactly
/// in a world, and the pause menu only in a world while paused.
pub proof fn law_one_screen_at_a_time(connected: bool, connecting: bool, paused: bool, screen: UiScreen)
    ensures
        ({
            let a = spec_ui_panel_actions(connected, connecting, paused, screen);
            &&& (a.menu == PanelAction::Show) as int + (a.world_select == PanelAction::Show) as int + (
            a.server_list == PanelAction::Show) as int <= 1
            &&& (a.hud == PanelAction::Show) == connected
            &&& a.pause == PanelAction::Show ==> connected && paused
            &&& connecting && !connected ==> a.menu != PanelAction::Show && a.world_select
                != PanelAction::Show && a.server_list != PanelAction::Show
        }),
{
}

/// Whether the cursor should be grabbed, and whether it was grabbed by the client.
#[derive(Debug, Clone, Copy, PartialEq, Eq, Structural)]
pub struct CursorGrabState {
    pub want_grabbed: bool,
    pub was_grabbed: bool,
}

/// The outcome of one frame of cursor handling: the new cursor state and pause flag,
/// and what to do to the window: lock (`Some(true)`) or release (`Some(false)`) the
/// cursor, and show or hide it.
#[derive(Debug, Clone, Copy, PartialEq, Eq, Structural)]
pub struct CursorGrabStep {
    pub cursor: CursorGrabState,
    pub paused: bool,
    pub lock: Option<bool>,
    pub visible: Option<bool>,
}

/// One frame of cursor handling, given whether the window has the cursor grabbed,
/// whether Escape and the left mouse button were just pressed, and whether the client
/// is in a world. Escape toggles the pause menu in a world (pausing drops the wish to
/// grab); a grab lost from outside drops the wish; the cursor is locked when wanted and
/// not paused, released when not wanted or paused; a click in a world asks to grab.
pub open spec fn spec_cursor_grab_step(
    cursor: CursorGrabState,
    paused: bool,
    grabbed: bool,
    escape: bool,
    left_click: bool,
    connected: bool,
) -> CursorGrabStep {
    let paused1 = if escape && connected { !paused } else { paused };
    let want1 = if escape && connected && paused1 { false } else { cursor.want_grabbed };
    let lost = want1 && cursor.was_grabbed && !grabbed;
    let want2 = if lost { false } else { want1 };
    let was2 = if lost { false } else { cursor.was_grabbed };
    let lock = want2 && !grabbed && !paused1;
    let release = (!want2 || paused1) && grabbed;
    let was3 = if lock { true } else if release { false } else { was2 };
    let want3 = if left_click && !want2 && !paused1 && connected { true } else { want2 };
    CursorGrabStep {
        cursor: CursorGrabState { want_grabbed: want3, was_grabbed: was3 },
        paused: paused1,
        lock: if lock { Some(true) } else if release { Some(false) } else { None },
        visible: if lock { Some(false) } else if release || lost { Some(true) } else { None },
    }
}

pub fn cursor_grab_step(
    cursor: CursorGrabState,
    paused: bool,
    grabbed: bool,
    escape: bool,
    left_click: bool,
    connected: bool,
) -> (r: CursorGrabStep)
    ensures
        r == spec_cursor_grab_step(cursor, paused, grabbed, escape, left_click, connected),
{
    let mut cursor = cursor;
    let mut paused = paused;
    let mut lock: Option<bool> = None;
    let mut visible: Option<bool> = None;
    if escape && connected {
        paused = !paused;
        if paused {
            cursor.want_grabbed = false;
        }
    }
    if cursor.want_grabbed && cursor.was_grabbed && !grabbed {
        cursor.want_grabbed = false;
        cursor.was_grabbed = false;
        visible = Some(true);
    }
    if cursor.want_grabbed && !grabbed && !paused {
        lock = Some(true);
        visible = Some(false);
        cursor.was_grabbed = true;
    }
    if (!cursor.want_grabbed || paused) && grabbed {
        lock = Some(false);
        visible = Some(true);
        cursor.was_grabbed = false;
    }
    if left_click && !cursor.want_grabbed && !paused && connected {
        cursor.want_grabbed = true;
    }
    CursorGrabStep { cursor, paused, lock, visible }
}

/// A paused client never locks the cursor, and a client out of a world never changes
/// its pause flag.
pub proof fn law_cursor_never_locked_while_paused(
    cursor: CursorGrabState,
    paused: bool,
    grabbed: bool,
    escape: bool,
    left_click: bool,
    connected: bool,
)
    ensures
        ({
            let s = spec_cursor_grab_step(cursor, paused, grabbed, escape, left_click, connected);
            &&& s.paused ==> s.lock != Some(true)
            &&& !connected ==> s.paused == paused
            &&& s.paused && grabbed ==> s.lock == Some(false)
        }),
{
}

/// In a world, Escape toggles the pause flag: it resumes a paused client and pauses a
/// running one; without Escape, or out of a world, the flag stays as it was. Pausing
/// drops the wish to grab the cursor.
pub proof fn law_escape_toggles_pause(
    cursor: CursorGrabState,
    paused: bool,
    grabbed: bool,
    escape: bool,
    left_click: bool,
    connected: bool,
)
    ensures
        ({
            let s = spec_cursor_grab_step(cursor, paused, grabbed, escape, left_click, connected);
            &&& escape && connected ==> s.paused == !paused
            &&& !(escape && connected) ==> s.paused == paused
            &&& escape && connected && !paused ==> !s.cursor.want_grabbed && s.lock != Some(true)
        }),
{
}

/// Pressing Escape in a world on two frames in a row brings the pause flag back to where
/// it was.
pub proof fn law_escape_twice_restores_pause(
    cursor: CursorGrabState,
    paused: bool,
    grabbed: bool,
    left_click: bool,
    grabbed2: bool,
    left_click2: bool,
)
    ensures
        ({
            let s1 = spec_cursor_grab_step(cursor, paused, grabbed, true, left_click, true);
            let s2 = spec_cursor_grab_step(s1.cursor, s1.paused, grabbed2, true, left_click2, true);
            s2.paused == paused
        }),
{
}

/// What a menu button with a given label does.
#[derive(Debug, Clone, Copy, PartialEq, Eq, Structural)]
pub enum ButtonAction {
    OpenWorldSelect,
    StartDemoWorld,
    Quit,
    BackToGame,
    Disconnect,
    OpenServerList,
    BackToMainMenu,
    CreateNewWorld,
    Nothing,
}

/// The action of the menu button labelled `label`.
pub open spec fn spec_button_action(label: Seq<char>) -> ButtonAction {
    if label == "Single Player"@ {
        ButtonAction::OpenWorldSelect
    } else if label == "Demo World"@ {
        ButtonAction::StartDemoWorld
    } else if label == "Quit"@ {
        ButtonAction::Quit
    } else if label == "Back to Game"@ {
        ButtonAction::BackToGame
    } else if label == "Disconnect"@ {
        ButtonAction::Disconnect
    } else if label == "Multi Player"@ {
        ButtonAction::OpenServerList
    } else if label == "Back"@ {
        ButtonAction::BackToMainMenu
    } else if label == "Create New World"@ {
        ButtonAction::CreateNewWorld
    } else {
        ButtonAction::Nothing
    }
}

fn label_is(label: &str, name: &str) -> (r: bool)
    ensures
        r == (label@ == name@),
{
    label.to_owned() == name.to_owned()
}

pub fn button_action(label: &str) -> (r: ButtonAction)
    ensures
        r == spec_button_action(label@),
{
    if label_is(label, "Single Player") {
        ButtonAction::OpenWorldSelect
    } else if label_is(label, "Demo World") {
        ButtonAction::StartDemoWorld
    } else if label_is(label, "Quit") {
        ButtonAction::Quit
    } else if label_is(label, "Back to Game") {
        ButtonAction::BackToGame
    } else if label_is(label, "Disconnect") {
        ButtonAction::Disconnect
    } else if label_is(label, "Multi Player") {
        ButtonAction::OpenServerList
    } else if label_is(label, "Back") {
        ButtonAction::BackToMainMenu
    } else if label_is(label, "Create New World") {
        ButtonAction::CreateNewWorld
    } else {
        ButtonAction::Nothing
    }
}

/// A queued connection: the address, whether a local server must be started for it,
/// and the world directory that server should use.
#[derive(Debug, Clone, PartialEq, Eq)]
pub struct PendingConnection {
    pub address: String,
    pub start_server: bool,
    pub db_path: Option<String>,
}

/// Takes the first queued connection when one is queued and the client is neither
/// connected, connecting, nor starting a server; otherwise takes nothing.
pub fn take_pending_connect(
    pending: &mut Vec<PendingConnection>,
    connecting: bool,
    connected: bool,
    server_starting: bool,
) -> (r: Option<PendingConnection>)
    ensures
        (old(pending)@.len() > 0 && !connecting && !connected && !server_starting) ==> {
            &&& r == Some(old(pending)@[0])
            &&& final(pending)@ == old(pending)@.skip(1)
        },
        !(old(pending)@.len() > 0 && !connecting && !connected && !server_starting) ==> {
            &&& r.is_none()
            &&& final(pending)@ == old(pending)@
        },
{
    if pending.len() == 0 || connecting || connected || server_starting {
        return None;
    }
    let first = pending.remove(0);
    assert(pending@ =~= old(pending)@.skip(1));
    Some(first)
}

/// The world directory of a local server: the one asked for, or "world".
pub fn server_db_path(db_path: Option<String>) -> (r: String)
    ensures
        match db_path {
            Some(p) => r@ == p@,
            None => r@ == "world"@,
        },
{
    match db_path {
        Some(p) => p,
        None => "world".to_string(),
    }
}

/// The connection state of the client.
#[derive(Debug, Clone, Copy, PartialEq, Eq, Structural)]
pub struct ConnectionFlags {
    pub connected: bool,
    pub connecting: bool,
    pub paused: bool,
    pub want_grabbed: bool,
}

/// On connecting, the client is in a world and no longer connecting.
pub fn on_connected(flags: ConnectionFlags) -> (r: ConnectionFlags)
    ensures
        r == (ConnectionFlags { connected: true, connecting: false, ..flags }),
{
    ConnectionFlags { connected: true, connecting: false, ..flags }
}

/// On disconnecting, the client leaves the world: not connected, not connecting, not
/// paused, and not asking to grab the cursor.
pub fn on_disconnected(flags: ConnectionFlags) -> (r: ConnectionFlags)
    ensures
        r == (ConnectionFlags { connected: false, connecting: false, paused: false, want_grabbed: false }),
{
    ConnectionFlags { connected: false, connecting: false, paused: false, want_grabbed: false }
}

/// On the Disconnect button, the client leaves the world and unpauses; the cursor wish
/// is left as it is.
pub fn on_disconnect_button(flags: ConnectionFlags) -> (r: ConnectionFlags)
    ensures
        r == (ConnectionFlags { connected: false, connecting: false, paused: false, ..flags }),
{
    ConnectionFlags { connected: false, connecting: false, paused: false, ..flags }
}

/// On the Back to Game button, the pause menu closes and the cursor is asked for.
pub fn on_back_to_game(flags: ConnectionFlags) -> (r: ConnectionFlags)
    ensures
        r == (ConnectionFlags { paused: false, want_grabbed: true, ..flags }),
{
    ConnectionFlags { paused: false, want_grabbed: true, ..flags }
}

/// LAN servers are listed while the server list is on screen and the client is not in
/// a world.
pub open spec fn lan_listing_active(screen: UiScreen, connected: bool) -> bool {
    screen == UiScreen::ServerList && !connected
}

/// Refreshes the listed LAN servers: while listing, newly discovered servers replace the
/// list; otherwise a non-empty list is cleared. Each change bumps `generation`.
pub fn lan_refresh<T>(
    screen: UiScreen,
    connected: bool,
    discovered: Vec<T>,
    servers: &mut Vec<T>,
    generation: &mut u64,
)
    requires
        *old(generation) < u64::MAX,
    ensures
        lan_listing_active(screen, connected) && discovered@.len() > 0 ==> {
            &&& final(servers)@ == discovered@
            &&& *final(generation) == *old(generation) + 1
        },
        lan_listing_active(screen, connected) && discovered@.len() == 0 ==> {
            &&& final(servers)@ == old(servers)@
            &&& *final(generation) == *old(generation)
        },
        !lan_listing_active(screen, connected) && old(servers)@.len() > 0 ==> {
            &&& final(servers)@.len() == 0
            &&& *final(generation) == *old(generation) + 1
        },
        !lan_listing_active(screen, connected) && old(servers)@.len() == 0 ==> {
            &&& final(servers)@ == old(servers)@
            &&& *final(generation) == *old(generation)
        },
{
    let active = screen == UiScreen::ServerList && !connected;
    if active {
        if discovered.len() > 0 {
            *servers = discovered;
            *generation = *generation + 1;
        }
    } else if servers.len() > 0 {
        servers.clear();
        *generation = *generation + 1;
    }
}

/// The compass direction and axis text for a yaw of `deg` whole degrees (0 to 360):
/// south around 0 degrees, then southwest, west, northwest, north, northeast, east and
/// southeast in 45-degree sectors; "Unknown" past 360.
pub open spec fn spec_facing(deg: u32) -> (Seq<char>, Seq<char>) {
    if deg <= 22 || (338 <= deg && deg <= 360) {
        ("South"@, "Towards positive Z"@)
    } else if deg <= 67 {
        ("Southwest"@, "Towards positive Z / negative X"@)
    } else if deg <= 112 {
        ("West"@, "Towards negative X"@)
    } else if deg <= 157 {
        ("Northwest"@, "Towards negative X / negative Z"@)
    } else if deg <= 202 {
        ("North"@, "Towards negative Z"@)
    } else if deg <= 247 {
        ("Northeast"@, "Towards negative Z / positive X"@)
    } else if deg <= 292 {
        ("East"@, "Towards positive X"@)
    } else if deg <= 337 {
        ("Southeast"@, "Towards positive X / positive Z"@)
    } else {
        ("Unknown"@, "Unknown"@)
    }
}

/// The compass point opposite `name`.
pub open spec fn opposite_compass(name: Seq<char>) -> Seq<char> {
    if name == "South"@ {
        "North"@
    } else if name == "North"@ {
        "South"@
    } else if name == "West"@ {
        "East"@
    } else if name == "East"@ {
        "West"@
    } else if name == "Southwest"@ {
        "Northeast"@
    } else if name == "Northeast"@ {
        "Southwest"@
    } else if name == "Northwest"@ {
        "Southeast"@
    } else if name == "Southeast"@ {
        "Northwest"@
    } else {
        name
    }
}

/// Turning half a circle faces the opposite way: for every yaw from 0 to 180 degrees,
/// the yaw 180 degrees further shows the opposite compass point.
pub proof fn law_half_turn_faces_opposite(deg: u32)
    requires
        deg <= 180,
    ensures
        spec_facing((deg + 180) as u32).0 == opposite_compass(spec_facing(deg).0),
{
    reveal_strlit("South");
    reveal_strlit("North");
    reveal_strlit("West");
    reveal_strlit("East");
    reveal_strlit("Southwest");
    reveal_strlit("Northeast");
    reveal_strlit("Northwest");
    reveal_strlit("Southeast");
    assert("South"@.len() == 5 && "North"@.len() == 5 && "West"@.len() == 4 && "East"@.len() == 4);
    assert("Southwest"@.len() == 9 && "Northeast"@.len() == 9 && "Northwest"@.len() == 9
        && "Southeast"@.len() == 9);
    assert("South"@[0] != "North"@[0] && "West"@[0] != "East"@[0]);
    assert("Southwest"@[0] != "Northeast"@[0] && "Southwest"@[5] != "Southeast"@[5]);
    assert("Northwest"@[0] != "Southwest"@[0] && "Northwest"@[5] != "Northeast"@[5]);
    assert("Northeast"@[0] != "Southeast"@[0]);
}

/// The compass direction and axis text shown for a yaw of `deg` whole degrees.
pub fn facing_names(deg: u32) -> (r: (&'static str, &'static str))
    ensures
        (r.0@, r.1@) == spec_facing(deg),
{
    if deg <= 22 || (338 <= deg && deg <= 360) {
        ("South", "Towards positive Z")
    } else if deg <= 67 {
        ("Southwest", "Towards positive Z / negative X")
    } else if deg <= 112 {
        ("West", "Towards negative X")
    } else if deg <= 157 {
        ("Northwest", "Towards negative X / negative Z")
    } else if deg <= 202 {
        ("North", "Towards negative Z")
    } else if deg <= 247 {
        ("Northeast", "Towards negative Z / positive X")
    } else if deg <= 292 {
        ("East", "Towards positive X")
    } else if deg <= 337 {
        ("Southeast", "Towards positive X / positive Z")
    } else {
        ("Unknown", "Unknown")
    }
}

/// The last error to show on the main menu, if any.
pub struct UiRes {
    pub last_error: Option<String>,
}

/// Whether the pause menu is open.
pub struct PauseMenuOpen(pub bool);

/// The current menu screen.
pub struct UiScreenState(pub UiScreen);

impl Default for UiScreenState {
    fn default() -> (r: Self)
        ensures
            r.0 == UiScreen::MainMenu,
    {
        Self(UiScreen::MainMenu)
    }
}

/// The address of the LAN server selected in the server list.
pub struct SelectedServer(pub Option<String>);

impl Default for SelectedServer {
    fn default() -> (r: Self)
        ensures
            r.0 is None,
    {
        Self(None)
    }
}

/// The directory of the world selected in the world list.
pub struct SelectedWorld(pub Option<String>);

impl Default for SelectedWorld {
    fn default() -> (r: Self)
        ensures
            r.0 is None,
    {
        Self(None)
    }
}

/// The player's entity id and game mode, once the server has sent them.
pub struct PlayerInfoRes {
    pub entity_id: Option<i32>,
    pub game_mode: Option<u8>,
}

impl Default for PlayerInfoRes {
    fn default() -> (r: Self)
        ensures
            r.entity_id is None,
            r.game_mode is None,
    {
        Self { entity_id: None, game_mode: None }
    }
}

/// The number of chunks loaded.
pub struct ChunkCount(pub usize);

impl Default for ChunkCount {
    fn default() -> (r: Self)
        ensures
            r.0 == 0,
    {
        Self(0)
    }
}

/// Whether the debug overlay is shown.
pub struct DebugOverlayVisible(pub bool);

/// The connections waiting to be started, first first.
pub struct PendingConnect(pub Vec<PendingConnection>);

impl Default for PendingConnect {
    fn default() -> (r: Self)
        ensures
            r.0@.len() == 0,
    {
        Self(Vec::new())
    }
}

} // verus!
