use pdm::app::{
    App, ConfigSection, CurrentScreen, Effect, FileExplorerState, KeyCode, KeyInput, MouseInput, Rect,
};
use pdm::components::file_explorer::{DirListing, EntryKind, ExplorerEntry};

fn key(code: KeyCode) -> KeyInput {
    KeyInput { code, ctrl: false }
}

fn ctrl_s() -> KeyInput {
    KeyInput {
        code: KeyCode::Char('s'),
        ctrl: true,
    }
}

fn click(column: u16, row: u16) -> MouseInput {
    MouseInput {
        column,
        row,
        left_press: true,
    }
}

fn listing() -> DirListing {
    DirListing {
        parent: Some("/home".to_string()),
        entries: vec![
            ExplorerEntry {
                path: "/home/me/bitcoin.conf".to_string(),
                name: "bitcoin.conf".to_string(),
                kind: EntryKind::File,
            },
            ExplorerEntry {
                path: "/home/me/folder".to_string(),
                name: "folder".to_string(),
                kind: EntryKind::Directory,
            },
        ],
    }
}

fn new_app() -> App {
    App::new(FileExplorerState::new("/home/me".to_string(), listing()))
}

fn editing_app(text: &str) -> App {
    let mut app = new_app();
    app.open_config("/home/me/bitcoin.conf".to_string(), text);
    app
}

fn section_index(app: &App, name: &str) -> usize {
    app.sections.iter().position(|s| s.name == name).unwrap()
}

fn item_index(app: &App, key: &str) -> usize {
    app.sections[app.selected_section_index]
        .items
        .iter()
        .position(|e| e.key == key)
        .unwrap()
}

#[test]
fn home_quits_on_q_and_escape() {
    let mut app = new_app();
    assert_eq!(app.handle_key_event(key(KeyCode::Char('x'))), Effect::Nothing);
    assert!(app.running);
    app.handle_key_event(key(KeyCode::Esc));
    assert!(!app.running);
    let mut app = new_app();
    app.handle_key_event(key(KeyCode::Char('q')));
    assert!(!app.running);
}

#[test]
fn sidebar_moves_between_home_and_config() {
    let mut app = new_app();
    assert_eq!(app.dispatch_key(key(KeyCode::Down)), Effect::Nothing);
    assert_eq!(app.sidebar_index, 1);
    assert_eq!(app.current_screen, CurrentScreen::BitcoinConfig);
    app.dispatch_key(key(KeyCode::Down));
    assert_eq!(app.sidebar_index, 1);
    app.dispatch_key(key(KeyCode::Up));
    assert_eq!(app.sidebar_index, 0);
    assert_eq!(app.current_screen, CurrentScreen::Home);
    app.dispatch_key(key(KeyCode::Char('q')));
    assert!(!app.running);
}

#[test]
fn config_screen_enter_opens_explorer() {
    let mut app = new_app();
    app.sidebar_index = 1;
    app.toggle_menu();
    assert_eq!(app.current_screen, CurrentScreen::BitcoinConfig);
    assert_eq!(app.handle_key_event(key(KeyCode::Enter)), Effect::RefreshFiles);
    assert_eq!(app.current_screen, CurrentScreen::FileExplorer);
    assert_eq!(app.config_flow_return_screen, CurrentScreen::BitcoinConfig);
    app.handle_key_event(key(KeyCode::Esc));
    assert_eq!(app.current_screen, CurrentScreen::BitcoinConfig);
}

#[test]
fn explorer_keys_move_enter_and_open() {
    let mut app = new_app();
    app.current_screen = CurrentScreen::FileExplorer;
    // entries: "..", "folder", "bitcoin.conf"
    assert_eq!(app.file_explorer.files.len(), 3);
    assert_eq!(app.file_explorer.list_state.selected(), Some(0));
    app.handle_key_event(key(KeyCode::Up));
    assert_eq!(app.file_explorer.list_state.selected(), Some(2));
    assert_eq!(
        app.handle_key_event(key(KeyCode::Enter)),
        Effect::OpenFile("/home/me/bitcoin.conf".to_string())
    );
    assert_eq!(app.current_screen, CurrentScreen::FileExplorer);
    app.handle_key_event(key(KeyCode::Down));
    app.handle_key_event(key(KeyCode::Down));
    assert_eq!(app.file_explorer.list_state.selected(), Some(1));
    assert_eq!(app.handle_key_event(key(KeyCode::Enter)), Effect::RefreshFiles);
    assert_eq!(app.file_explorer.current_dir, "/home/me/folder");
    assert_eq!(app.file_explorer.list_state.selected(), Some(0));
}

#[test]
fn refresh_keeps_or_clamps_selection() {
    let mut state = FileExplorerState::new("/home/me".to_string(), listing());
    state.list_state.select(Some(2));
    state.refresh_files(DirListing {
        parent: None,
        entries: vec![],
    });
    assert_eq!(state.list_state.selected(), None);
    state.list_state.select(Some(5));
    state.refresh_files(listing());
    assert_eq!(state.list_state.selected(), Some(2));
    state.list_state.select(Some(1));
    state.refresh_files(listing());
    assert_eq!(state.list_state.selected(), Some(1));
}

#[test]
fn open_config_shows_editor_with_cursors_at_start() {
    let app = editing_app("rpcport=1\n");
    assert_eq!(app.current_screen, CurrentScreen::Editing);
    assert_eq!(app.config_file_path, Some("/home/me/bitcoin.conf".to_string()));
    assert_eq!(app.selected_section_index, 0);
    assert_eq!(app.selected_item_index, 0);
    assert_eq!(app.config_list_state.selected(), Some(0));
    assert_eq!(app.sections[0].name, "Core");
}

#[test]
fn section_navigation_is_cyclic() {
    let mut app = editing_app("");
    let n = app.sections.len();
    assert_eq!(n, 7);
    app.selected_section_index = 3;
    for _ in 0..n {
        app.handle_key_event(key(KeyCode::Right));
    }
    assert_eq!(app.selected_section_index, 3);
    app.selected_section_index = 0;
    app.handle_key_event(key(KeyCode::Left));
    assert_eq!(app.selected_section_index, n - 1);
    app.handle_key_event(key(KeyCode::Tab));
    assert_eq!(app.selected_section_index, 0);
    assert_eq!(app.selected_item_index, 0);
}

#[test]
fn item_navigation_is_cyclic() {
    let mut app = editing_app("");
    let n = app.sections[0].items.len();
    assert_eq!(n, 7);
    for _ in 0..n {
        app.handle_key_event(key(KeyCode::Down));
    }
    assert_eq!(app.selected_item_index, 0);
    app.handle_key_event(key(KeyCode::Up));
    assert_eq!(app.selected_item_index, n - 1);
    assert_eq!(app.config_list_state.selected(), Some(n - 1));
}

#[test]
fn boolean_activation_twice_restores_value() {
    let mut app = editing_app("");
    app.selected_item_index = item_index(&app, "txindex");
    let i = app.selected_item_index;
    assert_eq!(app.sections[0].items[i].value, "0");
    assert!(!app.sections[0].items[i].enabled);
    app.handle_key_event(key(KeyCode::Enter));
    assert_eq!(app.sections[0].items[i].value, "1");
    assert!(app.sections[0].items[i].enabled);
    assert_eq!(app.current_screen, CurrentScreen::Editing);
    app.handle_key_event(key(KeyCode::Enter));
    assert_eq!(app.sections[0].items[i].value, "0");
    assert!(app.sections[0].items[i].enabled);
}

#[test]
fn space_toggles_enabled() {
    let mut app = editing_app("");
    app.handle_key_event(key(KeyCode::Char(' ')));
    assert!(app.sections[0].items[0].enabled);
    app.handle_key_event(key(KeyCode::Char(' ')));
    assert!(!app.sections[0].items[0].enabled);
}

#[test]
fn value_editor_types_commits_and_cancels() {
    let mut app = editing_app("dbcache=100\n");
    app.selected_item_index = item_index(&app, "dbcache");
    let i = app.selected_item_index;
    app.handle_key_event(key(KeyCode::Enter));
    assert_eq!(app.current_screen, CurrentScreen::EditingValue);
    assert_eq!(app.editing_value, "100");
    app.handle_key_event(key(KeyCode::Backspace));
    app.handle_key_event(key(KeyCode::Char('5')));
    // `q` is typed here rather than ending the session.
    app.dispatch_key(key(KeyCode::Char('q')));
    assert!(app.running);
    assert_eq!(app.editing_value, "105q");
    app.handle_key_event(key(KeyCode::Esc));
    assert_eq!(app.current_screen, CurrentScreen::Editing);
    assert_eq!(app.sections[0].items[i].value, "100");

    app.handle_key_event(key(KeyCode::Enter));
    app.handle_key_event(key(KeyCode::Char('0')));
    app.handle_key_event(key(KeyCode::Enter));
    assert_eq!(app.current_screen, CurrentScreen::Editing);
    assert_eq!(app.sections[0].items[i].value, "1000");
    assert!(app.sections[0].items[i].enabled);
}

#[test]
fn save_chord_commits_and_asks_for_save() {
    let mut app = editing_app("prune=5\n");
    app.selected_item_index = item_index(&app, "prune");
    let i = app.selected_item_index;
    app.handle_key_event(key(KeyCode::Enter));
    app.handle_key_event(key(KeyCode::Char('0')));
    assert_eq!(app.handle_key_event(ctrl_s()), Effect::Save);
    assert_eq!(app.current_screen, CurrentScreen::Editing);
    assert_eq!(app.sections[0].items[i].value, "50");
    let (path, content) = app.save_config().unwrap();
    assert_eq!(path, "/home/me/bitcoin.conf");
    assert_eq!(content, "# Section: Core\nprune=50\n\n");
    app.config_saved();
    assert_eq!(
        app.notification,
        Some("Configuration saved successfully.".to_string())
    );
    assert_eq!(app.handle_key_event(ctrl_s()), Effect::Save);
    assert!(app.notification.is_some());
    app.handle_key_event(key(KeyCode::Down));
    assert!(app.notification.is_none());
}

#[test]
fn save_without_file_gives_nothing() {
    let app = new_app();
    assert!(app.save_config().is_none());
}

#[test]
fn pointer_on_button_opens_explorer() {
    let mut app = new_app();
    app.interactive_rects.select_config_button = Some(Rect {
        x: 10,
        y: 5,
        width: 20,
        height: 3,
    });
    assert_eq!(app.handle_mouse_event(click(9, 6)), Effect::Nothing);
    assert_eq!(app.current_screen, CurrentScreen::Home);
    assert_eq!(app.handle_mouse_event(click(10, 6)), Effect::RefreshFiles);
    assert_eq!(app.current_screen, CurrentScreen::FileExplorer);
    assert_eq!(app.config_flow_return_screen, CurrentScreen::Home);
}

#[test]
fn pointer_on_file_list_selects_row() {
    let mut app = new_app();
    app.current_screen = CurrentScreen::FileExplorer;
    app.interactive_rects.file_list = Some(Rect {
        x: 0,
        y: 2,
        width: 40,
        height: 10,
    });
    app.handle_mouse_event(click(5, 4));
    assert_eq!(app.file_explorer.list_state.selected(), Some(1));
    // The border row and rows past the last entry do nothing.
    app.handle_mouse_event(click(5, 2));
    app.handle_mouse_event(click(5, 8));
    assert_eq!(app.file_explorer.list_state.selected(), Some(1));
}

#[test]
fn pointer_on_tabs_and_list_moves_cursors() {
    let mut app = editing_app("");
    // Tabs: "Core" at 1..8, "Debug" at 9..17, "Mining" at 18..27.
    app.interactive_rects.tabs = Some(Rect {
        x: 0,
        y: 0,
        width: 80,
        height: 3,
    });
    app.interactive_rects.config_list = Some(Rect {
        x: 0,
        y: 3,
        width: 40,
        height: 12,
    });
    app.handle_mouse_event(click(20, 1));
    assert_eq!(app.selected_section_index, 2);
    app.handle_mouse_event(click(8, 1));
    assert_eq!(app.selected_section_index, 2);
    app.handle_mouse_event(click(9, 1));
    assert_eq!(app.selected_section_index, 1);
    app.handle_mouse_event(click(3, 6));
    assert_eq!(app.selected_item_index, 2);
    assert_eq!(app.config_list_state.selected(), Some(2));
    let released = MouseInput {
        column: 3,
        row: 5,
        left_press: false,
    };
    app.handle_mouse_event(released);
    assert_eq!(app.selected_item_index, 2);
    assert_eq!(section_index(&app, "Debug"), 1);
}

#[test]
fn tabs_are_measured_in_bytes() {
    let mut app = editing_app("");
    let items = app.sections[0].items.clone();
    app.sections = vec![
        ConfigSection {
            name: "é".to_string(),
            items: items.clone(),
        },
        ConfigSection {
            name: "b".to_string(),
            items,
        },
    ];
    app.selected_section_index = 1;
    app.interactive_rects.tabs = Some(Rect {
        x: 0,
        y: 0,
        width: 80,
        height: 3,
    });
    // "é" is two bytes wide: its tab covers columns 1 to 5; "b" starts at 7.
    app.handle_mouse_event(click(5, 1));
    assert_eq!(app.selected_section_index, 0);
    app.handle_mouse_event(click(6, 1));
    assert_eq!(app.selected_section_index, 0);
    app.handle_mouse_event(click(7, 1));
    assert_eq!(app.selected_section_index, 1);
}
