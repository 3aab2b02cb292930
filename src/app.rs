//! The session: which screen is shown, the loaded sections and the cursors over
//! them, the file browser, and how each key or pointer press changes them.
//!
//! The terminal, the disk and the drawing stay outside: a handler returns an
//! [`Effect`] naming the work it needs done, and the caller hands results back.
use crate::components::file_explorer::{
    arrange_listing, arranged, DirListing, EntryKind, ExplorerEntry,
};
use crate::config::{entry_models, parse_config, parse_model, ConfigEntry, ConfigType, EntryModel};
use crate::grouping::is_bucketing;
use crate::navigation::{next_index, prev_index, step_next, step_previous, ListCursor};
use crate::schema::default_schema_model;
use crate::sections::{group_entries, section_groups, serialize_model, serialize_sections};
use crate::text::{pop_char, push_char};
use vstd::prelude::*;
use vstd::utf8::encode_utf8;

pub use crate::sections::ConfigSection;

verus! {

/// The screens of the session.
#[derive(Clone, Copy, Debug, Default, PartialEq, Eq, Structural)]
pub enum CurrentScreen {
    #[default]
    Home,
    BitcoinConfig,
    FileExplorer,
    Editing,
    EditingValue,
}

/// A rectangle of terminal cells.
#[derive(Clone, Copy, Debug, Default, PartialEq, Eq, Structural)]
pub struct Rect {
    pub x: u16,
    pub y: u16,
    pub width: u16,
    pub height: u16,
}

/// `a + b`, held at `u16::MAX`.
pub open spec fn sat_add(a: u16, b: u16) -> int {
    if a + b > u16::MAX {
        u16::MAX as int
    } else {
        a + b
    }
}

impl Rect {
    /// The cell at `column`, `row` lies inside (the right and bottom edges held at
    /// the last cell of the screen).
    pub open spec fn holds(self, column: u16, row: u16) -> bool {
        self.x <= column < sat_add(self.x, self.width) && self.y <= row < sat_add(
            self.y,
            self.height,
        )
    }

    /// Whether the cell at `column`, `row` lies inside.
    pub fn contains(&self, column: u16, row: u16) -> (r: bool)
        ensures
            r == self.holds(column, row),
    {
        column >= self.x && column < self.x.saturating_add(self.width) && row >= self.y && row
            < self.y.saturating_add(self.height)
    }

    /// The row lies strictly between the top and bottom borders.
    pub open spec fn inner_row(self, row: u16) -> bool {
        self.y < row && row < self.y + self.height - 1
    }
}

/// Where the last frame drew the widgets that take pointer presses.
#[derive(Clone, Copy, Debug, Default)]
pub struct InteractiveRects {
    pub select_config_button: Option<Rect>,
    pub file_list: Option<Rect>,
    pub tabs: Option<Rect>,
    pub config_list: Option<Rect>,
}

/// The file browser of the session: the directory shown, its entries and the list cursor.
#[derive(Clone, Debug)]
pub struct FileExplorerState {
    pub current_dir: String,
    pub files: Vec<ExplorerEntry>,
    pub list_state: ListCursor,
}

/// The selection kept after the entries change to `n` of them: the old one where it
/// is still in range, else the last entry, or none where there is no entry.
pub open spec fn kept_selection(old: Option<usize>, n: int) -> Option<usize> {
    if n == 0 {
        None
    } else {
        let s = match old {
            Some(i) => i as int,
            None => 0,
        };
        if s >= n {
            Some((n - 1) as usize)
        } else {
            Some(s as usize)
        }
    }
}

impl FileExplorerState {
    /// A browser at `current_dir` showing `listing`, the first entry selected.
    pub fn new(current_dir: String, listing: DirListing) -> (r: FileExplorerState)
        ensures
            r.current_dir == current_dir,
            arranged(r.files@, listing),
            r.list_state.selected == Some(0usize),
    {
        let mut state = FileExplorerState { current_dir, files: Vec::new(), list_state: ListCursor::new() };
        state.refresh_files(listing);
        state.list_state.select(Some(0));
        state
    }

    /// Shows `listing` as the entries of the current directory, keeping the
    /// selection where it is still in range.
    pub fn refresh_files(&mut self, listing: DirListing)
        ensures
            final(self).current_dir == old(self).current_dir,
            arranged(final(self).files@, listing),
            final(self).list_state.selected == kept_selection(
                old(self).list_state.selected,
                final(self).files.len() as int,
            ),
            final(self).list_state.selected is Some ==> final(self).list_state.offset == old(
                self,
            ).list_state.offset,
    {
        self.files = arrange_listing(listing);
        let n = self.files.len();
        if n == 0 {
            self.list_state.select(None);
        } else {
            let selected = match self.list_state.selected() {
                Some(i) => i,
                None => 0,
            };
            if selected >= n {
                self.list_state.select(Some(n - 1));
            } else {
                self.list_state.select(Some(selected));
            }
        }
    }

    /// Moves the selection to the next entry, wrapping to the first; selects the
    /// first where none is selected. Does nothing without entries.
    pub fn select_next(&mut self)
        ensures
            final(self).current_dir == old(self).current_dir,
            final(self).files == old(self).files,
            old(self).files.len() == 0 ==> final(self).list_state == old(self).list_state,
            old(self).files.len() > 0 ==> final(self).list_state.selected == Some(
                match old(self).list_state.selected {
                    Some(i) => next_index(i as int, old(self).files.len() as int) as usize,
                    None => 0usize,
                },
            ),
            final(self).list_state.offset == old(self).list_state.offset,
    {
        if self.files.len() == 0 {
            return;
        }
        let i = match self.list_state.selected() {
            Some(i) => step_next(i, self.files.len()),
            None => 0,
        };
        self.list_state.select(Some(i));
    }

    /// Moves the selection to the previous entry, wrapping to the last; selects the
    /// first where none is selected. Does nothing without entries.
    pub fn select_previous(&mut self)
        ensures
            final(self).current_dir == old(self).current_dir,
            final(self).files == old(self).files,
            old(self).files.len() == 0 ==> final(self).list_state == old(self).list_state,
            old(self).files.len() > 0 ==> final(self).list_state.selected == Some(
                match old(self).list_state.selected {
                    Some(i) => prev_index(i as int, old(self).files.len() as int) as usize,
                    None => 0usize,
                },
            ),
            final(self).list_state.offset == old(self).list_state.offset,
    {
        if self.files.len() == 0 {
            return;
        }
        let i = match self.list_state.selected() {
            Some(i) => step_previous(i, self.files.len()),
            None => 0,
        };
        self.list_state.select(Some(i));
    }
}

impl Default for FileExplorerState {
    fn default() -> (r: FileExplorerState)
        ensures
            r.current_dir@ == "."@,
            r.files@.len() == 0,
            r.list_state.selected == Some(0usize),
    {
        let mut state = FileExplorerState {
            current_dir: ".".to_owned(),
            files: Vec::new(),
            list_state: ListCursor::new(),
        };
        state.list_state.select(Some(0));
        state
    }
}

/// A key, as the session tells keys apart.
#[derive(Clone, Copy, Debug, PartialEq, Eq, Structural)]
pub enum KeyCode {
    Char(char),
    Enter,
    Esc,
    Up,
    Down,
    Left,
    Right,
    Tab,
    BackTab,
    Backspace,
    Other,
}

/// A key press, and whether the control key was held.
#[derive(Clone, Copy, Debug, PartialEq, Eq, Structural)]
pub struct KeyInput {
    pub code: KeyCode,
    pub ctrl: bool,
}

/// A pointer event at a cell: whether it is a press of the left button.
#[derive(Clone, Copy, Debug, PartialEq, Eq, Structural)]
pub struct MouseInput {
    pub column: u16,
    pub row: u16,
    pub left_press: bool,
}

/// Work that a handler leaves to the caller.
#[derive(Clone, Debug, PartialEq, Eq)]
pub enum Effect {
    Nothing,
    /// List `file_explorer.current_dir` and hand it to `file_explorer.refresh_files`.
    RefreshFiles,
    /// Read this file and hand its text to `open_config` (empty text where the file
    /// does not exist); leave all as it is where it exists but cannot be read.
    OpenFile(String),
    /// Write what `save_config` gives, and call `config_saved` once it is written.
    Save,
}

/// The whole state of a session.
pub struct App {
    pub current_screen: CurrentScreen,
    pub sidebar_index: usize,
    pub config_flow_return_screen: CurrentScreen,
    pub sections: Vec<ConfigSection>,
    pub selected_section_index: usize,
    pub selected_item_index: usize,
    pub editing_value: String,
    pub config_list_state: ListCursor,
    pub config_file_path: Option<String>,
    pub notification: Option<String>,
    pub interactive_rects: InteractiveRects,
    pub file_explorer: FileExplorerState,
    pub running: bool,
}

/// The session with the screen of its sidebar entry shown: the first is home, the
/// second the configuration screen.
pub open spec fn menu_shown(a: App) -> App {
    if a.sidebar_index == 0 {
        App { current_screen: CurrentScreen::Home, ..a }
    } else if a.sidebar_index == 1 {
        App { current_screen: CurrentScreen::BitcoinConfig, ..a }
    } else {
        a
    }
}

/// The save chord, control and `s`.
pub open spec fn is_save_chord(key: KeyInput) -> bool {
    key.ctrl && key.code == KeyCode::Char('s')
}

/// The value of a boolean entry after it is activated.
pub open spec fn toggled_bool(v: Seq<char>) -> Seq<char> {
    if v == "1"@ {
        "0"@
    } else {
        "1"@
    }
}

/// The entry takes a boolean value.
pub open spec fn is_boolean(e: EntryModel) -> bool {
    match e.schema {
        Some(s) => s.value_type == ConfigType::Boolean,
        None => false,
    }
}

/// `new` is `old` with entry `i` of section `s` replaced by one whose model is `m`.
pub open spec fn entry_updated(
    old: Seq<ConfigSection>,
    new: Seq<ConfigSection>,
    s: int,
    i: int,
    m: EntryModel,
) -> bool {
    &&& new.len() == old.len()
    &&& forall|t: int| 0 <= t < old.len() && t != s ==> new[t] == old[t]
    &&& new[s].name == old[s].name
    &&& new[s].items@.len() == old[s].items@.len()
    &&& forall|j: int| 0 <= j < old[s].items@.len() && j != i ==> new[s].items@[j] == old[s].items@[j]
    &&& new[s].items@[i]@ == m
}

impl App {
    /// Number of entries in the section shown, or zero where there is none.
    pub open spec fn item_count(self) -> int {
        if self.selected_section_index < self.sections@.len() {
            self.sections@[self.selected_section_index as int].items@.len() as int
        } else {
            0
        }
    }

    /// The section cursor is on a section whenever there is one, and the entry
    /// cursor on an entry whenever the section shown has one.
    pub open spec fn cursors_in_range(self) -> bool {
        &&& self.sections@.len() > 0 ==> self.selected_section_index < self.sections@.len()
        &&& self.item_count() > 0 ==> self.selected_item_index < self.item_count()
    }

    /// The cursor points at an entry.
    pub open spec fn has_current_entry(self) -> bool {
        self.selected_item_index < self.item_count()
    }

    /// The entry under the cursor.
    pub open spec fn current_entry(self) -> ConfigEntry {
        self.sections@[self.selected_section_index as int].items@[self.selected_item_index as int]
    }

    /// A session on the home screen, with nothing loaded.
    pub fn new(file_explorer: FileExplorerState) -> (r: App)
        ensures
            r.current_screen == CurrentScreen::Home,
            r.config_flow_return_screen == CurrentScreen::Home,
            r.sidebar_index == 0,
            r.sections@.len() == 0,
            r.selected_section_index == 0,
            r.selected_item_index == 0,
            r.editing_value@.len() == 0,
            r.config_list_state == ListCursor::new_spec(),
            r.config_file_path is None,
            r.notification is None,
            r.file_explorer == file_explorer,
            r.running,
    {
        App {
            current_screen: CurrentScreen::Home,
            sidebar_index: 0,
            config_flow_return_screen: CurrentScreen::Home,
            sections: Vec::new(),
            selected_section_index: 0,
            selected_item_index: 0,
            editing_value: String::new(),
            config_list_state: ListCursor::new(),
            config_file_path: None,
            notification: None,
            interactive_rects: InteractiveRects {
                select_config_button: None,
                file_list: None,
                tabs: None,
                config_list: None,
            },
            file_explorer,
            running: true,
        }
    }

    /// Shows the screen of the sidebar entry: the first is home, the second the
    /// configuration screen.
    pub fn toggle_menu(&mut self)
        ensures
            *final(self) == menu_shown(*old(self)),
    {
        if self.sidebar_index == 0 {
            self.current_screen = CurrentScreen::Home;
        } else if self.sidebar_index == 1 {
            self.current_screen = CurrentScreen::BitcoinConfig;
        }
    }

    /// Loads the text of a configuration file: its entries, grouped into sections in
    /// ascending order of name, with both cursors on the first.
    pub fn load_config(&mut self, content: &str)
        ensures
            exists|es: Seq<ConfigEntry>|
                entry_models(es) == parse_model(content@, default_schema_model()) && is_bucketing(
                    section_groups(final(self).sections@),
                    es,
                ),
            *final(self) == (App {
                sections: final(self).sections,
                selected_section_index: 0,
                selected_item_index: 0,
                config_list_state: ListCursor { selected: Some(0usize), ..old(self).config_list_state },
                ..*old(self)
            }),
            final(self).cursors_in_range(),
    {
        let entries = parse_config(content);
        let ghost es = entries@;
        self.sections = group_entries(entries);
        self.selected_section_index = 0;
        self.selected_item_index = 0;
        self.config_list_state.select(Some(0));
    }

    /// Loads the text of the file at `path`, remembers the path for saving, and
    /// shows the editor.
    pub fn open_config(&mut self, path: String, content: &str)
        ensures
            exists|es: Seq<ConfigEntry>|
                entry_models(es) == parse_model(content@, default_schema_model()) && is_bucketing(
                    section_groups(final(self).sections@),
                    es,
                ),
            *final(self) == (App {
                sections: final(self).sections,
                selected_section_index: 0,
                selected_item_index: 0,
                config_list_state: ListCursor { selected: Some(0usize), ..old(self).config_list_state },
                config_file_path: Some(path),
                current_screen: CurrentScreen::Editing,
                ..*old(self)
            }),
            final(self).cursors_in_range(),
    {
        self.load_config(content);
        self.config_file_path = Some(path);
        self.current_screen = CurrentScreen::Editing;
    }

    /// Where to save and what to write there; nothing where no file is open.
    pub fn save_config(&self) -> (r: Option<(String, String)>)
        ensures
            self.config_file_path is None ==> r is None,
            self.config_file_path matches Some(p) ==> r matches Some(w) && w.0 == p && w.1@
                == serialize_model(self.sections@),
    {
        match &self.config_file_path {
            Some(p) => Some((p.clone(), serialize_sections(&self.sections))),
            None => None,
        }
    }

    /// Tells the user that the configuration was written.
    pub fn config_saved(&mut self)
        ensures
            final(self).notification matches Some(n) && n@ == "Configuration saved successfully."@,
            *final(self) == (App { notification: final(self).notification, ..*old(self) }),
    {
        self.notification = Some("Configuration saved successfully.".to_owned());
    }
}

/// The session before a key is handled: the notice goes away on any key but the
/// save chord.
pub open spec fn cleared(a: App, key: KeyInput) -> App {
    if is_save_chord(key) {
        a
    } else {
        App { notification: None, ..a }
    }
}

/// The session with the section at `idx` shown and the cursor on its first entry;
/// as it was where there is no section.
pub open spec fn section_moved(a: App, idx: int) -> App {
    if a.sections@.len() == 0 {
        a
    } else {
        App {
            selected_section_index: idx as usize,
            selected_item_index: 0,
            config_list_state: ListCursor { selected: Some(0usize), ..a.config_list_state },
            ..a
        }
    }
}

/// The session with the entry cursor at `idx`; as it was where the section shown
/// has no entry.
pub open spec fn item_moved(a: App, idx: int) -> App {
    if a.item_count() == 0 {
        a
    } else {
        App {
            selected_item_index: idx as usize,
            config_list_state: ListCursor { selected: Some(idx as usize), ..a.config_list_state },
            ..a
        }
    }
}

/// `b` is `a` with the entry under the cursor replaced by one whose model is `m`.
pub open spec fn current_entry_set(a: App, b: App, m: EntryModel) -> bool {
    &&& entry_updated(
        a.sections@,
        b.sections@,
        a.selected_section_index as int,
        a.selected_item_index as int,
        m,
    )
    &&& b == App { sections: b.sections, ..a }
}

/// `b` is `a` with the edit buffer written into the entry under the cursor, which
/// is enabled, where there is one.
pub open spec fn committed(a: App, b: App) -> bool {
    if a.has_current_entry() {
        current_entry_set(
            a,
            b,
            EntryModel { value: a.editing_value@, enabled: true, ..a.current_entry()@ },
        )
    } else {
        b == a
    }
}

/// A key on the home screen: `q` or escape ends the session.
pub open spec fn home_step(a: App, b: App, key: KeyInput) -> bool {
    if key.code == KeyCode::Char('q') || key.code == KeyCode::Esc {
        b == App { running: false, ..a }
    } else {
        b == a
    }
}

/// A key on the configuration screen: enter opens the file browser, which is to be
/// listed anew, and remembers this screen to come back to.
pub open spec fn config_role_step(a: App, b: App, key: KeyInput, e: Effect) -> bool {
    if key.code == KeyCode::Enter {
        &&& b == App {
            config_flow_return_screen: a.current_screen,
            current_screen: CurrentScreen::FileExplorer,
            ..a
        }
        &&& e == Effect::RefreshFiles
    } else {
        b == a && e == Effect::Nothing
    }
}

/// A key in the file browser: escape goes back, up and down move the selection,
/// enter moves into a directory (to be listed) or asks for a file to be opened.
pub open spec fn explorer_step(a: App, b: App, key: KeyInput, e: Effect) -> bool {
    let fe = a.file_explorer;
    let n = fe.files@.len() as int;
    match key.code {
        KeyCode::Esc => b == App { current_screen: a.config_flow_return_screen, ..a } && e
            == Effect::Nothing,
        KeyCode::Up => {
            &&& e == Effect::Nothing
            &&& n == 0 ==> b == a
            &&& n > 0 ==> b == App {
                file_explorer: FileExplorerState {
                    list_state: ListCursor {
                        selected: Some(
                            match fe.list_state.selected {
                                Some(i) => prev_index(i as int, n) as usize,
                                None => 0usize,
                            },
                        ),
                        ..fe.list_state
                    },
                    ..fe
                },
                ..a
            }
        },
        KeyCode::Down => {
            &&& e == Effect::Nothing
            &&& n == 0 ==> b == a
            &&& n > 0 ==> b == App {
                file_explorer: FileExplorerState {
                    list_state: ListCursor {
                        selected: Some(
                            match fe.list_state.selected {
                                Some(i) => next_index(i as int, n) as usize,
                                None => 0usize,
                            },
                        ),
                        ..fe.list_state
                    },
                    ..fe
                },
                ..a
            }
        },
        KeyCode::Enter => match fe.list_state.selected {
            Some(k) if k < n => {
                let entry = fe.files@[k as int];
                if entry.kind == EntryKind::File {
                    b == a && e == Effect::OpenFile(entry.path)
                } else {
                    &&& b == App {
                        file_explorer: FileExplorerState {
                            current_dir: entry.path,
                            list_state: ListCursor { selected: Some(0usize), ..fe.list_state },
                            ..fe
                        },
                        ..a
                    }
                    &&& e == Effect::RefreshFiles
                }
            },
            _ => b == a && e == Effect::Nothing,
        },
        _ => b == a && e == Effect::Nothing,
    }
}

/// A key in the editor: the save chord asks for a save; escape goes back; right
/// and tab, left and back-tab change section; down and up move over its entries;
/// enter flips a boolean entry (enabling it) or opens the value editor on it;
/// space enables or disables the entry.
pub open spec fn editing_step(a: App, b: App, key: KeyInput, e: Effect) -> bool {
    if is_save_chord(key) {
        b == a && e == Effect::Save
    } else {
        &&& e == Effect::Nothing
        &&& match key.code {
            KeyCode::Esc => b == App { current_screen: a.config_flow_return_screen, ..a },
            KeyCode::Right | KeyCode::Tab => b == section_moved(
                a,
                next_index(a.selected_section_index as int, a.sections@.len() as int),
            ),
            KeyCode::Left | KeyCode::BackTab => b == section_moved(
                a,
                prev_index(a.selected_section_index as int, a.sections@.len() as int),
            ),
            KeyCode::Down => b == item_moved(
                a,
                next_index(a.selected_item_index as int, a.item_count()),
            ),
            KeyCode::Up => b == item_moved(
                a,
                prev_index(a.selected_item_index as int, a.item_count()),
            ),
            KeyCode::Enter => if !a.has_current_entry() {
                b == a
            } else if is_boolean(a.current_entry()@) {
                current_entry_set(
                    a,
                    b,
                    EntryModel {
                        value: toggled_bool(a.current_entry()@.value),
                        enabled: true,
                        ..a.current_entry()@
                    },
                )
            } else {
                b == App {
                    editing_value: a.current_entry().value,
                    current_screen: CurrentScreen::EditingValue,
                    ..a
                }
            },
            KeyCode::Char(' ') => if !a.has_current_entry() {
                b == a
            } else {
                current_entry_set(
                    a,
                    b,
                    EntryModel { enabled: !a.current_entry()@.enabled, ..a.current_entry()@ },
                )
            },
            _ => b == a,
        }
    }
}

/// A key in the value editor: the save chord writes the buffer into the entry and
/// asks for a save; enter writes it; escape drops it; backspace and characters
/// edit it. All but editing go back to the editor.
pub open spec fn editing_value_step(a: App, b: App, key: KeyInput, e: Effect) -> bool {
    if is_save_chord(key) {
        e == Effect::Save && committed(a, App { current_screen: a.current_screen, ..b })
            && b.current_screen == CurrentScreen::Editing
    } else {
        &&& e == Effect::Nothing
        &&& match key.code {
            KeyCode::Esc => b == App { current_screen: CurrentScreen::Editing, ..a },
            KeyCode::Enter => committed(a, App { current_screen: a.current_screen, ..b })
                && b.current_screen == CurrentScreen::Editing,
            KeyCode::Backspace => b == App { editing_value: b.editing_value, ..a } && b.editing_value@
                == (if a.editing_value@.len() == 0 {
                a.editing_value@
            } else {
                a.editing_value@.drop_last()
            }),
            KeyCode::Char(c) => b == App { editing_value: b.editing_value, ..a }
                && b.editing_value@ == a.editing_value@.push(c),
            _ => b == a,
        }
    }
}

/// What a key does on the screen shown.
pub open spec fn key_step(a: App, b: App, key: KeyInput, e: Effect) -> bool {
    let c = cleared(a, key);
    match a.current_screen {
        CurrentScreen::Home => home_step(c, b, key) && e == Effect::Nothing,
        CurrentScreen::BitcoinConfig => config_role_step(c, b, key, e),
        CurrentScreen::FileExplorer => explorer_step(c, b, key, e),
        CurrentScreen::Editing => editing_step(c, b, key, e),
        CurrentScreen::EditingValue => editing_value_step(c, b, key, e),
    }
}

impl App {
    fn clear_notification(&mut self, key: KeyInput)
        ensures
            *final(self) == cleared(*old(self), key),
    {
        let save = key.ctrl && match key.code {
            KeyCode::Char(c) => c == 's',
            _ => false,
        };
        if !save {
            self.notification = None;
        }
    }

    fn replace_current_entry(&mut self, e: ConfigEntry)
        requires
            old(self).has_current_entry(),
        ensures
            current_entry_set(*old(self), *final(self), e@),
    {
        let s = self.selected_section_index;
        let i = self.selected_item_index;
        let ghost before = self.sections@;
        let mut section = self.sections.remove(s);
        let ghost items = section.items@;
        section.items.remove(i);
        section.items.insert(i, e);
        assert(section.items@ =~= items.update(i as int, e));
        self.sections.insert(s, section);
        assert(self.sections@ =~= before.update(s as int, section));
    }

    fn move_section(&mut self, forward: bool)
        ensures
            *final(self) == section_moved(
                *old(self),
                if forward {
                    next_index(old(self).selected_section_index as int, old(self).sections@.len() as int)
                } else {
                    prev_index(old(self).selected_section_index as int, old(self).sections@.len() as int)
                },
            ),
    {
        let n = self.sections.len();
        if n == 0 {
            return;
        }
        self.selected_section_index = if forward {
            step_next(self.selected_section_index, n)
        } else {
            step_previous(self.selected_section_index, n)
        };
        self.selected_item_index = 0;
        self.config_list_state.select(Some(0));
    }

    fn current_item_count(&self) -> (r: usize)
        ensures
            r == self.item_count(),
    {
        if self.selected_section_index < self.sections.len() {
            self.sections[self.selected_section_index].items.len()
        } else {
            0
        }
    }

    fn move_item(&mut self, forward: bool)
        ensures
            *final(self) == item_moved(
                *old(self),
                if forward {
                    next_index(old(self).selected_item_index as int, old(self).item_count())
                } else {
                    prev_index(old(self).selected_item_index as int, old(self).item_count())
                },
            ),
    {
        let n = self.current_item_count();
        if n == 0 {
            return;
        }
        let i = if forward {
            step_next(self.selected_item_index, n)
        } else {
            step_previous(self.selected_item_index, n)
        };
        self.selected_item_index = i;
        self.config_list_state.select(Some(i));
    }

    fn commit_edit(&mut self)
        ensures
            committed(*old(self), *final(self)),
    {
        if self.selected_item_index < self.current_item_count() {
            let mut e = self.sections[self.selected_section_index].items[self.selected_item_index].duplicate();
            e.value = self.editing_value.clone();
            e.enabled = true;
            self.replace_current_entry(e);
        }
    }

    fn activate_entry(&mut self)
        ensures
            editing_step(*old(self), *final(self), KeyInput { code: KeyCode::Enter, ctrl: false }, Effect::Nothing),
    {
        if self.selected_item_index >= self.current_item_count() {
            return;
        }
        let cur = &self.sections[self.selected_section_index].items[self.selected_item_index];
        let boolean = match &cur.schema {
            Some(sc) => sc.value_type == ConfigType::Boolean,
            None => false,
        };
        if boolean {
            let one = "1".to_owned();
            let value = if cur.value == one {
                "0".to_owned()
            } else {
                one
            };
            let mut e = cur.duplicate();
            e.value = value;
            e.enabled = true;
            self.replace_current_entry(e);
        } else {
            self.editing_value = cur.value.clone();
            self.current_screen = CurrentScreen::EditingValue;
        }
    }

    fn flip_enabled(&mut self)
        ensures
            editing_step(*old(self), *final(self), KeyInput { code: KeyCode::Char(' '), ctrl: false }, Effect::Nothing),
    {
        if self.selected_item_index >= self.current_item_count() {
            return;
        }
        let mut e = self.sections[self.selected_section_index].items[self.selected_item_index].duplicate();
        e.enabled = !e.enabled;
        self.replace_current_entry(e);
    }

    fn explorer_key(&mut self, key: KeyInput) -> (r: Effect)
        ensures
            explorer_step(*old(self), *final(self), key, r),
    {
        match key.code {
            KeyCode::Esc => {
                self.current_screen = self.config_flow_return_screen;
                Effect::Nothing
            },
            KeyCode::Up => {
                self.file_explorer.select_previous();
                Effect::Nothing
            },
            KeyCode::Down => {
                self.file_explorer.select_next();
                Effect::Nothing
            },
            KeyCode::Enter => {
                let k = match self.file_explorer.list_state.selected() {
                    Some(k) => k,
                    None => {
                        return Effect::Nothing;
                    },
                };
                if k >= self.file_explorer.files.len() {
                    return Effect::Nothing;
                }
                let path = self.file_explorer.files[k].path.clone();
                match self.file_explorer.files[k].kind {
                    EntryKind::File => Effect::OpenFile(path),
                    _ => {
                        self.file_explorer.current_dir = path;
                        self.file_explorer.list_state.select(Some(0));
                        Effect::RefreshFiles
                    },
                }
            },
            _ => Effect::Nothing,
        }
    }

    fn editing_key(&mut self, key: KeyInput) -> (r: Effect)
        ensures
            editing_step(*old(self), *final(self), key, r),
    {
        if key.ctrl && key.code == KeyCode::Char('s') {
            return Effect::Save;
        }
        match key.code {
            KeyCode::Esc => {
                self.current_screen = self.config_flow_return_screen;
            },
            KeyCode::Right | KeyCode::Tab => self.move_section(true),
            KeyCode::Left | KeyCode::BackTab => self.move_section(false),
            KeyCode::Down => self.move_item(true),
            KeyCode::Up => self.move_item(false),
            KeyCode::Enter => self.activate_entry(),
            KeyCode::Char(' ') => self.flip_enabled(),
            _ => {},
        }
        Effect::Nothing
    }

    fn editing_value_key(&mut self, key: KeyInput) -> (r: Effect)
        ensures
            editing_value_step(*old(self), *final(self), key, r),
    {
        if key.ctrl && key.code == KeyCode::Char('s') {
            let ghost a = *self;
            self.commit_edit();
            proof {
                assert(committed(a, *self));
            }
            self.current_screen = CurrentScreen::Editing;
            return Effect::Save;
        }
        match key.code {
            KeyCode::Esc => {
                self.current_screen = CurrentScreen::Editing;
            },
            KeyCode::Enter => {
                self.commit_edit();
                self.current_screen = CurrentScreen::Editing;
            },
            KeyCode::Backspace => {
                pop_char(&mut self.editing_value);
            },
            KeyCode::Char(c) => {
                push_char(&mut self.editing_value, c);
            },
            _ => {},
        }
        Effect::Nothing
    }

    /// Handles a key on the screen shown, as [`key_step`] says, and returns the
    /// work left to the caller.
    pub fn handle_key_event(&mut self, key: KeyInput) -> (r: Effect)
        ensures
            key_step(*old(self), *final(self), key, r),
            old(self).cursors_in_range() ==> final(self).cursors_in_range(),
    {
        self.clear_notification(key);
        match self.current_screen {
            CurrentScreen::Home => {
                if key.code == KeyCode::Char('q') || key.code == KeyCode::Esc {
                    self.running = false;
                }
                Effect::Nothing
            },
            CurrentScreen::BitcoinConfig => {
                if key.code == KeyCode::Enter {
                    self.config_flow_return_screen = self.current_screen;
                    self.current_screen = CurrentScreen::FileExplorer;
                    Effect::RefreshFiles
                } else {
                    Effect::Nothing
                }
            },
            CurrentScreen::FileExplorer => self.explorer_key(key),
            CurrentScreen::Editing => self.editing_key(key),
            CurrentScreen::EditingValue => self.editing_value_key(key),
        }
    }
}

/// Where the key loop takes a key before the screen does: `q` ends the session
/// on every screen but the value editor (where it is typed); up and down on the
/// home and configuration screens move in the sidebar.
pub open spec fn dispatch_step(a: App, b: App, key: KeyInput, e: Effect) -> bool {
    let sidebar_screen = a.current_screen == CurrentScreen::Home || a.current_screen
        == CurrentScreen::BitcoinConfig;
    if key.code == KeyCode::Char('q') && a.current_screen != CurrentScreen::EditingValue {
        b == App { running: false, ..a } && e == Effect::Nothing
    } else if key.code == KeyCode::Up && sidebar_screen {
        &&& e == Effect::Nothing
        &&& b == (if a.sidebar_index > 0 {
            menu_shown(App { sidebar_index: (a.sidebar_index - 1) as usize, ..a })
        } else {
            a
        })
    } else if key.code == KeyCode::Down && sidebar_screen {
        &&& e == Effect::Nothing
        &&& b == (if a.sidebar_index < 1 {
            menu_shown(App { sidebar_index: (a.sidebar_index + 1) as usize, ..a })
        } else {
            a
        })
    } else {
        key_step(a, b, key, e)
    }
}

/// Length in bytes of a name in UTF-8, the width the tabs are measured by.
pub open spec fn byte_len(name: Seq<char>) -> int {
    encode_utf8(name).len() as int
}

/// Left edge of tab `i`, the first starting at `x0`: each tab is as wide as its
/// name in bytes plus three cells of padding, with one cell between tabs.
pub open spec fn tab_start(secs: Seq<ConfigSection>, x0: int, i: int) -> int
    decreases i,
{
    if i <= 0 {
        x0
    } else {
        tab_start(secs, x0, i - 1) + byte_len(secs[i - 1].name@) + 4
    }
}

/// Column `col` lies on tab `i`.
pub open spec fn tab_hit(secs: Seq<ConfigSection>, x0: int, col: int, i: int) -> bool {
    tab_start(secs, x0, i) <= col < tab_start(secs, x0, i) + byte_len(secs[i].name@) + 3
}

/// The first tab from `i` on that column `col` lies on, or -1.
pub open spec fn first_tab_hit(secs: Seq<ConfigSection>, x0: int, col: int, i: int) -> int
    decreases secs.len() - i,
{
    if i < 0 || i >= secs.len() {
        -1
    } else if tab_hit(secs, x0, col, i) {
        i
    } else {
        first_tab_hit(secs, x0, col, i + 1)
    }
}

/// Row `row` of the list drawn in `r`, scrolled by `offset`.
pub open spec fn list_row(r: Rect, row: u16, offset: usize) -> int {
    row - r.y - 1 + offset
}

/// A press on the tabs shows the section of the tab under it.
pub open spec fn tabs_clicked(a: App, m: MouseInput) -> App {
    match a.interactive_rects.tabs {
        Some(r) => if r.holds(m.column, m.row) && r.inner_row(m.row) {
            let i = first_tab_hit(a.sections@, r.x + 1, m.column as int, 0);
            if i >= 0 {
                App {
                    selected_section_index: i as usize,
                    selected_item_index: 0,
                    config_list_state: ListCursor { selected: Some(0usize), ..a.config_list_state },
                    ..a
                }
            } else {
                a
            }
        } else {
            a
        },
        None => a,
    }
}

/// A press on the entry list moves the cursor to the entry under it.
pub open spec fn list_clicked(a: App, m: MouseInput) -> App {
    match a.interactive_rects.config_list {
        Some(r) => if r.holds(m.column, m.row) && r.inner_row(m.row) {
            let idx = list_row(r, m.row, a.config_list_state.offset);
            if idx < a.item_count() {
                App {
                    selected_item_index: idx as usize,
                    config_list_state: ListCursor { selected: Some(idx as usize), ..a.config_list_state },
                    ..a
                }
            } else {
                a
            }
        } else {
            a
        },
        None => a,
    }
}

/// What a pointer press does on the screen shown, by the rectangles of the last frame.
pub open spec fn mouse_step(a: App, b: App, m: MouseInput, e: Effect) -> bool {
    if !m.left_press {
        b == a && e == Effect::Nothing
    } else {
        match a.current_screen {
            CurrentScreen::Home | CurrentScreen::BitcoinConfig => match a.interactive_rects.select_config_button {
                Some(r) => if r.holds(m.column, m.row) {
                    &&& b == App {
                        config_flow_return_screen: a.current_screen,
                        current_screen: CurrentScreen::FileExplorer,
                        ..a
                    }
                    &&& e == Effect::RefreshFiles
                } else {
                    b == a && e == Effect::Nothing
                },
                None => b == a && e == Effect::Nothing,
            },
            CurrentScreen::FileExplorer => {
                &&& e == Effect::Nothing
                &&& b == match a.interactive_rects.file_list {
                    Some(r) => if r.holds(m.column, m.row) && r.inner_row(m.row) && list_row(
                        r,
                        m.row,
                        a.file_explorer.list_state.offset,
                    ) < a.file_explorer.files@.len() {
                        App {
                            file_explorer: FileExplorerState {
                                list_state: ListCursor {
                                    selected: Some(
                                        list_row(r, m.row, a.file_explorer.list_state.offset) as usize,
                                    ),
                                    ..a.file_explorer.list_state
                                },
                                ..a.file_explorer
                            },
                            ..a
                        }
                    } else {
                        a
                    },
                    None => a,
                }
            },
            CurrentScreen::Editing => b == list_clicked(tabs_clicked(a, m), m) && e == Effect::Nothing,
            CurrentScreen::EditingValue => b == a && e == Effect::Nothing,
        }
    }
}

proof fn lemma_no_tab_after(secs: Seq<ConfigSection>, x0: int, col: int, i: int)
    requires
        0 <= i,
        tab_start(secs, x0, i) > col,
    ensures
        first_tab_hit(secs, x0, col, i) == -1,
    decreases secs.len() - i,
{
    if i < secs.len() {
        assert(tab_start(secs, x0, i + 1) == tab_start(secs, x0, i) + byte_len(secs[i].name@) + 4);
        lemma_no_tab_after(secs, x0, col, i + 1);
    }
}

impl App {
    /// Handles a key as the key loop does: see [`dispatch_step`].
    pub fn dispatch_key(&mut self, key: KeyInput) -> (r: Effect)
        ensures
            dispatch_step(*old(self), *final(self), key, r),
            old(self).cursors_in_range() ==> final(self).cursors_in_range(),
    {
        let sidebar_screen = self.current_screen == CurrentScreen::Home || self.current_screen
            == CurrentScreen::BitcoinConfig;
        if key.code == KeyCode::Char('q') && self.current_screen != CurrentScreen::EditingValue {
            self.running = false;
            Effect::Nothing
        } else if key.code == KeyCode::Up && sidebar_screen {
            if self.sidebar_index > 0 {
                self.sidebar_index = self.sidebar_index - 1;
                self.toggle_menu();
            }
            Effect::Nothing
        } else if key.code == KeyCode::Down && sidebar_screen {
            if self.sidebar_index < 1 {
                self.sidebar_index = self.sidebar_index + 1;
                self.toggle_menu();
            }
            Effect::Nothing
        } else {
            self.handle_key_event(key)
        }
    }

    fn inner_hit(r: Rect, m: MouseInput) -> (b: bool)
        ensures
            b == (r.holds(m.column, m.row) && r.inner_row(m.row)),
    {
        r.contains(m.column, m.row) && m.row > r.y && (m.row as u32) + 1 < (r.y as u32) + (
        r.height as u32)
    }

    fn click_tabs(&mut self, m: MouseInput)
        ensures
            *final(self) == tabs_clicked(*old(self), m),
            old(self).cursors_in_range() ==> final(self).cursors_in_range(),
    {
        let r = match self.interactive_rects.tabs {
            Some(r) => r,
            None => {
                return;
            },
        };
        if !App::inner_hit(r, m) {
            return;
        }
        let ghost x0 = r.x + 1;
        let col = m.column as u64;
        let mut x: u64 = r.x as u64 + 1;
        let mut i: usize = 0;
        while i < self.sections.len()
            invariant
                0 <= i <= self.sections.len(),
                *self == *old(self),
                self.interactive_rects.tabs == Some(r),
                r.holds(m.column, m.row) && r.inner_row(m.row),
                x0 == r.x + 1,
                col == m.column,
                x == tab_start(self.sections@, x0, i as int),
                x <= col + 1,
                first_tab_hit(self.sections@, x0, col as int, 0) == first_tab_hit(
                    self.sections@,
                    x0,
                    col as int,
                    i as int,
                ),
            decreases self.sections.len() - i,
        {
            if x > col {
                proof {
                    lemma_no_tab_after(self.sections@, x0, col as int, i as int);
                }
                return;
            }
            let len = self.sections[i].name.as_str().as_bytes().len() as u64;
            let d = col - x;
            if d < 3 || d - 3 < len {
                self.selected_section_index = i;
                self.selected_item_index = 0;
                self.config_list_state.select(Some(0));
                return;
            }
            assert(tab_start(self.sections@, x0, i + 1) == x + len + 4);
            x = x + len + 4;
            i = i + 1;
        }
    }

    fn click_config_list(&mut self, m: MouseInput)
        ensures
            *final(self) == list_clicked(*old(self), m),
            old(self).cursors_in_range() ==> final(self).cursors_in_range(),
    {
        let r = match self.interactive_rects.config_list {
            Some(r) => r,
            None => {
                return;
            },
        };
        if !App::inner_hit(r, m) {
            return;
        }
        let row = (m.row - r.y - 1) as usize;
        let offset = self.config_list_state.offset();
        let n = self.current_item_count();
        if offset < n && row < n - offset {
            self.selected_item_index = row + offset;
            self.config_list_state.select(Some(row + offset));
        }
    }

    /// Handles a pointer event, as [`mouse_step`] says.
    pub fn handle_mouse_event(&mut self, mouse: MouseInput) -> (r: Effect)
        ensures
            mouse_step(*old(self), *final(self), mouse, r),
            old(self).cursors_in_range() ==> final(self).cursors_in_range(),
    {
        if !mouse.left_press {
            return Effect::Nothing;
        }
        match self.current_screen {
            CurrentScreen::Home | CurrentScreen::BitcoinConfig => {
                match self.interactive_rects.select_config_button {
                    Some(r) => {
                        if r.contains(mouse.column, mouse.row) {
                            self.config_flow_return_screen = self.current_screen;
                            self.current_screen = CurrentScreen::FileExplorer;
                            return Effect::RefreshFiles;
                        }
                    },
                    None => {},
                }
                Effect::Nothing
            },
            CurrentScreen::FileExplorer => {
                match self.interactive_rects.file_list {
                    Some(r) => {
                        if App::inner_hit(r, mouse) {
                            let row = (mouse.row - r.y - 1) as usize;
                            let offset = self.file_explorer.list_state.offset();
                            let n = self.file_explorer.files.len();
                            if offset < n && row < n - offset {
                                self.file_explorer.list_state.select(Some(row + offset));
                            }
                        }
                    },
                    None => {},
                }
                Effect::Nothing
            },
            CurrentScreen::Editing => {
                self.click_tabs(mouse);
                self.click_config_list(mouse);
                Effect::Nothing
            },
            CurrentScreen::EditingValue => Effect::Nothing,
        }
    }
}

/// Activating a boolean entry twice in the editor gives back the value it had, where
/// that value is `0` or `1`; the entry is left enabled.
pub proof fn lemma_boolean_activation_twice(a: App, b: App, c: App, e1: Effect, e2: Effect)
    requires
        a.current_screen == CurrentScreen::Editing,
        a.has_current_entry(),
        is_boolean(a.current_entry()@),
        a.current_entry()@.value == "0"@ || a.current_entry()@.value == "1"@,
        key_step(a, b, KeyInput { code: KeyCode::Enter, ctrl: false }, e1),
        key_step(b, c, KeyInput { code: KeyCode::Enter, ctrl: false }, e2),
    ensures
        c.has_current_entry(),
        c.current_entry()@.value == a.current_entry()@.value,
        c.current_entry()@.enabled,
{
    reveal_strlit("0");
    reveal_strlit("1");
    assert("0"@ != "1"@) by {
        assert("0"@[0] != "1"@[0]);
    }
    assert(b.current_entry()@.value == toggled_bool(a.current_entry()@.value));
    assert(is_boolean(b.current_entry()@));
    assert(c.current_entry()@.value == toggled_bool(b.current_entry()@.value));
}

} // verus!
