use pdm::components::file_explorer::{
    arrange_listing, DirListing, EntryKind, ExplorerEntry, FileExplorer, Selection,
};

fn entry(path: &str, name: &str, kind: EntryKind) -> ExplorerEntry {
    ExplorerEntry {
        path: path.to_string(),
        name: name.to_string(),
        kind,
    }
}

fn base_listing() -> DirListing {
    DirListing {
        parent: Some("/tmp".to_string()),
        entries: vec![
            entry("/tmp/base/file.txt", "file.txt", EntryKind::File),
            entry("/tmp/base/folder", "folder", EntryKind::Directory),
        ],
    }
}

#[test]
fn loads_directory_entries() {
    let mut explorer = FileExplorer {
        current_dir: "/tmp/base".to_string(),
        files: vec![],
        selected_index: 0,
    };

    explorer.load_directory(base_listing());
    assert!(explorer.files.len() >= 2);
}

#[test]
fn next_and_previous_wrap() {
    let mut explorer = FileExplorer {
        current_dir: "/tmp/base".to_string(),
        files: vec![entry("a", "a", EntryKind::File), entry("b", "b", EntryKind::File)],
        selected_index: 0,
    };

    explorer.next();
    assert_eq!(explorer.selected_index, 1);

    explorer.next();
    assert_eq!(explorer.selected_index, 0);

    explorer.previous();
    assert_eq!(explorer.selected_index, 1);
}

#[test]
fn selecting_file_returns_path() {
    let file = "/tmp/base/file.txt";
    let mut explorer = FileExplorer {
        current_dir: "/tmp/base".to_string(),
        files: vec![entry(file, "file.txt", EntryKind::File)],
        selected_index: 0,
    };

    let result = explorer.select();
    assert_eq!(result, Selection::File(file.to_string()));
}

#[test]
fn selecting_parent_directory_moves_up() {
    let base = "/tmp/base";
    let child = "/tmp/base/child";

    let mut explorer = FileExplorer::new(child.to_string());
    explorer.load_directory(DirListing {
        parent: Some(base.to_string()),
        entries: vec![],
    });

    // First entry must be ".."
    assert_eq!(explorer.files[0].name, "..");
    assert_eq!(explorer.files[0].kind, EntryKind::Parent);

    // Select the ".." entry
    let result = explorer.select();

    // It should move to parent and not return a file
    assert_eq!(result, Selection::Enter(base.to_string()));
    assert_eq!(explorer.current_dir, base);
    explorer.load_directory(base_listing());
    assert!(!explorer.files.is_empty());
}

#[test]
fn selecting_directory_enters_directory() {
    let folder = "/tmp/base/folder";
    let mut explorer = FileExplorer {
        current_dir: "/tmp/base".to_string(),
        files: vec![entry(folder, "folder", EntryKind::Directory)],
        selected_index: 0,
    };

    let result = explorer.select();
    assert_eq!(result, Selection::Enter(folder.to_string()));
    assert_eq!(explorer.current_dir, folder);
}

#[test]
fn default_constructs_explorer() {
    let explorer = FileExplorer::default();
    assert!(!explorer.current_dir.is_empty());
}

#[test]
fn previous_decrements_when_not_zero() {
    let mut explorer = FileExplorer {
        current_dir: "/tmp/base".to_string(),
        files: vec![
            entry("a", "a", EntryKind::File),
            entry("b", "b", EntryKind::File),
            entry("c", "c", EntryKind::File),
        ],
        selected_index: 2,
    };

    explorer.previous();
    assert_eq!(explorer.selected_index, 1);
}

#[test]
fn listing_puts_parent_then_folder_then_file() {
    let files = arrange_listing(base_listing());
    let names: Vec<&str> = files.iter().map(|e| e.name.as_str()).collect();
    assert_eq!(names, vec!["..", "folder", "file.txt"]);
    assert_eq!(files[0].kind, EntryKind::Parent);
    assert_eq!(files[0].path, "/tmp");
    assert_eq!(files[1].kind, EntryKind::Directory);
    assert_eq!(files[2].kind, EntryKind::File);
}

#[test]
fn listing_without_parent_sorts_each_group_by_name() {
    let files = arrange_listing(DirListing {
        parent: None,
        entries: vec![
            entry("/z.txt", "z.txt", EntryKind::File),
            entry("/b", "b", EntryKind::Directory),
            entry("/B.txt", "B.txt", EntryKind::File),
            entry("/a", "a", EntryKind::Directory),
            entry("/a.txt", "a.txt", EntryKind::File),
        ],
    });
    let names: Vec<&str> = files.iter().map(|e| e.name.as_str()).collect();
    assert_eq!(names, vec!["a", "b", "B.txt", "a.txt", "z.txt"]);
}

#[test]
fn empty_explorer_select_does_nothing() {
    let mut explorer = FileExplorer::new("/".to_string());
    explorer.next();
    explorer.previous();
    assert_eq!(explorer.selected_index, 0);
    assert_eq!(explorer.select(), Selection::Nothing);
    assert_eq!(explorer.current_dir, "/");
}

#[test]
fn next_cycles_back_after_item_count_steps() {
    let mut explorer = FileExplorer::new("/".to_string());
    explorer.load_directory(base_listing());
    explorer.selected_index = 1;
    for _ in 0..explorer.files.len() {
        explorer.next();
    }
    assert_eq!(explorer.selected_index, 1);
    explorer.selected_index = 0;
    explorer.previous();
    assert_eq!(explorer.selected_index, explorer.files.len() - 1);
}
