//! A directory browser: the entries of one directory and a cursor over them.
//!
//! Reading the disk is left to the caller, who hands each directory's listing in.
use crate::navigation::{next_index, prev_index, step_next, step_previous};
use crate::sorting::{sort_by_name, sorted_by_name, Named};
use crate::text::chars_of;
use vstd::prelude::*;

verus! {

/// What an entry of the browser stands for.
#[derive(Clone, Copy, Debug, PartialEq, Eq, Structural)]
pub enum EntryKind {
    /// The `..` entry, which leads to the parent directory.
    Parent,
    Directory,
    File,
}

/// One entry: where it leads, the name shown, and what it is.
#[derive(Clone, Debug)]
pub struct ExplorerEntry {
    pub path: String,
    pub name: String,
    pub kind: EntryKind,
}

impl Named for ExplorerEntry {
    open spec fn name_view(&self) -> Seq<char> {
        self.name@
    }

    fn name_chars(&self) -> (r: Vec<char>) {
        chars_of(self.name.as_str())
    }
}

/// What the disk says of a directory: its parent, if it has one, and what it holds.
#[derive(Clone, Debug)]
pub struct DirListing {
    pub parent: Option<String>,
    pub entries: Vec<ExplorerEntry>,
}

/// The entries of `s` that are directories, in order.
pub open spec fn dirs_of(s: Seq<ExplorerEntry>) -> Seq<ExplorerEntry>
    decreases s.len(),
{
    if s.len() == 0 {
        Seq::empty()
    } else if s.last().kind == EntryKind::Directory {
        dirs_of(s.drop_last()).push(s.last())
    } else {
        dirs_of(s.drop_last())
    }
}

/// The entries of `s` that are not directories, in order.
pub open spec fn others_of(s: Seq<ExplorerEntry>) -> Seq<ExplorerEntry>
    decreases s.len(),
{
    if s.len() == 0 {
        Seq::empty()
    } else if s.last().kind != EntryKind::Directory {
        others_of(s.drop_last()).push(s.last())
    } else {
        others_of(s.drop_last())
    }
}

/// The `..` entry that leads to `parent`.
pub open spec fn is_parent_marker(e: ExplorerEntry, parent: Seq<char>) -> bool {
    e.path@ == parent && e.name@ == ".."@ && e.kind == EntryKind::Parent
}

/// `r` shows `listing`: the `..` entry first where there is a parent, then the
/// directories ordered by name, then the other entries ordered by name.
pub open spec fn arranged(r: Seq<ExplorerEntry>, listing: DirListing) -> bool {
    let m: int = if listing.parent is Some { 1 } else { 0 };
    let d = dirs_of(listing.entries@);
    let f = others_of(listing.entries@);
    &&& r.len() == m + d.len() + f.len()
    &&& (listing.parent matches Some(p) ==> is_parent_marker(r[0], p@))
    &&& sorted_by_name(r.subrange(m, m + d.len()))
    &&& r.subrange(m, m + d.len()).to_multiset() == d.to_multiset()
    &&& sorted_by_name(r.subrange(m + d.len(), r.len() as int))
    &&& r.subrange(m + d.len(), r.len() as int).to_multiset() == f.to_multiset()
}

/// The entries of a listing in the order the browser shows them.
pub fn arrange_listing(listing: DirListing) -> (r: Vec<ExplorerEntry>)
    ensures
        arranged(r@, listing),
{
    let ghost all = listing.entries@;
    let DirListing { parent, entries } = listing;
    let mut dirs: Vec<ExplorerEntry> = Vec::new();
    let mut others: Vec<ExplorerEntry> = Vec::new();
    let mut rest = entries;
    let n = rest.len();
    let mut k: usize = 0;
    assert(all.skip(0) =~= all);
    while rest.len() > 0
        invariant
            k + rest.len() == n == all.len(),
            rest@ == all.skip(k as int),
            dirs@ == dirs_of(all.take(k as int)),
            others@ == others_of(all.take(k as int)),
        decreases rest.len(),
    {
        assert(all.take(k + 1).drop_last() =~= all.take(k as int));
        assert(rest@[0] == all[k as int]);
        let e = rest.remove(0);
        assert(rest@ =~= all.skip(k + 1));
        assert(all.take(k + 1).last() == e);
        if e.kind == EntryKind::Directory {
            dirs.push(e);
        } else {
            others.push(e);
        }
        k = k + 1;
    }
    assert(all.take(n as int) =~= all);
    let sorted_dirs = sort_by_name(dirs);
    let sorted_others = sort_by_name(others);
    let mut r: Vec<ExplorerEntry> = Vec::new();
    match parent {
        Some(p) => {
            r.push(ExplorerEntry { path: p, name: "..".to_owned(), kind: EntryKind::Parent });
        },
        None => {},
    }
    let m = r.len();
    let ghost head = r@;
    let mut a = sorted_dirs;
    let mut b = sorted_others;
    let ghost sa = a@;
    let ghost sb = b@;
    r.append(&mut a);
    r.append(&mut b);
    assert(r@ =~= head + sa + sb);
    assert(r@.subrange(m as int, m + sa.len()) =~= sa);
    assert(r@.subrange(m + sa.len(), r@.len() as int) =~= sb);
    proof {
        sa.to_multiset_ensures();
        sb.to_multiset_ensures();
        dirs_of(all).to_multiset_ensures();
        others_of(all).to_multiset_ensures();
    }
    r
}

/// The browser: the directory shown, its entries, and the selected one.
#[derive(Clone, Debug)]
pub struct FileExplorer {
    pub current_dir: String,
    pub files: Vec<ExplorerEntry>,
    pub selected_index: usize,
}

/// What activating the selected entry asks of the caller.
#[derive(Clone, Debug, PartialEq, Eq)]
pub enum Selection {
    /// No entry to activate.
    Nothing,
    /// The browser moved into this directory; its listing is wanted.
    Enter(String),
    /// This file was chosen.
    File(String),
}

impl FileExplorer {
    /// A browser at `current_dir`, with no entries until a listing comes.
    pub fn new(current_dir: String) -> (r: FileExplorer)
        ensures
            r.current_dir == current_dir,
            r.files@.len() == 0,
            r.selected_index == 0,
    {
        FileExplorer { current_dir, files: Vec::new(), selected_index: 0 }
    }

    /// Shows `listing` as the entries of the current directory, the first selected.
    pub fn load_directory(&mut self, listing: DirListing)
        ensures
            arranged(final(self).files@, listing),
            final(self).selected_index == 0,
            final(self).current_dir == old(self).current_dir,
    {
        self.files = arrange_listing(listing);
        self.selected_index = 0;
    }

    /// Moves the selection to the next entry, wrapping to the first.
    pub fn next(&mut self)
        ensures
            final(self).files == old(self).files,
            final(self).current_dir == old(self).current_dir,
            old(self).files.len() == 0 ==> final(self).selected_index == old(self).selected_index,
            old(self).files.len() > 0 ==> final(self).selected_index == next_index(
                old(self).selected_index as int,
                old(self).files.len() as int,
            ),
    {
        self.selected_index = step_next(self.selected_index, self.files.len());
    }

    /// Moves the selection to the previous entry, wrapping to the last.
    pub fn previous(&mut self)
        ensures
            final(self).files == old(self).files,
            final(self).current_dir == old(self).current_dir,
            old(self).files.len() == 0 ==> final(self).selected_index == old(self).selected_index,
            old(self).files.len() > 0 ==> final(self).selected_index == prev_index(
                old(self).selected_index as int,
                old(self).files.len() as int,
            ),
    {
        self.selected_index = step_previous(self.selected_index, self.files.len());
    }

    /// Activates the selected entry: `..` or a directory moves the browser there
    /// (the caller then loads its listing); a file is handed back. With no entry
    /// selected nothing happens.
    pub fn select(&mut self) -> (r: Selection)
        ensures
            old(self).selected_index >= old(self).files.len() ==> r == Selection::Nothing
                && *final(self) == *old(self),
            old(self).selected_index < old(self).files.len() ==> {
                let e = old(self).files@[old(self).selected_index as int];
                if e.kind == EntryKind::File {
                    &&& r == Selection::File(e.path)
                    &&& *final(self) == *old(self)
                } else {
                    &&& r == Selection::Enter(e.path)
                    &&& final(self).current_dir == e.path
                    &&& final(self).files@.len() == 0
                    &&& final(self).selected_index == 0
                }
            },
    {
        if self.selected_index >= self.files.len() {
            return Selection::Nothing;
        }
        let i = self.selected_index;
        let path = self.files[i].path.clone();
        match self.files[i].kind {
            EntryKind::File => Selection::File(path),
            _ => {
                self.current_dir = path.clone();
                self.files = Vec::new();
                self.selected_index = 0;
                Selection::Enter(path)
            },
        }
    }
}

impl Default for FileExplorer {
    fn default() -> (r: FileExplorer)
        ensures
            r.current_dir@ == "."@,
            r.files@.len() == 0,
            r.selected_index == 0,
    {
        FileExplorer::new(".".to_owned())
    }
}

} // verus!
