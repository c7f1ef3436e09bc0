//! Parser for the index of library folders that the content-delivery
//! client keeps beside its own install.

use vstd::prelude::*;
use crate::error::AppError;
use crate::paths::{file_name, file_name_of, join, joined};
use crate::pattern::{all_captures_of, captures_all, group, group_text};
use crate::snapshot::{DiskSnapshot, DiskView};
use crate::text::{replace, replaced};

verus! {

/// A folder that holds installed games.
#[derive(Debug, PartialEq, Eq)]
pub struct LibraryFolder {
    pub path: String,
    pub label: String,
    pub mounted: bool,
}

/// What contracts say of a [`LibraryFolder`]: the same value with its strings
/// as sequences of characters.
pub struct LibraryFolderView {
    pub path: Seq<char>,
    pub label: Seq<char>,
    pub mounted: bool,
}

impl View for LibraryFolder {
    type V = LibraryFolderView;

    open spec fn view(&self) -> LibraryFolderView {
        LibraryFolderView { path: self.path@, label: self.label@, mounted: self.mounted }
    }
}

impl DeepView for LibraryFolder {
    type V = LibraryFolderView;

    open spec fn deep_view(&self) -> LibraryFolderView {
        self@
    }
}

/// Reads the index of library folders.
pub struct VdfParser;

/// The pattern of a `"path" "..."` entry of the index.
pub open spec fn folder_pattern() -> Seq<char> {
    "\"path\"\\s*\"([^\"]+)\""@
}

/// Where the index lies under the client's install directory.
pub open spec fn index_path_of(steam_path: Seq<char>) -> Seq<char> {
    joined(steam_path, "steamapps/libraryfolders.vdf"@)
}

/// The label of a library: the last component of its path, or a stock
/// label where the path has none.
pub open spec fn label_of(path: Seq<char>) -> Seq<char> {
    match file_name_of(path) {
        Some(n) => n,
        None => "Bibliothèque Steam"@,
    }
}

/// The path that an entry of the index records, with doubled backslashes
/// written once.
pub open spec fn recorded_path(groups: Seq<Option<Seq<char>>>) -> Option<Seq<char>> {
    match group_text(groups, 1) {
        Some(p) => Some(replaced(p, "\\\\"@, "\\"@)),
        None => None,
    }
}

/// The games directories that a run of entries records, in order.
pub open spec fn games_dirs_of(matches: Seq<Seq<Option<Seq<char>>>>) -> Seq<Seq<char>>
    decreases matches.len(),
{
    if matches.len() == 0 {
        Seq::empty()
    } else {
        let rest = games_dirs_of(matches.drop_last());
        match recorded_path(matches.last()) {
            Some(p) => rest.push(joined(p, "steamapps"@)),
            None => rest,
        }
    }
}

/// The library that an entry of the index describes, if its games
/// directory exists.
pub open spec fn library_of(groups: Seq<Option<Seq<char>>>, disk: DiskView) -> Option<
    LibraryFolderView,
> {
    match recorded_path(groups) {
        Some(p) => if disk.has_path(joined(p, "steamapps"@)) {
            Some(
                LibraryFolderView { path: joined(p, "steamapps"@), label: label_of(p), mounted: true },
            )
        } else {
            None
        },
        None => None,
    }
}

/// The libraries that a run of entries describes, in order.
pub open spec fn libraries_of(matches: Seq<Seq<Option<Seq<char>>>>, disk: DiskView) -> Seq<
    LibraryFolderView,
>
    decreases matches.len(),
{
    if matches.len() == 0 {
        Seq::empty()
    } else {
        let rest = libraries_of(matches.drop_last(), disk);
        match library_of(matches.last(), disk) {
            Some(l) => rest.push(l),
            None => rest,
        }
    }
}

/// The client's own library: the games directory of its install.
pub open spec fn default_library(steam_path: Seq<char>) -> LibraryFolderView {
    LibraryFolderView {
        path: joined(steam_path, "steamapps"@),
        label: "Installation Steam"@,
        mounted: true,
    }
}

/// The library folders that the index under `steam_path` describes: the
/// client's own library first, then every recorded library whose games
/// directory exists. An error where the index was not read.
pub open spec fn library_folders_of(steam_path: Seq<char>, disk: DiskView) -> Result<
    Seq<LibraryFolderView>,
    Seq<char>,
> {
    match disk.document(index_path_of(steam_path)) {
        None => Err("Failed to read libraryfolders.vdf"@),
        Some(content) => Ok(
            seq![default_library(steam_path)] + libraries_of(
                all_captures_of(folder_pattern(), content),
                disk,
            ),
        ),
    }
}

/// The label of a library: see [`label_of`].
pub fn get_library_label(path: &str) -> (r: String)
    ensures
        r@ == label_of(path@),
{
    match file_name(path) {
        Some(n) => n,
        None => String::from_str("Bibliothèque Steam"),
    }
}

impl VdfParser {
    /// Where the index lies under the client's install directory.
    pub fn index_path(steam_path: &str) -> (r: String)
        ensures
            r@ == index_path_of(steam_path@),
    {
        join(steam_path, "steamapps/libraryfolders.vdf")
    }

    /// The games directories that an index's text records, in order: the
    /// paths whose existence [`Self::parse_library_folders`] asks about.
    pub fn recorded_libraries(content: &str) -> (r: Vec<String>)
        ensures
            r.deep_view() == games_dirs_of(all_captures_of(folder_pattern(), content@)),
    {
        let matches = captures_all("\"path\"\\s*\"([^\"]+)\"", content);
        let mut out: Vec<String> = Vec::new();
        let mut i: usize = 0;
        assert(matches.deep_view().take(0) =~= Seq::empty());
        assert(out.deep_view() =~= Seq::empty());
        while i < matches.len()
            invariant
                i <= matches.len(),
                out.deep_view() == games_dirs_of(matches.deep_view().take(i as int)),
            decreases matches.len() - i,
        {
            let ghost before = out.deep_view();
            proof {
                let next = matches.deep_view().take(i + 1);
                assert(next.drop_last() =~= matches.deep_view().take(i as int));
                assert(next.last() == matches[i as int].deep_view());
            }
            match group(&matches[i], 1) {
                Some(p) => {
                    let path_str = replace(p.as_str(), "\\\\", "\\");
                    let library_path = join(path_str.as_str(), "steamapps");
                    out.push(library_path);
                    assert(out.deep_view() =~= before.push(library_path@));
                },
                None => {},
            }
            i += 1;
        }
        assert(matches.deep_view().take(matches.len() as int) =~= matches.deep_view());
        out
    }

    /// Reads the library folders from the index under `steam_path`: see
    /// [`library_folders_of`]. Fails exactly when the index was not read.
    pub fn parse_library_folders(steam_path: &str, disk: &DiskSnapshot) -> (r: Result<
        Vec<LibraryFolder>,
        AppError,
    >)
        ensures
            match r {
                Ok(v) => library_folders_of(steam_path@, disk@) == Ok::<
                    Seq<LibraryFolderView>,
                    Seq<char>,
                >(v.deep_view()),
                Err(e) => library_folders_of(steam_path@, disk@) == Err::<
                    Seq<LibraryFolderView>,
                    Seq<char>,
                >(e@),
            },
    {
        let vdf_path = Self::index_path(steam_path);
        let content = match disk.document(vdf_path.as_str()) {
            Some(c) => c,
            None => {
                return Err(AppError::new(String::from_str("Failed to read libraryfolders.vdf")));
            },
        };
        let mut libraries: Vec<LibraryFolder> = Vec::new();
        libraries.push(
            LibraryFolder {
                path: join(steam_path, "steamapps"),
                label: String::from_str("Installation Steam"),
                mounted: true,
            },
        );
        let ghost first = seq![default_library(steam_path@)];
        assert(libraries.deep_view() =~= first);
        let matches = captures_all("\"path\"\\s*\"([^\"]+)\"", content.as_str());
        let mut i: usize = 0;
        assert(matches.deep_view().take(0) =~= Seq::empty());
        assert(libraries.deep_view() =~= first + Seq::empty());
        while i < matches.len()
            invariant
                i <= matches.len(),
                libraries.deep_view() == first + libraries_of(
                    matches.deep_view().take(i as int),
                    disk@,
                ),
            decreases matches.len() - i,
        {
            let ghost before = libraries_of(matches.deep_view().take(i as int), disk@);
            let ghost libs_before = libraries.deep_view();
            proof {
                let next = matches.deep_view().take(i + 1);
                assert(next.drop_last() =~= matches.deep_view().take(i as int));
                assert(next.last() == matches[i as int].deep_view());
            }
            match group(&matches[i], 1) {
                Some(p) => {
                    let path_str = replace(p.as_str(), "\\\\", "\\");
                    let library_path = join(path_str.as_str(), "steamapps");
                    if disk.has_path(library_path.as_str()) {
                        let folder = LibraryFolder {
                            path: library_path,
                            label: get_library_label(path_str.as_str()),
                            mounted: true,
                        };
                        libraries.push(folder);
                        assert(libraries.deep_view() =~= libs_before.push(folder@));
                        assert(libraries.deep_view() =~= first + before.push(folder@));
                    }
                },
                None => {},
            }
            i += 1;
        }
        assert(matches.deep_view().take(matches.len() as int) =~= matches.deep_view());
        Ok(libraries)
    }
}

} // verus!
