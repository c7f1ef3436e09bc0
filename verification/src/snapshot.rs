//! A snapshot of the disk: the facts that the caller read from the file
//! system, handed to the library as plain values.
//!
//! The library never touches the disk. It tells the caller which paths it
//! is interested in, the caller looks, and records what it found here. A
//! path the snapshot does not mention counts as absent.

use vstd::prelude::*;
use crate::text::{contains_string, same_text};

verus! {

/// The value paired with the first occurrence of `key`.
pub open spec fn first_with_key<V>(entries: Seq<(Seq<char>, V)>, key: Seq<char>) -> Option<V>
    decreases entries.len(),
{
    if entries.len() == 0 {
        None
    } else if entries[0].0 == key {
        Some(entries[0].1)
    } else {
        first_with_key(entries.drop_first(), key)
    }
}

/// Finds the value paired with the first occurrence of `key`.
pub fn lookup<'a, V: DeepView>(entries: &'a Vec<(String, V)>, key: &str) -> (r: Option<&'a V>)
    ensures
        r.deep_view() == first_with_key(entries.deep_view(), key@),
{
    let mut i: usize = 0;
    assert(entries.deep_view().skip(0) =~= entries.deep_view());
    while i < entries.len()
        invariant
            i <= entries.len(),
            first_with_key(entries.deep_view(), key@) == first_with_key(
                entries.deep_view().skip(i as int),
                key@,
            ),
        decreases entries.len() - i,
    {
        let ghost rest = entries.deep_view().skip(i as int);
        assert(rest[0] == entries.deep_view()[i as int]);
        assert(rest.drop_first() =~= entries.deep_view().skip(i + 1));
        if same_text(entries[i].0.as_str(), key) {
            return Some(&entries[i].1);
        }
        i += 1;
    }
    None
}

/// A file found while walking an install directory.
#[derive(Debug, PartialEq, Eq)]
pub struct ExecutableCandidate {
    /// The file's full path.
    pub path: String,
    /// The file's size in bytes, where it could be read.
    pub size: Option<u64>,
    /// How far below the walk's root the file lies: 1 for a file directly
    /// in the root directory.
    pub depth: u32,
}

/// What contracts say of a [`ExecutableCandidate`]: the same value with its strings
/// as sequences of characters.
pub struct CandidateView {
    pub path: Seq<char>,
    pub size: Option<u64>,
    pub depth: u32,
}

impl View for ExecutableCandidate {
    type V = CandidateView;

    open spec fn view(&self) -> CandidateView {
        CandidateView { path: self.path@, size: self.size, depth: self.depth }
    }
}

impl DeepView for ExecutableCandidate {
    type V = CandidateView;

    open spec fn deep_view(&self) -> CandidateView {
        self@
    }
}

/// What the caller found on disk.
#[derive(Debug, PartialEq, Eq)]
pub struct DiskSnapshot {
    /// Paths that exist.
    pub existing: Vec<String>,
    /// Directories that were listed: the full paths of their
    /// subdirectories, then of their files.
    pub listings: Vec<(String, (Vec<String>, Vec<String>))>,
    /// Files that were read, with their text.
    pub documents: Vec<(String, String)>,
    /// Folders that were measured, with the total size of their files.
    pub sizes: Vec<(String, u64)>,
    /// Directories that were walked, with the files found below them.
    pub walks: Vec<(String, Vec<ExecutableCandidate>)>,
}

/// What contracts say of a [`DiskSnapshot`]: the same value with its strings
/// as sequences of characters.
pub struct DiskView {
    pub existing: Seq<Seq<char>>,
    pub listings: Seq<(Seq<char>, (Seq<Seq<char>>, Seq<Seq<char>>))>,
    pub documents: Seq<(Seq<char>, Seq<char>)>,
    pub sizes: Seq<(Seq<char>, u64)>,
    pub walks: Seq<(Seq<char>, Seq<CandidateView>)>,
}

impl DiskView {
    /// Nothing was found.
    pub open spec fn empty() -> DiskView {
        DiskView {
            existing: Seq::empty(),
            listings: Seq::empty(),
            documents: Seq::empty(),
            sizes: Seq::empty(),
            walks: Seq::empty(),
        }
    }

    /// The path was seen to exist.
    pub open spec fn has_path(self, path: Seq<char>) -> bool {
        self.existing.contains(path)
    }

    /// The subdirectories of a listed directory; none for one not listed.
    pub open spec fn directories_in(self, path: Seq<char>) -> Seq<Seq<char>> {
        match first_with_key(self.listings, path) {
            Some(l) => l.0,
            None => Seq::empty(),
        }
    }

    /// The files of a listed directory; none for one not listed.
    pub open spec fn files_in(self, path: Seq<char>) -> Seq<Seq<char>> {
        match first_with_key(self.listings, path) {
            Some(l) => l.1,
            None => Seq::empty(),
        }
    }

    /// The text of a file that was read.
    pub open spec fn document(self, path: Seq<char>) -> Option<Seq<char>> {
        first_with_key(self.documents, path)
    }

    /// The measured size of a folder; 0 for one not measured.
    pub open spec fn size_of(self, path: Seq<char>) -> u64 {
        match first_with_key(self.sizes, path) {
            Some(n) => n,
            None => 0,
        }
    }

    /// The files found below a walked directory; none for one not walked.
    pub open spec fn walk(self, root: Seq<char>) -> Seq<CandidateView> {
        match first_with_key(self.walks, root) {
            Some(w) => w,
            None => Seq::empty(),
        }
    }
}

impl View for DiskSnapshot {
    type V = DiskView;

    open spec fn view(&self) -> DiskView {
        DiskView {
            existing: self.existing.deep_view(),
            listings: self.listings.deep_view(),
            documents: self.documents.deep_view(),
            sizes: self.sizes.deep_view(),
            walks: self.walks.deep_view(),
        }
    }
}

impl DiskSnapshot {
    /// A snapshot in which nothing was found.
    pub fn new() -> (s: DiskSnapshot)
        ensures
            s@ == DiskView::empty(),
    {
        let s = DiskSnapshot {
            existing: Vec::new(),
            listings: Vec::new(),
            documents: Vec::new(),
            sizes: Vec::new(),
            walks: Vec::new(),
        };
        assert(s.existing.deep_view() =~= Seq::empty());
        assert(s.listings.deep_view() =~= Seq::empty());
        assert(s.documents.deep_view() =~= Seq::empty());
        assert(s.sizes.deep_view() =~= Seq::empty());
        assert(s.walks.deep_view() =~= Seq::empty());
        s
    }

    /// Records that a path exists.
    pub fn add_existing(&mut self, path: String)
        ensures
            final(self)@ == (DiskView { existing: old(self)@.existing.push(path@), ..old(self)@ }),
    {
        self.existing.push(path);
        assert(self.existing.deep_view() =~= old(self).existing.deep_view().push(path@));
    }

    /// Records the subdirectories and files of a directory.
    pub fn add_listing(&mut self, path: String, directories: Vec<String>, files: Vec<String>)
        ensures
            final(self)@ == (DiskView {
                listings: old(self)@.listings.push(
                    (path@, (directories.deep_view(), files.deep_view())),
                ),
                ..old(self)@
            }),
    {
        let ghost entry = (path@, (directories.deep_view(), files.deep_view()));
        self.listings.push((path, (directories, files)));
        assert(self.listings.deep_view() =~= old(self).listings.deep_view().push(entry));
    }

    /// Records the text of a file.
    pub fn add_document(&mut self, path: String, content: String)
        ensures
            final(self)@ == (DiskView {
                documents: old(self)@.documents.push((path@, content@)),
                ..old(self)@
            }),
    {
        let ghost entry = (path@, content@);
        self.documents.push((path, content));
        assert(self.documents.deep_view() =~= old(self).documents.deep_view().push(entry));
    }

    /// Records the total size of the files below a folder.
    pub fn add_size(&mut self, path: String, bytes: u64)
        ensures
            final(self)@ == (DiskView {
                sizes: old(self)@.sizes.push((path@, bytes)),
                ..old(self)@
            }),
    {
        let ghost entry = (path@, bytes);
        self.sizes.push((path, bytes));
        assert(self.sizes.deep_view() =~= old(self).sizes.deep_view().push(entry));
    }

    /// Records the files found by walking a directory.
    pub fn add_walk(&mut self, root: String, files: Vec<ExecutableCandidate>)
        ensures
            final(self)@ == (DiskView {
                walks: old(self)@.walks.push((root@, files.deep_view())),
                ..old(self)@
            }),
    {
        let ghost entry = (root@, files.deep_view());
        self.walks.push((root, files));
        assert(self.walks.deep_view() =~= old(self).walks.deep_view().push(entry));
    }

    /// Whether a path was seen to exist.
    pub fn has_path(&self, path: &str) -> (r: bool)
        ensures
            r == self@.has_path(path@),
    {
        contains_string(&self.existing, path)
    }

    /// The text of a file, if it was read.
    pub fn document(&self, path: &str) -> (r: Option<&String>)
        ensures
            r.deep_view() == self@.document(path@),
    {
        lookup(&self.documents, path)
    }

    /// The measured size of a folder; 0 if it was not measured.
    pub fn folder_size(&self, path: &str) -> (r: u64)
        ensures
            r == self@.size_of(path@),
    {
        match lookup(&self.sizes, path) {
            Some(n) => *n,
            None => 0,
        }
    }

    /// The files found below a walked directory; none if it was not
    /// walked.
    pub fn walk(&self, root: &str) -> (r: Vec<ExecutableCandidate>)
        ensures
            r.deep_view() == self@.walk(root@),
    {
        let mut out: Vec<ExecutableCandidate> = Vec::new();
        match lookup(&self.walks, root) {
            Some(files) => {
                let mut i: usize = 0;
                while i < files.len()
                    invariant
                        i <= files.len(),
                        out.len() == i,
                        forall|j: int| 0 <= j < i ==> out[j]@ == files[j]@,
                    decreases files.len() - i,
                {
                    out.push(
                        ExecutableCandidate {
                            path: files[i].path.clone(),
                            size: files[i].size,
                            depth: files[i].depth,
                        },
                    );
                    i += 1;
                }
                assert(out.deep_view() =~= files.deep_view());
            },
            None => {
                assert(out.deep_view() =~= Seq::empty());
            },
        }
        out
    }

    /// The files of a listed directory; none if it was not listed.
    pub fn files_in(&self, path: &str) -> (r: Vec<String>)
        ensures
            r.deep_view() == self@.files_in(path@),
    {
        match lookup(&self.listings, path) {
            Some(listing) => crate::models::clone_strings(&listing.1),
            None => {
                let out: Vec<String> = Vec::new();
                assert(out.deep_view() =~= Seq::empty());
                out
            },
        }
    }

    /// The subdirectories of a listed directory; none if it was not
    /// listed.
    pub fn directories_in(&self, path: &str) -> (r: Vec<String>)
        ensures
            r.deep_view() == self@.directories_in(path@),
    {
        match lookup(&self.listings, path) {
            Some(listing) => crate::models::clone_strings(&listing.0),
            None => {
                let out: Vec<String> = Vec::new();
                assert(out.deep_view() =~= Seq::empty());
                out
            },
        }
    }
}

/// The sum of a run of sizes.
pub open spec fn total_of(sizes: Seq<u64>) -> int
    decreases sizes.len(),
{
    if sizes.len() == 0 {
        0
    } else {
        total_of(sizes.drop_last()) + sizes.last()
    }
}

/// Adds up the sizes of a folder's files. A total beyond what 64 bits
/// hold is reported as the largest number they hold.
pub fn total_size(sizes: &Vec<u64>) -> (r: u64)
    ensures
        r == if total_of(sizes@) <= u64::MAX {
            total_of(sizes@)
        } else {
            u64::MAX as int
        },
{
    let mut total: u64 = 0;
    let mut i: usize = 0;
    assert(sizes@.take(0) =~= Seq::empty());
    while i < sizes.len()
        invariant
            i <= sizes.len(),
            0 <= total_of(sizes@.take(i as int)),
            total == if total_of(sizes@.take(i as int)) <= u64::MAX {
                total_of(sizes@.take(i as int))
            } else {
                u64::MAX as int
            },
        decreases sizes.len() - i,
    {
        proof {
            let next = sizes@.take(i + 1);
            assert(next.drop_last() =~= sizes@.take(i as int));
            assert(next.last() == sizes[i as int]);
        }
        total = total.saturating_add(sizes[i]);
        i += 1;
    }
    assert(sizes@.take(sizes.len() as int) =~= sizes@);
    total
}

} // verus!
