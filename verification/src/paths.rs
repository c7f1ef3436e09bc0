//! File-system paths, held as strings, and the application's own
//! directories.
//!
//! Paths are taken apart and put together by `std::path`, whose rules
//! follow the platform the crate is built for; the results are named.

use vstd::prelude::*;
use std::path::Path;

verus! {

/// `base` with `part` adjoined, as `Path::join` computes it.
pub uninterp spec fn joined(base: Seq<char>, part: Seq<char>) -> Seq<char>;

/// The path without its final component, as `Path::parent` computes it;
/// `None` for a root or an empty path.
pub uninterp spec fn parent_of(path: Seq<char>) -> Option<Seq<char>>;

/// The final component of a path, as `Path::file_name` computes it; `None`
/// where the path ends in `..` or has no component.
pub uninterp spec fn file_name_of(path: Seq<char>) -> Option<Seq<char>>;

/// The extension of a path's final component, without the dot, as
/// `Path::extension` computes it.
pub uninterp spec fn extension_of(path: Seq<char>) -> Option<Seq<char>>;

/// Whether the components of `child` are the last components of `path`, as
/// `Path::ends_with` decides it.
pub uninterp spec fn ends_with_components(path: Seq<char>, child: Seq<char>) -> bool;

/// Calls `Path::join`. The result is named, not described.
#[verifier::external_body]
pub(crate) fn join(base: &str, part: &str) -> (r: String)
    ensures
        r@ == joined(base@, part@),
{
    Path::new(base).join(part).to_string_lossy().into_owned()
}

/// Calls `Path::parent`. The result is named, not described.
#[verifier::external_body]
pub(crate) fn parent(path: &str) -> (r: Option<String>)
    ensures
        r.deep_view() == parent_of(path@),
{
    Path::new(path).parent().map(|p| p.to_string_lossy().into_owned())
}

/// Calls `Path::file_name`. The result is named, not described.
#[verifier::external_body]
pub(crate) fn file_name(path: &str) -> (r: Option<String>)
    ensures
        r.deep_view() == file_name_of(path@),
{
    Path::new(path).file_name().map(|n| n.to_string_lossy().into_owned())
}

/// Calls `Path::extension`. The result is named, not described.
#[verifier::external_body]
pub(crate) fn extension(path: &str) -> (r: Option<String>)
    ensures
        r.deep_view() == extension_of(path@),
{
    Path::new(path).extension().map(|e| e.to_string_lossy().into_owned())
}

/// Calls `Path::ends_with`. The result is named, not described.
#[verifier::external_body]
pub(crate) fn ends_with(path: &str, child: &str) -> (r: bool)
    ensures
        r == ends_with_components(path@, child@),
{
    Path::new(path).ends_with(child)
}

/// `base` with two parts adjoined in turn.
pub open spec fn joined2(base: Seq<char>, a: Seq<char>, b: Seq<char>) -> Seq<char> {
    joined(joined(base, a), b)
}

/// Adjoins two parts to a base path, one after the other.
pub fn join2(base: &str, a: &str, b: &str) -> (r: String)
    ensures
        r@ == joined2(base@, a@, b@),
{
    let first = join(base, a);
    join(first.as_str(), b)
}

/// Whether a path's extension is exactly `ext` (case matters).
pub fn has_extension(path: &str, ext: &str) -> (r: bool)
    ensures
        r == (extension_of(path@) == Some(ext@)),
{
    match extension(path) {
        Some(e) => crate::text::same_text(e.as_str(), ext),
        None => false,
    }
}

/// The directories in which the application keeps its own files.
#[derive(Debug)]
pub struct AppPaths {
    pub root: String,
    pub media: String,
    pub database: String,
    pub logs: String,
    pub settings: String,
}

impl AppPaths {
    /// Lays the application's directories out under a root directory.
    pub fn new(root: String) -> (p: AppPaths)
        ensures
            p.root@ == root@,
            p.media@ == joined(root@, "media"@),
            p.database@ == joined(root@, "data"@),
            p.logs@ == joined(root@, "logs"@),
            p.settings@ == joined(root@, "config"@),
    {
        AppPaths {
            media: join(root.as_str(), "media"),
            database: join(root.as_str(), "data"),
            logs: join(root.as_str(), "logs"),
            settings: join(root.as_str(), "config"),
            root,
        }
    }

    /// Every directory that must exist before the application starts, in
    /// the order in which they are to be created.
    pub fn directories(&self) -> (r: Vec<String>)
        ensures
            r.deep_view() == seq![self.media@, self.database@, self.logs@, self.settings@],
    {
        let mut r: Vec<String> = Vec::new();
        r.push(self.media.clone());
        r.push(self.database.clone());
        r.push(self.logs.clone());
        r.push(self.settings.clone());
        assert(r.deep_view() =~= seq![self.media@, self.database@, self.logs@, self.settings@]);
        r
    }

    /// The file that holds the library database.
    pub fn get_database_path(&self) -> (r: String)
        ensures
            r@ == joined(self.database@, "games.db"@),
    {
        join(self.database.as_str(), "games.db")
    }

    /// The file that holds the user's settings.
    pub fn get_settings_path(&self) -> (r: String)
        ensures
            r@ == joined(self.settings@, "settings.json"@),
    {
        join(self.settings.as_str(), "settings.json")
    }

    /// The file that the application logs to.
    pub fn get_log_path(&self) -> (r: String)
        ensures
            r@ == joined(self.logs@, "app.log"@),
    {
        join(self.logs.as_str(), "app.log")
    }
}

} // verus!
