//! Parser for application manifests: brace-structured text files whose
//! payload is a series of `"key" "value"` lines.

use vstd::prelude::*;
use crate::error::AppError;
use crate::pattern::{captures, captures_of, group, group_text};
use crate::text::{lines, lines_of, parse_i64, parse_u32, parse_u64, parsed_i64, parsed_u32, parsed_u64, same_text, trim, trimmed};

verus! {

/// A manifest's text, ready to be parsed.
pub struct AcfParser {
    content: String,
}

/// What a manifest says of one installed application.
#[derive(Debug, PartialEq, Eq)]
pub struct AcfData {
    pub app_id: String,
    pub name: String,
    pub install_dir: String,
    pub size_on_disk: u64,
    pub buildid: String,
    pub last_updated: Option<i64>,
    pub state: u32,
}

/// What contracts say of a [`AcfData`]: the same value with its strings
/// as sequences of characters.
pub struct AcfDataView {
    pub app_id: Seq<char>,
    pub name: Seq<char>,
    pub install_dir: Seq<char>,
    pub size_on_disk: u64,
    pub buildid: Seq<char>,
    pub last_updated: Option<i64>,
    pub state: u32,
}

impl View for AcfData {
    type V = AcfDataView;

    open spec fn view(&self) -> AcfDataView {
        AcfDataView {
            app_id: self.app_id@,
            name: self.name@,
            install_dir: self.install_dir@,
            size_on_disk: self.size_on_disk,
            buildid: self.buildid@,
            last_updated: self.last_updated,
            state: self.state,
        }
    }
}

/// A library folder as a manifest index describes it.
#[derive(Debug, PartialEq, Eq)]
pub struct LibraryFolder {
    pub path: String,
    pub label: String,
    pub mounted: bool,
    pub size: u64,
}

/// The pattern of one `"key" "value"` line: a quoted, non-empty key, then a
/// quoted, possibly empty value.
pub open spec fn key_value_pattern() -> Seq<char> {
    "\"\\s*([^\"]+)\\s*\"\\s*\"([^\"]*)\""@
}

/// The key and value that a line holds, both trimmed; `None` for a line
/// that holds no pair.
pub open spec fn line_entry(line: Seq<char>) -> Option<(Seq<char>, Seq<char>)> {
    match captures_of(key_value_pattern(), line) {
        Some(groups) => match (group_text(groups, 1), group_text(groups, 2)) {
            (Some(k), Some(v)) => Some((trimmed(k), trimmed(v))),
            _ => None,
        },
        None => None,
    }
}

/// The pairs that a run of lines holds, in order.
pub open spec fn entries_of(lines: Seq<Seq<char>>) -> Seq<(Seq<char>, Seq<char>)>
    decreases lines.len(),
{
    if lines.len() == 0 {
        Seq::empty()
    } else {
        let rest = entries_of(lines.drop_last());
        match line_entry(lines.last()) {
            Some(e) => rest.push(e),
            None => rest,
        }
    }
}

/// The value of the last pair whose key is `key`: a later line overrides
/// an earlier one.
pub open spec fn last_value(entries: Seq<(Seq<char>, Seq<char>)>, key: Seq<char>) -> Option<
    Seq<char>,
>
    decreases entries.len(),
{
    if entries.len() == 0 {
        None
    } else if entries.last().0 == key {
        Some(entries.last().1)
    } else {
        last_value(entries.drop_last(), key)
    }
}

/// The record that a series of pairs describes. The application id, the
/// name and the install directory are required, in that order of
/// complaint; every other field has a default.
pub open spec fn record_of(entries: Seq<(Seq<char>, Seq<char>)>) -> Result<AcfDataView, Seq<char>> {
    match last_value(entries, "appid"@) {
        None => Err("Missing appid"@),
        Some(app_id) => match last_value(entries, "name"@) {
            None => Err("Missing name"@),
            Some(name) => match last_value(entries, "installdir"@) {
                None => Err("Missing installdir"@),
                Some(install_dir) => Ok(
                    AcfDataView {
                        app_id,
                        name,
                        install_dir,
                        size_on_disk: match last_value(entries, "SizeOnDisk"@) {
                            Some(s) => match parsed_u64(s) {
                                Some(n) => n,
                                None => 0,
                            },
                            None => 0,
                        },
                        buildid: match last_value(entries, "buildid"@) {
                            Some(b) => b,
                            None => "0"@,
                        },
                        last_updated: match last_value(entries, "LastUpdated"@) {
                            Some(s) => parsed_i64(s),
                            None => None,
                        },
                        state: match last_value(entries, "StateFlags"@) {
                            Some(s) => match parsed_u32(s) {
                                Some(n) => n,
                                None => 0,
                            },
                            None => 0,
                        },
                    },
                ),
            },
        },
    }
}

/// Whether an outcome of the library matches an outcome over views.
pub open spec fn outcome_is(r: Result<AcfData, AppError>, expected: Result<AcfDataView, Seq<char>>) -> bool {
    match r {
        Ok(d) => expected == Ok::<AcfDataView, Seq<char>>(d@),
        Err(e) => expected == Err::<AcfDataView, Seq<char>>(e@),
    }
}

/// Reads the pair of a single line.
pub fn parse_line(line: &str) -> (r: Option<(String, String)>)
    ensures
        r.deep_view() == line_entry(line@),
{
    let pattern = "\"\\s*([^\"]+)\\s*\"\\s*\"([^\"]*)\"";
    match captures(pattern, line) {
        Some(groups) => {
            match (group(&groups, 1), group(&groups, 2)) {
                (Some(k), Some(v)) => Some((trim(k.as_str()), trim(v.as_str()))),
                _ => None,
            }
        },
        None => None,
    }
}

/// Looks a key up among pairs; the last pair with that key wins.
pub fn find_last(entries: &Vec<(String, String)>, key: &str) -> (r: Option<String>)
    ensures
        r.deep_view() == last_value(entries.deep_view(), key@),
{
    let mut i: usize = entries.len();
    assert(entries.deep_view().take(i as int) =~= entries.deep_view());
    while i > 0
        invariant
            i <= entries.len(),
            last_value(entries.deep_view(), key@) == last_value(
                entries.deep_view().take(i as int),
                key@,
            ),
        decreases i,
    {
        let ghost prefix = entries.deep_view().take(i as int);
        assert(prefix.last() == entries.deep_view()[i - 1]);
        assert(prefix.drop_last() =~= entries.deep_view().take(i - 1));
        if same_text(entries[i - 1].0.as_str(), key) {
            return Some(entries[i - 1].1.clone());
        }
        i -= 1;
    }
    assert(entries.deep_view().take(0).len() == 0);
    None
}

impl AcfData {
    /// Builds the record that a series of pairs describes.
    ///
    /// Fails exactly when the application id, the name or the install
    /// directory is absent. A size or state that is absent or not a number
    /// is 0, an absent build id is `"0"`, and a last-update time that is
    /// absent or not a number is `None`.
    pub fn from_entries(entries: &Vec<(String, String)>) -> (r: Result<AcfData, AppError>)
        ensures
            outcome_is(r, record_of(entries.deep_view())),
    {
        let app_id = match find_last(entries, "appid") {
            Some(v) => v,
            None => {
                return Err(AppError::new(String::from_str("Missing appid")));
            },
        };
        let name = match find_last(entries, "name") {
            Some(v) => v,
            None => {
                return Err(AppError::new(String::from_str("Missing name")));
            },
        };
        let install_dir = match find_last(entries, "installdir") {
            Some(v) => v,
            None => {
                return Err(AppError::new(String::from_str("Missing installdir")));
            },
        };
        let size_on_disk: u64 = match find_last(entries, "SizeOnDisk") {
            Some(s) => match parse_u64(s.as_str()) {
                Some(n) => n,
                None => 0,
            },
            None => 0,
        };
        let buildid = match find_last(entries, "buildid") {
            Some(b) => b,
            None => String::from_str("0"),
        };
        let last_updated: Option<i64> = match find_last(entries, "LastUpdated") {
            Some(s) => parse_i64(s.as_str()),
            None => None,
        };
        let state: u32 = match find_last(entries, "StateFlags") {
            Some(s) => match parse_u32(s.as_str()) {
                Some(n) => n,
                None => 0,
            },
            None => 0,
        };
        Ok(AcfData { app_id, name, install_dir, size_on_disk, buildid, last_updated, state })
    }
}

impl AcfParser {
    /// Wraps a manifest's text.
    pub fn new(content: String) -> (p: AcfParser)
        ensures
            p.content_view() == content@,
    {
        AcfParser { content }
    }

    /// The text this parser holds.
    pub closed spec fn content_view(&self) -> Seq<char> {
        self.content@
    }

    /// Reads every `"key" "value"` line of the text, in order.
    pub fn entries(&self) -> (r: Vec<(String, String)>)
        ensures
            r.deep_view() == entries_of(lines_of(self.content_view())),
    {
        let all = lines(self.content.as_str());
        let mut out: Vec<(String, String)> = Vec::new();
        let mut i: usize = 0;
        assert(all.deep_view().take(0) =~= Seq::empty());
        assert(out.deep_view() =~= Seq::empty());
        while i < all.len()
            invariant
                i <= all.len(),
                out.deep_view() == entries_of(all.deep_view().take(i as int)),
            decreases all.len() - i,
        {
            let ghost before = out.deep_view();
            let ghost next = all.deep_view().take(i + 1);
            assert(next.drop_last() =~= all.deep_view().take(i as int));
            assert(next.last() == all[i as int]@);
            match parse_line(all[i].as_str()) {
                Some(e) => {
                    out.push(e);
                    assert(out.deep_view() =~= before.push(line_entry(all[i as int]@).unwrap()));
                },
                None => {},
            }
            i += 1;
        }
        assert(all.deep_view().take(all.len() as int) =~= all.deep_view());
        out
    }

    /// Parses the manifest.
    ///
    /// The result is the record described by the text's pairs: see
    /// [`record_of`]. Malformed lines are skipped; only a missing required
    /// field makes the parse fail.
    pub fn parse(&self) -> (r: Result<AcfData, AppError>)
        ensures
            outcome_is(r, record_of(entries_of(lines_of(self.content_view())))),
    {
        let entries = self.entries();
        AcfData::from_entries(&entries)
    }
}

} // verus!
