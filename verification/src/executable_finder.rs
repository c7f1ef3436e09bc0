//! Picks the launchable binary of a game among the files of its install
//! directory.
//!
//! The choice is a heuristic. Files that look like installers, crash
//! handlers or redistributables are discarded; the rest are scored, and the
//! first file with the highest score wins.
//!
//! Scores are counted in half points, so that the half-point penalty per
//! directory level stays a whole number: a name that matches exactly is
//! worth 20, one that merely contains the title 10, a file above one
//! megabyte 4, and each level below the install root costs 1.

use vstd::prelude::*;
use crate::error::AppError;
use crate::paths::{extension_of, file_name, file_name_of, has_extension};
use crate::snapshot::{CandidateView, ExecutableCandidate};
use crate::text::{concat2, contains, contains_text, lowercase_of, same_text, to_lowercase};

verus! {

/// How deep below the install root files are looked at.
pub const MAX_DEPTH: u32 = 3;

/// A file must be larger than this many bytes to count as a real binary.
pub const LARGE_FILE_BYTES: u64 = 1000000;

/// Half points for a file named exactly after the game.
pub const EXACT_NAME_POINTS: i64 = 20;

/// Half points for a file whose name contains the game's.
pub const PARTIAL_NAME_POINTS: i64 = 10;

/// Half points for a large file.
pub const LARGE_FILE_POINTS: i64 = 4;

/// Ranks the executables of an install directory.
pub struct ExecutableFinder {
    ignored_executables: Vec<String>,
}

/// The substrings that mark a path as noise.
pub open spec fn default_ignored() -> Seq<Seq<char>> {
    seq![
        "unins000.exe"@,
        "UnityCrashHandler64.exe"@,
        "UnrealCEFSubProcess.exe"@,
        "launcher.exe"@,
        "redist"@,
        "dotnet"@,
        "vcredist"@,
        "directx"@,
        "support"@,
        "crash"@,
        "_CommonRedist"@,
    ]
}

/// A path is noise when it contains one of the ignored substrings.
pub open spec fn is_ignored(ignored: Seq<Seq<char>>, path: Seq<char>) -> bool {
    exists|i: int| 0 <= i < ignored.len() && contains_text(path, #[trigger] ignored[i])
}

/// A file is a candidate when it lies within the depth bound, has the
/// extension `exe` and is not noise.
pub open spec fn eligible(ignored: Seq<Seq<char>>, c: CandidateView) -> bool {
    c.depth <= MAX_DEPTH && extension_of(c.path) == Some("exe"@) && !is_ignored(ignored, c.path)
}

/// The candidates among `files`, in order.
pub open spec fn eligible_of(ignored: Seq<Seq<char>>, files: Seq<CandidateView>) -> Seq<
    CandidateView,
>
    decreases files.len(),
{
    if files.len() == 0 {
        Seq::empty()
    } else {
        let rest = eligible_of(ignored, files.drop_last());
        if eligible(ignored, files.last()) {
            rest.push(files.last())
        } else {
            rest
        }
    }
}

/// Directory levels between the install root and the file's directory.
pub open spec fn levels_below_root(depth: u32) -> int {
    if depth >= 1 {
        depth - 1
    } else {
        0
    }
}

/// The score, in half points, of a file whose lowercase name is `file`
/// for a game whose lowercase title is `title`. The name counts once: as
/// an exact match, or else as a partial one.
pub open spec fn score_parts(file: Seq<char>, title: Seq<char>, size: Option<u64>, depth: u32) -> int {
    (if file == title + ".exe"@ {
        EXACT_NAME_POINTS as int
    } else if contains_text(file, title) {
        PARTIAL_NAME_POINTS as int
    } else {
        0
    }) + (if size is Some && size->0 > LARGE_FILE_BYTES {
        LARGE_FILE_POINTS as int
    } else {
        0
    }) - levels_below_root(depth)
}

/// The lowercase file name of a path; empty where the path has none.
pub open spec fn lower_file_name(path: Seq<char>) -> Seq<char> {
    lowercase_of(
        match file_name_of(path) {
            Some(n) => n,
            None => Seq::empty(),
        },
    )
}

/// The score, in half points, of a candidate for a game.
pub open spec fn score_of(c: CandidateView, title: Seq<char>) -> int {
    score_parts(lower_file_name(c.path), lowercase_of(title), c.size, c.depth)
}

/// The scores of a run of candidates.
pub open spec fn scores_of(files: Seq<CandidateView>, title: Seq<char>) -> Seq<int> {
    Seq::new(files.len(), |i: int| score_of(files[i], title))
}

/// The position of the winner among scores: the first of the highest.
pub open spec fn best_of(scores: Seq<int>) -> Option<int>
    decreases scores.len(),
{
    if scores.len() == 0 {
        None
    } else {
        match best_of(scores.drop_last()) {
            None => Some(scores.len() - 1),
            Some(b) => if scores.last() > scores[b] {
                Some(scores.len() - 1)
            } else {
                Some(b)
            },
        }
    }
}

/// The winner has the highest score, and is the first to have it. There is
/// a winner whenever there is a score.
pub proof fn lemma_best_is_first_maximum(scores: Seq<int>)
    ensures
        match best_of(scores) {
            Some(b) => {
                &&& 0 <= b < scores.len()
                &&& forall|j: int| 0 <= j < scores.len() ==> scores[j] <= scores[b]
                &&& forall|j: int| 0 <= j < b ==> scores[j] < scores[b]
            },
            None => scores.len() == 0,
        },
    decreases scores.len(),
{
    if scores.len() > 0 {
        let init = scores.drop_last();
        lemma_best_is_first_maximum(init);
        assert forall|j: int| 0 <= j < init.len() implies init[j] == scores[j] by {}
    }
}

/// Appending a score moves the winner only if the new score is strictly
/// higher than the winner's.
pub proof fn lemma_best_of_push(prefix: Seq<int>, x: int)
    ensures
        best_of(prefix.push(x)) == match best_of(prefix) {
            None => Some(prefix.len() as int),
            Some(b) => if x > prefix[b] {
                Some(prefix.len() as int)
            } else {
                Some(b)
            },
        },
{
    assert(prefix.push(x).drop_last() =~= prefix);
    lemma_best_is_first_maximum(prefix);
}

/// The path that ranking picks among candidates; `None` where there is no
/// candidate.
pub open spec fn ranked(files: Seq<CandidateView>, title: Seq<char>) -> Option<Seq<char>> {
    match best_of(scores_of(files, title)) {
        Some(b) => Some(files[b].path),
        None => None,
    }
}

/// The candidates among `files` are exactly the files that are eligible.
pub proof fn lemma_eligible_of(ignored: Seq<Seq<char>>, files: Seq<CandidateView>)
    ensures
        forall|k: int|
            0 <= k < eligible_of(ignored, files).len() ==> eligible(
                ignored,
                #[trigger] eligible_of(ignored, files)[k],
            ) && files.contains(eligible_of(ignored, files)[k]),
        forall|i: int|
            0 <= i < files.len() && eligible(ignored, #[trigger] files[i]) ==> eligible_of(
                ignored,
                files,
            ).contains(files[i]),
    decreases files.len(),
{
    if files.len() > 0 {
        let init = files.drop_last();
        lemma_eligible_of(ignored, init);
        let kept0 = eligible_of(ignored, init);
        let kept = eligible_of(ignored, files);
        assert forall|k: int| 0 <= k < kept.len() implies eligible(ignored, #[trigger] kept[k])
            && files.contains(kept[k]) by {
            if k < kept0.len() {
                assert(kept[k] == kept0[k]);
                let i = choose|i: int| 0 <= i < init.len() && init[i] == kept0[k];
                assert(files[i] == kept[k]);
            } else {
                assert(files[files.len() - 1] == kept[k]);
            }
        }
        assert forall|i: int| 0 <= i < files.len() && eligible(
            ignored,
            #[trigger] files[i],
        ) implies kept.contains(files[i]) by {
            if i < init.len() {
                assert(init[i] == files[i]);
                let k = choose|k: int| 0 <= k < kept0.len() && kept0[k] == init[i];
                assert(kept[k] == files[i]);
            } else {
                assert(kept[kept.len() - 1] == files[i]);
            }
        }
    }
}

/// What finding the main executable amounts to: the path found belongs to
/// an eligible file whose score no eligible file exceeds, and nothing is
/// found exactly when no file is eligible.
pub proof fn lemma_found_is_best(ignored: Seq<Seq<char>>, files: Seq<CandidateView>, title: Seq<char>)
    ensures
        match ranked(eligible_of(ignored, files), title) {
            Some(p) => exists|i: int|
                0 <= i < files.len() && eligible(ignored, files[i]) && #[trigger] files[i].path == p
                    && forall|j: int|
                    0 <= j < files.len() && eligible(ignored, files[j]) ==> score_of(files[j], title)
                        <= score_of(files[i], title),
            None => forall|i: int| 0 <= i < files.len() ==> !eligible(ignored, files[i]),
        },
{
    let kept = eligible_of(ignored, files);
    let scores = scores_of(kept, title);
    lemma_eligible_of(ignored, files);
    lemma_best_is_first_maximum(scores);
    match best_of(scores) {
        Some(b) => {
            let i = choose|i: int| 0 <= i < files.len() && files[i] == kept[b];
            assert forall|j: int| 0 <= j < files.len() && eligible(ignored, files[j]) implies score_of(
                files[j],
                title,
            ) <= score_of(files[i], title) by {
                let k = choose|k: int| 0 <= k < kept.len() && kept[k] == files[j];
                assert(scores[k] <= scores[b]);
            }
            assert(0 <= i < files.len() && eligible(ignored, files[i]) && files[i].path
                == kept[b].path);
        },
        None => {
            assert forall|i: int| 0 <= i < files.len() implies !eligible(ignored, files[i]) by {
                if eligible(ignored, files[i]) {
                    let k = choose|k: int| 0 <= k < kept.len() && kept[k] == files[i];
                }
            }
        },
    }
}

/// Ranking is a function of the candidates and the title alone: the same
/// candidates and the same title always give the same path.
pub proof fn lemma_ranking_is_deterministic(
    a: Seq<CandidateView>,
    b: Seq<CandidateView>,
    title: Seq<char>,
    ignored: Seq<Seq<char>>,
)
    requires
        a == b,
    ensures
        ranked(a, title) == ranked(b, title),
        ranked(eligible_of(ignored, a), title) == ranked(eligible_of(ignored, b), title),
{
}

/// Computes a score from its parts.
///
/// `file` and `title` are the lowercase file name and the lowercase game
/// title.
pub fn score_from_parts(file: &str, title: &str, size: Option<u64>, depth: u32) -> (r: i64)
    ensures
        r == score_parts(file@, title@, size, depth),
{
    let mut score: i64 = 0;
    let exact = concat2(title, ".exe");
    if same_text(file, exact.as_str()) {
        score = score + EXACT_NAME_POINTS;
    } else if contains(file, title) {
        score = score + PARTIAL_NAME_POINTS;
    }
    match size {
        Some(n) => {
            if n > LARGE_FILE_BYTES {
                score = score + LARGE_FILE_POINTS;
            }
        },
        None => {},
    }
    if depth >= 1 {
        let levels: u32 = depth - 1;
        score = score - (levels as i64);
    }
    score
}

impl Clone for ExecutableCandidate {
    fn clone(&self) -> (c: ExecutableCandidate)
        ensures
            c@ == self@,
    {
        ExecutableCandidate { path: self.path.clone(), size: self.size, depth: self.depth }
    }
}

impl ExecutableFinder {
    /// The substrings this finder treats as noise.
    pub closed spec fn ignored(&self) -> Seq<Seq<char>> {
        self.ignored_executables.deep_view()
    }

    /// A finder with the standard list of noise substrings.
    pub fn new() -> (f: ExecutableFinder)
        ensures
            f.ignored() == default_ignored(),
    {
        let mut ignored: Vec<String> = Vec::new();
        ignored.push(String::from_str("unins000.exe"));
        ignored.push(String::from_str("UnityCrashHandler64.exe"));
        ignored.push(String::from_str("UnrealCEFSubProcess.exe"));
        ignored.push(String::from_str("launcher.exe"));
        ignored.push(String::from_str("redist"));
        ignored.push(String::from_str("dotnet"));
        ignored.push(String::from_str("vcredist"));
        ignored.push(String::from_str("directx"));
        ignored.push(String::from_str("support"));
        ignored.push(String::from_str("crash"));
        ignored.push(String::from_str("_CommonRedist"));
        assert(ignored.deep_view() =~= default_ignored());
        ExecutableFinder { ignored_executables: ignored }
    }

    /// Whether a path is noise: an uninstaller, a crash handler, a
    /// redistributable and the like.
    pub fn should_ignore_executable(&self, path: &str) -> (r: bool)
        ensures
            r == is_ignored(self.ignored(), path@),
    {
        let mut i: usize = 0;
        while i < self.ignored_executables.len()
            invariant
                i <= self.ignored_executables.len(),
                forall|j: int|
                    0 <= j < i ==> !contains_text(
                        path@,
                        #[trigger] self.ignored_executables.deep_view()[j],
                    ),
            decreases self.ignored_executables.len() - i,
        {
            assert(self.ignored_executables.deep_view()[i as int] == self.ignored_executables[i as int]@);
            if contains(path, self.ignored_executables[i].as_str()) {
                return true;
            }
            i += 1;
        }
        false
    }

    /// Whether a file is a candidate at all.
    pub fn is_candidate(&self, file: &ExecutableCandidate) -> (r: bool)
        ensures
            r == eligible(self.ignored(), file@),
    {
        file.depth <= MAX_DEPTH && has_extension(file.path.as_str(), "exe")
            && !self.should_ignore_executable(file.path.as_str())
    }

    /// Scores a candidate for a game, in half points.
    pub fn score_executable(&self, exe: &ExecutableCandidate, game_name: &str) -> (r: i64)
        ensures
            r == score_of(exe@, game_name@),
    {
        let name = match file_name(exe.path.as_str()) {
            Some(n) => n,
            None => String::new(),
        };
        let file = to_lowercase(name.as_str());
        let title = to_lowercase(game_name);
        score_from_parts(file.as_str(), title.as_str(), exe.size, exe.depth)
    }

    /// Picks the best of the given candidates: the first with the highest
    /// score. Fails exactly when there is no candidate.
    pub fn rank_executables(&self, exes: &Vec<ExecutableCandidate>, game_name: &str) -> (r: Result<
        String,
        AppError,
    >)
        ensures
            match r {
                Ok(p) => ranked(exes.deep_view(), game_name@) == Some(p@),
                Err(e) => ranked(exes.deep_view(), game_name@) is None && e@
                    == "No suitable executable found for game: "@ + game_name@,
            },
    {
        let ghost scores = scores_of(exes.deep_view(), game_name@);
        if exes.len() == 0 {
            return Err(AppError::new(concat2("No suitable executable found for game: ", game_name)));
        }
        let mut best: usize = 0;
        let mut best_score: i64 = self.score_executable(&exes[0], game_name);
        let mut i: usize = 1;
        proof {
            assert(scores.len() == exes.len());
            assert(scores[0] == score_of(exes[0]@, game_name@));
            lemma_best_of_push(Seq::<int>::empty(), scores[0]);
            assert(scores.take(1) =~= Seq::<int>::empty().push(scores[0]));
        }
        while i < exes.len()
            invariant
                1 <= i <= exes.len(),
                best < i,
                scores.len() == exes.len(),
                forall|k: int| 0 <= k < exes.len() ==> scores[k] == score_of(exes[k]@, game_name@),
                best_of(scores.take(i as int)) == Some(best as int),
                best_score == scores[best as int],
            decreases exes.len() - i,
        {
            let s = self.score_executable(&exes[i], game_name);
            proof {
                lemma_best_of_push(scores.take(i as int), scores[i as int]);
                assert(scores.take(i + 1) =~= scores.take(i as int).push(scores[i as int]));
                assert(scores.take(i as int)[best as int] == scores[best as int]);
            }
            if s > best_score {
                best = i;
                best_score = s;
            }
            i += 1;
        }
        assert(scores.take(exes.len() as int) =~= scores);
        Ok(exes[best].path.clone())
    }

    /// Finds the main executable of a game among the files found below its
    /// install directory.
    ///
    /// Files beyond the depth bound, files without the extension `exe` and
    /// noise are discarded; the remaining candidates are ranked. Fails
    /// exactly when no candidate remains.
    pub fn find_main_executable(&self, files: &Vec<ExecutableCandidate>, game_name: &str) -> (r:
        Result<String, AppError>)
        ensures
            match r {
                Ok(p) => ranked(eligible_of(self.ignored(), files.deep_view()), game_name@) == Some(
                    p@,
                ),
                Err(e) => eligible_of(self.ignored(), files.deep_view()).len() == 0 && e@
                    == "No executable found for game: "@ + game_name@,
            },
    {
        let mut potential: Vec<ExecutableCandidate> = Vec::new();
        let mut i: usize = 0;
        assert(files.deep_view().take(0) =~= Seq::empty());
        assert(potential.deep_view() =~= Seq::empty());
        while i < files.len()
            invariant
                i <= files.len(),
                potential.deep_view() == eligible_of(
                    self.ignored(),
                    files.deep_view().take(i as int),
                ),
            decreases files.len() - i,
        {
            let ghost before = potential.deep_view();
            proof {
                let next = files.deep_view().take(i + 1);
                assert(next.drop_last() =~= files.deep_view().take(i as int));
                assert(next.last() == files[i as int]@);
            }
            if self.is_candidate(&files[i]) {
                potential.push(files[i].clone());
                assert(potential.deep_view() =~= before.push(files[i as int]@));
            }
            i += 1;
        }
        assert(files.deep_view().take(files.len() as int) =~= files.deep_view());
        if potential.len() == 0 {
            return Err(AppError::new(concat2("No executable found for game: ", game_name)));
        }
        proof {
            lemma_best_is_first_maximum(scores_of(potential.deep_view(), game_name@));
        }
        match self.rank_executables(&potential, game_name) {
            Ok(p) => Ok(p),
            Err(_) => Err(AppError::new(concat2("No executable found for game: ", game_name))),
        }
    }
}

} // verus!
