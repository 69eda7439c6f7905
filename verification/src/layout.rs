//! Where a run keeps its files: paths as text with `/` separators, the slug
//! of a case, and the directory tree of one run.

use crate::components::{parent_len, parent_of, strip_components, without_prefix};
use crate::suite::Suite;
use crate::text::{chars_of, concat, string_of};
use vstd::prelude::*;

verus! {

/// `rel` resolved against `base`: an absolute `rel` stands for itself,
/// otherwise it is appended to `base`, with one separator between the two
/// unless `base` is empty or already ends in one.
pub open spec fn join(base: Seq<char>, rel: Seq<char>) -> Seq<char> {
    if rel.len() > 0 && rel[0] == '/' {
        rel
    } else if base.len() == 0 || base.last() == '/' {
        base + rel
    } else {
        base + seq!['/'] + rel
    }
}

/// `text` without its leading run of `c`.
pub open spec fn trim_start(text: Seq<char>, c: char) -> Seq<char>
    decreases text.len(),
{
    if text.len() > 0 && text[0] == c {
        trim_start(text.drop_first(), c)
    } else {
        text
    }
}

/// `text` without its trailing run of `c`.
pub open spec fn trim_end(text: Seq<char>, c: char) -> Seq<char>
    decreases text.len(),
{
    if text.len() > 0 && text.last() == c {
        trim_end(text.drop_last(), c)
    } else {
        text
    }
}

/// `path` as seen from `root`: what is left of it without the components
/// of `root` where `root` is a prefix of `path` by components, and `path`
/// itself where it is not.
pub open spec fn relative_to(path: Seq<char>, root: Seq<char>) -> Seq<char> {
    match without_prefix(path, root) {
        Some(rest) => rest,
        None => path,
    }
}

/// The directory that holds `path`: the path without its last name, and `.`
/// for a path that has no parent.
pub open spec fn directory_of(path: Seq<char>) -> Seq<char> {
    match parent_of(path) {
        Some(parent) => parent,
        None => "."@,
    }
}

/// How one character of a case name appears in its slug: ASCII letters in
/// lower case, ASCII digits as they are, anything else as `-`.
pub open spec fn slug_char(c: char) -> char {
    if ('a' <= c && c <= 'z') || ('0' <= c && c <= '9') {
        c
    } else if 'A' <= c && c <= 'Z' {
        ((c as u8 + 32) as u8) as char
    } else {
        '-'
    }
}

/// Whether a character may appear in a slug.
pub open spec fn is_slug_char(c: char) -> bool {
    ('a' <= c && c <= 'z') || ('0' <= c && c <= '9') || c == '-'
}

/// The slug of a case name: every character folded by [`slug_char`], then
/// leading and trailing `-` removed.
pub open spec fn slug_of(name: Seq<char>) -> Seq<char> {
    trim_end(trim_start(name.map_values(|c: char| slug_char(c)), '-'), '-')
}

/// The manifest of `suite` below `workspace`.
pub open spec fn manifest_path_of(workspace: Seq<char>, suite: Suite) -> Seq<char> {
    join(join(join(workspace, "tests"@), suite.dir_name_text()), "suite.toml"@)
}

/// Trimming leaves a suffix: nothing but leading `c` is dropped.
pub proof fn lemma_trim_start_is_suffix(text: Seq<char>, c: char)
    ensures
        trim_start(text, c).len() <= text.len(),
        trim_start(text, c) == text.subrange(
            text.len() - trim_start(text, c).len(),
            text.len() as int,
        ),
        forall|i: int| 0 <= i < text.len() - trim_start(text, c).len() ==> text[i] == c,
        trim_start(text, c).len() > 0 ==> trim_start(text, c)[0] != c,
    decreases text.len(),
{
    if text.len() > 0 && text[0] == c {
        let rest = text.drop_first();
        lemma_trim_start_is_suffix(rest, c);
        let kept = trim_start(rest, c);
        assert(kept == text.subrange(text.len() - kept.len(), text.len() as int)) by {
            assert(rest.subrange(rest.len() - kept.len(), rest.len() as int) =~= text.subrange(
                text.len() - kept.len(),
                text.len() as int,
            ));
        }
        assert forall|i: int| 0 <= i < text.len() - kept.len() implies text[i] == c by {
            if i > 0 {
                assert(text[i] == rest[i - 1]);
            }
        }
    } else {
        assert(text.subrange(0, text.len() as int) =~= text);
    }
}

/// Trimming leaves a prefix: nothing but trailing `c` is dropped.
pub proof fn lemma_trim_end_is_prefix(text: Seq<char>, c: char)
    ensures
        trim_end(text, c).len() <= text.len(),
        trim_end(text, c) == text.subrange(0, trim_end(text, c).len() as int),
        forall|i: int| trim_end(text, c).len() <= i < text.len() ==> text[i] == c,
        trim_end(text, c).len() > 0 ==> trim_end(text, c).last() != c,
    decreases text.len(),
{
    if text.len() > 0 && text.last() == c {
        let rest = text.drop_last();
        lemma_trim_end_is_prefix(rest, c);
        let kept = trim_end(rest, c);
        assert(kept == text.subrange(0, kept.len() as int)) by {
            assert(rest.subrange(0, kept.len() as int) =~= text.subrange(0, kept.len() as int));
        }
        assert forall|i: int| kept.len() <= i < text.len() implies text[i] == c by {
            if i < rest.len() {
                assert(text[i] == rest[i]);
            }
        }
    } else {
        assert(text.subrange(0, text.len() as int) =~= text);
    }
}

/// A slug is safe as a file name: it holds only lower-case ASCII letters,
/// ASCII digits and `-`, and neither starts nor ends with `-`.
pub proof fn lemma_slug_is_safe(name: Seq<char>)
    ensures
        slug_of(name).len() <= name.len(),
        forall|i: int| 0 <= i < slug_of(name).len() ==> is_slug_char(#[trigger] slug_of(name)[i]),
        slug_of(name).len() > 0 ==> slug_of(name)[0] != '-' && slug_of(name).last() != '-',
{
    let folded = name.map_values(|c: char| slug_char(c));
    let front = trim_start(folded, '-');
    let slug = trim_end(front, '-');
    lemma_trim_start_is_suffix(folded, '-');
    lemma_trim_end_is_prefix(front, '-');
    assert forall|i: int| 0 <= i < slug.len() implies is_slug_char(#[trigger] slug[i]) by {
        let skipped = folded.len() - front.len();
        assert(slug[i] == front[i]);
        assert(front[i] == folded[skipped + i]);
        assert(folded[skipped + i] == slug_char(name[skipped + i]));
    }
    if slug.len() > 0 {
        assert(slug[0] == front[0]);
    }
}

/// Resolves `rel` against `base`.
pub fn join_path(base: &str, rel: &str) -> (path: String)
    ensures
        path@ == join(base@, rel@),
{
    let rel_len: usize = rel.unicode_len();
    if rel_len > 0 && rel.get_char(0) == '/' {
        return String::from_str(rel);
    }
    let base_len: usize = base.unicode_len();
    if base_len == 0 || base.get_char(base_len - 1) == '/' {
        concat(base, rel)
    } else {
        let mut path = concat(base, "/");
        proof {
            reveal_strlit("/");
            assert("/"@ =~= seq!['/']);
        }
        path.append(rel);
        path
    }
}

/// The index of the first character of `chars` at or after `from` that is
/// not `c`, or the length of `chars` where there is none.
fn skip_run(chars: &Vec<char>, from: usize, c: char) -> (at: usize)
    requires
        from <= chars.len(),
    ensures
        from <= at <= chars.len(),
        trim_start(chars@.subrange(from as int, chars.len() as int), c) == chars@.subrange(
            at as int,
            chars.len() as int,
        ),
{
    let mut at: usize = from;
    while at < chars.len() && chars[at] == c
        invariant
            from <= at <= chars.len(),
            trim_start(chars@.subrange(from as int, chars.len() as int), c) == trim_start(
                chars@.subrange(at as int, chars.len() as int),
                c,
            ),
        decreases chars.len() - at,
    {
        proof {
            let here = chars@.subrange(at as int, chars.len() as int);
            assert(here[0] == c);
            assert(here.drop_first() =~= chars@.subrange(at as int + 1, chars.len() as int));
        }
        at += 1;
    }
    proof {
        let here = chars@.subrange(at as int, chars.len() as int);
        if at < chars.len() {
            assert(here[0] != c);
        }
    }
    at
}

/// The index just past the last character of `chars[from..]` that is not
/// `c`, or `from` where there is none.
fn skip_run_back(chars: &Vec<char>, from: usize, c: char) -> (at: usize)
    requires
        from <= chars.len(),
    ensures
        from <= at <= chars.len(),
        trim_end(chars@.subrange(from as int, chars.len() as int), c) == chars@.subrange(
            from as int,
            at as int,
        ),
{
    let mut at: usize = chars.len();
    while at > from && chars[at - 1] == c
        invariant
            from <= at <= chars.len(),
            trim_end(chars@.subrange(from as int, chars.len() as int), c) == trim_end(
                chars@.subrange(from as int, at as int),
                c,
            ),
        decreases at,
    {
        proof {
            let here = chars@.subrange(from as int, at as int);
            assert(here.last() == c);
            assert(here.drop_last() =~= chars@.subrange(from as int, at as int - 1));
        }
        at -= 1;
    }
    proof {
        let here = chars@.subrange(from as int, at as int);
        if at > from {
            assert(here.last() != c);
        }
    }
    at
}

/// `path` as seen from `workspace`: the part below the workspace where the
/// workspace is a prefix of the path by components, the path unchanged
/// where it is not. Separators in a row and `.` components count for
/// nothing in the comparison, and none is left at either end of the result.
pub fn rel_path(path: &str, workspace: &str) -> (rel: String)
    ensures
        rel@ == relative_to(path@, workspace@),
{
    let chars = chars_of(path);
    let root = chars_of(workspace);
    match strip_components(&chars, &root) {
        Some((from, to)) => string_of(&chars, from, to),
        None => String::from_str(path),
    }
}

/// The directory that holds `path`: the path without its last name, and `.`
/// for a path that has no parent.
pub fn parent_dir(path: &str) -> (dir: String)
    ensures
        dir@ == directory_of(path@),
{
    let chars = chars_of(path);
    match parent_len(&chars) {
        Some(n) => string_of(&chars, 0, n),
        None => String::from_str("."),
    }
}

/// The manifest of `suite` below `workspace`:
/// `<workspace>/tests/<suite directory>/suite.toml`.
pub fn manifest_path(workspace: &str, suite: Suite) -> (path: String)
    ensures
        path@ == manifest_path_of(workspace@, suite),
{
    let tests = join_path(workspace, "tests");
    let dir = join_path(tests.as_str(), suite.dir_name());
    join_path(dir.as_str(), "suite.toml")
}

/// How one character of a case name appears in its slug.
fn fold_char(c: char) -> (folded: char)
    ensures
        folded == slug_char(c),
{
    if ('a' <= c && c <= 'z') || ('0' <= c && c <= '9') {
        c
    } else if 'A' <= c && c <= 'Z' {
        let code: u8 = c as u8;
        (code + 32) as char
    } else {
        '-'
    }
}

/// The file-system-safe slug of a case name: ASCII letters in lower case,
/// every character that is no ASCII letter or digit replaced by `-`, and
/// leading and trailing `-` removed.
pub fn sanitize_case_name(name: &str) -> (slug: String)
    ensures
        slug@ == slug_of(name@),
        slug@.len() <= name@.len(),
        forall|i: int| 0 <= i < slug@.len() ==> is_slug_char(#[trigger] slug@[i]),
        slug@.len() > 0 ==> slug@[0] != '-' && slug@.last() != '-',
{
    let chars = chars_of(name);
    let mut folded: Vec<char> = Vec::new();
    let mut i: usize = 0;
    while i < chars.len()
        invariant
            i <= chars.len(),
            folded@ == chars@.take(i as int).map_values(|c: char| slug_char(c)),
        decreases chars.len() - i,
    {
        folded.push(fold_char(chars[i]));
        proof {
            assert(chars@.take(i as int + 1).map_values(|c: char| slug_char(c)) =~= chars@.take(
                i as int,
            ).map_values(|c: char| slug_char(c)).push(slug_char(chars@[i as int])));
        }
        i += 1;
    }
    proof {
        assert(chars@.take(chars.len() as int) =~= chars@);
        assert(folded@.subrange(0, folded.len() as int) =~= folded@);
        lemma_slug_is_safe(name@);
    }
    let from = skip_run(&folded, 0, '-');
    let to = skip_run_back(&folded, from, '-');
    string_of(&folded, from, to)
}

/// The directory tree of one run, as absolute paths below the workspace.
#[derive(Clone, Debug, PartialEq, Eq)]
pub struct RunLayout {
    /// `<workspace>/logs/<suite directory>`: holds every run of the suite.
    pub logs_root: String,
    /// `<logs root>/<run id>`: holds this run.
    pub run_dir: String,
    /// `<run dir>/suite.log`: the run log.
    pub run_log: String,
    /// `<run dir>/cases`: one log per case.
    pub case_logs_root: String,
    /// `<run dir>/artifacts`: one directory per case.
    pub artifacts_root: String,
    /// `<run dir>/error.log`: the marker of a failed run.
    pub error_log: String,
    /// `<logs root>/last_run.json`: the summary of the latest run.
    pub summary_file: String,
}

/// The mathematical content of a [`RunLayout`].
pub struct LayoutModel {
    pub logs_root: Seq<char>,
    pub run_dir: Seq<char>,
    pub run_log: Seq<char>,
    pub case_logs_root: Seq<char>,
    pub artifacts_root: Seq<char>,
    pub error_log: Seq<char>,
    pub summary_file: Seq<char>,
}

impl View for RunLayout {
    type V = LayoutModel;

    open spec fn view(&self) -> LayoutModel {
        LayoutModel {
            logs_root: self.logs_root@,
            run_dir: self.run_dir@,
            run_log: self.run_log@,
            case_logs_root: self.case_logs_root@,
            artifacts_root: self.artifacts_root@,
            error_log: self.error_log@,
            summary_file: self.summary_file@,
        }
    }
}

impl LayoutModel {
    /// The layout of the run `run_id` of `suite` below `workspace`.
    pub open spec fn of(workspace: Seq<char>, suite: Suite, run_id: Seq<char>) -> LayoutModel {
        let logs_root = join(join(workspace, "logs"@), suite.dir_name_text());
        let run_dir = join(logs_root, run_id);
        LayoutModel {
            logs_root,
            run_dir,
            run_log: join(run_dir, "suite.log"@),
            case_logs_root: join(run_dir, "cases"@),
            artifacts_root: join(run_dir, "artifacts"@),
            error_log: join(run_dir, "error.log"@),
            summary_file: join(logs_root, "last_run.json"@),
        }
    }

    /// The directories a run creates before anything else, in order.
    pub open spec fn directories(self) -> Seq<Seq<char>> {
        seq![self.logs_root, self.run_dir, self.case_logs_root, self.artifacts_root]
    }

    /// The log of the case with the given slug: `<case logs>/<slug>.log`.
    pub open spec fn case_log(self, slug: Seq<char>) -> Seq<char> {
        join(self.case_logs_root, slug + ".log"@)
    }

    /// The artifact directory of the case with the given slug.
    pub open spec fn case_artifacts(self, slug: Seq<char>) -> Seq<char> {
        join(self.artifacts_root, slug)
    }
}

impl RunLayout {
    /// The layout of the run `run_id` of `suite` below `workspace`.
    pub fn new(workspace: &str, suite: Suite, run_id: &str) -> (layout: RunLayout)
        ensures
            layout@ == LayoutModel::of(workspace@, suite, run_id@),
    {
        let logs = join_path(workspace, "logs");
        let logs_root = join_path(logs.as_str(), suite.dir_name());
        let run_dir = join_path(logs_root.as_str(), run_id);
        let run_log = join_path(run_dir.as_str(), "suite.log");
        let case_logs_root = join_path(run_dir.as_str(), "cases");
        let artifacts_root = join_path(run_dir.as_str(), "artifacts");
        let error_log = join_path(run_dir.as_str(), "error.log");
        let summary_file = join_path(logs_root.as_str(), "last_run.json");
        RunLayout {
            logs_root,
            run_dir,
            run_log,
            case_logs_root,
            artifacts_root,
            error_log,
            summary_file,
        }
    }

    /// The directories a run creates before anything else, in order.
    pub fn directories(&self) -> (dirs: Vec<String>)
        ensures
            dirs.deep_view() == self@.directories(),
    {
        let mut dirs: Vec<String> = Vec::new();
        dirs.push(self.logs_root.clone());
        dirs.push(self.run_dir.clone());
        dirs.push(self.case_logs_root.clone());
        dirs.push(self.artifacts_root.clone());
        assert(dirs.deep_view() =~= self@.directories());
        dirs
    }

    /// The log of the case with the given slug.
    pub fn case_log(&self, slug: &str) -> (path: String)
        ensures
            path@ == self@.case_log(slug@),
    {
        let file = concat(slug, ".log");
        join_path(self.case_logs_root.as_str(), file.as_str())
    }

    /// The artifact directory of the case with the given slug.
    pub fn case_artifacts(&self, slug: &str) -> (path: String)
        ensures
            path@ == self@.case_artifacts(slug@),
    {
        join_path(self.artifacts_root.as_str(), slug)
    }
}


} // verus!
