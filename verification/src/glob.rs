//! Glob patterns, matched against the path of the file that is checked.
use cow_utils::CowUtils;
use std::path::Path;
use vstd::prelude::*;
use vstd::string::*;
use vstd::utf8::encode_utf8;

verus! {

/// `text` with `to` in place of every `from`.
pub open spec fn replaced(text: Seq<char>, from: char, to: Seq<char>) -> Seq<char>
    decreases text.len(),
{
    if text.len() == 0 {
        text
    } else {
        replaced(text.drop_last(), from, to) + if text.last() == from {
            to
        } else {
            seq![text.last()]
        }
    }
}

/// `CowUtils::cow_replace`: every match of the pattern, here a character, is replaced.
#[verifier::external_body]
fn replace(text: &str, from: char, to: &str) -> (changed: String)
    ensures
        changed@ == replaced(text@, from, to@),
{
    text.cow_replace(from, to).into_owned()
}

/// The text of `path` as seen from the directory `base`.
pub uninterp spec fn path_joined(base: Seq<char>, path: Seq<char>) -> Seq<char>;

/// `std::path::Path::join`: `path` adjoined to `base`, by the path syntax of the platform that
/// the crate is built for. The result depends on the two texts alone; how the one is adjoined to
/// the other is not said here.
#[verifier::external_body]
fn join_texts(base: &str, path: &str) -> (joined: String)
    ensures
        joined@ == path_joined(base@, path@),
{
    Path::new(base).join(path).to_string_lossy().into_owned()
}

/// Whether `path` matches the glob pattern `pattern`.
pub uninterp spec fn glob_matches(pattern: Seq<char>, path: Seq<char>) -> bool;

/// Whether a pattern is short enough for the matcher, which counts its braces in an `i32`.
pub open spec fn takes_pattern(pattern: Seq<char>) -> bool {
    encode_utf8(pattern).len() <= i32::MAX
}

/// Whether a path is short enough for the matcher, which counts its bytes, and up to two more, in
/// a `u32`.
pub open spec fn takes_path(path: Seq<char>) -> bool {
    encode_utf8(path).len() + 2 <= u32::MAX
}

/// `fast_glob::glob_match`: whether the path matches the pattern, which depends on the two texts
/// alone. A backslash in the path would be a separator on some platforms only.
#[verifier::external_body]
fn match_glob(pattern: &str, path: &str) -> (matches: bool)
    requires
        takes_pattern(pattern@),
        takes_path(path@),
        !path@.contains('\\'),
    ensures
        matches == glob_matches(pattern@, path@),
{
    fast_glob::glob_match(pattern, path)
}

/// `path` with forward slashes only.
pub open spec fn forward_slashes(path: Seq<char>) -> Seq<char> {
    replaced(path, '\\', "/"@)
}

/// A path with forward slashes only has no backslash.
proof fn lemma_no_backslash(path: Seq<char>)
    ensures
        !forward_slashes(path).contains('\\'),
    decreases path.len(),
{
    reveal_strlit("/");
    if path.len() > 0 {
        lemma_no_backslash(path.drop_last());
        let start = forward_slashes(path.drop_last());
        let end = if path.last() == '\\' {
            "/"@
        } else {
            seq![path.last()]
        };
        assert(forward_slashes(path) == start + end);
        assert forall|i: int| 0 <= i < (start + end).len() implies (start + end)[i] != '\\' by {
            if i < start.len() {
                assert(start.contains(start[i]));
            }
        }
    }
}

/// The texts that glob patterns are matched against: the path of the file that is checked, the
/// directory that the linter works in, and that of the process (empty where there is none).
#[derive(Debug, Clone)]
pub struct PathTexts {
    pub file_path: String,
    pub cwd: String,
    pub process_cwd: String,
}

/// Whether the file matches `pattern` as it stands, as seen from the linter's directory, or as
/// seen from that of the process.
pub open spec fn pattern_matches(pattern: Seq<char>, texts: PathTexts) -> bool {
    let file = forward_slashes(texts.file_path@);
    ||| glob_matches(pattern, file)
    ||| glob_matches(forward_slashes(path_joined(texts.cwd@, pattern)), file)
    ||| glob_matches(forward_slashes(path_joined(texts.process_cwd@, pattern)), file)
}

/// Whether every text that is matched for `pattern` is short enough.
pub open spec fn pattern_sized(pattern: Seq<char>, texts: PathTexts) -> bool {
    &&& takes_path(forward_slashes(texts.file_path@))
    &&& takes_pattern(pattern)
    &&& takes_pattern(forward_slashes(path_joined(texts.cwd@, pattern)))
    &&& takes_pattern(forward_slashes(path_joined(texts.process_cwd@, pattern)))
}

/// Whether a pattern is short enough for the matcher.
fn is_short_pattern(pattern: &str) -> (short: bool)
    ensures
        short == takes_pattern(pattern@),
{
    pattern.as_bytes().len() <= i32::MAX as usize
}

/// Whether a path is short enough for the matcher.
fn is_short_path(path: &str) -> (short: bool)
    ensures
        short == takes_path(path@),
{
    path.as_bytes().len() <= u32::MAX as usize - 2
}

/// `path` with forward slashes only.
fn with_forward_slashes(path: &str) -> (changed: String)
    ensures
        changed@ == forward_slashes(path@),
{
    replace(path, '\\', "/")
}

/// Whether every text that is matched for `pattern` is short enough.
pub fn is_pattern_sized(pattern: &str, texts: &PathTexts) -> (sized: bool)
    ensures
        sized == pattern_sized(pattern@, *texts),
{
    let file = with_forward_slashes(texts.file_path.as_str());
    let from_cwd = with_forward_slashes(join_texts(texts.cwd.as_str(), pattern).as_str());
    let from_process = with_forward_slashes(
        join_texts(texts.process_cwd.as_str(), pattern).as_str(),
    );
    is_short_path(file.as_str()) && is_short_pattern(pattern) && is_short_pattern(
        from_cwd.as_str(),
    ) && is_short_pattern(from_process.as_str())
}

/// Whether the file matches `pattern` as it stands, as seen from the linter's directory, or as
/// seen from that of the process.
pub fn matches_pattern(pattern: &str, texts: &PathTexts) -> (matches: bool)
    requires
        pattern_sized(pattern@, *texts),
    ensures
        matches == pattern_matches(pattern@, *texts),
{
    let file = with_forward_slashes(texts.file_path.as_str());
    let from_cwd = with_forward_slashes(join_texts(texts.cwd.as_str(), pattern).as_str());
    let from_process = with_forward_slashes(
        join_texts(texts.process_cwd.as_str(), pattern).as_str(),
    );
    proof {
        lemma_no_backslash(texts.file_path@);
    }
    match_glob(pattern, file.as_str()) || match_glob(from_cwd.as_str(), file.as_str())
        || match_glob(from_process.as_str(), file.as_str())
}

} // verus!
