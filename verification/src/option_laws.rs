//! What holds of the options: which files an option speaks of, and what it takes for an option to
//! be matched at all.
use crate::config::{
    config_sized, forbids, forbids_development, option_allows, option_sized, optional_sized,
    BoolOrGlobs, NoExtraneousDependenciesConfig,
};
use crate::glob::{
    forward_slashes, glob_matches, path_joined, pattern_matches, pattern_sized, replaced,
    takes_path, takes_pattern, PathTexts,
};
use vstd::prelude::*;
use vstd::utf8::encode_utf8;

verus! {

// Texts.

/// Replacement goes character by character: it splits wherever the text does, it turns the
/// character into its replacement, and it keeps every other character.
pub proof fn replacement_goes_character_by_character(
    left: Seq<char>,
    right: Seq<char>,
    character: char,
    from: char,
    to: Seq<char>,
)
    ensures
        replaced(Seq::<char>::empty(), from, to) == Seq::<char>::empty(),
        replaced(left + right, from, to) == replaced(left, from, to) + replaced(right, from, to),
        replaced(seq![from], from, to) == to,
        character != from ==> replaced(seq![character], from, to) == seq![character],
    decreases right.len(),
{
    assert(seq![from].drop_last() =~= Seq::<char>::empty());
    assert(seq![character].drop_last() =~= Seq::<char>::empty());
    assert(replaced(Seq::<char>::empty(), from, to) =~= Seq::<char>::empty());
    assert(Seq::<char>::empty() + to =~= to);
    assert(Seq::<char>::empty() + seq![character] =~= seq![character]);
    if right.len() == 0 {
        assert(left + right =~= left);
        assert(replaced(left, from, to) + right =~= replaced(left, from, to));
    } else {
        replacement_goes_character_by_character(left, right.drop_last(), character, from, to);
        assert((left + right).drop_last() =~= left + right.drop_last());
        assert((left + right).last() == right.last());
        let end = if right.last() == from {
            to
        } else {
            seq![right.last()]
        };
        assert(replaced(left, from, to) + (replaced(right.drop_last(), from, to) + end) =~= (
        replaced(left, from, to) + replaced(right.drop_last(), from, to)) + end);
    }
}

/// A path with forward slashes only is as long as the path, has a `/` wherever that has a `/` or
/// a `\`, and is the same everywhere else.
pub proof fn forward_slashes_change_backslashes_only(path: Seq<char>)
    ensures
        forward_slashes(path).len() == path.len(),
        forall|i: int|
            0 <= i < path.len() && path[i] == '\\' ==> #[trigger] forward_slashes(path)[i] == '/',
        forall|i: int|
            0 <= i < path.len() && path[i] != '\\' ==> #[trigger] forward_slashes(path)[i]
                == path[i],
    decreases path.len(),
{
    reveal_strlit("/");
    if path.len() > 0 {
        forward_slashes_change_backslashes_only(path.drop_last());
        let start = forward_slashes(path.drop_last());
        let end = if path.last() == '\\' {
            "/"@
        } else {
            seq![path.last()]
        };
        assert(forward_slashes(path) == start + end);
        assert forall|i: int| 0 <= i < path.len() implies #[trigger] forward_slashes(path)[i] == (
        if path[i] == '\\' {
            '/'
        } else {
            path[i]
        }) by {
            if i < start.len() {
                assert(forward_slashes(path)[i] == start[i]);
                assert(path.drop_last()[i] == path[i]);
            }
        }
    }
}

// Patterns.

/// A pattern is read in three ways, and one of them is enough: as it stands, as seen from the
/// linter's directory, and as seen from that of the process. The slashes of the file and of the
/// joined patterns do not matter, those of the pattern as it stands do.
pub proof fn one_reading_of_a_pattern_is_enough(pattern: Seq<char>, texts: PathTexts)
    ensures
        glob_matches(pattern, forward_slashes(texts.file_path@)) ==> pattern_matches(
            pattern,
            texts,
        ),
        glob_matches(
            forward_slashes(path_joined(texts.cwd@, pattern)),
            forward_slashes(texts.file_path@),
        ) ==> pattern_matches(pattern, texts),
        glob_matches(
            forward_slashes(path_joined(texts.process_cwd@, pattern)),
            forward_slashes(texts.file_path@),
        ) ==> pattern_matches(pattern, texts),
        pattern_matches(pattern, texts) ==> exists|reading: Seq<char>|
            #![trigger glob_matches(reading, forward_slashes(texts.file_path@))]
            {
                &&& glob_matches(reading, forward_slashes(texts.file_path@))
                &&& {
                    ||| reading == pattern
                    ||| reading == forward_slashes(path_joined(texts.cwd@, pattern))
                    ||| reading == forward_slashes(path_joined(texts.process_cwd@, pattern))
                }
            },
{
}

/// It does not matter which of the two directories is the linter's and which that of the process,
/// nor with which slashes the path of the file is written.
pub proof fn directories_and_slashes_are_alike(
    pattern: Seq<char>,
    texts: PathTexts,
    others: PathTexts,
)
    requires
        forward_slashes(texts.file_path@) == forward_slashes(others.file_path@),
        (texts.cwd@ == others.cwd@ && texts.process_cwd@ == others.process_cwd@) || (texts.cwd@
            == others.process_cwd@ && texts.process_cwd@ == others.cwd@),
    ensures
        pattern_matches(pattern, texts) == pattern_matches(pattern, others),
{
}

// Options.

proof fn lemma_matching_glob_allows(list: Vec<String>, i: int, texts: PathTexts)
    requires
        0 <= i < list@.len(),
        pattern_matches(list@[i]@, texts),
    ensures
        option_allows(BoolOrGlobs::Globs(list), texts),
{
    let option = BoolOrGlobs::Globs(list);
    assert(pattern_matches(option->Globs_0@[i]@, texts));
}

/// A list of globs allows exactly where one of the one-pattern lists made of its items does.
pub proof fn glob_list_allows_where_one_of_its_globs_does(
    list: Vec<String>,
    ones: Seq<Vec<String>>,
    texts: PathTexts,
)
    requires
        ones.len() == list@.len(),
        forall|i: int| 0 <= i < ones.len() ==> (#[trigger] ones[i])@ == seq![list@[i]],
    ensures
        option_allows(BoolOrGlobs::Globs(list), texts) == exists|i: int|
            0 <= i < ones.len() && option_allows(BoolOrGlobs::Globs(#[trigger] ones[i]), texts),
{
    assert forall|i: int| 0 <= i < ones.len() implies option_allows(
        BoolOrGlobs::Globs(#[trigger] ones[i]),
        texts,
    ) == pattern_matches(list@[i]@, texts) by {
        single_glob_allows_where_it_matches(ones[i], texts);
        assert(ones[i]@[0] == list@[i]);
    }
    if option_allows(BoolOrGlobs::Globs(list), texts) {
        let i = choose|i: int|
            0 <= i < list@.len() && pattern_matches(#[trigger] list@[i]@, texts);
        assert(option_allows(BoolOrGlobs::Globs(ones[i]), texts));
    }
    if exists|i: int|
        0 <= i < ones.len() && option_allows(BoolOrGlobs::Globs(#[trigger] ones[i]), texts) {
        let i = choose|i: int|
            0 <= i < ones.len() && option_allows(BoolOrGlobs::Globs(#[trigger] ones[i]), texts);
        lemma_matching_glob_allows(list, i, texts);
    }
}

/// A list of one glob allows exactly the files that match the glob, and an empty list none.
pub proof fn single_glob_allows_where_it_matches(list: Vec<String>, texts: PathTexts)
    ensures
        list@.len() == 0 ==> !option_allows(BoolOrGlobs::Globs(list), texts),
        list@.len() == 1 ==> option_allows(BoolOrGlobs::Globs(list), texts) == pattern_matches(
            list@[0]@,
            texts,
        ),
{
    if list@.len() == 1 && pattern_matches(list@[0]@, texts) {
        lemma_matching_glob_allows(list, 0, texts);
    }
}

/// A file that matches a glob is allowed by every list that holds the glob, wherever it stands
/// there, and a file that a list allows matches one of its globs.
pub proof fn matching_glob_allows_at_any_place(list: Vec<String>, texts: PathTexts)
    ensures
        forall|i: int|
            0 <= i < list@.len() && pattern_matches(#[trigger] list@[i]@, texts)
                ==> option_allows(BoolOrGlobs::Globs(list), texts),
        (forall|i: int| 0 <= i < list@.len() ==> !pattern_matches(#[trigger] list@[i]@, texts))
            ==> !option_allows(BoolOrGlobs::Globs(list), texts),
{
    assert forall|i: int|
        0 <= i < list@.len() && pattern_matches(#[trigger] list@[i]@, texts) implies option_allows(
        BoolOrGlobs::Globs(list),
        texts,
    ) by {
        lemma_matching_glob_allows(list, i, texts);
    }
}

/// More globs never take leave away: neither does another order, nor a repetition.
pub proof fn more_globs_allow_no_less(fewer: Vec<String>, more: Vec<String>, texts: PathTexts)
    requires
        forall|i: int|
            0 <= i < fewer@.len() ==> crate::text::texts(more@).contains(
                (#[trigger] fewer@[i])@,
            ),
        option_allows(BoolOrGlobs::Globs(fewer), texts),
    ensures
        option_allows(BoolOrGlobs::Globs(more), texts),
{
    let i = choose|i: int| 0 <= i < fewer@.len() && pattern_matches(#[trigger] fewer@[i]@, texts);
    assert(crate::text::texts(more@).contains(fewer@[i]@));
    let all = crate::text::texts(more@);
    let j = choose|j: int| 0 <= j < all.len() && all[j] == fewer@[i]@;
    lemma_matching_glob_allows(more, j, texts);
}

/// Two lists of globs one after the other allow what either allows.
pub proof fn joined_glob_lists_allow_what_either_allows(
    left: Vec<String>,
    right: Vec<String>,
    both: Vec<String>,
    texts: PathTexts,
)
    requires
        both@ == left@ + right@,
    ensures
        option_allows(BoolOrGlobs::Globs(both), texts) == (option_allows(
            BoolOrGlobs::Globs(left),
            texts,
        ) || option_allows(BoolOrGlobs::Globs(right), texts)),
{
    assert forall|i: int| 0 <= i < left@.len() implies crate::text::texts(both@).contains(
        (#[trigger] left@[i])@,
    ) by {
        assert(crate::text::texts(both@)[i] == left@[i]@);
    }
    assert forall|i: int| 0 <= i < right@.len() implies crate::text::texts(both@).contains(
        (#[trigger] right@[i])@,
    ) by {
        assert(crate::text::texts(both@)[left@.len() + i] == right@[i]@);
    }
    if option_allows(BoolOrGlobs::Globs(left), texts) {
        more_globs_allow_no_less(left, both, texts);
    }
    if option_allows(BoolOrGlobs::Globs(right), texts) {
        more_globs_allow_no_less(right, both, texts);
    }
    if option_allows(BoolOrGlobs::Globs(both), texts) {
        let i = choose|i: int|
            0 <= i < both@.len() && pattern_matches(#[trigger] both@[i]@, texts);
        if i < left@.len() {
            lemma_matching_glob_allows(left, i, texts);
        } else {
            lemma_matching_glob_allows(right, i - left@.len(), texts);
        }
    }
}

/// An option that is set forbids exactly the files that it does not allow, for every kind.
pub proof fn set_option_forbids_what_it_does_not_allow(option: BoolOrGlobs, texts: PathTexts)
    ensures
        forbids(Some(option), texts) == !option_allows(option, texts),
        forbids_development(Some(option), texts) == !option_allows(option, texts),
        option_allows(BoolOrGlobs::Bool(true), texts),
        !option_allows(BoolOrGlobs::Bool(false), texts),
{
}

// Lengths.

/// A pattern may have up to 2147483647 bytes, and a path up to 4294967293.
pub proof fn lengths_that_the_matcher_takes(text: Seq<char>)
    ensures
        takes_pattern(text) == (encode_utf8(text).len() < 0x8000_0000),
        takes_path(text) == (encode_utf8(text).len() < 0xffff_fffe),
{
}

/// A pattern can be matched exactly where each of its three readings is short enough for a
/// pattern, and the path of the file for a path.
pub proof fn every_reading_of_a_pattern_must_be_short(pattern: Seq<char>, texts: PathTexts)
    ensures
        pattern_sized(pattern, texts) == (takes_path(forward_slashes(texts.file_path@)) && forall|
            reading: Seq<char>,
        |
            #![trigger takes_pattern(reading)]
            (reading == pattern || reading == forward_slashes(path_joined(texts.cwd@, pattern))
                || reading == forward_slashes(path_joined(texts.process_cwd@, pattern)))
                ==> takes_pattern(reading)),
{
    assert(takes_pattern(pattern) || !takes_pattern(pattern));
    let from_cwd = forward_slashes(path_joined(texts.cwd@, pattern));
    assert(takes_pattern(from_cwd) || !takes_pattern(from_cwd));
    let from_process = forward_slashes(path_joined(texts.process_cwd@, pattern));
    assert(takes_pattern(from_process) || !takes_pattern(from_process));
}

/// The options can be matched unless a list of globs, of any of the four kinds, holds a pattern
/// that is too long: `true`, `false` and options that are not set always can.
pub proof fn only_a_long_pattern_is_refused(
    config: NoExtraneousDependenciesConfig,
    texts: PathTexts,
    list: Vec<String>,
    value: bool,
)
    ensures
        config_sized(config, texts) == (optional_sized(config.dev_dependencies, texts)
            && optional_sized(config.optional_dependencies, texts) && optional_sized(
            config.peer_dependencies,
            texts,
        ) && optional_sized(config.bundled_dependencies, texts)),
        optional_sized(None, texts),
        optional_sized(Some(BoolOrGlobs::Bool(value)), texts),
        optional_sized(Some(BoolOrGlobs::Globs(list)), texts) == option_sized(
            BoolOrGlobs::Globs(list),
            texts,
        ),
        forall|i: int|
            0 <= i < list@.len() && !pattern_sized(#[trigger] list@[i]@, texts) ==> !option_sized(
                BoolOrGlobs::Globs(list),
                texts,
            ),
        (forall|i: int| 0 <= i < list@.len() ==> pattern_sized(#[trigger] list@[i]@, texts))
            ==> option_sized(BoolOrGlobs::Globs(list), texts),
{
}

} // verus!
