//! Texts: comparison, prefixes and the segments between slashes.
use vstd::prelude::*;
use vstd::string::*;

verus! {

/// The index of the first `/` of `text` at or after `from`, or the length of `text` where there
/// is none.
pub open spec fn slash_from(text: Seq<char>, from: int) -> int
    decreases text.len() - from,
{
    if from >= text.len() {
        text.len() as int
    } else if text[from] == '/' {
        from
    } else {
        slash_from(text, from + 1)
    }
}

/// The texts of a sequence of strings.
pub open spec fn texts(strings: Seq<String>) -> Seq<Seq<char>> {
    Seq::new(strings.len(), |i: int| strings[i]@)
}

/// The text of an optional string.
pub open spec fn optional_text(string: Option<String>) -> Option<Seq<char>> {
    match string {
        Some(string) => Some(string@),
        None => None,
    }
}

/// Whether two texts hold the same characters.
pub fn same_text(left: &str, right: &str) -> (same: bool)
    ensures
        same == (left@ == right@),
{
    left.to_owned() == right.to_owned()
}

/// Whether `text` begins with `prefix`.
pub fn has_prefix(text: &str, prefix: &str) -> (has: bool)
    ensures
        has == prefix@.is_prefix_of(text@),
{
    let length: usize = prefix.unicode_len();
    if text.unicode_len() < length {
        false
    } else {
        same_text(text.substring_char(0, length), prefix)
    }
}

/// The characters of a text, in order.
pub fn characters(text: &str) -> (characters: Vec<char>)
    ensures
        characters@ == text@,
{
    let mut characters: Vec<char> = Vec::new();
    for character in it: text.chars()
        invariant
            characters@ == it.seq().take(it.index()),
            it.seq() == text@,
    {
        characters.push(character);
    }
    characters
}

/// The index of the first `/` at or after `from`, or the number of characters where there is
/// none.
pub fn find_slash(characters: &Vec<char>, from: usize) -> (found: usize)
    requires
        from <= characters@.len(),
    ensures
        found == slash_from(characters@, from as int),
        from <= found <= characters@.len(),
        forall|i: int| from <= i < found ==> characters@[i] != '/',
{
    let mut found: usize = from;
    while found < characters.len() && characters[found] != '/'
        invariant
            from <= found <= characters@.len(),
            slash_from(characters@, from as int) == slash_from(characters@, found as int),
            forall|i: int| from <= i < found ==> characters@[i] != '/',
        decreases characters@.len() - found,
    {
        found = found + 1;
    }
    found
}

/// A copy of a list of strings.
pub fn copy_strings(strings: &Vec<String>) -> (copy: Vec<String>)
    ensures
        texts(copy@) == texts(strings@),
{
    let mut copy: Vec<String> = Vec::new();
    for i in 0..strings.len()
        invariant
            copy@.len() == i,
            forall|j: int| 0 <= j < i ==> copy@[j]@ == strings@[j]@,
    {
        copy.push(strings[i].clone());
    }
    copy
}

} // verus!
