//! Paths as text: the file name at the end of a path, its stem and extension,
//! and the names that outputs are given.

use vstd::prelude::*;
use crate::media::Platform;
use crate::text::slice_of;

verus! {

/// Where the last component of `path` starts, looking only at its first
/// `upto` characters: behind the last separator, or at 0 where there is none.
pub open spec fn name_start_in(platform: Platform, path: Seq<char>, upto: int) -> int
    decreases upto,
{
    if upto <= 0 || upto > path.len() {
        0
    } else if platform.separates(path[upto - 1]) {
        upto
    } else {
        name_start_in(platform, path, upto - 1)
    }
}

/// Where the last component of `path` starts.
pub open spec fn name_start(platform: Platform, path: Seq<char>) -> int {
    name_start_in(platform, path, path.len() as int)
}

/// The last component of `path`: what follows its last separator.
pub open spec fn file_name_of(platform: Platform, path: Seq<char>) -> Seq<char> {
    path.skip(name_start(platform, path))
}

/// Whether the last component of `path` names a file: it is not empty, and
/// neither `.` nor `..`.
pub open spec fn has_file_name(platform: Platform, path: Seq<char>) -> bool {
    let name = file_name_of(platform, path);
    name.len() > 0 && name != seq!['.'] && name != seq!['.', '.']
}

/// The index of the last `.` among the first `upto` characters of `name`, or
/// -1 where there is none.
pub open spec fn last_dot_in(name: Seq<char>, upto: int) -> int
    decreases upto,
{
    if upto <= 0 || upto > name.len() {
        -1
    } else if name[upto - 1] == '.' {
        upto - 1
    } else {
        last_dot_in(name, upto - 1)
    }
}

/// How long the stem of the file name `name` is: up to its last `.`, unless
/// that is its first character or it has none; then the whole name.
pub open spec fn stem_len(name: Seq<char>) -> int {
    let dot = last_dot_in(name, name.len() as int);
    if dot <= 0 {
        name.len() as int
    } else {
        dot
    }
}

/// The extension of `path`: what follows the last `.` of its file name, where
/// that `.` is not the name's first character.
pub open spec fn extension_of(platform: Platform, path: Seq<char>) -> Option<Seq<char>> {
    let name = file_name_of(platform, path);
    if has_file_name(platform, path) && stem_len(name) < name.len() {
        Some(name.skip(stem_len(name) + 1))
    } else {
        None
    }
}

/// Where the stem of the file name of `path` ends, as an index into `path`.
pub open spec fn stem_end(platform: Platform, path: Seq<char>) -> int {
    name_start(platform, path) + stem_len(file_name_of(platform, path))
}

/// `path` without the extension of its file name.
pub open spec fn without_extension(platform: Platform, path: Seq<char>) -> Seq<char> {
    path.take(stem_end(platform, path))
}

/// `path` with the extension of its file name replaced by `ext`.
pub open spec fn with_extension(platform: Platform, path: Seq<char>, ext: Seq<char>) -> Seq<char> {
    without_extension(platform, path) + seq!['.'] + ext
}

/// `path` with `prefix` put before its file name and the extension replaced
/// by `ext`.
pub open spec fn prefixed_with_extension(
    platform: Platform,
    path: Seq<char>,
    prefix: Seq<char>,
    ext: Seq<char>,
) -> Seq<char> {
    path.take(name_start(platform, path)) + prefix + path.subrange(
        name_start(platform, path),
        stem_end(platform, path),
    ) + seq!['.'] + ext
}

/// `name_start_in` is an index into the part it looked at.
pub proof fn lemma_name_start_in(platform: Platform, path: Seq<char>, upto: int)
    requires
        0 <= upto <= path.len(),
    ensures
        0 <= name_start_in(platform, path, upto) <= upto,
        name_start_in(platform, path, upto) > 0 ==> platform.separates(
            path[name_start_in(platform, path, upto) - 1],
        ),
        forall|j: int|
            name_start_in(platform, path, upto) <= j < upto ==> !platform.separates(path[j]),
    decreases upto,
{
    if upto > 0 && !platform.separates(path[upto - 1]) {
        lemma_name_start_in(platform, path, upto - 1);
    }
}

/// `last_dot_in` is -1 or an index of a `.` in the part it looked at.
pub proof fn lemma_last_dot_in(name: Seq<char>, upto: int)
    requires
        0 <= upto <= name.len(),
    ensures
        -1 <= last_dot_in(name, upto) < upto,
        last_dot_in(name, upto) >= 0 ==> name[last_dot_in(name, upto)] == '.',
        forall|j: int| last_dot_in(name, upto) < j < upto ==> name[j] != '.',
    decreases upto,
{
    if upto > 0 && name[upto - 1] != '.' {
        lemma_last_dot_in(name, upto - 1);
    }
}

/// Computes `name_start`.
pub fn find_name_start(platform: Platform, path: &[char]) -> (out: usize)
    ensures
        out == name_start(platform, path@),
        out <= path.len(),
        out > 0 ==> platform.separates(path@[out - 1]),
        forall|j: int| out <= j < path.len() ==> !platform.separates(path@[j]),
{
    proof {
        lemma_name_start_in(platform, path@, path.len() as int);
    }
    let mut i: usize = path.len();
    while i > 0 && !platform.is_separator(path[i - 1])
        invariant
            i <= path.len(),
            name_start(platform, path@) == name_start_in(platform, path@, i as int),
        decreases i,
    {
        i -= 1;
    }
    i
}

/// Computes `stem_len`.
pub fn find_stem_len(name: &[char]) -> (out: usize)
    ensures
        out == stem_len(name@),
        out <= name.len(),
        out < name.len() ==> out > 0 && name@[out as int] == '.',
        forall|j: int| out < j < name.len() ==> name@[j] != '.',
{
    proof {
        lemma_last_dot_in(name@, name.len() as int);
    }
    let mut i: usize = name.len();
    while i > 0 && name[i - 1] != '.'
        invariant
            i <= name.len(),
            last_dot_in(name@, name.len() as int) == last_dot_in(name@, i as int),
        decreases i,
    {
        i -= 1;
    }
    if i <= 1 {
        name.len()
    } else {
        i - 1
    }
}

/// Whether `chars` is `.` or `..`.
fn spells_dots(chars: &[char]) -> (out: bool)
    ensures
        out == (chars@ == seq!['.'] || chars@ == seq!['.', '.']),
{
    let ghost one: Seq<char> = seq!['.'];
    let ghost two: Seq<char> = seq!['.', '.'];
    assert(one.len() == 1 && one[0] == '.');
    assert(two.len() == 2 && two[0] == '.' && two[1] == '.');
    if chars.len() == 1 {
        assert(chars[0] == '.' ==> chars@ =~= one);
        chars[0] == '.'
    } else if chars.len() == 2 {
        assert(chars[0] == '.' && chars[1] == '.' ==> chars@ =~= two);
        chars[0] == '.' && chars[1] == '.'
    } else {
        false
    }
}

/// The file name at the end of `path`, where it has one.
pub fn file_name(platform: Platform, path: &[char]) -> (out: Option<Vec<char>>)
    ensures
        out is Some == has_file_name(platform, path@),
        out matches Some(name) ==> name@ == file_name_of(platform, path@),
{
    let start = find_name_start(platform, path);
    let name = slice_of(path, start, path.len());
    if name.len() == 0 || spells_dots(name.as_slice()) {
        None
    } else {
        Some(name)
    }
}

/// The extension of `path`, where its file name has one.
pub fn extension(platform: Platform, path: &[char]) -> (out: Option<Vec<char>>)
    ensures
        out is Some == extension_of(platform, path@) is Some,
        out matches Some(ext) ==> Some(ext@) == extension_of(platform, path@),
{
    match file_name(platform, path) {
        Some(name) => {
            let stem = find_stem_len(name.as_slice());
            if stem < name.len() {
                Some(slice_of(name.as_slice(), stem + 1, name.len()))
            } else {
                None
            }
        },
        None => None,
    }
}

/// Computes `without_extension`.
pub fn strip_extension(platform: Platform, path: &[char]) -> (out: Vec<char>)
    ensures
        out@ == without_extension(platform, path@),
{
    let start = find_name_start(platform, path);
    let name = slice_of(path, start, path.len());
    let stem = find_stem_len(name.as_slice());
    slice_of(path, 0, start + stem)
}

/// Appends the characters of `more` to `out`.
pub fn push_chars(out: &mut Vec<char>, more: &[char])
    ensures
        final(out)@ == old(out)@ + more@,
{
    let mut i: usize = 0;
    while i < more.len()
        invariant
            i <= more.len(),
            out@ == old(out)@ + more@.take(i as int),
        decreases more.len() - i,
    {
        out.push(more[i]);
        assert(more@.take(i + 1) == more@.take(i as int).push(more@[i as int]));
        i += 1;
    }
    assert(more@.take(more.len() as int) == more@);
}

/// Computes `with_extension`.
pub fn replace_extension(platform: Platform, path: &[char], ext: &[char]) -> (out: Vec<char>)
    ensures
        out@ == with_extension(platform, path@, ext@),
{
    let mut out = strip_extension(platform, path);
    out.push('.');
    push_chars(&mut out, ext);
    out
}

/// Computes `prefixed_with_extension`.
pub fn prefix_and_replace_extension(
    platform: Platform,
    path: &[char],
    prefix: &[char],
    ext: &[char],
) -> (out: Vec<char>)
    ensures
        out@ == prefixed_with_extension(platform, path@, prefix@, ext@),
{
    let start = find_name_start(platform, path);
    let name = slice_of(path, start, path.len());
    let stem = find_stem_len(name.as_slice());
    let mut out = slice_of(path, 0, start);
    push_chars(&mut out, prefix);
    let kept = slice_of(path, start, start + stem);
    push_chars(&mut out, kept.as_slice());
    out.push('.');
    push_chars(&mut out, ext);
    out
}

} // verus!
