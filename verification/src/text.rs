//! Text as sequences of characters: conversion, search and splitting.

use vstd::prelude::*;

verus! {

/// The characters of `s`, in order.
pub fn chars_of(s: &str) -> (out: Vec<char>)
    ensures
        out@ == s@,
{
    let mut out: Vec<char> = Vec::new();
    for c in it: s.chars()
        invariant
            out@ == it.seq().take(it.index() as int),
            it.seq() == s@,
    {
        out.push(c);
    }
    out
}

/// `String::push`: appends one character to the end of the string.
#[verifier::external_body]
fn push_char(s: &mut String, c: char)
    ensures
        final(s)@ == old(s)@.push(c),
{
    s.push(c)
}

/// The string made of `chars`, in order.
pub fn string_of(chars: &[char]) -> (out: String)
    ensures
        out@ == chars@,
{
    let mut out = String::new();
    let mut i: usize = 0;
    while i < chars.len()
        invariant
            i <= chars.len(),
            out@ == chars@.take(i as int),
        decreases chars.len() - i,
    {
        push_char(&mut out, chars[i]);
        i += 1;
    }
    out
}

/// Whether `a` and `b` hold the same characters.
pub fn same_chars(a: &[char], b: &[char]) -> (out: bool)
    ensures
        out == (a@ == b@),
{
    if a.len() != b.len() {
        return false;
    }
    let mut i: usize = 0;
    while i < a.len()
        invariant
            i <= a.len(),
            a.len() == b.len(),
            a@.take(i as int) == b@.take(i as int),
        decreases a.len() - i,
    {
        if a[i] != b[i] {
            return false;
        }
        assert(a@.take(i + 1) == a@.take(i as int).push(a@[i as int]));
        assert(b@.take(i + 1) == b@.take(i as int).push(b@[i as int]));
        i += 1;
    }
    assert(a@ == a@.take(a.len() as int));
    assert(b@ == b@.take(b.len() as int));
    true
}

/// The lower-case form of an ASCII capital letter; any other character is itself.
pub open spec fn lower(c: char) -> char {
    if 'A' <= c && c <= 'Z' {
        ((c as u8) + 32) as char
    } else {
        c
    }
}

/// `s` with every ASCII capital letter in lower case.
pub open spec fn lowercase(s: Seq<char>) -> Seq<char> {
    Seq::new(s.len(), |i: int| lower(s[i]))
}

/// Computes `lower`.
pub fn to_lower(c: char) -> (out: char)
    ensures
        out == lower(c),
{
    if 'A' <= c && c <= 'Z' {
        ((c as u8) + 32) as char
    } else {
        c
    }
}

/// Computes `lowercase`.
pub fn to_lowercase(chars: &[char]) -> (out: Vec<char>)
    ensures
        out@ == lowercase(chars@),
{
    let mut out: Vec<char> = Vec::new();
    let mut i: usize = 0;
    while i < chars.len()
        invariant
            i <= chars.len(),
            out@ == lowercase(chars@).take(i as int),
        decreases chars.len() - i,
    {
        out.push(to_lower(chars[i]));
        i += 1;
    }
    out
}

/// The characters of `s` from `from` up to, not including, `to`.
pub fn slice_of(chars: &[char], from: usize, to: usize) -> (out: Vec<char>)
    requires
        from <= to <= chars.len(),
    ensures
        out@ == chars@.subrange(from as int, to as int),
{
    let mut out: Vec<char> = Vec::new();
    let mut i: usize = from;
    while i < to
        invariant
            from <= i <= to <= chars.len(),
            out@ == chars@.subrange(from as int, i as int),
        decreases to - i,
    {
        out.push(chars[i]);
        i += 1;
    }
    out
}

/// The index of the first `c` in `s` at or after `from`, or the length of `s`
/// where there is none.
pub open spec fn first_at(s: Seq<char>, c: char, from: int) -> int
    decreases s.len() - from,
{
    if from < 0 || from >= s.len() {
        s.len() as int
    } else if s[from] == c {
        from
    } else {
        first_at(s, c, from + 1)
    }
}

/// `first_at` lies between `from` and the end, points at `c` unless it is the
/// end, and no `c` stands before it.
pub proof fn lemma_first_at(s: Seq<char>, c: char, from: int)
    requires
        0 <= from <= s.len(),
    ensures
        from <= first_at(s, c, from) <= s.len(),
        first_at(s, c, from) < s.len() ==> s[first_at(s, c, from)] == c,
        forall|j: int| from <= j < first_at(s, c, from) ==> s[j] != c,
    decreases s.len() - from,
{
    if from < s.len() && s[from] != c {
        lemma_first_at(s, c, from + 1);
    }
}

/// Computes `first_at`.
pub fn find_char(chars: &[char], c: char, from: usize) -> (out: usize)
    requires
        from <= chars.len(),
    ensures
        out == first_at(chars@, c, from as int),
        from <= out <= chars.len(),
        out < chars.len() ==> chars@[out as int] == c,
        forall|j: int| from <= j < out ==> chars@[j] != c,
{
    proof {
        lemma_first_at(chars@, c, from as int);
    }
    let mut i: usize = from;
    while i < chars.len() && chars[i] != c
        invariant
            from <= i <= chars.len(),
            first_at(chars@, c, from as int) == first_at(chars@, c, i as int),
        decreases chars.len() - i,
    {
        i += 1;
    }
    i
}

/// The fields of `s` between the separators `sep`, starting at `from`: one more
/// than there are separators, so an empty text has one empty field.
pub open spec fn split_from(s: Seq<char>, sep: char, from: int) -> Seq<Seq<char>>
    decreases s.len() - from,
{
    let stop = first_at(s, sep, from);
    if from < 0 || from >= s.len() || stop >= s.len() {
        seq![s.subrange(from, s.len() as int)]
    } else {
        proof {
            lemma_first_at(s, sep, from);
        }
        seq![s.subrange(from, stop)] + split_from(s, sep, stop + 1)
    }
}

/// The fields of `s` between the separators `sep`.
pub open spec fn split(s: Seq<char>, sep: char) -> Seq<Seq<char>> {
    split_from(s, sep, 0)
}

/// The view of each text of `v`.
pub open spec fn views(v: Seq<Vec<char>>) -> Seq<Seq<char>> {
    Seq::new(v.len(), |i: int| v[i]@)
}

/// Computes `split`.
pub fn split_chars(chars: &[char], sep: char) -> (out: Vec<Vec<char>>)
    ensures
        views(out@) == split(chars@, sep),
        out.len() >= 1,
{
    let mut out: Vec<Vec<char>> = Vec::new();
    let mut from: usize = 0;
    loop
        invariant_except_break
            from <= chars.len(),
            split(chars@, sep) == views(out@) + split_from(chars@, sep, from as int),
        ensures
            views(out@) == split(chars@, sep),
            out.len() >= 1,
        decreases chars.len() - from,
    {
        let stop = find_char(chars, sep, from);
        let field = slice_of(chars, from, stop);
        let ghost before = views(out@);
        out.push(field);
        assert(views(out@) == before.push(chars@.subrange(from as int, stop as int)));
        if stop >= chars.len() {
            break;
        }
        assert(before + (seq![chars@.subrange(from as int, stop as int)] + split_from(
            chars@,
            sep,
            stop + 1,
        )) == views(out@) + split_from(chars@, sep, stop + 1));
        from = stop + 1;
    }
    out
}

/// Whether `needle` stands in `hay` at index `at`.
pub open spec fn occurs_at(hay: Seq<char>, needle: Seq<char>, at: int) -> bool {
    0 <= at && at + needle.len() <= hay.len() && hay.subrange(at, at + needle.len()) == needle
}

/// The index of the first occurrence of `needle` in `hay` at or after `from`.
pub open spec fn find_from(hay: Seq<char>, needle: Seq<char>, from: int) -> Option<int>
    decreases hay.len() - from + 1,
{
    if from < 0 || from + needle.len() > hay.len() {
        None
    } else if occurs_at(hay, needle, from) {
        Some(from)
    } else {
        find_from(hay, needle, from + 1)
    }
}

/// The index of the first occurrence of `needle` in `hay`.
pub open spec fn find(hay: Seq<char>, needle: Seq<char>) -> Option<int> {
    find_from(hay, needle, 0)
}

/// What `find_from` returns is an occurrence with none before it, and it
/// returns `None` only where there is no occurrence.
pub proof fn lemma_find_from(hay: Seq<char>, needle: Seq<char>, from: int)
    requires
        0 <= from,
    ensures
        match find_from(hay, needle, from) {
            Some(at) => from <= at && occurs_at(hay, needle, at) && forall|j: int|
                from <= j < at ==> !occurs_at(hay, needle, j),
            None => forall|j: int| from <= j ==> !occurs_at(hay, needle, j),
        },
    decreases hay.len() - from + 1,
{
    if from + needle.len() <= hay.len() && !occurs_at(hay, needle, from) {
        lemma_find_from(hay, needle, from + 1);
    }
}

/// Computes `occurs_at`.
pub fn matches_at(hay: &[char], needle: &[char], at: usize) -> (out: bool)
    ensures
        out == occurs_at(hay@, needle@, at as int),
{
    if needle.len() > hay.len() || at > hay.len() - needle.len() {
        return false;
    }
    let mut i: usize = 0;
    while i < needle.len()
        invariant
            i <= needle.len(),
            at + needle.len() <= hay.len(),
            hay@.subrange(at as int, at + i) == needle@.take(i as int),
        decreases needle.len() - i,
    {
        if hay[at + i] != needle[i] {
            assert(hay@.subrange(at as int, at + needle.len())[i as int] != needle@[i as int]);
            return false;
        }
        assert(hay@.subrange(at as int, at + i + 1) == hay@.subrange(at as int, at + i).push(
            hay@[at + i],
        ));
        assert(needle@.take(i + 1) == needle@.take(i as int).push(needle@[i as int]));
        i += 1;
    }
    assert(needle@ == needle@.take(needle.len() as int));
    true
}

/// Computes `find`.
pub fn find_text(hay: &[char], needle: &[char]) -> (out: Option<usize>)
    ensures
        match out {
            Some(at) => find(hay@, needle@) == Some(at as int) && at + needle.len() <= hay.len()
                && occurs_at(hay@, needle@, at as int) && forall|j: int|
                0 <= j < at ==> !occurs_at(hay@, needle@, j),
            None => find(hay@, needle@) is None && forall|j: int|
                0 <= j ==> !occurs_at(hay@, needle@, j),
        },
{
    proof {
        lemma_find_from(hay@, needle@, 0);
    }
    if needle.len() > hay.len() {
        return None;
    }
    let last: usize = hay.len() - needle.len();
    let mut at: usize = 0;
    loop
        invariant
            last == hay.len() - needle.len(),
            at <= last,
            find(hay@, needle@) == find_from(hay@, needle@, at as int),
        decreases last - at,
    {
        if matches_at(hay, needle, at) {
            proof {
                lemma_find_from(hay@, needle@, 0);
            }
            return Some(at);
        }
        if at >= last {
            proof {
                assert(find_from(hay@, needle@, at + 1) is None);
                lemma_find_from(hay@, needle@, 0);
            }
            return None;
        }
        at += 1;
    }
}

/// A blank ends a word: a space, a tab, or an end of line.
pub open spec fn is_blank(c: char) -> bool {
    c == ' ' || c == '\t' || c == '\n' || c == '\r'
}

/// The index of the first blank in `s` at or after `from`, or the length of `s`
/// where there is none.
pub open spec fn word_end(s: Seq<char>, from: int) -> int
    decreases s.len() - from,
{
    if from < 0 || from >= s.len() {
        s.len() as int
    } else if is_blank(s[from]) {
        from
    } else {
        word_end(s, from + 1)
    }
}

/// `word_end` lies between `from` and the end, and no blank stands between
/// `from` and it.
pub proof fn lemma_word_end(s: Seq<char>, from: int)
    requires
        0 <= from <= s.len(),
    ensures
        from <= word_end(s, from) <= s.len(),
        word_end(s, from) < s.len() ==> is_blank(s[word_end(s, from)]),
        forall|j: int| from <= j < word_end(s, from) ==> !is_blank(s[j]),
    decreases s.len() - from,
{
    if from < s.len() && !is_blank(s[from]) {
        lemma_word_end(s, from + 1);
    }
}

/// Computes `word_end`.
pub fn find_word_end(chars: &[char], from: usize) -> (out: usize)
    requires
        from <= chars.len(),
    ensures
        out == word_end(chars@, from as int),
        from <= out <= chars.len(),
        out < chars.len() ==> is_blank(chars@[out as int]),
        forall|j: int| from <= j < out ==> !is_blank(chars@[j]),
{
    proof {
        lemma_word_end(chars@, from as int);
    }
    let mut i: usize = from;
    while i < chars.len() && !(chars[i] == ' ' || chars[i] == '\t' || chars[i] == '\n' || chars[i]
        == '\r')
        invariant
            from <= i <= chars.len(),
            word_end(chars@, from as int) == word_end(chars@, i as int),
        decreases chars.len() - i,
    {
        i += 1;
    }
    i
}

/// The view of each string of `v`.
pub open spec fn texts(v: Seq<String>) -> Seq<Seq<char>> {
    Seq::new(v.len(), |i: int| v[i]@)
}

/// Appends a copy of `word` to the list `out`.
pub fn push_word(out: &mut Vec<String>, word: &str)
    ensures
        texts(final(out)@) == texts(old(out)@).push(word@),
{
    out.push(word.to_owned());
    assert(texts(out@) =~= texts(old(out)@).push(word@));
}

/// Appends a copy of each string of `words` to the list `out`.
pub fn push_words(out: &mut Vec<String>, words: &Vec<String>)
    ensures
        texts(final(out)@) == texts(old(out)@) + texts(words@),
{
    let mut i: usize = 0;
    while i < words.len()
        invariant
            i <= words.len(),
            texts(out@) == texts(old(out)@) + texts(words@).take(i as int),
        decreases words.len() - i,
    {
        push_word(out, words[i].as_str());
        assert(texts(words@).take(i + 1) == texts(words@).take(i as int).push(words@[i as int]@));
        i += 1;
    }
    assert(texts(words@).take(words.len() as int) == texts(words@));
}

} // verus!
