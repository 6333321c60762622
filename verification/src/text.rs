//! Text as sequences of characters: splitting, trimming, quoting and decimal
//! numerals, each tied to a mathematical description of its result.
use crate::seqs;
use vstd::prelude::*;
use vstd::string::*;
use vstd::utf8::*;

verus! {

// ---------------------------------------------------------------------------
// Standard functions without a specification in vstd
// ---------------------------------------------------------------------------

/// `String::push`: appends one character at the end.
pub assume_specification[ String::push ](string: &mut String, ch: char)
    ensures
        final(string)@ == old(string)@.push(ch),
;

/// `str == str`: two string slices compare equal exactly when they hold the
/// same characters.
pub assume_specification[ <str as PartialEq>::eq ](left: &str, right: &str) -> (equal: bool)
    ensures
        equal == (left@ == right@),
;

// ---------------------------------------------------------------------------
// Views
// ---------------------------------------------------------------------------

/// The characters of each string of a list.
pub open spec fn texts(list: Seq<String>) -> Seq<Seq<char>> {
    list.map_values(|item: String| item@)
}

/// The characters of an optional string.
pub open spec fn text_opt(value: Option<String>) -> Option<Seq<char>> {
    match value {
        Some(text) => Some(text@),
        None => None,
    }
}

// ---------------------------------------------------------------------------
// Conversions
// ---------------------------------------------------------------------------

pub fn chars_of(text: &str) -> (list: Vec<char>)
    ensures
        list@ == text@,
{
    let mut list: Vec<char> = Vec::new();
    for ch in it: text.chars()
        invariant
            it.seq() == text@,
            list@ == text@.take(it.index() as int),
    {
        list.push(ch);
        assert(text@.take(it.index() + 1) =~= text@.take(it.index() as int).push(ch));
    }
    assert(text@.take(text@.len() as int) =~= text@);
    list
}

pub fn same(left: &str, right: &str) -> (yes: bool)
    ensures
        yes == (left@ == right@),
{
    *left == *right
}

/// The characters from `from` up to `to`.
pub fn text_range(chars: &Vec<char>, from: usize, to: usize) -> (text: String)
    requires
        from <= to <= chars@.len(),
    ensures
        text@ == chars@.subrange(from as int, to as int),
{
    let mut text = String::new();
    let mut i: usize = from;
    while i < to
        invariant
            from <= i <= to <= chars@.len(),
            text@ == chars@.subrange(from as int, i as int),
        decreases to - i,
    {
        text.push(chars[i]);
        assert(chars@.subrange(from as int, i + 1) =~= chars@.subrange(from as int, i as int).push(
            chars@[i as int],
        ));
        i += 1;
    }
    text
}


/// The length of a text in UTF-8 bytes.
pub open spec fn byte_len(text: Seq<char>) -> nat {
    encode_utf8(text).len()
}

pub fn byte_length(text: &str) -> (len: usize)
    ensures
        len == byte_len(text@),
{
    text.as_bytes().len()
}

/// The first `limit` characters, or all of a shorter text.
pub open spec fn first_chars(text: Seq<char>, limit: nat) -> Seq<char> {
    if text.len() <= limit {
        text
    } else {
        text.take(limit as int)
    }
}

pub fn take_chars(text: &str, limit: usize) -> (head: String)
    ensures
        head@ == first_chars(text@, limit as nat),
{
    let chars = chars_of(text);
    if chars.len() <= limit {
        text.to_owned()
    } else {
        let head = text_range(&chars, 0, limit);
        assert(head@ =~= text@.take(limit as int));
        head
    }
}

// ---------------------------------------------------------------------------
// Scanning
// ---------------------------------------------------------------------------

/// Holds of exactly one character.
pub open spec fn is_char(wanted: char) -> spec_fn(char) -> bool {
    |ch: char| ch == wanted
}

/// The Unicode `White_Space` property.
pub open spec fn is_white_char(ch: char) -> bool {
    let code = ch as u32;
    ||| 0x9 <= code <= 0xD
    ||| code == 0x20
    ||| code == 0x85
    ||| code == 0xA0
    ||| code == 0x1680
    ||| 0x2000 <= code <= 0x200A
    ||| code == 0x2028
    ||| code == 0x2029
    ||| code == 0x202F
    ||| code == 0x205F
    ||| code == 0x3000
}

pub open spec fn is_white() -> spec_fn(char) -> bool {
    |ch: char| is_white_char(ch)
}

pub open spec fn is_solid() -> spec_fn(char) -> bool {
    |ch: char| !is_white_char(ch)
}

pub fn white(ch: char) -> (yes: bool)
    ensures
        yes == is_white_char(ch),
{
    let code = ch as u32;
    (0x9 <= code && code <= 0xD) || code == 0x20 || code == 0x85 || code == 0xA0 || code == 0x1680
        || (0x2000 <= code && code <= 0x200A) || code == 0x2028 || code == 0x2029 || code == 0x202F
        || code == 0x205F || code == 0x3000
}

/// The position of `wanted` at or after `from`, or the length.
pub fn index_from(chars: &Vec<char>, from: usize, wanted: char) -> (at: usize)
    requires
        from <= chars@.len(),
    ensures
        from <= at <= chars@.len(),
        at - from == seqs::until(chars@.skip(from as int), is_char(wanted)),
        at < chars@.len() ==> chars@[at as int] == wanted,
{
    let mut i: usize = from;
    while i < chars.len() && chars[i] != wanted
        invariant
            from <= i <= chars@.len(),
            forall|j: int| from <= j < i ==> chars@[j] != wanted,
        decreases chars@.len() - i,
    {
        i += 1;
    }
    proof {
        let rest = chars@.skip(from as int);
        assert forall|j: int| 0 <= j < i - from implies !is_char(wanted)(#[trigger] rest[j]) by {
            assert(rest[j] == chars@[j + from]);
        }
        seqs::lemma_until(rest, is_char(wanted), (i - from) as nat);
    }
    i
}

/// The position of the first white character at or after `from`, or the length.
pub fn white_from(chars: &Vec<char>, from: usize) -> (at: usize)
    requires
        from <= chars@.len(),
    ensures
        from <= at <= chars@.len(),
        at - from == seqs::until(chars@.skip(from as int), is_white()),
{
    let mut i: usize = from;
    while i < chars.len() && !white(chars[i])
        invariant
            from <= i <= chars@.len(),
            forall|j: int| from <= j < i ==> !is_white_char(#[trigger] chars@[j]),
        decreases chars@.len() - i,
    {
        i += 1;
    }
    proof {
        let rest = chars@.skip(from as int);
        assert forall|j: int| 0 <= j < i - from implies !is_white()(#[trigger] rest[j]) by {
            assert(rest[j] == chars@[j + from]);
        }
        seqs::lemma_until(rest, is_white(), (i - from) as nat);
    }
    i
}

/// The position of the first character that is not white at or after `from`,
/// or the length.
pub fn solid_from(chars: &Vec<char>, from: usize) -> (at: usize)
    requires
        from <= chars@.len(),
    ensures
        from <= at <= chars@.len(),
        at - from == seqs::until(chars@.skip(from as int), is_solid()),
{
    let mut i: usize = from;
    while i < chars.len() && white(chars[i])
        invariant
            from <= i <= chars@.len(),
            forall|j: int| from <= j < i ==> is_white_char(#[trigger] chars@[j]),
        decreases chars@.len() - i,
    {
        i += 1;
    }
    proof {
        let rest = chars@.skip(from as int);
        assert forall|j: int| 0 <= j < i - from implies !is_solid()(#[trigger] rest[j]) by {
            assert(rest[j] == chars@[j + from]);
        }
        seqs::lemma_until(rest, is_solid(), (i - from) as nat);
    }
    i
}

/// Whether the character `wanted` occurs in the text.
pub open spec fn has_char(text: Seq<char>, wanted: char) -> bool {
    text.contains(wanted)
}

pub fn contains_char(text: &str, wanted: char) -> (yes: bool)
    ensures
        yes == has_char(text@, wanted),
{
    let chars = chars_of(text);
    let mut i: usize = 0;
    while i < chars.len()
        invariant
            i <= chars@.len(),
            chars@ == text@,
            forall|j: int| 0 <= j < i ==> chars@[j] != wanted,
        decreases chars@.len() - i,
    {
        if chars[i] == wanted {
            assert(text@[i as int] == wanted);
            return true;
        }
        i += 1;
    }
    false
}

/// Whether the text holds a carriage return, a line feed or a NUL.
pub open spec fn has_break(text: Seq<char>) -> bool {
    has_char(text, '\r') || has_char(text, '\n') || has_char(text, '\0')
}

pub fn contains_break(text: &str) -> (yes: bool)
    ensures
        yes == has_break(text@),
{
    contains_char(text, '\r') || contains_char(text, '\n') || contains_char(text, '\0')
}

// ---------------------------------------------------------------------------
// Prefixes and substrings
// ---------------------------------------------------------------------------

pub open spec fn has_prefix(text: Seq<char>, prefix: Seq<char>) -> bool {
    prefix.len() <= text.len() && text.take(prefix.len() as int) == prefix
}

pub fn starts_with(text: &str, prefix: &str) -> (yes: bool)
    ensures
        yes == has_prefix(text@, prefix@),
{
    let chars = chars_of(text);
    let head = chars_of(prefix);
    if head.len() > chars.len() {
        return false;
    }
    let mut i: usize = 0;
    while i < head.len()
        invariant
            i <= head@.len() <= chars@.len(),
            chars@ == text@,
            head@ == prefix@,
            forall|j: int| 0 <= j < i ==> chars@[j] == head@[j],
        decreases head@.len() - i,
    {
        if chars[i] != head[i] {
            assert(text@.take(prefix@.len() as int)[i as int] != prefix@[i as int]);
            return false;
        }
        i += 1;
    }
    assert(text@.take(prefix@.len() as int) =~= prefix@);
    true
}

pub open spec fn without_prefix(text: Seq<char>, prefix: Seq<char>) -> Option<Seq<char>> {
    if has_prefix(text, prefix) {
        Some(text.skip(prefix.len() as int))
    } else {
        None
    }
}

pub fn strip_prefix(text: &str, prefix: &str) -> (rest: Option<String>)
    ensures
        text_opt(rest) == without_prefix(text@, prefix@),
{
    if !starts_with(text, prefix) {
        return None;
    }
    let chars = chars_of(text);
    let rest = text_range(&chars, prefix.unicode_len(), chars.len());
    assert(rest@ =~= text@.skip(prefix@.len() as int));
    Some(rest)
}

/// Whether `part` occurs in the text as a run of neighbouring characters.
pub open spec fn has_part(text: Seq<char>, part: Seq<char>) -> bool {
    exists|i: int| 0 <= i <= text.len() && has_prefix(#[trigger] text.skip(i), part)
}

pub fn contains_text(text: &str, part: &str) -> (yes: bool)
    ensures
        yes == has_part(text@, part@),
{
    let chars = chars_of(text);
    let mut i: usize = 0;
    loop
        invariant
            i <= chars@.len(),
            chars@ == text@,
            forall|j: int| 0 <= j < i ==> !has_prefix(#[trigger] text@.skip(j), part@),
        decreases chars@.len() - i,
    {
        let rest = text_range(&chars, i, chars.len());
        assert(rest@ =~= text@.skip(i as int));
        if starts_with(rest.as_str(), part) {
            return true;
        }
        if i == chars.len() {
            return false;
        }
        i += 1;
    }
}

/// The order of texts: by the first character in which they differ, and a
/// text before its continuations.
pub open spec fn precedes(left: Seq<char>, right: Seq<char>) -> bool
    decreases left.len(),
{
    if right.len() == 0 {
        false
    } else if left.len() == 0 {
        true
    } else if left[0] != right[0] {
        left[0] < right[0]
    } else {
        precedes(left.skip(1), right.skip(1))
    }
}

pub fn text_before(left: &str, right: &str) -> (yes: bool)
    ensures
        yes == precedes(left@, right@),
{
    let a = chars_of(left);
    let b = chars_of(right);
    let mut i: usize = 0;
    assert(left@.skip(0) =~= left@ && right@.skip(0) =~= right@);
    while i < a.len() && i < b.len() && a[i] == b[i]
        invariant
            i <= a@.len(),
            i <= b@.len(),
            a@ == left@,
            b@ == right@,
            precedes(left@, right@) == precedes(left@.skip(i as int), right@.skip(i as int)),
        decreases a@.len() - i,
    {
        assert(left@.skip(i as int).skip(1) =~= left@.skip(i + 1));
        assert(right@.skip(i as int).skip(1) =~= right@.skip(i + 1));
        i += 1;
    }
    if i == b.len() {
        false
    } else if i == a.len() {
        true
    } else {
        assert(left@.skip(i as int)[0] == left@[i as int]);
        assert(right@.skip(i as int)[0] == right@[i as int]);
        a[i] < b[i]
    }
}

// ---------------------------------------------------------------------------
// Trimming
// ---------------------------------------------------------------------------

pub open spec fn trim_start(text: Seq<char>) -> Seq<char> {
    text.skip(seqs::until(text, is_solid()) as int)
}

pub open spec fn trim_end(text: Seq<char>) -> Seq<char>
    decreases text.len(),
{
    if text.len() > 0 && is_white_char(text.last()) {
        trim_end(text.drop_last())
    } else {
        text
    }
}

/// The text without the white characters at its two ends.
pub open spec fn trimmed(text: Seq<char>) -> Seq<char> {
    trim_end(trim_start(text))
}

pub fn trim(text: &str) -> (inner: String)
    ensures
        inner@ == trimmed(text@),
{
    let chars = chars_of(text);
    let from = solid_from(&chars, 0);
    assert(chars@.skip(0) =~= text@);
    let mut to: usize = chars.len();
    assert(chars@.subrange(from as int, to as int) =~= trim_start(text@));
    while to > from && white(chars[to - 1])
        invariant
            from <= to <= chars@.len(),
            trimmed(text@) == trim_end(chars@.subrange(from as int, to as int)),
        decreases to,
    {
        assert(chars@.subrange(from as int, to as int).drop_last() =~= chars@.subrange(
            from as int,
            to - 1,
        ));
        to -= 1;
    }
    text_range(&chars, from, to)
}

pub proof fn lemma_trim_end_len(text: Seq<char>)
    ensures
        trim_end(text).len() <= text.len(),
    decreases text.len(),
{
    if text.len() > 0 && is_white_char(text.last()) {
        lemma_trim_end_len(text.drop_last());
    }
}

/// Trimming makes no text longer.
pub proof fn lemma_trimmed_len(text: Seq<char>)
    ensures
        trimmed(text).len() <= text.len(),
{
    seqs::lemma_until_bounds(text, is_solid());
    lemma_trim_end_len(trim_start(text));
}

/// Whether the text is made of white characters alone.
pub open spec fn is_blank(text: Seq<char>) -> bool {
    trimmed(text).len() == 0
}

pub fn blank(text: &str) -> (yes: bool)
    ensures
        yes == is_blank(text@),
{
    trim(text).as_str().is_empty()
}

/// The text without the `tail` characters at its end.
pub open spec fn trim_end_char(text: Seq<char>, tail: char) -> Seq<char>
    decreases text.len(),
{
    if text.len() > 0 && text.last() == tail {
        trim_end_char(text.drop_last(), tail)
    } else {
        text
    }
}

pub fn trim_end_matches(text: &str, tail: char) -> (head: String)
    ensures
        head@ == trim_end_char(text@, tail),
{
    let chars = chars_of(text);
    let mut to: usize = chars.len();
    assert(chars@.subrange(0, to as int) =~= text@);
    while to > 0 && chars[to - 1] == tail
        invariant
            to <= chars@.len(),
            trim_end_char(text@, tail) == trim_end_char(chars@.subrange(0, to as int), tail),
        decreases to,
    {
        assert(chars@.subrange(0, to as int).drop_last() =~= chars@.subrange(0, to - 1));
        to -= 1;
    }
    text_range(&chars, 0, to)
}

// ---------------------------------------------------------------------------
// Splitting
// ---------------------------------------------------------------------------

pub proof fn lemma_texts_push(list: Seq<String>, item: String)
    ensures
        texts(list.push(item)) == texts(list).push(item@),
{
    assert(texts(list.push(item)) =~= texts(list).push(item@));
}

/// The parts of the text between the separators, one more than there are
/// separators.
pub open spec fn split_on(text: Seq<char>, sep: char) -> Seq<Seq<char>>
    decreases text.len(),
{
    let end = seqs::until(text, is_char(sep));
    if end >= text.len() {
        seq![text]
    } else {
        seq![text.take(end as int)] + split_on(text.skip((end + 1) as int), sep)
    }
}

pub fn split(text: &str, sep: char) -> (parts: Vec<String>)
    ensures
        texts(parts@) == split_on(text@, sep),
{
    let chars = chars_of(text);
    let mut parts: Vec<String> = Vec::new();
    let mut start: usize = 0;
    assert(text@.skip(0) =~= text@);
    assert(texts(parts@) =~= Seq::<Seq<char>>::empty());
    loop
        invariant
            start <= chars@.len(),
            chars@ == text@,
            split_on(text@, sep) =~= texts(parts@) + split_on(text@.skip(start as int), sep),
        decreases chars@.len() - start,
    {
        let end = index_from(&chars, start, sep);
        let part = text_range(&chars, start, end);
        proof {
            lemma_texts_push(parts@, part);
            assert(part@ =~= text@.skip(start as int).take(end - start));
        }
        parts.push(part);
        if end == chars.len() {
            assert(text@.skip(start as int).take(end - start) =~= text@.skip(start as int));
            return parts;
        }
        assert(text@.skip(start as int).skip(end - start + 1) =~= text@.skip(end + 1));
        start = end + 1;
    }
}

/// The parts before and after the first separator.
pub open spec fn split_pair(text: Seq<char>, sep: char) -> Option<(Seq<char>, Seq<char>)> {
    let end = seqs::until(text, is_char(sep));
    if end < text.len() {
        Some((text.take(end as int), text.skip((end + 1) as int)))
    } else {
        None
    }
}

pub open spec fn text_pair(pair: Option<(String, String)>) -> Option<(Seq<char>, Seq<char>)> {
    match pair {
        Some((left, right)) => Some((left@, right@)),
        None => None,
    }
}

pub fn split_once(text: &str, sep: char) -> (pair: Option<(String, String)>)
    ensures
        text_pair(pair) == split_pair(text@, sep),
{
    let chars = chars_of(text);
    let end = index_from(&chars, 0, sep);
    assert(chars@.skip(0) =~= text@);
    if end == chars.len() {
        return None;
    }
    let left = text_range(&chars, 0, end);
    let right = text_range(&chars, end + 1, chars.len());
    assert(left@ =~= text@.take(end as int));
    assert(right@ =~= text@.skip(end + 1));
    Some((left, right))
}

/// A line without the carriage return before its line feed.
pub open spec fn without_return(line: Seq<char>) -> Seq<char> {
    if line.len() > 0 && line.last() == '\r' {
        line.drop_last()
    } else {
        line
    }
}

/// The lines of a text: each ends at a line feed, before which one carriage
/// return is dropped; a last line without a line feed counts when it holds
/// anything.
pub open spec fn lines_of(text: Seq<char>) -> Seq<Seq<char>>
    decreases text.len(),
{
    let end = seqs::until(text, is_char('\n'));
    if text.len() == 0 {
        Seq::empty()
    } else if end >= text.len() {
        seq![text]
    } else {
        seq![without_return(text.take(end as int))] + lines_of(text.skip((end + 1) as int))
    }
}

pub fn lines(text: &str) -> (list: Vec<String>)
    ensures
        texts(list@) == lines_of(text@),
{
    let chars = chars_of(text);
    let mut list: Vec<String> = Vec::new();
    let mut start: usize = 0;
    assert(text@.skip(0) =~= text@);
    assert(texts(list@) =~= Seq::<Seq<char>>::empty());
    while start < chars.len()
        invariant
            start <= chars@.len(),
            chars@ == text@,
            lines_of(text@) =~= texts(list@) + lines_of(text@.skip(start as int)),
        decreases chars@.len() - start,
    {
        let end = index_from(&chars, start, '\n');
        if end == chars.len() {
            let last = text_range(&chars, start, end);
            proof {
                lemma_texts_push(list@, last);
                assert(last@ =~= text@.skip(start as int));
            }
            list.push(last);
            return list;
        }
        let ghost whole = text@.skip(start as int).take(end - start);
        let stop: usize = if end > start && chars[end - 1] == '\r' {
            end - 1
        } else {
            end
        };
        let line = text_range(&chars, start, stop);
        proof {
            lemma_texts_push(list@, line);
            assert(whole =~= chars@.subrange(start as int, end as int));
            assert(line@ =~= without_return(whole));
            assert(text@.skip(start as int).skip(end - start + 1) =~= text@.skip(end + 1));
        }
        list.push(line);
        start = end + 1;
    }
    assert(text@.skip(start as int) =~= Seq::<char>::empty());
    list
}

/// The maximal runs of characters that are not white.
pub open spec fn words_of(text: Seq<char>) -> Seq<Seq<char>>
    decreases text.len(),
{
    let rest = trim_start(text);
    let end = seqs::until(rest, is_white());
    if rest.len() == 0 {
        Seq::empty()
    } else if end == 0 || end > rest.len() || rest.len() > text.len() {
        Seq::empty()
    } else {
        seq![rest.take(end as int)] + words_of(rest.skip(end as int))
    }
}

pub proof fn lemma_word_progress(text: Seq<char>)
    ensures
        trim_start(text).len() <= text.len(),
        trim_start(text).len() > 0 ==> 0 < seqs::until(trim_start(text), is_white())
            <= trim_start(text).len(),
{
    seqs::lemma_until_bounds(text, is_solid());
    let rest = trim_start(text);
    seqs::lemma_until_bounds(rest, is_white());
    if rest.len() > 0 {
        assert(rest[0] == text[seqs::until(text, is_solid()) as int]);
        assert(is_solid()(rest[0]));
        if seqs::until(rest, is_white()) == 0 {
            assert(is_white()(rest[0]));
        }
    }
}

pub fn split_whitespace(text: &str) -> (words: Vec<String>)
    ensures
        texts(words@) == words_of(text@),
{
    let chars = chars_of(text);
    let mut words: Vec<String> = Vec::new();
    let mut start: usize = 0;
    assert(text@.skip(0) =~= text@);
    assert(texts(words@) =~= Seq::<Seq<char>>::empty());
    loop
        invariant
            start <= chars@.len(),
            chars@ == text@,
            words_of(text@) =~= texts(words@) + words_of(text@.skip(start as int)),
        decreases chars@.len() - start,
    {
        let from = solid_from(&chars, start);
        proof {
            lemma_word_progress(text@.skip(start as int));
            assert(trim_start(text@.skip(start as int)) =~= text@.skip(from as int));
        }
        if from == chars.len() {
            return words;
        }
        let end = white_from(&chars, from);
        let word = text_range(&chars, from, end);
        proof {
            lemma_texts_push(words@, word);
            assert(word@ =~= text@.skip(from as int).take(end - from));
            assert(text@.skip(from as int).skip(end - from) =~= text@.skip(end as int));
        }
        words.push(word);
        start = end;
    }
}

// ---------------------------------------------------------------------------
// Joining and rewriting
// ---------------------------------------------------------------------------

/// The parts with `sep` between each two neighbours.
pub open spec fn joined(parts: Seq<Seq<char>>, sep: Seq<char>) -> Seq<char>
    decreases parts.len(),
{
    if parts.len() == 0 {
        Seq::empty()
    } else if parts.len() == 1 {
        parts[0]
    } else {
        joined(parts.drop_last(), sep) + sep + parts.last()
    }
}

pub fn join(parts: &Vec<String>, sep: &str) -> (text: String)
    ensures
        text@ == joined(texts(parts@), sep@),
{
    let mut text = String::new();
    let mut i: usize = 0;
    assert(texts(parts@).take(0) =~= Seq::<Seq<char>>::empty());
    while i < parts.len()
        invariant
            i <= parts@.len(),
            text@ == joined(texts(parts@).take(i as int), sep@),
        decreases parts@.len() - i,
    {
        proof {
            let now = texts(parts@).take(i + 1);
            assert(now.drop_last() =~= texts(parts@).take(i as int));
            assert(now.last() == parts@[i as int]@);
        }
        if i > 0 {
            text.append(sep);
        }
        text.append(parts[i].as_str());
        assert(i == 0 ==> text@ =~= parts@[0]@);
        i += 1;
    }
    assert(texts(parts@).take(parts@.len() as int) =~= texts(parts@));
    text
}

/// The text with every `from` replaced by `to`.
pub open spec fn replaced(text: Seq<char>, from: char, to: Seq<char>) -> Seq<char>
    decreases text.len(),
{
    if text.len() == 0 {
        Seq::empty()
    } else {
        replaced(text.drop_last(), from, to) + (if text.last() == from {
            to
        } else {
            seq![text.last()]
        })
    }
}

pub fn replace(text: &str, from: char, to: &str) -> (changed: String)
    ensures
        changed@ == replaced(text@, from, to@),
{
    let chars = chars_of(text);
    let mut changed = String::new();
    let mut i: usize = 0;
    assert(text@.take(0) =~= Seq::<char>::empty());
    while i < chars.len()
        invariant
            i <= chars@.len(),
            chars@ == text@,
            changed@ == replaced(text@.take(i as int), from, to@),
        decreases chars@.len() - i,
    {
        proof {
            let now = text@.take(i + 1);
            assert(now.drop_last() =~= text@.take(i as int));
        }
        let ghost before = changed@;
        if chars[i] == from {
            changed.append(to);
        } else {
            changed.push(chars[i]);
            assert(changed@ =~= before + seq![text@[i as int]]);
        }
        i += 1;
    }
    assert(text@.take(text@.len() as int) =~= text@);
    changed
}

/// `value` between single quotes, each single quote inside it closed, written
/// between double quotes and opened again: one word to a POSIX shell.
pub open spec fn shell_word(value: Seq<char>) -> Seq<char> {
    "'"@ + replaced(value, '\'', "'\"'\"'"@) + "'"@
}

pub fn shell_quote(value: &str) -> (word: String)
    ensures
        word@ == shell_word(value@),
{
    let mut word = "'".to_owned();
    word.append(replace(value, '\'', "'\"'\"'").as_str());
    word.append("'");
    word
}

/// How far a POSIX shell has read a word: in which quotes it stands, and what
/// the word is so far. It is lost where a character would not stand for itself.
pub enum Reading {
    Bare(Seq<char>),
    Single(Seq<char>),
    Double(Seq<char>),
    Lost,
}

pub open spec fn shell_step(state: Reading, ch: char) -> Reading {
    match state {
        Reading::Bare(word) => if ch == '\'' {
            Reading::Single(word)
        } else if ch == '"' {
            Reading::Double(word)
        } else {
            Reading::Lost
        },
        Reading::Single(word) => if ch == '\'' {
            Reading::Bare(word)
        } else {
            Reading::Single(word.push(ch))
        },
        Reading::Double(word) => if ch == '"' {
            Reading::Bare(word)
        } else if ch == '$' || ch == '`' || ch == '\\' || ch == '!' {
            Reading::Lost
        } else {
            Reading::Double(word.push(ch))
        },
        Reading::Lost => Reading::Lost,
    }
}

pub open spec fn shell_reading(text: Seq<char>) -> Reading
    decreases text.len(),
{
    if text.len() == 0 {
        Reading::Bare(Seq::empty())
    } else {
        shell_step(shell_reading(text.drop_last()), text.last())
    }
}

proof fn lemma_shell_push(text: Seq<char>, ch: char)
    ensures
        shell_reading(text.push(ch)) == shell_step(shell_reading(text), ch),
{
    assert(text.push(ch).drop_last() =~= text);
}

proof fn lemma_shell_inside(value: Seq<char>)
    ensures
        shell_reading("'"@ + replaced(value, '\'', "'\"'\"'"@)) == Reading::Single(value),
    decreases value.len(),
{
    reveal_strlit("'");
    reveal_strlit("'\"'\"'");
    if value.len() == 0 {
        assert("'"@ + replaced(value, '\'', "'\"'\"'"@) =~= Seq::empty().push('\''));
        lemma_shell_push(Seq::empty(), '\'');
        assert(value =~= Seq::empty());
    } else {
        let head = "'"@ + replaced(value.drop_last(), '\'', "'\"'\"'"@);
        lemma_shell_inside(value.drop_last());
        assert(value.drop_last().push(value.last()) =~= value);
        if value.last() == '\'' {
            assert("'"@ + replaced(value, '\'', "'\"'\"'"@) =~= head.push('\'').push('"').push(
                '\'',
            ).push('"').push('\''));
            lemma_shell_push(head, '\'');
            lemma_shell_push(head.push('\''), '"');
            lemma_shell_push(head.push('\'').push('"'), '\'');
            lemma_shell_push(head.push('\'').push('"').push('\''), '"');
            lemma_shell_push(head.push('\'').push('"').push('\'').push('"'), '\'');
        } else {
            assert("'"@ + replaced(value, '\'', "'\"'\"'"@) =~= head.push(value.last()));
            lemma_shell_push(head, value.last());
        }
    }
}

/// To a POSIX shell a quoted value is one word, and the word is the value: no
/// character of it, whatever it is, means anything else.
pub proof fn quoted_value_is_one_word(value: Seq<char>)
    ensures
        shell_reading(shell_word(value)) == Reading::Bare(value),
{
    reveal_strlit("'");
    let head = "'"@ + replaced(value, '\'', "'\"'\"'"@);
    lemma_shell_inside(value);
    assert(shell_word(value) =~= head.push('\''));
    lemma_shell_push(head, '\'');
}

pub open spec fn lower_char(ch: char) -> char {
    if 'A' <= ch <= 'Z' {
        ((ch as u8 + 32) as u8) as char
    } else {
        ch
    }
}

pub open spec fn upper_char(ch: char) -> char {
    if 'a' <= ch <= 'z' {
        ((ch as u8 - 32) as u8) as char
    } else {
        ch
    }
}

/// The text with its ASCII capital letters made small.
pub open spec fn ascii_lower(text: Seq<char>) -> Seq<char> {
    text.map_values(|ch: char| lower_char(ch))
}

/// The text with its ASCII small letters made capital.
pub open spec fn ascii_upper(text: Seq<char>) -> Seq<char> {
    text.map_values(|ch: char| upper_char(ch))
}

pub fn char_to_lower(ch: char) -> (small: char)
    ensures
        small == lower_char(ch),
{
    if 'A' <= ch && ch <= 'Z' {
        ((ch as u8 + 32) as u8) as char
    } else {
        ch
    }
}

pub fn to_ascii_lowercase(text: &str) -> (small: String)
    ensures
        small@ == ascii_lower(text@),
{
    let chars = chars_of(text);
    let mut small = String::new();
    let mut i: usize = 0;
    while i < chars.len()
        invariant
            i <= chars@.len(),
            chars@ == text@,
            small@ =~= ascii_lower(text@).take(i as int),
        decreases chars@.len() - i,
    {
        small.push(char_to_lower(chars[i]));
        i += 1;
    }
    small
}

pub fn to_ascii_uppercase(text: &str) -> (large: String)
    ensures
        large@ == ascii_upper(text@),
{
    let chars = chars_of(text);
    let mut large = String::new();
    let mut i: usize = 0;
    while i < chars.len()
        invariant
            i <= chars@.len(),
            chars@ == text@,
            large@ =~= ascii_upper(text@).take(i as int),
        decreases chars@.len() - i,
    {
        let ch = chars[i];
        if 'a' <= ch && ch <= 'z' {
            large.push(((ch as u8 - 32) as u8) as char);
        } else {
            large.push(ch);
        }
        i += 1;
    }
    large
}

pub open spec fn is_digit(ch: char) -> bool {
    '0' <= ch <= '9'
}

pub open spec fn is_alphanumeric(ch: char) -> bool {
    is_digit(ch) || 'a' <= ch <= 'z' || 'A' <= ch <= 'Z'
}

pub fn digit(ch: char) -> (yes: bool)
    ensures
        yes == is_digit(ch),
{
    '0' <= ch && ch <= '9'
}

pub fn alphanumeric(ch: char) -> (yes: bool)
    ensures
        yes == is_alphanumeric(ch),
{
    digit(ch) || ('a' <= ch && ch <= 'z') || ('A' <= ch && ch <= 'Z')
}

// ---------------------------------------------------------------------------
// Decimal numerals
// ---------------------------------------------------------------------------

pub open spec fn digit_char(value: nat) -> char {
    (('0' as u8 + value) as u8) as char
}

/// The decimal numeral of a natural number.
pub open spec fn decimal(value: nat) -> Seq<char>
    decreases value,
{
    if value < 10 {
        seq![digit_char(value)]
    } else {
        decimal(value / 10).push(digit_char(value % 10))
    }
}

/// The decimal numeral of an integer.
pub open spec fn signed_decimal(value: int) -> Seq<char> {
    if value < 0 {
        "-"@ + decimal((-value) as nat)
    } else {
        decimal(value as nat)
    }
}

pub fn decimal_text(value: u64) -> (text: String)
    ensures
        text@ == decimal(value as nat),
    decreases value,
{
    let mut text = if value < 10 {
        String::new()
    } else {
        decimal_text(value / 10)
    };
    let last: u8 = (value % 10) as u8;
    text.push((48u8 + last) as char);
    assert(text@ =~= decimal(value as nat));
    text
}

pub fn signed_decimal_text(value: i64) -> (text: String)
    ensures
        text@ == signed_decimal(value as int),
{
    if value >= 0 {
        decimal_text(value as u64)
    } else {
        let size: u64 = (-(value as i128)) as u64;
        let mut text = "-".to_owned();
        text.append(decimal_text(size).as_str());
        text
    }
}

pub open spec fn digits_value(text: Seq<char>) -> nat
    decreases text.len(),
{
    if text.len() == 0 {
        0
    } else {
        digits_value(text.drop_last()) * 10 + (text.last() as nat - '0' as nat) as nat
    }
}

pub open spec fn all_digits(text: Seq<char>) -> bool {
    forall|i: int| 0 <= i < text.len() ==> is_digit(#[trigger] text[i])
}

/// An optional number as a diagnostic shows it.
pub open spec fn shown_option(value: Option<u32>) -> Seq<char> {
    match value {
        Some(number) => "Some("@ + decimal(number as nat) + ")"@,
        None => "None"@,
    }
}

pub fn show_option(value: Option<u32>) -> (text: String)
    ensures
        text@ == shown_option(value),
{
    match value {
        Some(number) => {
            let mut text = "Some(".to_owned();
            text.append(decimal_text(number as u64).as_str());
            text.append(")");
            text
        },
        None => "None".to_owned(),
    }
}

/// An optional signed number as a diagnostic shows it.
pub open spec fn shown_signed(value: Option<i32>) -> Seq<char> {
    match value {
        Some(number) => "Some("@ + signed_decimal(number as int) + ")"@,
        None => "None"@,
    }
}

pub fn show_signed(value: Option<i32>) -> (text: String)
    ensures
        text@ == shown_signed(value),
{
    match value {
        Some(number) => {
            let mut text = "Some(".to_owned();
            text.append(signed_decimal_text(number as i64).as_str());
            text.append(")");
            text
        },
        None => "None".to_owned(),
    }
}

/// The number that a numeral stands for: digits, at least one, with an
/// optional plus sign in front.
pub open spec fn parse_nat(text: Seq<char>) -> Option<nat> {
    let body = if text.len() > 0 && text[0] == '+' {
        text.skip(1)
    } else {
        text
    };
    if body.len() > 0 && all_digits(body) {
        Some(digits_value(body))
    } else {
        None
    }
}

/// The number that a numeral stands for, where it is at most `max`.
pub open spec fn parse_up_to(text: Seq<char>, max: nat) -> Option<nat> {
    match parse_nat(text) {
        Some(value) => if value <= max {
            Some(value)
        } else {
            None
        },
        None => None,
    }
}

pub proof fn lemma_digits_value_grows(text: Seq<char>, i: int)
    requires
        0 <= i <= text.len(),
        all_digits(text),
    ensures
        digits_value(text.take(i)) <= digits_value(text),
    decreases text.len() - i,
{
    if i < text.len() {
        lemma_digits_value_grows(text, i + 1);
        assert(text.take(i + 1).drop_last() =~= text.take(i));
    } else {
        assert(text.take(i) =~= text);
    }
}

pub fn parse_u64(text: &str) -> (value: Option<u64>)
    ensures
        match value {
            Some(number) => parse_up_to(text@, u64::MAX as nat) == Some(number as nat),
            None => parse_up_to(text@, u64::MAX as nat) is None,
        },
{
    let chars = chars_of(text);
    let start: usize = if chars.len() > 0 && chars[0] == '+' {
        1
    } else {
        0
    };
    let ghost body = text@.skip(start as int);
    assert(start == 0 ==> body =~= text@);
    if start == chars.len() {
        return None;
    }
    let mut i: usize = start;
    while i < chars.len()
        invariant
            start <= i <= chars@.len(),
            chars@ == text@,
            start == if text@.len() > 0 && text@[0] == '+' { 1int } else { 0int },
            start == 0 ==> body == text@,
            body == text@.skip(start as int),
            forall|j: int| 0 <= j < i - start ==> is_digit(#[trigger] body[j]),
        decreases chars@.len() - i,
    {
        if !digit(chars[i]) {
            assert(!is_digit(body[i - start]));
            return None;
        }
        i += 1;
    }
    let mut value: u64 = 0;
    i = start;
    assert(body.take(0) =~= Seq::<char>::empty());
    while i < chars.len()
        invariant
            start <= i <= chars@.len(),
            chars@ == text@,
            start == if text@.len() > 0 && text@[0] == '+' { 1int } else { 0int },
            start == 0 ==> body == text@,
            body == text@.skip(start as int),
            body.len() > 0,
            all_digits(body),
            value == digits_value(body.take(i - start)),
        decreases chars@.len() - i,
    {
        proof {
            let now = body.take(i - start + 1);
            assert(now.drop_last() =~= body.take(i - start));
            assert(now.last() == text@[i as int]);
            assert(is_digit(body[i - start]));
            lemma_digits_value_grows(body, i - start + 1);
        }
        let next: u64 = chars[i] as u64 - '0' as u64;
        if value > (u64::MAX - next) / 10 {
            return None;
        }
        value = value * 10 + next;
        i += 1;
    }
    assert(body.take(body.len() as int) =~= body);
    Some(value)
}

pub fn parse_u32(text: &str) -> (value: Option<u32>)
    ensures
        match value {
            Some(number) => parse_up_to(text@, u32::MAX as nat) == Some(number as nat),
            None => parse_up_to(text@, u32::MAX as nat) is None,
        },
{
    match parse_u64(text) {
        Some(number) => if number <= u32::MAX as u64 {
            Some(number as u32)
        } else {
            None
        },
        None => None,
    }
}


pub proof fn lemma_decimal_digits(value: nat)
    ensures
        decimal(value).len() > 0,
        all_digits(decimal(value)),
        digits_value(decimal(value)) == value,
    decreases value,
{
    if value < 10 {
        assert(decimal(value).drop_last() =~= Seq::<char>::empty());
        assert(digits_value(Seq::<char>::empty()) == 0);
        assert(decimal(value).last() == digit_char(value));
    } else {
        lemma_decimal_digits(value / 10);
        let head = decimal(value / 10);
        assert(decimal(value).drop_last() =~= head);
        assert forall|i: int| 0 <= i < decimal(value).len() implies is_digit(
            #[trigger] decimal(value)[i],
        ) by {
            if i < head.len() {
                assert(decimal(value)[i] == head[i]);
            }
        }
    }
}

/// A numeral is read back as the number it was written for.
pub proof fn decimal_is_read_back(value: nat)
    ensures
        parse_nat(decimal(value)) == Some(value),
{
    lemma_decimal_digits(value);
    assert(is_digit(decimal(value)[0]));
}

// ---------------------------------------------------------------------------
// Splitting what was put together
// ---------------------------------------------------------------------------

pub proof fn lemma_split_head(head: Seq<char>, rest: Seq<char>, sep: char)
    requires
        !has_char(head, sep),
    ensures
        split_on(head + seq![sep] + rest, sep) == seq![head] + split_on(rest, sep),
{
    let whole = head + seq![sep] + rest;
    assert forall|j: int| 0 <= j < head.len() implies !is_char(sep)(#[trigger] whole[j]) by {
        assert(whole[j] == head[j]);
        assert(head.contains(head[j]));
    }
    assert(whole[head.len() as int] == sep);
    seqs::lemma_until(whole, is_char(sep), head.len());
    assert(whole.take(head.len() as int) =~= head);
    assert(whole.skip((head.len() + 1) as int) =~= rest);
}

pub proof fn lemma_split_single(whole: Seq<char>, sep: char)
    requires
        !has_char(whole, sep),
    ensures
        split_on(whole, sep) == seq![whole],
{
    assert forall|j: int| 0 <= j < whole.len() implies !is_char(sep)(#[trigger] whole[j]) by {
        assert(whole.contains(whole[j]));
    }
    seqs::lemma_until(whole, is_char(sep), whole.len());
}

// ---------------------------------------------------------------------------
// Laws
// ---------------------------------------------------------------------------

/// Of two texts that differ, exactly one precedes the other; no text precedes
/// itself; and what precedes a text precedes everything behind it.
pub proof fn precedes_is_an_order()
    ensures
        forall|a: Seq<char>| !#[trigger] precedes(a, a),
        forall|a: Seq<char>, b: Seq<char>|
            a != b ==> (#[trigger] precedes(a, b) <==> !precedes(b, a)),
        forall|a: Seq<char>, b: Seq<char>, c: Seq<char>|
            #[trigger] precedes(a, b) && #[trigger] precedes(b, c) ==> precedes(a, c),
{
    assert forall|a: Seq<char>| !#[trigger] precedes(a, a) by {
        lemma_precedes_self(a);
    }
    assert forall|a: Seq<char>, b: Seq<char>| a != b implies (#[trigger] precedes(a, b)
        <==> !precedes(b, a)) by {
        lemma_precedes_total(a, b);
    }
    assert forall|a: Seq<char>, b: Seq<char>, c: Seq<char>| #[trigger] precedes(a, b)
        && #[trigger] precedes(b, c) implies precedes(a, c) by {
        lemma_precedes_chain(a, b, c);
    }
}

proof fn lemma_precedes_self(a: Seq<char>)
    ensures
        !precedes(a, a),
    decreases a.len(),
{
    if a.len() > 0 {
        lemma_precedes_self(a.skip(1));
    }
}

proof fn lemma_precedes_total(a: Seq<char>, b: Seq<char>)
    requires
        a != b,
    ensures
        precedes(a, b) <==> !precedes(b, a),
    decreases a.len(),
{
    if a.len() == 0 || b.len() == 0 {
        if a.len() == b.len() {
            assert(a =~= b);
        }
    } else if a[0] == b[0] {
        if a.skip(1) == b.skip(1) {
            assert(a =~= seq![a[0]] + a.skip(1));
            assert(b =~= seq![b[0]] + b.skip(1));
        }
        lemma_precedes_total(a.skip(1), b.skip(1));
    }
}

proof fn lemma_precedes_chain(a: Seq<char>, b: Seq<char>, c: Seq<char>)
    requires
        precedes(a, b),
        precedes(b, c),
    ensures
        precedes(a, c),
    decreases a.len(),
{
    if a.len() > 0 && b.len() > 0 && c.len() > 0 && a[0] == b[0] && b[0] == c[0] {
        lemma_precedes_chain(a.skip(1), b.skip(1), c.skip(1));
    }
}

/// Whether the text is made of white characters alone, or empty.
pub open spec fn all_white(text: Seq<char>) -> bool {
    forall|i: int| 0 <= i < text.len() ==> is_white_char(#[trigger] text[i])
}

/// Trimming takes white characters from the two ends, and nothing else: what is
/// left stands in the text between them, and begins and ends with another
/// character.
pub proof fn trimming_takes_only_white(text: Seq<char>)
    ensures
        exists|before: Seq<char>, after: Seq<char>|
            text == #[trigger] (before + trimmed(text) + after) && all_white(before) && all_white(
                after,
            ),
        trimmed(text).len() > 0 ==> !is_white_char(trimmed(text)[0]) && !is_white_char(
            trimmed(text).last(),
        ),
{
    let from = seqs::until(text, is_solid());
    seqs::lemma_until_bounds(text, is_solid());
    let before = text.take(from as int);
    let inner = trim_start(text);
    lemma_trim_end_parts(inner);
    let kept = trim_end(inner).len();
    let after = inner.skip(kept as int);
    assert(trim_end(inner) =~= inner.take(kept as int));
    assert(text =~= before + trimmed(text) + after);
    assert forall|i: int| 0 <= i < before.len() implies is_white_char(#[trigger] before[i]) by {
        assert(!is_solid()(text[i]));
    }
    assert(all_white(before) && all_white(after));
    if trimmed(text).len() > 0 {
        assert(inner[0] == text[from as int]);
        assert(is_solid()(text[from as int]));
        assert(trimmed(text)[0] == inner[0]);
    }
}

proof fn lemma_trim_end_parts(text: Seq<char>)
    ensures
        trim_end(text).len() <= text.len(),
        trim_end(text) == text.take(trim_end(text).len() as int),
        forall|i: int| trim_end(text).len() <= i < text.len() ==> is_white_char(#[trigger] text[i]),
        trim_end(text).len() > 0 ==> !is_white_char(trim_end(text).last()),
    decreases text.len(),
{
    if text.len() > 0 && is_white_char(text.last()) {
        let rest = text.drop_last();
        lemma_trim_end_parts(rest);
        assert(rest.take(trim_end(rest).len() as int) =~= text.take(trim_end(rest).len() as int));
        assert forall|i: int| trim_end(text).len() <= i < text.len() implies is_white_char(
            #[trigger] text[i],
        ) by {
            if i < rest.len() {
                assert(rest[i] == text[i]);
            }
        }
    } else {
        assert(text.take(text.len() as int) =~= text);
    }
}

proof fn lemma_trim_end_more(text: Seq<char>, after: Seq<char>)
    requires
        all_white(after),
    ensures
        trim_end(text + after) == trim_end(text),
    decreases after.len(),
{
    if after.len() == 0 {
        assert(text + after =~= text);
    } else {
        assert((text + after).drop_last() =~= text + after.drop_last());
        assert((text + after).last() == after.last());
        lemma_trim_end_more(text, after.drop_last());
    }
}

/// White characters around a text do not show once it is trimmed.
pub proof fn trimming_ignores_outer_white(before: Seq<char>, text: Seq<char>, after: Seq<char>)
    requires
        all_white(before),
        all_white(after),
    ensures
        trimmed(before + text + after) == trimmed(text),
{
    let whole = before + text + after;
    let from = seqs::until(text, is_solid());
    seqs::lemma_until_bounds(text, is_solid());
    if from < text.len() {
        let k = before.len() + from;
        assert forall|j: int| 0 <= j < k implies !is_solid()(#[trigger] whole[j]) by {
            if j < before.len() {
                assert(whole[j] == before[j]);
            } else {
                assert(whole[j] == text[j - before.len()]);
            }
        }
        assert(whole[k as int] == text[from as int]);
        seqs::lemma_until(whole, is_solid(), k);
        assert(trim_start(whole) =~= trim_start(text) + after);
        lemma_trim_end_more(trim_start(text), after);
    } else {
        assert forall|j: int| 0 <= j < whole.len() implies !is_solid()(#[trigger] whole[j]) by {
            if j < before.len() {
                assert(whole[j] == before[j]);
            } else if j < before.len() + text.len() {
                assert(whole[j] == text[j - before.len()]);
            } else {
                assert(whole[j] == after[j - before.len() - text.len()]);
            }
        }
        seqs::lemma_until(whole, is_solid(), whole.len());
        assert(trim_start(whole) =~= Seq::<char>::empty());
        assert(trim_start(text) =~= Seq::<char>::empty());
    }
}

/// Letters that differ in their case alone are the same letter once they are
/// capital, and trimming does not look at their case.
pub proof fn capitals_ignore_case(text: Seq<char>)
    ensures
        ascii_upper(ascii_lower(text)) == ascii_upper(text),
        ascii_lower(ascii_upper(text)) == ascii_lower(text),
        trimmed(ascii_lower(text)) == ascii_lower(trimmed(text)),
        trimmed(ascii_upper(text)) == ascii_upper(trimmed(text)),
        ascii_upper(text).len() == text.len(),
        forall|i: int|
            0 <= i < text.len() ==> ({
                let large = #[trigger] ascii_upper(text)[i];
                if 'a' <= text[i] <= 'z' {
                    large as u32 == text[i] as u32 - 32
                } else {
                    large == text[i]
                }
            }),
{
    assert(ascii_upper(ascii_lower(text)) =~= ascii_upper(text));
    assert(ascii_lower(ascii_upper(text)) =~= ascii_lower(text));
    lemma_trim_mapped(text, ascii_lower(text));
    lemma_trim_mapped(text, ascii_upper(text));
    let n = trimmed(text).len() as int;
    trimming_takes_only_white(text);
    assert(trimmed(ascii_lower(text)) =~= ascii_lower(trimmed(text)));
    assert(trimmed(ascii_upper(text)) =~= ascii_upper(trimmed(text)));
}

/// Texts that are white at the same places are trimmed to the same places.
proof fn lemma_trim_mapped(text: Seq<char>, other: Seq<char>)
    requires
        other.len() == text.len(),
        forall|i: int|
            0 <= i < text.len() ==> is_white_char(#[trigger] other[i]) == is_white_char(text[i]),
    ensures
        ({
            let from = seqs::until(text, is_solid()) as int;
            let to = from + trimmed(text).len();
            &&& 0 <= from <= to <= text.len()
            &&& trimmed(text) == text.subrange(from, to)
            &&& trimmed(other) == other.subrange(from, to)
        }),
{
    let from = seqs::until(text, is_solid());
    seqs::lemma_until_bounds(text, is_solid());
    assert forall|j: int| 0 <= j < from implies !is_solid()(#[trigger] other[j]) by {
        assert(!is_solid()(text[j]));
    }
    seqs::lemma_until(other, is_solid(), from);
    let a = trim_start(text);
    let b = trim_start(other);
    assert forall|i: int| 0 <= i < a.len() implies is_white_char(#[trigger] b[i]) == is_white_char(
        a[i],
    ) by {
        assert(b[i] == other[i + from]);
        assert(a[i] == text[i + from]);
    }
    lemma_trim_end_mapped(a, b);
    lemma_trim_end_parts(a);
    lemma_trim_end_parts(b);
    let to = from + trimmed(text).len();
    assert(trimmed(text) =~= text.subrange(from as int, to as int));
    assert(trimmed(other) =~= other.subrange(from as int, to as int));
}

proof fn lemma_trim_end_mapped(text: Seq<char>, other: Seq<char>)
    requires
        other.len() == text.len(),
        forall|i: int|
            0 <= i < text.len() ==> is_white_char(#[trigger] other[i]) == is_white_char(text[i]),
    ensures
        trim_end(other).len() == trim_end(text).len(),
    decreases text.len(),
{
    if text.len() > 0 {
        assert(is_white_char(other[text.len() - 1]) == is_white_char(text[text.len() - 1]));
        if is_white_char(text.last()) {
            lemma_trim_end_mapped(text.drop_last(), other.drop_last());
        }
    }
}

/// A part that stands in a text stands in every text that it is a part of.
pub proof fn lemma_part_within(before: Seq<char>, part: Seq<char>, after: Seq<char>)
    ensures
        has_part(before + part + after, part),
{
    let whole = before + part + after;
    assert(whole.skip(before.len() as int).take(part.len() as int) =~= part);
    assert(has_prefix(whole.skip(before.len() as int), part));
}

pub proof fn lemma_part_kept(text: Seq<char>, part: Seq<char>, after: Seq<char>)
    requires
        has_part(text, part),
    ensures
        has_part(text + after, part),
{
    let i = choose|i: int| 0 <= i <= text.len() && has_prefix(#[trigger] text.skip(i), part);
    let whole = text + after;
    assert(whole.skip(i).take(part.len() as int) =~= text.skip(i).take(part.len() as int));
    assert(has_prefix(whole.skip(i), part));
}

pub proof fn lemma_without_prefix(prefix: Seq<char>, rest: Seq<char>)
    ensures
        has_prefix(prefix + rest, prefix),
        without_prefix(prefix + rest, prefix) == Some(rest),
{
    assert((prefix + rest).take(prefix.len() as int) =~= prefix);
    assert((prefix + rest).skip(prefix.len() as int) =~= rest);
}

/// What stands before and behind the first separator is what was put there.
pub proof fn split_pair_is_put_together(head: Seq<char>, rest: Seq<char>, sep: char)
    requires
        !has_char(head, sep),
    ensures
        split_pair(head + seq![sep] + rest, sep) == Some((head, rest)),
{
    let whole = head + seq![sep] + rest;
    assert forall|j: int| 0 <= j < head.len() implies !is_char(sep)(#[trigger] whole[j]) by {
        assert(whole[j] == head[j]);
        assert(head.contains(head[j]));
    }
    assert(whole[head.len() as int] == sep);
    seqs::lemma_until(whole, is_char(sep), head.len());
    assert(whole.take(head.len() as int) =~= head);
    assert(whole.skip((head.len() + 1) as int) =~= rest);
}

/// A list that was put together with a separator that none of its items holds is
/// taken apart into those items.
pub proof fn joined_list_is_split(parts: Seq<Seq<char>>, sep: char)
    requires
        parts.len() > 0,
        forall|i: int| 0 <= i < parts.len() ==> !has_char(#[trigger] parts[i], sep),
    ensures
        split_on(joined(parts, seq![sep]), sep) == parts,
    decreases parts.len(),
{
    if parts.len() == 1 {
        lemma_split_single(parts[0], sep);
        assert(parts =~= seq![parts[0]]);
    } else {
        let rest = parts.drop_last();
        assert forall|i: int| 0 <= i < rest.len() implies !has_char(#[trigger] rest[i], sep) by {
            assert(rest[i] == parts[i]);
        }
        joined_list_is_split(rest, sep);
        assert(parts.last() == parts[parts.len() - 1]);
        lemma_split_last(joined(rest, seq![sep]), parts.last(), sep);
        assert(rest.push(parts.last()) =~= parts);
    }
}

proof fn lemma_split_last(text: Seq<char>, last: Seq<char>, sep: char)
    requires
        !has_char(last, sep),
    ensures
        split_on(text + seq![sep] + last, sep) == split_on(text, sep).push(last),
    decreases text.len(),
{
    let whole = text + seq![sep] + last;
    let end = seqs::until(text, is_char(sep));
    seqs::lemma_until_bounds(text, is_char(sep));
    assert forall|j: int| 0 <= j < end implies !is_char(sep)(#[trigger] whole[j]) by {
        assert(whole[j] == text[j]);
    }
    if end < text.len() {
        assert(whole[end as int] == text[end as int]);
        seqs::lemma_until(whole, is_char(sep), end);
        let rest = text.skip((end + 1) as int);
        assert(whole.skip((end + 1) as int) =~= rest + seq![sep] + last);
        assert(whole.take(end as int) =~= text.take(end as int));
        lemma_split_last(rest, last, sep);
        assert(seq![text.take(end as int)] + split_on(rest, sep).push(last) =~= (seq![
            text.take(end as int),
        ] + split_on(rest, sep)).push(last));
    } else {
        assert(whole[end as int] == sep);
        seqs::lemma_until(whole, is_char(sep), end);
        assert(whole.take(end as int) =~= text);
        assert(whole.skip((end + 1) as int) =~= last);
        lemma_split_single(last, sep);
        assert(seq![text] + seq![last] =~= seq![text].push(last));
    }
}

/// One more item stands behind the list, parted from it where there is one.
pub proof fn lemma_joined_push(parts: Seq<Seq<char>>, part: Seq<char>, sep: Seq<char>)
    requires
        parts.len() > 0,
    ensures
        joined(parts.push(part), sep) == joined(parts, sep) + sep + part,
{
    assert(parts.push(part).drop_last() =~= parts);
}

} // verus!
