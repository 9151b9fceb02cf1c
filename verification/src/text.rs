//! Text as sequences of characters: the searches, cuts and replacements that the rest of the
//! crate is stated in.

use vstd::prelude::*;
use vstd::string::*;
use vstd::utf8::*;

verus! {

// ---------------------------------------------------------------------------------------------
// What the operations mean
// ---------------------------------------------------------------------------------------------

/// `needle` stands in `s` at position `i`.
pub open spec fn occurs_at(s: Seq<char>, needle: Seq<char>, i: int) -> bool {
    &&& 0 <= i
    &&& i + needle.len() <= s.len()
    &&& s.subrange(i, i + needle.len()) == needle
}

/// `needle` stands somewhere in `s`.
pub open spec fn contains_text(s: Seq<char>, needle: Seq<char>) -> bool {
    exists|i: int| occurs_at(s, needle, i)
}

/// `needle` stands in `s` at position `i` and nowhere before it.
pub open spec fn first_at(s: Seq<char>, needle: Seq<char>, i: int) -> bool {
    &&& occurs_at(s, needle, i)
    &&& forall|j: int| 0 <= j < i ==> !occurs_at(s, needle, j)
}

/// The first position, from `from` on, at which `needle` stands in `s`.
pub open spec fn find_from(s: Seq<char>, needle: Seq<char>, from: int) -> Option<int>
    decreases s.len() - from,
{
    if from < 0 || from + needle.len() > s.len() {
        None
    } else if occurs_at(s, needle, from) {
        Some(from)
    } else if from < s.len() {
        find_from(s, needle, from + 1)
    } else {
        None
    }
}

/// The first position at which `needle` stands in `s`.
pub open spec fn find(s: Seq<char>, needle: Seq<char>) -> Option<int> {
    find_from(s, needle, 0)
}

/// What is left of `s` behind `prefix`, where `s` starts with it.
pub open spec fn without_prefix(s: Seq<char>, prefix: Seq<char>) -> Option<Seq<char>> {
    if prefix.is_prefix_of(s) {
        Some(s.skip(prefix.len() as int))
    } else {
        None
    }
}

/// The characters with the Unicode property `White_Space`.
pub open spec fn white_space(c: char) -> bool {
    ||| '\u{9}' <= c <= '\u{d}'
    ||| c == ' '
    ||| c == '\u{85}'
    ||| c == '\u{a0}'
    ||| c == '\u{1680}'
    ||| '\u{2000}' <= c <= '\u{200a}'
    ||| c == '\u{2028}'
    ||| c == '\u{2029}'
    ||| c == '\u{202f}'
    ||| c == '\u{205f}'
    ||| c == '\u{3000}'
}

/// Space, tab, line feed, form feed and carriage return.
pub open spec fn ascii_white_space(c: char) -> bool {
    c == ' ' || c == '\t' || c == '\n' || c == '\u{c}' || c == '\r'
}

/// `s` from its first character on that is no white space.
pub open spec fn trim_start(s: Seq<char>) -> Seq<char>
    decreases s.len(),
{
    if s.len() > 0 && white_space(s.first()) {
        trim_start(s.drop_first())
    } else {
        s
    }
}

/// `s` up to its last character that is no white space.
pub open spec fn trim_end(s: Seq<char>) -> Seq<char>
    decreases s.len(),
{
    if s.len() > 0 && white_space(s.last()) {
        trim_end(s.drop_last())
    } else {
        s
    }
}

/// `s` without the white space at its two ends.
pub open spec fn trim(s: Seq<char>) -> Seq<char> {
    trim_end(trim_start(s))
}

/// `s` without the run of `c` at its end.
pub open spec fn without_trailing(s: Seq<char>, c: char) -> Seq<char>
    decreases s.len(),
{
    if s.len() > 0 && s.last() == c {
        without_trailing(s.drop_last(), c)
    } else {
        s
    }
}

/// `s` without the run of `c` at its start.
pub open spec fn without_leading(s: Seq<char>, c: char) -> Seq<char>
    decreases s.len(),
{
    if s.len() > 0 && s.first() == c {
        without_leading(s.drop_first(), c)
    } else {
        s
    }
}

/// What separates the pieces of a text.
#[derive(Clone, Copy)]
pub enum Separator {
    Slash,
    AsciiWhiteSpace,
}

impl Separator {
    pub open spec fn separates(self, c: char) -> bool {
        match self {
            Separator::Slash => c == '/',
            Separator::AsciiWhiteSpace => ascii_white_space(c),
        }
    }
}

/// The pieces of `s` between its separators. Each separator ends one piece and starts another,
/// so that there is one piece more than there are separators and a piece can be empty.
pub open spec fn pieces(s: Seq<char>, by: Separator) -> Seq<Seq<char>>
    decreases s.len(),
{
    if s.len() == 0 {
        seq![Seq::<char>::empty()]
    } else {
        let before = pieces(s.drop_last(), by);
        if by.separates(s.last()) {
            before.push(Seq::<char>::empty())
        } else {
            before.drop_last().push(before.last().push(s.last()))
        }
    }
}

/// The pieces of a text that are not empty.
pub open spec fn nonempty_pieces(s: Seq<char>, by: Separator) -> Seq<Seq<char>> {
    pieces(s, by).filter(|piece: Seq<char>| piece.len() > 0)
}

/// An ASCII letter or digit.
pub open spec fn ascii_alphanumeric(c: char) -> bool {
    'a' <= c <= 'z' || 'A' <= c <= 'Z' || '0' <= c <= '9'
}

/// An ASCII letter or digit, `_` or `-`.
pub open spec fn name_char(c: char) -> bool {
    ascii_alphanumeric(c) || c == '_' || c == '-'
}

/// A lower-case ASCII letter, a digit or `-`.
pub open spec fn slug_char(c: char) -> bool {
    'a' <= c <= 'z' || '0' <= c <= '9' || c == '-'
}

/// A hexadecimal digit in either case.
pub open spec fn hex_char(c: char) -> bool {
    '0' <= c <= '9' || 'a' <= c <= 'f' || 'A' <= c <= 'F'
}

/// The classes of characters that names are made of.
#[derive(Clone, Copy)]
pub enum CharClass {
    Name,
    Slug,
    Hex,
}

impl CharClass {
    pub open spec fn admits(self, c: char) -> bool {
        match self {
            CharClass::Name => name_char(c),
            CharClass::Slug => slug_char(c),
            CharClass::Hex => hex_char(c),
        }
    }
}

/// `s` has at least `least` and at most `most` characters, each of the class `class`.
pub open spec fn made_of(s: Seq<char>, class: CharClass, least: nat, most: nat) -> bool {
    &&& least <= s.len() <= most
    &&& forall|i: int| 0 <= i < s.len() ==> class.admits(#[trigger] s[i])
}

/// `c` in lower case where it is an ASCII letter.
pub open spec fn ascii_lower(c: char) -> char {
    if 'A' <= c <= 'Z' {
        ((c as u32 + 32) as u32) as char
    } else {
        c
    }
}

/// `s` with its ASCII letters in lower case.
pub open spec fn lower_text(s: Seq<char>) -> Seq<char> {
    s.map_values(|c: char| ascii_lower(c))
}

/// `s` with every `from` replaced by `to`.
pub open spec fn replaced(s: Seq<char>, from: char, to: char) -> Seq<char> {
    s.map_values(|c: char| if c == from { to } else { c })
}

/// The number of bytes that `s` takes in UTF-8.
pub open spec fn byte_len(s: Seq<char>) -> nat {
    encode_utf8(s).len()
}

/// One decimal digit.
pub open spec fn digit(n: nat) -> char
    recommends
        n < 10,
{
    (('0' as u32 + n) as u32) as char
}

/// A natural number in decimal digits, without leading zeros.
pub open spec fn decimal(n: nat) -> Seq<char>
    decreases n,
{
    if n < 10 {
        seq![digit(n)]
    } else {
        decimal(n / 10).push(digit(n % 10))
    }
}

/// An integer in decimal digits, with `-` before it where it is negative.
pub open spec fn signed_decimal(n: int) -> Seq<char> {
    if n < 0 {
        seq!['-'] + decimal((-n) as nat)
    } else {
        decimal(n as nat)
    }
}

/// The views of a list of texts.
pub open spec fn texts(list: Seq<String>) -> Seq<Seq<char>> {
    list.map_values(|t: String| t@)
}

/// The views of pairs of texts.
pub open spec fn pair_views(pairs: Seq<(String, String)>) -> Seq<(Seq<char>, Seq<char>)> {
    pairs.map_values(|pair: (String, String)| (pair.0@, pair.1@))
}

/// The view of a text that may be missing.
pub open spec fn text_view(text: Option<String>) -> Option<Seq<char>> {
    match text {
        Some(text) => Some(text@),
        None => None,
    }
}

/// The view of a borrowed text that may be missing.
pub open spec fn str_view(text: Option<&str>) -> Option<Seq<char>> {
    match text {
        Some(text) => Some(text@),
        None => None,
    }
}

// ---------------------------------------------------------------------------------------------
// What the proofs need
// ---------------------------------------------------------------------------------------------

/// A search from the start finds the first place at which the needle stands, and finds one
/// exactly where there is one.
pub proof fn lemma_find(s: Seq<char>, needle: Seq<char>)
    ensures
        match find(s, needle) {
            Some(i) => first_at(s, needle, i),
            None => !contains_text(s, needle),
        },
{
    lemma_find_from(s, needle, 0);
}

proof fn lemma_find_from(s: Seq<char>, needle: Seq<char>, from: int)
    requires
        0 <= from,
        forall|j: int| 0 <= j < from ==> !occurs_at(s, needle, j),
    ensures
        match find_from(s, needle, from) {
            Some(i) => from <= i && first_at(s, needle, i),
            None => !contains_text(s, needle),
        },
    decreases s.len() - from,
{
    if from + needle.len() > s.len() {
    } else if occurs_at(s, needle, from) {
    } else if from < s.len() {
        lemma_find_from(s, needle, from + 1);
    }
}

/// There is always at least one piece.
pub proof fn lemma_pieces_nonempty(s: Seq<char>, by: Separator)
    ensures
        pieces(s, by).len() > 0,
    decreases s.len(),
{
    if s.len() > 0 {
        lemma_pieces_nonempty(s.drop_last(), by);
    }
}

// ---------------------------------------------------------------------------------------------
// The operations
// ---------------------------------------------------------------------------------------------

/// `String::push` puts one character behind the text.
pub assume_specification[ String::push ](buffer: &mut String, c: char)
    ensures
        final(buffer)@ == old(buffer)@.push(c),
;

/// The characters of `text`, one by one.
pub fn chars_of(text: &str) -> (chars: Vec<char>)
    ensures
        chars@ == text@,
{
    let mut chars: Vec<char> = Vec::new();
    for c in it: text.chars()
        invariant
            chars@ == text@.take(it.index()),
            it.seq() == text@,
    {
        chars.push(c);
    }
    assert(text@.take(text@.len() as int) == text@);
    chars
}

/// The text made of `chars` from `from` up to, but not with, `to`.
pub fn text_between(chars: &Vec<char>, from: usize, to: usize) -> (text: String)
    requires
        from <= to <= chars.len(),
    ensures
        text@ == chars@.subrange(from as int, to as int),
{
    let mut text: String = String::new();
    let mut i: usize = from;
    while i < to
        invariant
            from <= i <= to <= chars.len(),
            text@ == chars@.subrange(from as int, i as int),
        decreases to - i,
    {
        text.push(chars[i]);
        i = i + 1;
    }
    text
}

/// Whether two texts are the same, character by character.
pub fn same_text(a: &str, b: &str) -> (same: bool)
    ensures
        same == (a@ == b@),
{
    a.to_owned() == b.to_owned()
}

/// A text that may be missing, borrowed.
pub fn as_text(content: &Option<String>) -> (borrowed: Option<&str>)
    ensures
        str_view(borrowed) == text_view(*content),
{
    match content {
        Some(content) => Some(content.as_str()),
        None => None,
    }
}

/// Whether a text is one of several.
pub fn lists(items: &Vec<String>, item: &str) -> (listed: bool)
    ensures
        listed == texts(items@).contains(item@),
{
    let ghost views: Seq<Seq<char>> = texts(items@);
    let mut i: usize = 0;
    while i < items.len()
        invariant
            i <= items.len(),
            views == texts(items@),
            forall|j: int| 0 <= j < i ==> views[j] != item@,
        decreases items.len() - i,
    {
        if same_text(items[i].as_str(), item) {
            assert(views[i as int] == item@);
            return true;
        }
        i = i + 1;
    }
    false
}

/// `a` and then `b`.
pub fn joined(a: &str, b: &str) -> (text: String)
    ensures
        text@ == a@ + b@,
{
    a.to_owned().concat(b)
}

/// Whether `needle` stands in `chars` at `at`.
fn stands_at(chars: &Vec<char>, needle: &Vec<char>, at: usize) -> (found: bool)
    requires
        at <= chars.len(),
    ensures
        found == occurs_at(chars@, needle@, at as int),
{
    if needle.len() > chars.len() - at {
        return false;
    }
    let mut i: usize = 0;
    while i < needle.len()
        invariant
            at + needle.len() <= chars.len(),
            i <= needle.len(),
            forall|j: int| 0 <= j < i ==> chars@[at + j] == needle@[j],
        decreases needle.len() - i,
    {
        if chars[at + i] != needle[i] {
            assert(chars@.subrange(at as int, at + needle@.len())[i as int] != needle@[i as int]);
            return false;
        }
        i = i + 1;
    }
    assert(chars@.subrange(at as int, at + needle@.len()) =~= needle@);
    true
}

/// The first position from `from` on at which `needle` stands in `chars`.
pub fn position_from(chars: &Vec<char>, needle: &Vec<char>, from: usize) -> (position: Option<usize>)
    requires
        from <= chars.len(),
    ensures
        match position {
            Some(i) => find_from(chars@, needle@, from as int) == Some(i as int) && from <= i && i
                + needle@.len() <= chars@.len(),
            None => find_from(chars@, needle@, from as int) is None,
        },
{
    let mut i: usize = from;
    while i < chars.len() && needle.len() <= chars.len() - i
        invariant
            from <= i <= chars.len(),
            find_from(chars@, needle@, from as int) == find_from(chars@, needle@, i as int),
        decreases chars.len() - i,
    {
        if stands_at(chars, needle, i) {
            return Some(i);
        }
        i = i + 1;
    }
    if i == chars.len() && stands_at(chars, needle, i) {
        return Some(i);
    }
    None
}

/// Whether `needle` stands somewhere in `text`.
pub fn has_text(text: &str, needle: &str) -> (found: bool)
    ensures
        found == contains_text(text@, needle@),
{
    let chars: Vec<char> = chars_of(text);
    let sought: Vec<char> = chars_of(needle);
    proof {
        lemma_find(text@, needle@);
    }
    position_from(&chars, &sought, 0).is_some()
}

/// Whether the character `c` stands somewhere in `text`.
pub fn has_char(text: &str, c: char) -> (found: bool)
    ensures
        found == text@.contains(c),
{
    let chars: Vec<char> = chars_of(text);
    let mut i: usize = 0;
    while i < chars.len()
        invariant
            i <= chars.len(),
            chars@ == text@,
            forall|j: int| 0 <= j < i ==> chars@[j] != c,
        decreases chars.len() - i,
    {
        if chars[i] == c {
            assert(text@[i as int] == c);
            return true;
        }
        i = i + 1;
    }
    false
}

/// Whether `text` starts with `prefix`.
pub fn has_prefix(text: &str, prefix: &str) -> (starts: bool)
    ensures
        starts == prefix@.is_prefix_of(text@),
{
    let chars: Vec<char> = chars_of(text);
    let sought: Vec<char> = chars_of(prefix);
    let starts: bool = stands_at(&chars, &sought, 0);
    proof {
        if prefix@.len() <= text@.len() {
            assert(text@.subrange(0, prefix@.len() as int) == text@.take(prefix@.len() as int));
        }
    }
    starts
}

/// Whether `text` ends with `suffix`.
pub fn has_suffix(text: &str, suffix: &str) -> (ends: bool)
    ensures
        ends == suffix@.is_suffix_of(text@),
{
    let chars: Vec<char> = chars_of(text);
    let sought: Vec<char> = chars_of(suffix);
    if sought.len() > chars.len() {
        return false;
    }
    stands_at(&chars, &sought, chars.len() - sought.len())
}

/// What is left of `text` behind `prefix`, where it starts with it.
pub fn strip_prefix<'a>(text: &'a str, prefix: &str) -> (rest: Option<&'a str>)
    ensures
        str_view(rest) == without_prefix(text@, prefix@),
{
    if has_prefix(text, prefix) {
        let end: usize = text.unicode_len();
        Some(text.substring_char(prefix.unicode_len(), end))
    } else {
        None
    }
}

/// Whether `c` is white space.
pub fn is_white_space(c: char) -> (is: bool)
    ensures
        is == white_space(c),
{
    let n: u32 = c as u32;
    (0x9 <= n && n <= 0xd) || n == 0x20 || n == 0x85 || n == 0xa0 || n == 0x1680 || (0x2000 <= n
        && n <= 0x200a) || n == 0x2028 || n == 0x2029 || n == 0x202f || n == 0x205f || n == 0x3000
}

/// Whether white space stands somewhere in `text`.
pub fn has_white_space(text: &str) -> (found: bool)
    ensures
        found == exists|i: int| 0 <= i < text@.len() && white_space(#[trigger] text@[i]),
{
    let chars: Vec<char> = chars_of(text);
    let mut i: usize = 0;
    while i < chars.len()
        invariant
            i <= chars.len(),
            chars@ == text@,
            forall|j: int| 0 <= j < i ==> !white_space(#[trigger] chars@[j]),
        decreases chars.len() - i,
    {
        if is_white_space(chars[i]) {
            assert(white_space(text@[i as int]));
            return true;
        }
        i = i + 1;
    }
    false
}

/// `text` without the white space at its two ends.
pub fn trimmed(text: &str) -> (inner: &str)
    ensures
        inner@ == trim(text@),
{
    let chars: Vec<char> = chars_of(text);
    let mut from: usize = 0;
    proof {
        assert(text@.skip(0) == text@);
    }
    while from < chars.len() && is_white_space(chars[from])
        invariant
            from <= chars.len(),
            chars@ == text@,
            trim_start(text@) == trim_start(text@.skip(from as int)),
        decreases chars.len() - from,
    {
        proof {
            assert(text@.skip(from as int).drop_first() == text@.skip(from + 1));
        }
        from = from + 1;
    }
    let mut to: usize = chars.len();
    proof {
        assert(trim_start(text@) == text@.skip(from as int));
        assert(text@.subrange(from as int, to as int) == text@.skip(from as int));
    }
    while from < to && is_white_space(chars[to - 1])
        invariant
            from <= to <= chars.len(),
            chars@ == text@,
            trim(text@) == trim_end(text@.subrange(from as int, to as int)),
        decreases to - from,
    {
        proof {
            assert(text@.subrange(from as int, to as int).drop_last() == text@.subrange(
                from as int,
                to - 1,
            ));
        }
        to = to - 1;
    }
    text.substring_char(from, to)
}

/// `text` without the run of `c` at its end.
pub fn strip_trailing(text: &str, c: char) -> (rest: &str)
    ensures
        rest@ == without_trailing(text@, c),
{
    let chars: Vec<char> = chars_of(text);
    let mut to: usize = chars.len();
    proof {
        assert(text@.take(to as int) == text@);
    }
    while 0 < to && chars[to - 1] == c
        invariant
            to <= chars.len(),
            chars@ == text@,
            without_trailing(text@, c) == without_trailing(text@.take(to as int), c),
        decreases to,
    {
        proof {
            assert(text@.take(to as int).drop_last() == text@.take(to - 1));
        }
        to = to - 1;
    }
    proof {
        assert(text@.take(to as int) == text@.subrange(0, to as int));
    }
    text.substring_char(0, to)
}

/// `text` without the run of `c` at its start.
pub fn strip_leading(text: &str, c: char) -> (rest: &str)
    ensures
        rest@ == without_leading(text@, c),
{
    let chars: Vec<char> = chars_of(text);
    let mut from: usize = 0;
    proof {
        assert(text@.skip(0) == text@);
    }
    while from < chars.len() && chars[from] == c
        invariant
            from <= chars.len(),
            chars@ == text@,
            without_leading(text@, c) == without_leading(text@.skip(from as int), c),
        decreases chars.len() - from,
    {
        proof {
            assert(text@.skip(from as int).drop_first() == text@.skip(from + 1));
        }
        from = from + 1;
    }
    proof {
        assert(text@.skip(from as int) == text@.subrange(from as int, text@.len() as int));
    }
    text.substring_char(from, chars.len())
}

fn is_separator(c: char, by: Separator) -> (is: bool)
    ensures
        is == by.separates(c),
{
    match by {
        Separator::Slash => c == '/',
        Separator::AsciiWhiteSpace => c == ' ' || c == '\t' || c == '\n' || c == '\u{c}' || c
            == '\r',
    }
}

/// The pieces of `text` between its separators.
pub fn split_text(text: &str, by: Separator) -> (parts: Vec<String>)
    ensures
        texts(parts@) == pieces(text@, by),
{
    let chars: Vec<char> = chars_of(text);
    let mut parts: Vec<String> = Vec::new();
    let mut current: String = String::new();
    let mut i: usize = 0;
    proof {
        assert(texts(parts@).push(current@) =~= pieces(text@.take(0), by));
    }
    while i < chars.len()
        invariant
            i <= chars.len(),
            chars@ == text@,
            texts(parts@).push(current@) == pieces(text@.take(i as int), by),
        decreases chars.len() - i,
    {
        let c: char = chars[i];
        let ghost before: Seq<Seq<char>> = pieces(text@.take(i as int), by);
        let ghost done: Seq<Seq<char>> = texts(parts@);
        proof {
            assert(text@.take(i + 1).drop_last() == text@.take(i as int));
            assert(before.drop_last() =~= done);
        }
        if is_separator(c, by) {
            let finished: String = current;
            current = String::new();
            parts.push(finished);
            proof {
                assert(texts(parts@) =~= before);
            }
        } else {
            current.push(c);
        }
        i = i + 1;
    }
    parts.push(current);
    proof {
        assert(text@.take(text@.len() as int) == text@);
        assert(texts(parts@) =~= pieces(text@, by));
    }
    parts
}

/// The pieces of a text that are not empty.
pub fn split_nonempty(text: &str, by: Separator) -> (parts: Vec<String>)
    ensures
        texts(parts@) == nonempty_pieces(text@, by),
{
    let all: Vec<String> = split_text(text, by);
    let ghost views: Seq<Seq<char>> = texts(all@);
    let ghost keep = |piece: Seq<char>| piece.len() > 0;
    let mut parts: Vec<String> = Vec::new();
    let mut i: usize = 0;
    proof {
        assert(views.take(0) =~= Seq::empty());
        assert(texts(parts@) =~= Seq::empty());
        reveal(Seq::filter);
    }
    while i < all.len()
        invariant
            i <= all.len(),
            views == texts(all@),
            keep == (|piece: Seq<char>| piece.len() > 0),
            texts(parts@) == views.take(i as int).filter(keep),
        decreases all.len() - i,
    {
        let ghost before: Seq<Seq<char>> = texts(parts@);
        proof {
            reveal(Seq::filter);
            assert(views.take(i + 1).drop_last() =~= views.take(i as int));
        }
        if all[i].as_str().unicode_len() > 0 {
            parts.push(all[i].clone());
            proof {
                assert(texts(parts@) =~= before.push(views[i as int]));
            }
        }
        i = i + 1;
    }
    proof {
        assert(views.take(all@.len() as int) =~= views);
    }
    parts
}

fn class_admits(class: CharClass, c: char) -> (admits: bool)
    ensures
        admits == class.admits(c),
{
    let lower: bool = 'a' <= c && c <= 'z';
    let upper: bool = 'A' <= c && c <= 'Z';
    let number: bool = '0' <= c && c <= '9';
    match class {
        CharClass::Name => lower || upper || number || c == '_' || c == '-',
        CharClass::Slug => lower || number || c == '-',
        CharClass::Hex => number || ('a' <= c && c <= 'f') || ('A' <= c && c <= 'F'),
    }
}

/// Whether `text` has at least `least` and at most `most` characters, each of the class `class`.
pub fn is_made_of(text: &str, class: CharClass, least: usize, most: usize) -> (is: bool)
    ensures
        is == made_of(text@, class, least as nat, most as nat),
{
    let chars: Vec<char> = chars_of(text);
    if chars.len() < least || most < chars.len() {
        return false;
    }
    let mut i: usize = 0;
    while i < chars.len()
        invariant
            i <= chars.len(),
            chars@ == text@,
            forall|j: int| 0 <= j < i ==> class.admits(#[trigger] chars@[j]),
        decreases chars.len() - i,
    {
        if !class_admits(class, chars[i]) {
            assert(!class.admits(text@[i as int]));
            return false;
        }
        i = i + 1;
    }
    true
}

/// `text` with its ASCII letters in lower case.
pub fn to_lower_text(text: &str) -> (lower: String)
    ensures
        lower@ == lower_text(text@),
{
    let chars: Vec<char> = chars_of(text);
    let mut lower: String = String::new();
    let mut i: usize = 0;
    while i < chars.len()
        invariant
            i <= chars.len(),
            chars@ == text@,
            lower@ == lower_text(text@).take(i as int),
        decreases chars.len() - i,
    {
        let c: char = chars[i];
        if 'A' <= c && c <= 'Z' {
            let n: u8 = c as u8;
            lower.push((n + 32) as char);
        } else {
            lower.push(c);
        }
        i = i + 1;
        assert(lower@ =~= lower_text(text@).take(i as int));
    }
    assert(lower_text(text@).take(text@.len() as int) =~= lower_text(text@));
    lower
}

/// `text` with every `from` replaced by `to`.
pub fn replace_char(text: &str, from: char, to: char) -> (result: String)
    ensures
        result@ == replaced(text@, from, to),
{
    let chars: Vec<char> = chars_of(text);
    let mut result: String = String::new();
    let mut i: usize = 0;
    while i < chars.len()
        invariant
            i <= chars.len(),
            chars@ == text@,
            result@ == replaced(text@, from, to).take(i as int),
        decreases chars.len() - i,
    {
        if chars[i] == from {
            result.push(to);
        } else {
            result.push(chars[i]);
        }
        i = i + 1;
        assert(result@ =~= replaced(text@, from, to).take(i as int));
    }
    assert(replaced(text@, from, to).take(text@.len() as int) =~= replaced(text@, from, to));
    result
}

/// The number of bytes that `text` takes.
pub fn bytes_in(text: &str) -> (n: usize)
    ensures
        n == byte_len(text@),
{
    text.as_bytes().len()
}

/// A number in decimal digits.
pub fn to_decimal(n: u64) -> (text: String)
    ensures
        text@ == decimal(n as nat),
    decreases n,
{
    let last: u8 = (n % 10) as u8;
    let mut text: String = if n < 10 {
        String::new()
    } else {
        to_decimal(n / 10)
    };
    text.push((48 + last) as char);
    text
}

/// A signed number in decimal digits.
pub fn to_signed_decimal(n: i64) -> (text: String)
    ensures
        text@ == signed_decimal(n as int),
{
    if n < 0 {
        let magnitude: u64 = (-(n as i128)) as u64;
        proof {
            reveal_strlit("-");
        }
        "-".to_owned().concat(to_decimal(magnitude).as_str())
    } else {
        to_decimal(n as u64)
    }
}

/// `str::to_lowercase` of a text, by the case mappings of Unicode.
pub uninterp spec fn unicode_lower(s: Seq<char>) -> Seq<char>;

/// `str::to_lowercase`: the lower-case equivalent of the text. The mapping itself is a table of
/// the Unicode standard and is named, not written out.
#[verifier::external_body]
pub(crate) fn to_unicode_lower(text: &str) -> (lower: String)
    ensures
        lower@ == unicode_lower(text@),
{
    text.to_lowercase()
}

// ---------------------------------------------------------------------------------------------
// Laws
// ---------------------------------------------------------------------------------------------

/// Every character of the text is white space.
pub open spec fn all_white(s: Seq<char>) -> bool {
    forall|i: int| 0 <= i < s.len() ==> white_space(#[trigger] s[i])
}

/// The text has no white space at its two ends.
pub open spec fn tight(s: Seq<char>) -> bool {
    s.len() > 0 ==> !white_space(s[0]) && !white_space(s[s.len() - 1])
}

/// Trimming takes off the white space around a text, all of it and nothing else.
pub proof fn trimming_takes_off_the_white_space_around(
    before: Seq<char>,
    inner: Seq<char>,
    after: Seq<char>,
)
    requires
        all_white(before),
        tight(inner),
        all_white(after),
    ensures
        trim(before + inner + after) == inner,
{
    let rest = inner + after;
    assert(before + inner + after =~= before + rest);
    lemma_trim_start(before, rest);
    if inner.len() > 0 {
        assert(rest[0] == inner[0]);
        assert(trim_start(rest) == rest);
        lemma_trim_end(inner, after);
    } else {
        assert(rest =~= after);
        assert(after + Seq::<char>::empty() =~= after);
        lemma_trim_start(after, Seq::empty());
        assert(trim_start(Seq::<char>::empty()) == Seq::<char>::empty());
        assert(trim_end(Seq::<char>::empty()) == Seq::<char>::empty());
        assert(inner =~= Seq::<char>::empty());
    }
}

proof fn lemma_trim_start(before: Seq<char>, rest: Seq<char>)
    requires
        all_white(before),
    ensures
        trim_start(before + rest) == trim_start(rest),
    decreases before.len(),
{
    if before.len() == 0 {
        assert(before + rest =~= rest);
    } else {
        let tail = before.drop_first();
        assert forall|i: int| 0 <= i < tail.len() implies white_space(#[trigger] tail[i]) by {
            assert(tail[i] == before[i + 1]);
        }
        lemma_trim_start(tail, rest);
        assert((before + rest)[0] == before[0]);
        assert((before + rest).drop_first() =~= tail + rest);
    }
}

proof fn lemma_trim_end(inner: Seq<char>, after: Seq<char>)
    requires
        inner.len() > 0,
        !white_space(inner[inner.len() - 1]),
        all_white(after),
    ensures
        trim_end(inner + after) == inner,
    decreases after.len(),
{
    if after.len() == 0 {
        assert(inner + after =~= inner);
    } else {
        let head = after.drop_last();
        assert forall|i: int| 0 <= i < head.len() implies white_space(#[trigger] head[i]) by {
            assert(head[i] == after[i]);
        }
        lemma_trim_end(inner, head);
        assert((inner + after).last() == after[after.len() - 1]);
        assert((inner + after).drop_last() =~= inner + head);
    }
}

/// Every text is what trimming leaves of it, with white space around it.
pub proof fn only_white_space_is_trimmed(s: Seq<char>)
    ensures
        tight(trim(s)),
        exists|before: Seq<char>, after: Seq<char>|
            all_white(before) && all_white(after) && s == #[trigger] (before + trim(s) + after),
{
    let before = lemma_start_parts(s);
    let started = trim_start(s);
    let after = lemma_end_parts(started);
    assert(s =~= before + trim(s) + after);
    if trim(s).len() > 0 {
        assert(trim(s)[0] == started[0]);
    }
}

proof fn lemma_start_parts(s: Seq<char>) -> (before: Seq<char>)
    ensures
        all_white(before),
        s == before + trim_start(s),
        trim_start(s).len() > 0 ==> !white_space(trim_start(s)[0]),
    decreases s.len(),
{
    if s.len() > 0 && white_space(s.first()) {
        let rest = lemma_start_parts(s.drop_first());
        let before = seq![s.first()] + rest;
        assert forall|i: int| 0 <= i < before.len() implies white_space(#[trigger] before[i]) by {
            if i > 0 {
                assert(before[i] == rest[i - 1]);
            }
        }
        assert(s =~= seq![s.first()] + s.drop_first());
        assert(s =~= before + trim_start(s));
        before
    } else {
        assert(s =~= Seq::<char>::empty() + s);
        Seq::empty()
    }
}

proof fn lemma_end_parts(s: Seq<char>) -> (after: Seq<char>)
    ensures
        all_white(after),
        s == trim_end(s) + after,
        trim_end(s).len() > 0 ==> !white_space(trim_end(s)[trim_end(s).len() - 1]),
    decreases s.len(),
{
    if s.len() > 0 && white_space(s.last()) {
        let rest = lemma_end_parts(s.drop_last());
        let after = rest.push(s.last());
        assert(s =~= s.drop_last().push(s.last()));
        assert(s =~= trim_end(s) + after);
        after
    } else {
        assert(s =~= s + Seq::<char>::empty());
        Seq::empty()
    }
}

/// A text with a character that is no white space has one after trimming.
pub proof fn trimming_leaves_what_is_no_white_space(s: Seq<char>, i: int)
    requires
        0 <= i < s.len(),
        !white_space(s[i]),
    ensures
        trim(s).len() > 0,
{
    only_white_space_is_trimmed(s);
    if trim(s).len() == 0 {
        let (before, after) = choose|before: Seq<char>, after: Seq<char>|
            all_white(before) && all_white(after) && s == #[trigger] (before + trim(s) + after);
        if i < before.len() {
            assert(s[i] == before[i]);
        } else {
            assert(s[i] == after[i - before.len()]);
        }
    }
}

/// White space is what Unicode lists as such: these code points and no others.
pub proof fn white_space_is_listed(c: char)
    ensures
        white_space(c) <==> seq![
            0x9u32,
            0xa,
            0xb,
            0xc,
            0xd,
            0x20,
            0x85,
            0xa0,
            0x1680,
            0x2000,
            0x2001,
            0x2002,
            0x2003,
            0x2004,
            0x2005,
            0x2006,
            0x2007,
            0x2008,
            0x2009,
            0x200a,
            0x2028,
            0x2029,
            0x202f,
            0x205f,
            0x3000,
        ].contains(c as u32),
{
    let n = c as u32;
    let list = seq![
        0x9u32,
        0xa,
        0xb,
        0xc,
        0xd,
        0x20,
        0x85,
        0xa0,
        0x1680,
        0x2000,
        0x2001,
        0x2002,
        0x2003,
        0x2004,
        0x2005,
        0x2006,
        0x2007,
        0x2008,
        0x2009,
        0x200a,
        0x2028,
        0x2029,
        0x202f,
        0x205f,
        0x3000,
    ];
    if 0x9 <= n <= 0xd {
        assert(list[n - 9] == n);
    } else if 0x2000 <= n <= 0x200a {
        assert(list[9 + n - 0x2000] == n);
    } else {
        assert(list[5] == 0x20 && list[6] == 0x85 && list[7] == 0xa0 && list[8] == 0x1680);
        assert(list[20] == 0x2028 && list[21] == 0x2029 && list[22] == 0x202f && list[23] == 0x205f
            && list[24] == 0x3000);
    }
}

/// The pieces of two texts with a separator between them are the pieces of the one and then those
/// of the other.
pub proof fn pieces_join(a: Seq<char>, c: char, b: Seq<char>, by: Separator)
    requires
        by.separates(c),
    ensures
        pieces(a + seq![c] + b, by) == pieces(a, by) + pieces(b, by),
    decreases b.len(),
{
    let whole = a + seq![c] + b;
    lemma_pieces_nonempty(b, by);
    if b.len() == 0 {
        assert(whole.drop_last() =~= a);
        assert(whole.last() == c);
        assert(pieces(whole, by) =~= pieces(a, by) + pieces(b, by));
    } else {
        pieces_join(a, c, b.drop_last(), by);
        lemma_pieces_nonempty(b.drop_last(), by);
        assert(whole.drop_last() =~= a + seq![c] + b.drop_last());
        assert(whole.last() == b.last());
        let before = pieces(b.drop_last(), by);
        let all = pieces(a, by) + before;
        assert(all.last() == before.last());
        assert(all.drop_last() =~= pieces(a, by) + before.drop_last());
        assert(pieces(whole, by) =~= pieces(a, by) + pieces(b, by));
    }
}

/// A text without a separator is one piece.
pub proof fn a_text_without_separators_is_one_piece(s: Seq<char>, by: Separator)
    requires
        forall|i: int| 0 <= i < s.len() ==> !by.separates(#[trigger] s[i]),
    ensures
        pieces(s, by) == seq![s],
    decreases s.len(),
{
    if s.len() == 0 {
        assert(s =~= Seq::<char>::empty());
    } else {
        let head = s.drop_last();
        assert forall|i: int| 0 <= i < head.len() implies !by.separates(#[trigger] head[i]) by {
            assert(head[i] == s[i]);
        }
        a_text_without_separators_is_one_piece(head, by);
        assert(s.last() == s[s.len() - 1]);
        assert(head.push(s.last()) =~= s);
        assert(seq![head].drop_last().push(s) =~= seq![s]);
    }
}

/// Texts are cut at `/`, or at the white space of ASCII.
pub proof fn separators_are_listed(c: char)
    ensures
        Separator::Slash.separates(c) <==> c as u32 == 0x2f,
        Separator::AsciiWhiteSpace.separates(c) <==> (c as u32 == 0x20 || c as u32 == 0x9 || c as u32
            == 0xa || c as u32 == 0xc || c as u32 == 0xd),
{
}

/// The classes of characters, by their code points.
pub proof fn classes_are_listed(c: char)
    ensures
        CharClass::Name.admits(c) <==> (0x30 <= c as u32 <= 0x39 || 0x41 <= c as u32 <= 0x5a || 0x61
            <= c as u32 <= 0x7a || c as u32 == 0x5f || c as u32 == 0x2d),
        CharClass::Slug.admits(c) <==> (0x30 <= c as u32 <= 0x39 || 0x61 <= c as u32 <= 0x7a
            || c as u32 == 0x2d),
        CharClass::Hex.admits(c) <==> (0x30 <= c as u32 <= 0x39 || 0x41 <= c as u32 <= 0x46 || 0x61
            <= c as u32 <= 0x66),
{
}

/// A text in two parts is made of a class exactly where both parts are and their lengths together
/// are in the range; and a single character is where the class admits it.
pub proof fn made_of_joins(
    a: Seq<char>,
    b: Seq<char>,
    class: CharClass,
    least: nat,
    most: nat,
)
    ensures
        made_of(a + b, class, least, most) <==> least <= a.len() + b.len() <= most && made_of(
            a,
            class,
            0,
            a.len(),
        ) && made_of(b, class, 0, b.len()),
        forall|c: char| #[trigger] made_of(seq![c], class, 1, 1) <==> class.admits(c),
{
    let s = a + b;
    if made_of(s, class, least, most) {
        assert forall|i: int| 0 <= i < a.len() implies class.admits(#[trigger] a[i]) by {
            assert(s[i] == a[i]);
        }
        assert forall|i: int| 0 <= i < b.len() implies class.admits(#[trigger] b[i]) by {
            assert(s[a.len() + i] == b[i]);
        }
    }
    assert forall|c: char| #[trigger] made_of(seq![c], class, 1, 1) <==> class.admits(c) by {
        assert(seq![c][0] == c);
    }
}

/// What comes off the start of a text is the prefix, and what is left is the rest.
pub proof fn a_prefix_comes_off(prefix: Seq<char>, rest: Seq<char>, s: Seq<char>)
    ensures
        without_prefix(prefix + rest, prefix) == Some(rest),
        without_prefix(s, prefix) == Some(rest) <==> s == prefix + rest,
{
    assert((prefix + rest).take(prefix.len() as int) =~= prefix);
    assert((prefix + rest).skip(prefix.len() as int) =~= rest);
    if without_prefix(s, prefix) == Some(rest) {
        assert(s.take(prefix.len() as int) == prefix);
        assert(s =~= prefix + rest);
    }
}

/// The whole run of a character comes off the end of a text, and nothing else does.
pub proof fn a_trailing_run_comes_off(s: Seq<char>, c: char, n: nat)
    requires
        s.len() > 0 ==> s[s.len() - 1] != c,
    ensures
        without_trailing(s + Seq::new(n, |i: int| c), c) == s,
    decreases n,
{
    let run = Seq::new(n, |i: int| c);
    if n == 0 {
        assert(s + run =~= s);
    } else {
        a_trailing_run_comes_off(s, c, (n - 1) as nat);
        assert((s + run).last() == c);
        assert((s + run).drop_last() =~= s + Seq::new((n - 1) as nat, |i: int| c));
    }
}

/// The whole run of a character comes off the start of a text, and nothing else does.
pub proof fn a_leading_run_comes_off(s: Seq<char>, c: char, n: nat)
    requires
        s.len() > 0 ==> s[0] != c,
    ensures
        without_leading(Seq::new(n, |i: int| c) + s, c) == s,
    decreases n,
{
    let run = Seq::new(n, |i: int| c);
    if n == 0 {
        assert(run + s =~= s);
    } else {
        a_leading_run_comes_off(s, c, (n - 1) as nat);
        assert((run + s).first() == c);
        assert((run + s).drop_first() =~= Seq::new((n - 1) as nat, |i: int| c) + s);
    }
}

/// Lower case changes the 26 capital letters of ASCII, each to the letter 32 places on, and leaves
/// every other character where it is.
pub proof fn lower_case_moves_capital_letters(s: Seq<char>, i: int)
    requires
        0 <= i < s.len(),
    ensures
        lower_text(s).len() == s.len(),
        0x41 <= s[i] as u32 <= 0x5a ==> lower_text(s)[i] as u32 == s[i] as u32 + 32,
        !(0x41 <= s[i] as u32 <= 0x5a) ==> lower_text(s)[i] == s[i],
{
}

/// Every `from`, and nothing else, is replaced, each where it stands.
pub proof fn a_replacement_keeps_its_place(s: Seq<char>, from: char, to: char, i: int)
    requires
        0 <= i < s.len(),
    ensures
        replaced(s, from, to).len() == s.len(),
        s[i] == from ==> replaced(s, from, to)[i] == to,
        s[i] != from ==> replaced(s, from, to)[i] == s[i],
{
}

/// The number that decimal digits stand for.
pub open spec fn number_of(digits: Seq<char>) -> int
    decreases digits.len(),
{
    if digits.len() == 0 {
        0
    } else {
        10 * number_of(digits.drop_last()) + (digits.last() as u32 - '0' as u32)
    }
}

/// A number that is written is read back, from digits alone and without zeros before it.
pub proof fn decimal_digits_stand_for_their_number(n: nat)
    ensures
        number_of(decimal(n)) == n,
        decimal(n).len() > 0,
        forall|i: int| 0 <= i < decimal(n).len() ==> '0' <= #[trigger] decimal(n)[i] <= '9',
        n > 0 ==> decimal(n)[0] != '0',
    decreases n,
{
    reveal_with_fuel(number_of, 2);
    if n < 10 {
        assert(decimal(n) =~= seq![digit(n)]);
        assert(decimal(n).drop_last() =~= Seq::<char>::empty());
    } else {
        let head = decimal(n / 10);
        decimal_digits_stand_for_their_number(n / 10);
        assert(decimal(n).drop_last() =~= head);
        assert forall|i: int| 0 <= i < decimal(n).len() implies '0' <= #[trigger] decimal(n)[i]
            <= '9' by {
            if i < head.len() {
                assert(decimal(n)[i] == head[i]);
            }
        }
        assert(decimal(n)[0] == head[0]);
    }
}

/// A negative number is written as the number without its sign, behind a `-`.
pub proof fn a_negative_number_has_a_sign(n: nat)
    requires
        n > 0,
    ensures
        signed_decimal(-n) == seq!['-'] + signed_decimal(n as int),
        signed_decimal(n as int) == decimal(n),
{
}

/// A text stands in another exactly where that is the text with something, or nothing, before it and
/// behind it; and a search finds it where it stands first.
pub proof fn a_text_is_found_where_it_stands(
    before: Seq<char>,
    needle: Seq<char>,
    after: Seq<char>,
    s: Seq<char>,
)
    ensures
        contains_text(before + needle + after, needle),
        find(before + needle + after, needle) matches Some(i) && i <= before.len(),
        contains_text(s, needle) ==> exists|a: Seq<char>, b: Seq<char>|
            s == #[trigger] (a + needle + b),
        find(s, needle) matches Some(i) ==> 0 <= i <= s.len() - needle.len() && s == s.take(i)
            + needle + s.skip(i + needle.len()),
        find(s, needle) is None ==> !contains_text(s, needle),
{
    let whole = before + needle + after;
    let at = before.len() as int;
    assert(whole.subrange(at, at + needle.len()) =~= needle);
    assert(occurs_at(whole, needle, at));
    lemma_find(whole, needle);
    lemma_find(s, needle);
    if contains_text(s, needle) {
        let i = choose|i: int| occurs_at(s, needle, i);
        let a = s.take(i);
        let b = s.skip(i + needle.len());
        assert(s =~= a + s.subrange(i, i + needle.len()) + b);
        assert(s == a + needle + b);
    }
    if let Some(i) = find(s, needle) {
        assert(s =~= s.take(i) + s.subrange(i, i + needle.len()) + s.skip(i + needle.len()));
    }
}

} // verus!
