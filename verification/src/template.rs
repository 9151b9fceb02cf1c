//! Query templates: SQL with named places, and the queries that fill them.

use crate::text;
use vstd::prelude::*;
use vstd::string::*;

verus! {

/// The longest template that a policy may have, in bytes.
pub const MAX_TEMPLATE_BYTES: usize = 4096;

/// A place in a template that a query fills.
#[derive(Clone, Copy, Debug, PartialEq, Eq, Structural)]
pub enum Slot {
    /// A canary identifier.
    Canary,
    /// A release commit.
    Release,
    /// The name of an environment.
    Environment,
}

/// A stretch of a template.
#[derive(Debug)]
pub enum TemplatePart {
    Literal(String),
    Slot(Slot),
}

/// What a [`TemplatePart`] stands for.
pub enum Part {
    Literal(Seq<char>),
    Slot(Slot),
}

impl View for TemplatePart {
    type V = Part;

    open spec fn view(&self) -> Part {
        match *self {
            TemplatePart::Literal(literal) => Part::Literal(literal@),
            TemplatePart::Slot(slot) => Part::Slot(slot),
        }
    }
}

/// The views of a list of parts.
pub open spec fn part_views(parts: Seq<TemplatePart>) -> Seq<Part> {
    parts.map_values(|p: TemplatePart| p@)
}

/// The slot of that name.
pub open spec fn slot_named(name: Seq<char>) -> Option<Slot> {
    if name == "canary"@ {
        Some(Slot::Canary)
    } else if name == "release"@ {
        Some(Slot::Release)
    } else if name == "environment"@ {
        Some(Slot::Environment)
    } else {
        None
    }
}

/// What opens a slot.
pub open spec fn opening() -> Seq<char> {
    seq!['{', '{']
}

/// What closes a slot.
pub open spec fn closing() -> Seq<char> {
    seq!['}', '}']
}

/// The parts of a template: the literal up to the first opening, the slot up to the next closing,
/// and so on behind it. A template has no parts where an opening is never closed, where a slot
/// has an unknown name, or where a closing follows the last slot.
pub open spec fn template_parts(template: Seq<char>) -> Option<Seq<Part>>
    decreases template.len(),
{
    proof {
        text::lemma_find(template, opening());
    }
    match text::find(template, opening()) {
        None => if text::contains_text(template, closing()) {
            None
        } else {
            Some(seq![Part::Literal(template)])
        },
        Some(start) => {
            let after = template.skip(start + 2);
            proof {
                text::lemma_find(after, closing());
            }
            match text::find(after, closing()) {
                None => None,
                Some(end) => match (slot_named(after.take(end)), template_parts(after.skip(end + 2))) {
                    (Some(slot), Some(rest)) => Some(
                        seq![Part::Literal(template.take(start)), Part::Slot(slot)] + rest,
                    ),
                    _ => None,
                },
            }
        },
    }
}

/// A lower-case hexadecimal digit.
pub open spec fn lower_hex(c: char) -> bool {
    'a' <= c <= 'f' || '0' <= c <= '9'
}

/// A lower-case ASCII letter or a digit.
pub open spec fn lower_alphanumeric(c: char) -> bool {
    'a' <= c <= 'z' || '0' <= c <= '9'
}

/// What may fill a slot: 32 lower-case hexadecimal digits for a canary, 40 for a release, and for
/// an environment 1 to 32 lower-case letters, digits and `-`, the first of them no `-`.
pub open spec fn slot_fills(slot: Slot, s: Seq<char>) -> bool {
    match slot {
        Slot::Canary => s.len() == 32 && forall|i: int|
            0 <= i < s.len() ==> lower_hex(#[trigger] s[i]),
        Slot::Release => s.len() == 40 && forall|i: int|
            0 <= i < s.len() ==> lower_hex(#[trigger] s[i]),
        Slot::Environment => {
            &&& 1 <= s.len() <= 32
            &&& lower_alphanumeric(s[0])
            &&& forall|i: int|
                0 <= i < s.len() ==> lower_alphanumeric(#[trigger] s[i]) || s[i] == '-'
        },
    }
}

/// `s` stands for the part: it is the literal, or it fills the slot.
pub open spec fn part_fills(part: Part, s: Seq<char>) -> bool {
    match part {
        Part::Literal(literal) => s == literal,
        Part::Slot(slot) => slot_fills(slot, s),
    }
}

/// `s` is made of stretches that stand for the parts, one after the other.
pub open spec fn parts_fill(parts: Seq<Part>, s: Seq<char>) -> bool
    decreases parts.len(),
{
    if parts.len() == 0 {
        s.len() == 0
    } else {
        exists|n: int|
            0 <= n <= s.len() && part_fills(parts.first(), #[trigger] s.take(n)) && parts_fill(
                parts.drop_first(),
                s.skip(n),
            )
    }
}

/// `sql` is the template with its slots filled.
pub open spec fn instance_of(template: Seq<char>, sql: Seq<char>) -> bool {
    template_parts(template) matches Some(parts) && parts_fill(parts, sql)
}

/// The characters that mean something in a regular expression.
pub open spec fn regex_meta(c: char) -> bool {
    c == '\\' || c == '.' || c == '+' || c == '*' || c == '?' || c == '(' || c == ')' || c == '|'
        || c == '[' || c == ']' || c == '{' || c == '}' || c == '^' || c == '$' || c == '#' || c
        == '&' || c == '-' || c == '~'
}

/// A literal in a regular expression: `\` before each character that would mean something.
pub open spec fn regex_literal(s: Seq<char>) -> Seq<char>
    decreases s.len(),
{
    if s.len() == 0 {
        Seq::empty()
    } else if regex_meta(s.last()) {
        regex_literal(s.drop_last()) + seq!['\\', s.last()]
    } else {
        regex_literal(s.drop_last()).push(s.last())
    }
}

/// The regular expression of what may fill a slot.
pub open spec fn slot_pattern(slot: Slot) -> Seq<char> {
    match slot {
        Slot::Canary => "[a-f0-9]{32}"@,
        Slot::Release => "[a-f0-9]{40}"@,
        Slot::Environment => "[a-z0-9][a-z0-9-]{0,31}"@,
    }
}

/// The regular expression of a part.
pub open spec fn part_pattern(part: Part) -> Seq<char> {
    match part {
        Part::Literal(literal) => regex_literal(literal),
        Part::Slot(slot) => slot_pattern(slot),
    }
}

/// The regular expressions of the parts, one after the other.
pub open spec fn parts_pattern(parts: Seq<Part>) -> Seq<char>
    decreases parts.len(),
{
    if parts.len() == 0 {
        Seq::empty()
    } else {
        parts_pattern(parts.drop_last()) + part_pattern(parts.last())
    }
}

/// The regular expression of the parts, tied to both ends of the text.
pub open spec fn anchored_pattern(parts: Seq<Part>) -> Seq<char> {
    "^"@ + parts_pattern(parts) + "$"@
}

/// `regex::escape`: the text as a literal in a regular expression, with `\` before each
/// character that would mean something there.
#[verifier::external_body]
fn regex_escape(literal: &str) -> (escaped: String)
    ensures
        escaped@ == regex_literal(literal@),
{
    regex::escape(literal)
}

/// Whether a regular expression compiles.
pub uninterp spec fn regex_compiles(pattern: Seq<char>) -> bool;

/// `regex::Regex::new`: whether the expression compiles.
///
/// The expression of a template that is no longer than [`MAX_TEMPLATE_BYTES`] does: it is made of
/// escaped literals and of classes of ASCII characters that are repeated at most 40 times, which
/// is proper syntax, and what the crate builds of it stays below the crate's size limit of ten
/// megabytes. A byte of a literal takes some tens of bytes of that, and a slot less than five
/// thousand.
#[verifier::external_body]
fn compile_regex(pattern: &str) -> (compiles: bool)
    ensures
        compiles == regex_compiles(pattern@),
        forall|template: Seq<char>|
            (#[trigger] template_parts(template)) matches Some(parts) && pattern@
                == anchored_pattern(parts) && text::byte_len(template) <= MAX_TEMPLATE_BYTES
                ==> compiles,
{
    regex::Regex::new(pattern).is_ok()
}

/// Whether a regular expression that compiles is found in a text.
pub uninterp spec fn regex_found(pattern: Seq<char>, haystack: Seq<char>) -> bool;

/// `regex::Regex::is_match` of a `Regex` that compiles: whether the expression is found in the
/// text. One that ties escaped literals and the expressions of slots to both ends of the text is
/// found, by the syntax that the crate documents, exactly in the texts that are made of those
/// literals and of what fills those slots.
#[verifier::external_body]
fn regex_search(pattern: &str, haystack: &str) -> (found: bool)
    requires
        regex_compiles(pattern@),
    ensures
        found == regex_found(pattern@, haystack@),
        forall|parts: Seq<Part>|
            pattern@ == #[trigger] anchored_pattern(parts) ==> found == parts_fill(
                parts,
                haystack@,
            ),
{
    regex::Regex::new(pattern).is_ok_and(|regex| regex.is_match(haystack))
}

proof fn lemma_find_in_rest(s: Seq<char>, needle: Seq<char>, from: int, at: int)
    requires
        0 <= from <= s.len(),
        0 <= at,
    ensures
        match text::find_from(s, needle, from + at) {
            Some(i) => text::find_from(s.skip(from), needle, at) == Some(i - from),
            None => text::find_from(s.skip(from), needle, at) is None,
        },
    decreases s.len() - from - at,
{
    let rest = s.skip(from);
    if from + at + needle.len() <= s.len() {
        assert(rest.subrange(at, at + needle.len()) =~= s.subrange(
            from + at,
            from + at + needle.len(),
        ));
        if !text::occurs_at(rest, needle, at) && from + at < s.len() {
            lemma_find_in_rest(s, needle, from, at + 1);
        }
    }
}

/// Where `needle` stands first in `chars` behind `from`.
fn position_behind(chars: &Vec<char>, needle: &Vec<char>, from: usize) -> (position: Option<usize>)
    requires
        from <= chars.len(),
    ensures
        match position {
            Some(i) => from <= i && i + needle@.len() <= chars@.len() && text::find(
                chars@.skip(from as int),
                needle@,
            ) == Some(i - from),
            None => text::find(chars@.skip(from as int), needle@) is None,
        },
{
    proof {
        lemma_find_in_rest(chars@, needle@, from as int, 0);
    }
    text::position_from(chars, needle, from)
}

fn find_slot(name: &str) -> (slot: Option<Slot>)
    ensures
        slot == slot_named(name@),
{
    if text::same_text(name, "canary") {
        Some(Slot::Canary)
    } else if text::same_text(name, "release") {
        Some(Slot::Release)
    } else if text::same_text(name, "environment") {
        Some(Slot::Environment)
    } else {
        None
    }
}

/// The parts of a template.
pub fn parse_template(template: &str) -> (parts: Option<Vec<TemplatePart>>)
    ensures
        match parts {
            Some(parts) => template_parts(template@) == Some(part_views(parts@)),
            None => template_parts(template@) is None,
        },
{
    let chars: Vec<char> = text::chars_of(template);
    let opening: Vec<char> = vec!['{', '{'];
    let closing: Vec<char> = vec!['}', '}'];
    let mut parts: Vec<TemplatePart> = Vec::new();
    let mut from: usize = 0;
    proof {
        assert(opening@ =~= self::opening());
        assert(closing@ =~= self::closing());
        assert(template@.skip(0) == template@);
        assert(part_views(parts@) =~= Seq::empty());
        if template_parts(template@) is Some {
            assert(template_parts(template@).unwrap() =~= part_views(parts@) + template_parts(
                template@,
            ).unwrap());
        }
    }
    loop
        invariant
            from <= chars.len(),
            chars@ == template@,
            opening@ == self::opening(),
            closing@ == self::closing(),
            match template_parts(template@.skip(from as int)) {
                Some(rest) => template_parts(template@) == Some(part_views(parts@) + rest),
                None => template_parts(template@) is None,
            },
        decreases chars.len() - from,
    {
        let ghost rest: Seq<char> = template@.skip(from as int);
        let ghost before: Seq<Part> = part_views(parts@);
        let start: usize = match position_behind(&chars, &opening, from) {
            None => {
                if position_behind(&chars, &closing, from).is_some() {
                    proof {
                        text::lemma_find(rest, self::closing());
                    }
                    return None;
                }
                proof {
                    text::lemma_find(rest, self::closing());
                    assert(rest == template@.subrange(from as int, template@.len() as int));
                }
                parts.push(TemplatePart::Literal(text::text_between(&chars, from, chars.len())));
                proof {
                    assert(part_views(parts@) =~= before + seq![Part::Literal(rest)]);
                }
                return Some(parts);
            },
            Some(start) => start,
        };
        let ghost after: Seq<char> = rest.skip(start - from + 2);
        proof {
            assert(after =~= template@.skip(start + 2));
        }
        let end: usize = match position_behind(&chars, &closing, start + 2) {
            None => {
                return None;
            },
            Some(end) => end,
        };
        let name: String = text::text_between(&chars, start + 2, end);
        proof {
            assert(name@ =~= after.take(end - start - 2));
            assert(after.skip(end - start - 2 + 2) =~= template@.skip(end + 2));
        }
        match find_slot(name.as_str()) {
            None => {
                return None;
            },
            Some(slot) => {
                parts.push(TemplatePart::Literal(text::text_between(&chars, from, start)));
                parts.push(TemplatePart::Slot(slot));
                proof {
                    let literal = Part::Literal(rest.take(start - from));
                    assert(template@.subrange(from as int, start as int) =~= rest.take(start - from));
                    assert(part_views(parts@) =~= before + seq![literal, Part::Slot(slot)]);
                    if template_parts(template@.skip(end + 2)) is Some {
                        let tail = template_parts(template@.skip(end + 2)).unwrap();
                        assert(before + (seq![literal, Part::Slot(slot)] + tail) =~= part_views(
                            parts@,
                        ) + tail);
                    }
                }
            },
        }
        from = end + 2;
    }
}

/// Whether every place in a template has a known name and is closed, and nothing is closed that
/// was not opened.
pub fn placeholders_are_supported(template: &str) -> (supported: bool)
    ensures
        supported == (template_parts(template@) is Some),
{
    parse_template(template).is_some()
}

/// The regular expression of a template, where the template has one that compiles.
pub open spec fn template_pattern(template: Seq<char>) -> Option<Seq<char>> {
    match template_parts(template) {
        Some(parts) => if regex_compiles(anchored_pattern(parts)) {
            Some(anchored_pattern(parts))
        } else {
            None
        },
        None => None,
    }
}

/// The regular expression of the queries that fill a template. There is one exactly where the
/// template has parts and the expression compiles, which it does unless the template is longer
/// than [`MAX_TEMPLATE_BYTES`].
pub fn template_regex(template: &str) -> (pattern: Result<String, ()>)
    ensures
        match template_pattern(template@) {
            Some(expression) => pattern matches Ok(text) && text@ == expression,
            None => pattern is Err,
        },
        text::byte_len(template@) <= MAX_TEMPLATE_BYTES ==> (pattern is Ok <==> template_parts(
            template@,
        ) is Some),
{
    let parts: Vec<TemplatePart> = match parse_template(template) {
        Some(parts) => parts,
        None => {
            return Err(());
        },
    };
    let mut pattern: String = "^".to_owned();
    let mut i: usize = 0;
    proof {
        assert(pattern@ =~= "^"@ + parts_pattern(part_views(parts@).take(0)));
    }
    while i < parts.len()
        invariant
            i <= parts.len(),
            pattern@ == "^"@ + parts_pattern(part_views(parts@).take(i as int)),
        decreases parts.len() - i,
    {
        proof {
            assert(part_views(parts@).take(i + 1).drop_last() == part_views(parts@).take(i as int));
        }
        let ghost before: Seq<char> = pattern@;
        match &parts[i] {
            TemplatePart::Literal(literal) => {
                pattern.append(regex_escape(literal.as_str()).as_str());
            },
            TemplatePart::Slot(Slot::Canary) => {
                pattern.append("[a-f0-9]{32}");
            },
            TemplatePart::Slot(Slot::Release) => {
                pattern.append("[a-f0-9]{40}");
            },
            TemplatePart::Slot(Slot::Environment) => {
                pattern.append("[a-z0-9][a-z0-9-]{0,31}");
            },
        }
        i = i + 1;
        proof {
            assert(pattern@ =~= before + part_pattern(part_views(parts@)[i - 1]));
            assert(pattern@ =~= "^"@ + parts_pattern(part_views(parts@).take(i as int)));
        }
    }
    proof {
        assert(part_views(parts@).take(parts@.len() as int) == part_views(parts@));
    }
    pattern.append("$");
    if compile_regex(pattern.as_str()) {
        Ok(pattern)
    } else {
        Err(())
    }
}

/// The query is found by the regular expression of the template.
pub open spec fn template_accepts(template: Seq<char>, sql: Seq<char>) -> bool {
    template_pattern(template) matches Some(pattern) && regex_found(pattern, sql)
}

/// Whether a query fills a template. A template that is longer than [`MAX_TEMPLATE_BYTES`] may
/// have no expression that compiles; then no query fills it.
pub fn template_matches(template: &str, sql: &str) -> (matches: bool)
    ensures
        matches == template_accepts(template@, sql@),
        matches == (template_pattern(template@) is Some && instance_of(template@, sql@)),
        text::byte_len(template@) <= MAX_TEMPLATE_BYTES ==> matches == instance_of(template@, sql@),
{
    match template_regex(template) {
        Ok(pattern) => regex_search(pattern.as_str(), sql),
        Err(_) => false,
    }
}

// ---------------------------------------------------------------------------------------------
// Laws
// ---------------------------------------------------------------------------------------------

/// A text that cannot reach into a slot of a template: it has no brace, and a character that no
/// name of a slot has.
pub open spec fn outside_slots(needle: Seq<char>) -> bool {
    &&& !needle.contains('{')
    &&& !needle.contains('}')
    &&& exists|j: int| 0 <= j < needle.len() && !('a' <= #[trigger] needle[j] <= 'z')
}

/// What stands in a template outside its slots stands in every query that fills it.
pub proof fn what_stands_in_a_template_stands_in_its_instances(
    template: Seq<char>,
    sql: Seq<char>,
    needle: Seq<char>,
)
    requires
        instance_of(template, sql),
        outside_slots(needle),
        text::contains_text(template, needle),
    ensures
        text::contains_text(sql, needle),
{
    let parts = template_parts(template).unwrap();
    let p = choose|p: int| text::occurs_at(template, needle, p);
    lemma_stands_in_a_literal(template, needle, p);
    let k = choose|k: int| literal_with(parts, k, needle);
    lemma_literal_stands(parts, sql, k);
    let literal = parts[k]->Literal_0;
    let i = choose|i: int| text::occurs_at(sql, literal, i);
    let j = choose|j: int| text::occurs_at(literal, needle, j);
    assert(sql.subrange(i + j, i + j + needle.len()) =~= sql.subrange(
        i,
        i + literal.len(),
    ).subrange(j, j + needle.len()));
    assert(text::occurs_at(sql, needle, i + j));
}

/// A query that fills a template starts as the template does, up to its first slot.
pub proof fn instances_start_as_their_template(
    template: Seq<char>,
    sql: Seq<char>,
    prefix: Seq<char>,
)
    requires
        instance_of(template, sql),
        prefix.is_prefix_of(template),
        !prefix.contains('{'),
    ensures
        prefix.is_prefix_of(sql),
{
    let parts = template_parts(template).unwrap();
    text::lemma_find(template, opening());
    assert(parts.len() > 0);
    let n = choose|n: int|
        0 <= n <= sql.len() && part_fills(parts.first(), #[trigger] sql.take(n)) && parts_fill(
            parts.drop_first(),
            sql.skip(n),
        );
    let literal = parts.first()->Literal_0;
    assert(sql.take(n) == literal);
    match text::find(template, opening()) {
        Some(start) => {
            assert(literal == template.take(start));
            assert(template.subrange(start, start + 2)[0] == '{');
            assert(template[start] == '{');
            if start < prefix.len() {
                assert(template.take(prefix.len() as int)[start] == '{');
                assert(prefix[start] == '{');
            }
        },
        None => {},
    }
    assert(prefix =~= template.take(prefix.len() as int));
    assert forall|i: int| 0 <= i < prefix.len() implies sql[i] == prefix[i] by {
        assert(sql.take(n)[i] == literal[i]);
    }
    assert(sql.take(prefix.len() as int) =~= prefix);
}

/// A query that fills a template has no character but those of the template and those that fill
/// slots.
pub proof fn instances_have_no_other_characters(template: Seq<char>, sql: Seq<char>, c: char)
    requires
        instance_of(template, sql),
        sql.contains(c),
    ensures
        template.contains(c) || lower_alphanumeric(c) || c == '-',
{
    let parts = template_parts(template).unwrap();
    let at = choose|at: int| 0 <= at < sql.len() && sql[at] == c;
    lemma_character_of_a_part(parts, sql, at);
    if !(lower_alphanumeric(c) || c == '-') {
        let k = choose|k: int|
            0 <= k < parts.len() && ((#[trigger] parts[k]) matches Part::Literal(literal)
                && literal.contains(c));
        let literal = parts[k]->Literal_0;
        let j = choose|j: int| 0 <= j < literal.len() && literal[j] == c;
        let i = lemma_literal_of_template(template, k, literal);
        assert(template.subrange(i, i + literal.len())[j] == template[i + j]);
    }
}

/// The part is a literal with the needle in it.
spec fn literal_with(parts: Seq<Part>, k: int, needle: Seq<char>) -> bool {
    &&& 0 <= k < parts.len()
    &&& parts[k] is Literal
    &&& text::contains_text(parts[k]->Literal_0, needle)
}

/// The first slot of a template that has one: where it opens and where it closes, and the parts in
/// front of it and behind it.
proof fn lemma_first_slot(template: Seq<char>) -> (slot: (int, int))
    requires
        template_parts(template) is Some,
        text::find(template, opening()) is Some,
    ensures
        0 <= slot.0 && slot.0 + 2 <= slot.1 && slot.1 + 2 <= template.len(),
        template[slot.0] == '{' && template[slot.0 + 1] == '{',
        template[slot.1] == '}' && template[slot.1 + 1] == '}',
        slot_named(template.subrange(slot.0 + 2, slot.1)) is Some,
        template_parts(template.skip(slot.1 + 2)) is Some,
        template_parts(template).unwrap() == seq![
            Part::Literal(template.take(slot.0)),
            Part::Slot(slot_named(template.subrange(slot.0 + 2, slot.1)).unwrap()),
        ] + template_parts(template.skip(slot.1 + 2)).unwrap(),
{
    text::lemma_find(template, opening());
    let start = text::find(template, opening()).unwrap();
    let after = template.skip(start + 2);
    text::lemma_find(after, closing());
    let end = text::find(after, closing()).unwrap();
    let close = start + 2 + end;
    assert(template.subrange(start, start + 2)[0] == template[start]);
    assert(template.subrange(start, start + 2)[1] == template[start + 1]);
    assert(after.subrange(end, end + 2)[0] == template[close]);
    assert(after.subrange(end, end + 2)[1] == template[close + 1]);
    assert(after.take(end) =~= template.subrange(start + 2, close));
    assert(after.skip(end + 2) =~= template.skip(close + 2));
    (start, close)
}

/// A needle that cannot reach into a slot stands in one of the literals of the template.
proof fn lemma_stands_in_a_literal(template: Seq<char>, needle: Seq<char>, p: int)
    requires
        template_parts(template) is Some,
        outside_slots(needle),
        text::occurs_at(template, needle, p),
    ensures
        exists|k: int| literal_with(template_parts(template).unwrap(), k, needle),
    decreases template.len(),
{
    let parts = template_parts(template).unwrap();
    let len = needle.len() as int;
    if text::find(template, opening()) is None {
        assert(literal_with(parts, 0, needle));
    } else {
        let (start, close) = lemma_first_slot(template);
        let tail = template_parts(template.skip(close + 2)).unwrap();
        lemma_misses(template, needle, p, start);
        lemma_misses(template, needle, p, start + 1);
        lemma_misses(template, needle, p, close);
        lemma_misses(template, needle, p, close + 1);
        if p + len <= start {
            let literal = template.take(start);
            assert(literal.subrange(p, p + len) =~= template.subrange(p, p + len));
            assert(text::occurs_at(literal, needle, p));
            assert(literal_with(parts, 0, needle));
        } else if p + len <= close {
            let name = template.subrange(start + 2, close);
            let j = choose|j: int| 0 <= j < len && !('a' <= #[trigger] needle[j] <= 'z');
            assert(template.subrange(p, p + len)[j] == name[p + j - start - 2]);
            lemma_slot_name_letters(name, p + j - start - 2);
        } else {
            let rest = template.skip(close + 2);
            let q = p - close - 2;
            assert(rest.subrange(q, q + len) =~= template.subrange(p, p + len));
            assert(text::occurs_at(rest, needle, q));
            lemma_stands_in_a_literal(rest, needle, q);
            let k = choose|k: int| literal_with(tail, k, needle);
            assert(parts[k + 2] == tail[k]);
            assert(literal_with(parts, k + 2, needle));
        }
    }
}

/// A brace of the template is no character of a needle that has none.
proof fn lemma_misses(template: Seq<char>, needle: Seq<char>, p: int, at: int)
    requires
        text::occurs_at(template, needle, p),
        outside_slots(needle),
        0 <= at < template.len(),
        template[at] == '{' || template[at] == '}',
    ensures
        at < p || p + needle.len() <= at,
{
    if p <= at < p + needle.len() {
        assert(template.subrange(p, p + needle.len())[at - p] == template[at]);
        assert(needle.contains(needle[at - p]));
    }
}

/// The name of a slot is made of lower-case letters.
proof fn lemma_slot_name_letters(name: Seq<char>, i: int)
    requires
        slot_named(name) is Some,
        0 <= i < name.len(),
    ensures
        'a' <= name[i] <= 'z',
{
    reveal_strlit("canary");
    reveal_strlit("release");
    reveal_strlit("environment");
}

/// A literal of the parts stands in whatever fills them.
proof fn lemma_literal_stands(parts: Seq<Part>, s: Seq<char>, k: int)
    requires
        parts_fill(parts, s),
        0 <= k < parts.len(),
        parts[k] is Literal,
    ensures
        text::contains_text(s, parts[k]->Literal_0),
    decreases parts.len(),
{
    let n = choose|n: int|
        0 <= n <= s.len() && part_fills(parts.first(), #[trigger] s.take(n)) && parts_fill(
            parts.drop_first(),
            s.skip(n),
        );
    let literal = parts[k]->Literal_0;
    if k == 0 {
        assert(s.subrange(0, literal.len() as int) =~= s.take(n));
        assert(text::occurs_at(s, literal, 0));
    } else {
        assert(parts.drop_first()[k - 1] == parts[k]);
        lemma_literal_stands(parts.drop_first(), s.skip(n), k - 1);
        let i = choose|i: int| text::occurs_at(s.skip(n), literal, i);
        lemma_stands_behind(s, n, literal, i);
    }
}

/// Each character of what fills parts is one of a literal, or one that fills a slot.
proof fn lemma_character_of_a_part(parts: Seq<Part>, s: Seq<char>, at: int)
    requires
        parts_fill(parts, s),
        0 <= at < s.len(),
    ensures
        lower_alphanumeric(s[at]) || s[at] == '-' || exists|k: int|
            0 <= k < parts.len() && ((#[trigger] parts[k]) matches Part::Literal(literal)
                && literal.contains(s[at])),
    decreases parts.len(),
{
    let n = choose|n: int|
        0 <= n <= s.len() && part_fills(parts.first(), #[trigger] s.take(n)) && parts_fill(
            parts.drop_first(),
            s.skip(n),
        );
    if at < n {
        assert(s.take(n)[at] == s[at]);
        match parts.first() {
            Part::Literal(literal) => {
                assert(literal[at] == s[at]);
                assert(parts[0] == Part::Literal(literal));
            },
            Part::Slot(_) => {},
        }
    } else {
        assert(s.skip(n)[at - n] == s[at]);
        lemma_character_of_a_part(parts.drop_first(), s.skip(n), at - n);
        if !(lower_alphanumeric(s[at]) || s[at] == '-') {
            let k = choose|k: int|
                0 <= k < parts.drop_first().len() && ((
                #[trigger] parts.drop_first()[k]) matches Part::Literal(literal)
                    && literal.contains(s[at]));
            assert(parts[k + 1] == parts.drop_first()[k]);
        }
    }
}

/// What stands behind the start of a text stands in the text.
proof fn lemma_stands_behind(s: Seq<char>, from: int, needle: Seq<char>, i: int)
    requires
        0 <= from <= s.len(),
        text::occurs_at(s.skip(from), needle, i),
    ensures
        text::occurs_at(s, needle, from + i),
{
    assert(s.subrange(from + i, from + i + needle.len()) =~= s.skip(from).subrange(
        i,
        i + needle.len(),
    ));
}

/// A literal of a template stands in the template, at the place that comes out.
proof fn lemma_literal_of_template(template: Seq<char>, k: int, literal: Seq<char>) -> (at: int)
    requires
        template_parts(template) is Some,
        0 <= k < template_parts(template).unwrap().len(),
        template_parts(template).unwrap()[k] == Part::Literal(literal),
    ensures
        text::occurs_at(template, literal, at),
    decreases template.len(),
{
    if text::find(template, opening()) is None {
        assert(template.subrange(0, template.len() as int) =~= template);
        0
    } else {
        let (start, close) = lemma_first_slot(template);
        if k == 0 {
            assert(template.subrange(0, start) =~= template.take(start));
            0
        } else {
            let rest = template.skip(close + 2);
            assert(template_parts(rest).unwrap()[k - 2] == Part::Literal(literal));
            let i = lemma_literal_of_template(rest, k - 2, literal);
            lemma_stands_behind(template, close + 2, literal, i);
            close + 2 + i
        }
    }
}

/// A text without two braces in a row.
pub open spec fn plain(s: Seq<char>) -> bool {
    !text::contains_text(s, opening()) && !text::contains_text(s, closing())
}

/// A template with a slot: a text, the slot, and the rest of the template.
pub open spec fn around_slot(before: Seq<char>, name: Seq<char>, rest: Seq<char>) -> Seq<char> {
    before + seq!['{', '{'] + name + seq!['}', '}'] + rest
}

/// What may fill the slots: 32 lower-case hexadecimal digits a canary, 40 a release, and an
/// environment 1 to 32 small letters, digits and `-`, of which the first is no `-`. No other slot
/// has a name.
pub proof fn slots_are_filled_by_their_kind(name: Seq<char>, s: Seq<char>)
    ensures
        slot_named(name) is Some <==> (name == "canary"@ || name == "release"@ || name
            == "environment"@),
        name == "canary"@ || name == "release"@ ==> (slot_fills(slot_named(name).unwrap(), s)
            <==> s.len() == (if name == "canary"@ {
            32int
        } else {
            40int
        }) && forall|i: int|
            0 <= i < s.len() ==> ('0' <= #[trigger] s[i] <= '9' || 'a' <= s[i] <= 'f')),
        name == "environment"@ ==> (slot_fills(slot_named(name).unwrap(), s) <==> 1 <= s.len() <= 32
            && s[0] != '-' && forall|i: int|
            0 <= i < s.len() ==> ('0' <= #[trigger] s[i] <= '9' || 'a' <= s[i] <= 'z' || s[i]
                == '-')),
{
    reveal_strlit("canary");
    reveal_strlit("release");
    reveal_strlit("environment");
    assert("canary"@.len() == 6 && "release"@.len() == 7 && "environment"@.len() == 11);
    if forall|i: int| 0 <= i < s.len() ==> ('0' <= #[trigger] s[i] <= '9' || 'a' <= s[i] <= 'f') {
        assert forall|i: int| 0 <= i < s.len() implies lower_hex(#[trigger] s[i]) by {
            assert('0' <= s[i] <= '9' || 'a' <= s[i] <= 'f');
        }
    }
    if forall|i: int| 0 <= i < s.len() ==> lower_hex(#[trigger] s[i]) {
        assert forall|i: int| 0 <= i < s.len() implies ('0' <= #[trigger] s[i] <= '9' || 'a' <= s[i]
            <= 'f') by {
            assert(lower_hex(s[i]));
        }
    }
    if forall|i: int|
        0 <= i < s.len() ==> ('0' <= #[trigger] s[i] <= '9' || 'a' <= s[i] <= 'z' || s[i] == '-') {
        assert forall|i: int| 0 <= i < s.len() implies lower_alphanumeric(#[trigger] s[i]) || s[i]
            == '-' by {
            assert('0' <= s[i] <= '9' || 'a' <= s[i] <= 'z' || s[i] == '-');
        }
        if s.len() > 0 {
            assert(lower_alphanumeric(s[0]) || s[0] == '-');
        }
    }
    if forall|i: int| 0 <= i < s.len() ==> lower_alphanumeric(#[trigger] s[i]) || s[i] == '-' {
        assert forall|i: int| 0 <= i < s.len() implies ('0' <= #[trigger] s[i] <= '9' || 'a' <= s[i]
            <= 'z' || s[i] == '-') by {
            assert(lower_alphanumeric(s[i]) || s[i] == '-');
        }
    }
}

/// A template without slots is filled by itself alone.
pub proof fn a_template_without_slots_is_its_only_instance(template: Seq<char>, sql: Seq<char>)
    requires
        plain(template),
    ensures
        instance_of(template, sql) <==> sql == template,
{
    text::lemma_find(template, opening());
    let parts = seq![Part::Literal(template)];
    assert(template_parts(template) == Some(parts));
    assert(parts.drop_first() =~= Seq::empty());
    if parts_fill(parts, sql) {
        let n = choose|n: int|
            0 <= n <= sql.len() && part_fills(parts.first(), #[trigger] sql.take(n)) && parts_fill(
                parts.drop_first(),
                sql.skip(n),
            );
        assert(sql.take(n) =~= sql);
    }
    if sql == template {
        let n = sql.len() as int;
        assert(sql.take(n) =~= sql);
        assert(sql.skip(n).len() == 0);
        assert(part_fills(parts.first(), sql.take(n)) && parts_fill(
            parts.drop_first(),
            sql.skip(n),
        ));
    }
}

/// A template with a slot is filled by the text before the slot, what fills the slot, and what fills
/// the rest, one after the other, and by nothing else.
pub proof fn a_slot_is_filled_in_its_place(
    before: Seq<char>,
    name: Seq<char>,
    rest: Seq<char>,
    sql: Seq<char>,
)
    requires
        plain(before),
        before.len() > 0 ==> before[before.len() - 1] != '{',
        name == "canary"@ || name == "release"@ || name == "environment"@,
        template_parts(rest) is Some,
    ensures
        instance_of(around_slot(before, name, rest), sql) <==> exists|
            fill: Seq<char>,
            tail: Seq<char>,
        |
            sql == #[trigger] (before + fill + tail) && slot_fills(slot_named(name).unwrap(), fill)
                && instance_of(rest, tail),
{
    let template = around_slot(before, name, rest);
    let slot = slot_named(name).unwrap();
    let ending = template_parts(rest).unwrap();
    lemma_around_slot(before, name, rest);
    let parts = seq![Part::Literal(before), Part::Slot(slot)] + ending;
    assert(template_parts(template) == Some(parts));
    let one = parts.drop_first();
    assert(one =~= seq![Part::Slot(slot)] + ending);
    assert(one.drop_first() =~= ending);
    if parts_fill(parts, sql) {
        let n = choose|n: int|
            0 <= n <= sql.len() && part_fills(parts.first(), #[trigger] sql.take(n)) && parts_fill(
                parts.drop_first(),
                sql.skip(n),
            );
        let behind = sql.skip(n);
        let m = choose|m: int|
            0 <= m <= behind.len() && part_fills(one.first(), #[trigger] behind.take(m))
                && parts_fill(one.drop_first(), behind.skip(m));
        let fill = behind.take(m);
        let tail = behind.skip(m);
        assert(sql =~= before + fill + tail);
        assert(sql == before + fill + tail && slot_fills(slot, fill) && instance_of(rest, tail));
    }
    if exists|fill: Seq<char>, tail: Seq<char>|
        sql == #[trigger] (before + fill + tail) && slot_fills(slot, fill) && instance_of(
            rest,
            tail,
        ) {
        let (fill, tail) = choose|fill: Seq<char>, tail: Seq<char>|
            sql == #[trigger] (before + fill + tail) && slot_fills(slot, fill) && instance_of(
                rest,
                tail,
            );
        let n = before.len() as int;
        let behind = sql.skip(n);
        assert(sql.take(n) =~= before);
        assert(behind =~= fill + tail);
        let m = fill.len() as int;
        assert(behind.take(m) =~= fill);
        assert(behind.skip(m) =~= tail);
        assert(part_fills(one.first(), behind.take(m)) && parts_fill(
            one.drop_first(),
            behind.skip(m),
        ));
        assert(parts_fill(one, behind));
        assert(part_fills(parts.first(), sql.take(n)) && parts_fill(
            parts.drop_first(),
            sql.skip(n),
        ));
        assert(parts_fill(parts, sql));
    }
}

proof fn lemma_finds(s: Seq<char>, needle: Seq<char>, at: int)
    requires
        text::first_at(s, needle, at),
    ensures
        text::find(s, needle) == Some(at),
{
    text::lemma_find(s, needle);
    if let Some(i) = text::find(s, needle) {
        if i < at {
            assert(!text::occurs_at(s, needle, i));
        }
        if at < i {
            assert(!text::occurs_at(s, needle, at));
        }
    }
}

proof fn lemma_around_slot(before: Seq<char>, name: Seq<char>, rest: Seq<char>)
    requires
        plain(before),
        before.len() > 0 ==> before[before.len() - 1] != '{',
        slot_named(name) is Some,
    ensures
        template_parts(around_slot(before, name, rest)) == match template_parts(rest) {
            Some(ending) => Some(
                seq![Part::Literal(before), Part::Slot(slot_named(name).unwrap())] + ending,
            ),
            None => None,
        },
{
    let template = around_slot(before, name, rest);
    let start = before.len() as int;
    assert(template.subrange(start, start + 2) =~= opening());
    assert forall|j: int| 0 <= j < start implies !text::occurs_at(template, opening(), j) by {
        if text::occurs_at(template, opening(), j) {
            let found = template.subrange(j, j + 2);
            assert(found[0] == '{' && found[1] == '{');
            assert(template[j] == '{' && template[j + 1] == '{');
            if j + 1 < start {
                assert(before.subrange(j, j + 2) =~= opening());
                assert(text::occurs_at(before, opening(), j));
            } else {
                assert(before[j] == '{');
            }
        }
    }
    lemma_finds(template, opening(), start);
    let after = template.skip(start + 2);
    assert(after =~= name + seq!['}', '}'] + rest);
    let end = name.len() as int;
    assert(after.subrange(end, end + 2) =~= closing());
    assert forall|j: int| 0 <= j < end implies !text::occurs_at(after, closing(), j) by {
        if text::occurs_at(after, closing(), j) {
            let found = after.subrange(j, j + 2);
            assert(found[0] == '}');
            assert(after[j] == name[j]);
            lemma_slot_name_letters(name, j);
        }
    }
    lemma_finds(after, closing(), end);
    assert(after.take(end) =~= name);
    assert(after.skip(end + 2) =~= rest);
    assert(template.take(start) =~= before);
}

/// A template is cut at its slots: what stands before a slot, the slot, and the parts of the rest.
/// A slot of another name leaves a template without parts, and so does a closing without a slot.
pub proof fn templates_are_cut_at_their_slots(
    before: Seq<char>,
    name: Seq<char>,
    rest: Seq<char>,
    other: Seq<char>,
)
    requires
        plain(before),
        before.len() > 0 ==> before[before.len() - 1] != '{',
        name == "canary"@ || name == "release"@ || name == "environment"@,
        other != "canary"@ && other != "release"@ && other != "environment"@,
        forall|i: int| 0 <= i < other.len() ==> #[trigger] other[i] != '}',
    ensures
        template_parts(around_slot(before, name, rest)) is Some <==> template_parts(rest) is Some,
        template_parts(around_slot(before, other, rest)) is None,
        template_parts(before) == Some(seq![Part::Literal(before)]),
        !text::contains_text(rest, opening()) && text::contains_text(rest, closing())
            ==> template_parts(rest) is None,
{
    lemma_around_slot(before, name, rest);
    text::lemma_find(before, opening());
    text::lemma_find(rest, opening());
    let template = around_slot(before, other, rest);
    let start = before.len() as int;
    assert(template.subrange(start, start + 2) =~= opening());
    assert forall|j: int| 0 <= j < start implies !text::occurs_at(template, opening(), j) by {
        if text::occurs_at(template, opening(), j) {
            let found = template.subrange(j, j + 2);
            assert(found[0] == '{' && found[1] == '{');
            assert(template[j] == '{' && template[j + 1] == '{');
            if j + 1 < start {
                assert(before.subrange(j, j + 2) =~= opening());
                assert(text::occurs_at(before, opening(), j));
            } else {
                assert(before[j] == '{');
            }
        }
    }
    lemma_finds(template, opening(), start);
    let after = template.skip(start + 2);
    assert(after =~= other + seq!['}', '}'] + rest);
    let end = other.len() as int;
    assert(after.subrange(end, end + 2) =~= closing());
    assert forall|j: int| 0 <= j < end implies !text::occurs_at(after, closing(), j) by {
        if text::occurs_at(after, closing(), j) {
            let found = after.subrange(j, j + 2);
            assert(found[0] == '}');
            assert(after[j] == other[j]);
        }
    }
    lemma_finds(after, closing(), end);
    assert(after.take(end) =~= other);
}

/// Expressions are put together part by part: those of two lists of parts one after the other are
/// the expression of both, each slot has its own, and in a literal each character stands for itself,
/// behind a `\` where it would mean something else.
pub proof fn expressions_are_put_together_part_by_part(
    a: Seq<Part>,
    b: Seq<Part>,
    s: Seq<char>,
    t: Seq<char>,
    c: char,
)
    ensures
        parts_pattern(a + b) == parts_pattern(a) + parts_pattern(b),
        parts_pattern(seq![]) == Seq::<char>::empty(),
        parts_pattern(seq![Part::Slot(Slot::Canary)]) == "[a-f0-9]{32}"@,
        parts_pattern(seq![Part::Slot(Slot::Release)]) == "[a-f0-9]{40}"@,
        parts_pattern(seq![Part::Slot(Slot::Environment)]) == "[a-z0-9][a-z0-9-]{0,31}"@,
        parts_pattern(seq![Part::Literal(s)]) == regex_literal(s),
        regex_literal(s + t) == regex_literal(s) + regex_literal(t),
        regex_literal(seq![]) == Seq::<char>::empty(),
        regex_literal(seq![c]) == if seq![
            '\\',
            '.',
            '+',
            '*',
            '?',
            '(',
            ')',
            '|',
            '[',
            ']',
            '{',
            '}',
            '^',
            '$',
            '#',
            '&',
            '-',
            '~',
        ].contains(c) {
            seq!['\\', c]
        } else {
            seq![c]
        },
        anchored_pattern(a) == seq!['^'] + parts_pattern(a) + seq!['$'],
{
    lemma_parts_pattern(a, b);
    lemma_regex_literal(s, t);
    assert(parts_pattern(Seq::empty()) =~= Seq::empty());
    lemma_one_part(Part::Slot(Slot::Canary));
    lemma_one_part(Part::Slot(Slot::Release));
    lemma_one_part(Part::Slot(Slot::Environment));
    lemma_one_part(Part::Literal(s));
    assert(regex_literal(Seq::empty()) =~= Seq::empty());
    let one = seq![c];
    assert(one.drop_last() =~= Seq::empty());
    assert(regex_literal(one) =~= if regex_meta(c) {
        seq!['\\', c]
    } else {
        seq![c]
    });
    let marks = seq![
        '\\',
        '.',
        '+',
        '*',
        '?',
        '(',
        ')',
        '|',
        '[',
        ']',
        '{',
        '}',
        '^',
        '$',
        '#',
        '&',
        '-',
        '~',
    ];
    assert(marks[0] == '\\' && marks[1] == '.' && marks[2] == '+' && marks[3] == '*' && marks[4]
        == '?' && marks[5] == '(' && marks[6] == ')' && marks[7] == '|' && marks[8] == '[');
    assert(marks[9] == ']' && marks[10] == '{' && marks[11] == '}' && marks[12] == '^' && marks[13]
        == '$' && marks[14] == '#' && marks[15] == '&' && marks[16] == '-' && marks[17] == '~');
    assert(marks.contains(c) <==> regex_meta(c));
    reveal_strlit("^");
    reveal_strlit("$");
    assert("^"@ =~= seq!['^']);
    assert("$"@ =~= seq!['$']);
}

proof fn lemma_one_part(part: Part)
    ensures
        parts_pattern(seq![part]) == part_pattern(part),
{
    let one = seq![part];
    assert(one.drop_last() =~= Seq::empty());
    assert(parts_pattern(Seq::empty()) =~= Seq::empty());
    assert(parts_pattern(one) =~= part_pattern(part));
}

proof fn lemma_parts_pattern(a: Seq<Part>, b: Seq<Part>)
    ensures
        parts_pattern(a + b) == parts_pattern(a) + parts_pattern(b),
    decreases b.len(),
{
    if b.len() == 0 {
        assert(a + b =~= a);
        assert(parts_pattern(a) + parts_pattern(b) =~= parts_pattern(a));
    } else {
        lemma_parts_pattern(a, b.drop_last());
        assert((a + b).drop_last() =~= a + b.drop_last());
        assert((a + b).last() == b.last());
        assert(parts_pattern(a + b) =~= parts_pattern(a) + parts_pattern(b));
    }
}

proof fn lemma_regex_literal(s: Seq<char>, t: Seq<char>)
    ensures
        regex_literal(s + t) == regex_literal(s) + regex_literal(t),
    decreases t.len(),
{
    if t.len() == 0 {
        assert(s + t =~= s);
        assert(regex_literal(s) + regex_literal(t) =~= regex_literal(s));
    } else {
        lemma_regex_literal(s, t.drop_last());
        assert((s + t).drop_last() =~= s + t.drop_last());
        assert((s + t).last() == t.last());
        assert(regex_literal(s + t) =~= regex_literal(s) + regex_literal(t));
    }
}

} // verus!
