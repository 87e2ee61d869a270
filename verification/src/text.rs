//! Text primitives shared by the rules: every function is stated over the
//! sequence of characters that a `str` or a `String` holds.
use vstd::prelude::*;
use vstd::string::*;
use vstd::utf8::encode_utf8;

verus! {

/// `str`'s equality compares two slices character by character.
pub assume_specification[ <str as PartialEq<str>>::eq ](left: &str, right: &str) -> (same: bool)
    ensures
        same == (left@ == right@),
;

/// `String::push` appends one character at the end.
pub assume_specification[ String::push ](target: &mut String, character: char)
    ensures
        final(target)@ == old(target)@.push(character),
;

/// The name given to what `str::to_lowercase` returns. The mapping follows the
/// Unicode tables, which the library does not restate.
pub uninterp spec fn unicode_lowercase(text: Seq<char>) -> Seq<char>;

/// `str::to_lowercase` depends on its text alone; nothing else is claimed of it.
#[verifier::external_body]
pub(crate) fn to_unicode_lowercase(text: &str) -> (lower: String)
    ensures
        lower@ == unicode_lowercase(text@),
{
    text.to_lowercase()
}

// ---------------------------------------------------------------------------
// Views of optional and repeated text
// ---------------------------------------------------------------------------

/// The characters of an optional text.
pub open spec fn opt(text: Option<String>) -> Option<Seq<char>> {
    match text {
        Some(value) => Some(value@),
        None => None,
    }
}

/// The characters of an optional borrowed text.
pub open spec fn opt_str(text: Option<&str>) -> Option<Seq<char>> {
    match text {
        Some(value) => Some(value@),
        None => None,
    }
}

/// The characters of every text of a list.
pub open spec fn texts(list: Seq<String>) -> Seq<Seq<char>> {
    Seq::new(list.len(), |i: int| list[i]@)
}

/// An optional text, borrowed.
pub fn borrow(text: &Option<String>) -> (borrowed: Option<&str>)
    ensures
        opt_str(borrowed) == opt(*text),
{
    match text {
        Some(found) => Some(found.as_str()),
        None => None,
    }
}

/// An owned copy of an optional text.
pub fn copy_opt(text: &Option<String>) -> (copy: Option<String>)
    ensures
        copy == *text,
{
    match text {
        Some(value) => Some(value.clone()),
        None => None,
    }
}

/// A copy of a list of texts.
pub fn copy_texts(list: &Vec<String>) -> (copy: Vec<String>)
    ensures
        copy@ == list@,
{
    let mut copy: Vec<String> = Vec::new();
    for i in 0..list.len()
        invariant
            copy@ == list@.take(i as int),
    {
        copy.push(list[i].clone());
        assert(list@.take(i + 1) == list@.take(i as int).push(list@[i as int]));
    }
    assert(list@.take(list@.len() as int) == list@);
    copy
}

/// Whether an optional text is present and reads `expected`.
pub fn opt_is(text: &Option<String>, expected: &str) -> (same: bool)
    ensures
        same == (opt(*text) == Some(expected@)),
{
    match text {
        Some(value) => *value.as_str() == *expected,
        None => false,
    }
}

/// Whether two optional texts are both absent or read alike.
pub fn opt_same(left: &Option<String>, right: &Option<String>) -> (same: bool)
    ensures
        same == (opt(*left) == opt(*right)),
{
    match (left, right) {
        (Some(a), Some(b)) => *a.as_str() == *b.as_str(),
        (None, None) => true,
        _ => false,
    }
}

/// Whether `list` holds a text that reads `wanted`.
pub fn any_is(list: &Vec<String>, wanted: &str) -> (found: bool)
    ensures
        found == texts(list@).contains(wanted@),
{
    for i in 0..list.len()
        invariant
            forall|j: int| 0 <= j < i ==> #[trigger] list@[j]@ != wanted@,
    {
        if *list[i].as_str() == *wanted {
            assert(texts(list@)[i as int] == wanted@);
            return true;
        }
    }
    assert forall|j: int| 0 <= j < texts(list@).len() implies texts(list@)[j] != wanted@ by {
        assert(list@[j]@ != wanted@);
    }
    false
}

// ---------------------------------------------------------------------------
// Characters
// ---------------------------------------------------------------------------

/// The Unicode `White_Space` property.
pub open spec fn white_space(c: char) -> bool {
    ||| 0x9 <= c as u32 <= 0xd
    ||| c as u32 == 0x20
    ||| c as u32 == 0x85
    ||| c as u32 == 0xa0
    ||| c as u32 == 0x1680
    ||| 0x2000 <= c as u32 <= 0x200a
    ||| c as u32 == 0x2028
    ||| c as u32 == 0x2029
    ||| c as u32 == 0x202f
    ||| c as u32 == 0x205f
    ||| c as u32 == 0x3000
}

/// Whether a character is white space.
pub fn is_white_space(c: char) -> (yes: bool)
    ensures
        yes == white_space(c),
{
    let code: u32 = c as u32;
    (0x9 <= code && code <= 0xd) || code == 0x20 || code == 0x85 || code == 0xa0 || code == 0x1680
        || (0x2000 <= code && code <= 0x200a) || code == 0x2028 || code == 0x2029 || code == 0x202f
        || code == 0x205f || code == 0x3000
}

pub open spec fn ascii_upper_letter(c: char) -> bool {
    'A' <= c <= 'Z'
}

pub open spec fn ascii_lower_letter(c: char) -> bool {
    'a' <= c <= 'z'
}

pub open spec fn ascii_digit(c: char) -> bool {
    '0' <= c <= '9'
}

/// A hexadecimal digit of either case.
pub open spec fn hex_digit(c: char) -> bool {
    ascii_digit(c) || 'a' <= c <= 'f' || 'A' <= c <= 'F'
}

/// The lower-case form of an ASCII letter, any other character as it is.
pub open spec fn lower_char(c: char) -> char {
    if ascii_upper_letter(c) {
        ((c as u32 + 32) as u32) as char
    } else {
        c
    }
}

/// The upper-case form of an ASCII letter, any other character as it is.
pub open spec fn upper_char(c: char) -> char {
    if ascii_lower_letter(c) {
        ((c as u32 - 32) as u32) as char
    } else {
        c
    }
}

pub open spec fn lower(text: Seq<char>) -> Seq<char> {
    Seq::new(text.len(), |i: int| lower_char(text[i]))
}

pub open spec fn upper(text: Seq<char>) -> Seq<char> {
    Seq::new(text.len(), |i: int| upper_char(text[i]))
}

fn lower_one(c: char) -> (r: char)
    ensures
        r == lower_char(c),
{
    if 'A' <= c && c <= 'Z' {
        (c as u8 + 32) as char
    } else {
        c
    }
}

fn upper_one(c: char) -> (r: char)
    ensures
        r == upper_char(c),
{
    if 'a' <= c && c <= 'z' {
        (c as u8 - 32) as char
    } else {
        c
    }
}

// ---------------------------------------------------------------------------
// Building and taking apart
// ---------------------------------------------------------------------------

/// The characters of a text, as a vector.
pub fn chars_of(text: &str) -> (characters: Vec<char>)
    ensures
        characters@ == text@,
{
    let mut characters: Vec<char> = Vec::new();
    for c in it: text.chars()
        invariant
            characters@ == text@.take(it.index()),
            it.seq() == text@,
    {
        characters.push(c);
    }
    characters
}

/// The number of bytes that the UTF-8 encoding of a text takes.
pub open spec fn utf8_len(text: Seq<char>) -> nat {
    encode_utf8(text).len()
}

/// The byte length of a text.
pub fn byte_len(text: &str) -> (length: usize)
    ensures
        length == utf8_len(text@),
{
    text.as_bytes().len()
}

/// The concatenation of two texts.
pub fn concat(left: &str, right: &str) -> (whole: String)
    ensures
        whole@ == left@ + right@,
{
    let mut whole = left.to_owned();
    whole.append(right);
    whole
}

/// The concatenation of three texts.
pub fn concat3(first: &str, second: &str, third: &str) -> (whole: String)
    ensures
        whole@ == first@ + second@ + third@,
{
    let mut whole = first.to_owned();
    whole.append(second);
    whole.append(third);
    whole
}

/// The concatenation of four texts.
pub fn concat4(first: &str, second: &str, third: &str, fourth: &str) -> (whole: String)
    ensures
        whole@ == first@ + second@ + third@ + fourth@,
{
    let mut whole = first.to_owned();
    whole.append(second);
    whole.append(third);
    whole.append(fourth);
    whole
}

/// The ASCII lower-case form of a text.
pub fn ascii_lowercase(text: &str) -> (result: String)
    ensures
        result@ == lower(text@),
{
    let mut result = String::new();
    for c in it: text.chars()
        invariant
            result@ == lower(text@.take(it.index())),
            it.seq() == text@,
    {
        result.push(lower_one(c));
    }
    result
}

/// The ASCII upper-case form of a text.
pub fn ascii_uppercase(text: &str) -> (result: String)
    ensures
        result@ == upper(text@),
{
    let mut result = String::new();
    for c in it: text.chars()
        invariant
            result@ == upper(text@.take(it.index())),
            it.seq() == text@,
    {
        result.push(upper_one(c));
    }
    result
}

/// Whether two texts read alike once ASCII letters are lower-cased.
pub fn same_ignoring_ascii_case(left: &str, right: &str) -> (same: bool)
    ensures
        same == (lower(left@) == lower(right@)),
{
    *ascii_lowercase(left).as_str() == *ascii_lowercase(right).as_str()
}

/// Whether `prefix` opens `text`.
pub open spec fn opens(text: Seq<char>, prefix: Seq<char>) -> bool {
    prefix.len() <= text.len() && text.take(prefix.len() as int) == prefix
}

/// Whether a text starts with a prefix.
pub fn starts_with(text: &str, prefix: &str) -> (yes: bool)
    ensures
        yes == opens(text@, prefix@),
{
    let whole = chars_of(text);
    let head = chars_of(prefix);
    if whole.len() < head.len() {
        return false;
    }
    occurs_here(&whole, &head, 0)
}

/// Whether `needle` stands in `text` at `at`.
pub open spec fn occurs_at(text: Seq<char>, needle: Seq<char>, at: int) -> bool {
    0 <= at && at + needle.len() <= text.len() && text.subrange(at, at + needle.len()) == needle
}

/// Whether `needle` stands somewhere in `text`.
pub open spec fn occurs(text: Seq<char>, needle: Seq<char>) -> bool {
    exists|at: int| occurs_at(text, needle, at)
}

fn occurs_here(whole: &Vec<char>, part: &Vec<char>, at: usize) -> (yes: bool)
    requires
        at + part@.len() <= whole@.len(),
    ensures
        yes == occurs_at(whole@, part@, at as int),
        at == 0 ==> yes == opens(whole@, part@),
{
    let total: usize = whole.len();
    for k in 0..part.len()
        invariant
            total == whole@.len(),
            at + part@.len() <= total,
            forall|j: int| 0 <= j < k ==> whole@[at + j] == part@[j],
    {
        if whole[at + k] != part[k] {
            assert(whole@.subrange(at as int, at + part@.len())[k as int] != part@[k as int]);
            assert(at == 0 ==> whole@.take(part@.len() as int)[k as int] != part@[k as int]);
            return false;
        }
    }
    assert(whole@.subrange(at as int, at + part@.len()) == part@);
    assert(at == 0 ==> whole@.take(part@.len() as int) == part@);
    true
}

/// Whether a text contains another.
pub fn contains(text: &str, needle: &str) -> (found: bool)
    ensures
        found == occurs(text@, needle@),
{
    let whole = chars_of(text);
    let part = chars_of(needle);
    if whole.len() < part.len() {
        return false;
    }
    let last: usize = whole.len() - part.len();
    for at in 0..last
        invariant
            whole@ == text@,
            part@ == needle@,
            last == whole@.len() - part@.len(),
            forall|j: int| 0 <= j < at ==> !occurs_at(text@, needle@, j),
    {
        if occurs_here(&whole, &part, at) {
            return true;
        }
    }
    occurs_here(&whole, &part, last)
}

/// The index of the first `mark` of a text, its length where there is none.
pub open spec fn position(text: Seq<char>, mark: char) -> int
    decreases text.len(),
{
    if text.len() == 0 {
        0
    } else if text[0] == mark {
        0
    } else {
        1 + position(text.skip(1), mark)
    }
}

/// `position` is the least index that holds `mark`.
pub proof fn lemma_position(text: Seq<char>, mark: char, at: int)
    requires
        0 <= at <= text.len(),
        forall|j: int| 0 <= j < at ==> text[j] != mark,
        at < text.len() ==> text[at] == mark,
    ensures
        position(text, mark) == at,
    decreases text.len(),
{
    if at > 0 {
        assert forall|j: int| 0 <= j < at - 1 implies text.skip(1)[j] != mark by {
            assert(text[j + 1] != mark);
        }
        lemma_position(text.skip(1), mark, at - 1);
    }
}

/// `position` lies within the text.
pub proof fn lemma_position_bound(text: Seq<char>, mark: char)
    ensures
        0 <= position(text, mark) <= text.len(),
        forall|j: int| 0 <= j < position(text, mark) ==> text[j] != mark,
        position(text, mark) < text.len() ==> text[position(text, mark)] == mark,
    decreases text.len(),
{
    if text.len() > 0 && text[0] != mark {
        lemma_position_bound(text.skip(1), mark);
        assert forall|j: int| 0 <= j < position(text, mark) implies text[j] != mark by {
            if j > 0 {
                assert(text.skip(1)[j - 1] != mark);
            }
        }
    }
}

fn find(characters: &Vec<char>, mark: char, from: usize) -> (at: usize)
    requires
        from <= characters@.len(),
    ensures
        from <= at <= characters@.len(),
        at == from + position(characters@.skip(from as int), mark),
{
    let mut at: usize = from;
    while at < characters.len() && characters[at] != mark
        invariant
            from <= at <= characters@.len(),
            forall|j: int| from <= j < at ==> characters@[j] != mark,
        decreases characters@.len() - at,
    {
        at = at + 1;
    }
    proof {
        let tail = characters@.skip(from as int);
        assert forall|j: int| 0 <= j < at - from implies tail[j] != mark by {
            assert(characters@[j + from] != mark);
        }
        lemma_position(tail, mark, at - from);
    }
    at
}

/// What stands before and after the first `mark`, where there is one.
pub fn split_once(text: &str, mark: char) -> (parts: Option<(&str, &str)>)
    ensures
        match parts {
            Some((head, tail)) => {
                &&& position(text@, mark) < text@.len()
                &&& head@ == text@.take(position(text@, mark))
                &&& tail@ == text@.skip(position(text@, mark) + 1)
            },
            None => position(text@, mark) == text@.len(),
        },
{
    let characters = chars_of(text);
    let at = find(&characters, mark, 0);
    assert(text@.skip(0) == text@);
    if at < characters.len() {
        let tail = text.substring_char(at + 1, characters.len());
        Some((text.substring_char(0, at), tail))
    } else {
        None
    }
}

/// The pieces of a text between its `mark`s.
pub open spec fn pieces(text: Seq<char>, mark: char) -> Seq<Seq<char>>
    decreases text.len(),
    via pieces_decreases
{
    if position(text, mark) < text.len() {
        seq![text.take(position(text, mark))] + pieces(
            text.skip(position(text, mark) + 1),
            mark,
        )
    } else {
        seq![text]
    }
}

#[via_fn]
proof fn pieces_decreases(text: Seq<char>, mark: char) {
    lemma_position_bound(text, mark);
}

/// Splits a text at every `mark`.
pub fn split(text: &str, mark: char) -> (parts: Vec<&str>)
    ensures
        parts@.len() == pieces(text@, mark).len(),
        forall|i: int| 0 <= i < parts@.len() ==> #[trigger] parts@[i]@ == pieces(text@, mark)[i],
{
    let characters = chars_of(text);
    let mut parts: Vec<&str> = Vec::new();
    let mut from: usize = 0;
    assert(text@.skip(0) == text@);
    loop
        invariant
            characters@ == text@,
            from <= text@.len(),
            pieces(text@, mark).len() == parts@.len() + pieces(text@.skip(from as int), mark).len(),
            forall|i: int|
                0 <= i < parts@.len() ==> #[trigger] parts@[i]@ == pieces(text@, mark)[i],
            pieces(text@, mark).skip(parts@.len() as int) == pieces(
                text@.skip(from as int),
                mark,
            ),
        decreases text@.len() - from,
    {
        let at = find(&characters, mark, from);
        let ghost rest = text@.skip(from as int);
        let ghost before = parts@;
        parts.push(text.substring_char(from, at));
        proof {
            lemma_position_bound(rest, mark);
            assert(parts@.last()@ == rest.take(position(rest, mark)));
            assert(pieces(rest, mark)[0] == parts@.last()@) by {
                assert(rest.take(rest.len() as int) == rest);
            }
            assert(pieces(text@, mark)[before.len() as int] == pieces(text@, mark).skip(
                before.len() as int,
            )[0]);
        }
        if at >= characters.len() {
            return parts;
        }
        proof {
            assert(rest.skip(position(rest, mark) + 1) == text@.skip(at + 1));
            assert(pieces(rest, mark).skip(1) == pieces(text@.skip(at + 1), mark));
            assert(pieces(text@, mark).skip(parts@.len() as int) == pieces(text@, mark).skip(
                before.len() as int,
            ).skip(1));
        }
        from = at + 1;
    }
}

/// What follows the last `mark` of a text, the whole text where there is none.
pub open spec fn after_last(text: Seq<char>, mark: char) -> Seq<char>
    decreases text.len(),
{
    if text.len() == 0 {
        text
    } else if text.last() == mark {
        Seq::empty()
    } else {
        after_last(text.drop_last(), mark).push(text.last())
    }
}

/// The last piece of a text.
pub fn last_piece(text: &str, mark: char) -> (piece: &str)
    ensures
        piece@ == after_last(text@, mark),
{
    let characters = chars_of(text);
    let mut from: usize = characters.len();
    assert(text@.take(text@.len() as int) == text@);
    assert(text@.skip(text@.len() as int) == Seq::<char>::empty());
    assert(after_last(text@, mark) == after_last(text@.take(from as int), mark) + text@.skip(
        from as int,
    ));
    while from > 0 && characters[from - 1] != mark
        invariant
            characters@ == text@,
            from <= text@.len(),
            after_last(text@, mark) == after_last(text@.take(from as int), mark) + text@.skip(
                from as int,
            ),
        decreases from,
    {
        proof {
            assert(text@.take(from as int).drop_last() == text@.take(from - 1));
            assert(text@.skip(from - 1) == seq![text@[from - 1]] + text@.skip(from as int));
        }
        from = from - 1;
    }
    text.substring_char(from, characters.len())
}

// ---------------------------------------------------------------------------
// White space
// ---------------------------------------------------------------------------

/// A text without its leading white space.
pub open spec fn trimmed_start(text: Seq<char>) -> Seq<char>
    decreases text.len(),
{
    if text.len() > 0 && white_space(text[0]) {
        trimmed_start(text.skip(1))
    } else {
        text
    }
}

/// A text without its trailing white space.
pub open spec fn trimmed_end(text: Seq<char>) -> Seq<char>
    decreases text.len(),
{
    if text.len() > 0 && white_space(text.last()) {
        trimmed_end(text.drop_last())
    } else {
        text
    }
}

/// A text without the white space on either side.
pub open spec fn trimmed(text: Seq<char>) -> Seq<char> {
    trimmed_end(trimmed_start(text))
}

/// The text without leading white space.
pub fn trim_start(text: &str) -> (result: &str)
    ensures
        result@ == trimmed_start(text@),
{
    let characters = chars_of(text);
    let mut from: usize = 0;
    assert(text@.skip(0) == text@);
    while from < characters.len() && is_white_space(characters[from])
        invariant
            characters@ == text@,
            from <= text@.len(),
            trimmed_start(text@) == trimmed_start(text@.skip(from as int)),
        decreases text@.len() - from,
    {
        assert(text@.skip(from as int).skip(1) == text@.skip(from + 1));
        from = from + 1;
    }
    text.substring_char(from, characters.len())
}

fn trim_end(text: &str) -> (result: &str)
    ensures
        result@ == trimmed_end(text@),
{
    let characters = chars_of(text);
    let mut to: usize = characters.len();
    assert(text@.take(text@.len() as int) == text@);
    while to > 0 && is_white_space(characters[to - 1])
        invariant
            characters@ == text@,
            to <= text@.len(),
            trimmed_end(text@) == trimmed_end(text@.take(to as int)),
        decreases to,
    {
        assert(text@.take(to as int).drop_last() == text@.take(to - 1));
        to = to - 1;
    }
    text.substring_char(0, to)
}

/// The text without leading or trailing white space.
pub fn trim(text: &str) -> (result: &str)
    ensures
        result@ == trimmed(text@),
{
    trim_end(trim_start(text))
}

/// The leading run of characters that are not white space.
pub open spec fn leading_word(text: Seq<char>) -> Seq<char>
    decreases text.len(),
{
    if text.len() == 0 || white_space(text[0]) {
        Seq::empty()
    } else {
        seq![text[0]] + leading_word(text.skip(1))
    }
}

/// The run of characters up to the first white space.
pub fn take_word(text: &str) -> (word: &str)
    ensures
        word@ == leading_word(text@),
{
    let characters = chars_of(text);
    let mut to: usize = 0;
    assert(text@.skip(0) == text@);
    assert(text@.take(0) == Seq::<char>::empty());
    while to < characters.len() && !is_white_space(characters[to])
        invariant
            characters@ == text@,
            to <= text@.len(),
            leading_word(text@) == text@.take(to as int) + leading_word(text@.skip(to as int)),
        decreases text@.len() - to,
    {
        proof {
            assert(text@.skip(to as int).skip(1) == text@.skip(to + 1));
            assert(text@.take(to + 1) == text@.take(to as int) + seq![text@[to as int]]);
        }
        to = to + 1;
    }
    text.substring_char(0, to)
}

// ---------------------------------------------------------------------------
// Character classes
// ---------------------------------------------------------------------------

/// Whether every character is an upper-case ASCII letter or `_`.
pub open spec fn shouting(text: Seq<char>) -> bool {
    forall|i: int| 0 <= i < text.len() ==> ascii_upper_letter(#[trigger] text[i]) || text[i] == '_'
}

/// Whether a text holds upper-case ASCII letters and `_` only.
pub fn is_shouting(text: &str) -> (yes: bool)
    ensures
        yes == shouting(text@),
{
    let characters = chars_of(text);
    for i in 0..characters.len()
        invariant
            characters@ == text@,
            forall|j: int|
                0 <= j < i ==> ascii_upper_letter(#[trigger] text@[j]) || text@[j] == '_',
    {
        let c = characters[i];
        if !(('A' <= c && c <= 'Z') || c == '_') {
            return false;
        }
    }
    true
}

/// Whether every character is a hexadecimal digit.
pub open spec fn all_hex(text: Seq<char>) -> bool {
    forall|i: int| 0 <= i < text.len() ==> hex_digit(#[trigger] text[i])
}

/// Whether a text holds hexadecimal digits only.
pub fn is_hex(text: &str) -> (yes: bool)
    ensures
        yes == all_hex(text@),
{
    let characters = chars_of(text);
    for i in 0..characters.len()
        invariant
            characters@ == text@,
            forall|j: int| 0 <= j < i ==> hex_digit(#[trigger] text@[j]),
    {
        let c = characters[i];
        if !(('0' <= c && c <= '9') || ('a' <= c && c <= 'f') || ('A' <= c && c <= 'F')) {
            return false;
        }
    }
    true
}

// ---------------------------------------------------------------------------
// Decimal numbers
// ---------------------------------------------------------------------------

/// Whether every character is a decimal digit.
pub open spec fn all_digits(text: Seq<char>) -> bool {
    forall|i: int| 0 <= i < text.len() ==> ascii_digit(#[trigger] text[i])
}

/// The number that decimal digits denote.
pub open spec fn decimal_value(digits: Seq<char>) -> nat
    decreases digits.len(),
{
    if digits.len() == 0 {
        0
    } else {
        (decimal_value(digits.drop_last()) * 10 + (digits.last() as u32 - '0' as u32)) as nat
    }
}

/// The digits of a text, without the one `+` that may stand before them.
pub open spec fn unsigned_digits(text: Seq<char>) -> Seq<char> {
    if text.len() > 0 && text[0] == '+' {
        text.skip(1)
    } else {
        text
    }
}

/// The number that a text denotes, where it is decimal and fits in 64 bits.
pub open spec fn number_in(text: Seq<char>) -> Option<u64> {
    let digits = unsigned_digits(text);
    if digits.len() > 0 && all_digits(digits) && decimal_value(digits) <= u64::MAX {
        Some(decimal_value(digits) as u64)
    } else {
        None
    }
}

/// A prefix of digits never denotes more than the whole.
proof fn lemma_decimal_grows(digits: Seq<char>, to: int)
    requires
        all_digits(digits),
        0 <= to <= digits.len(),
    ensures
        decimal_value(digits.take(to)) <= decimal_value(digits),
    decreases digits.len() - to,
{
    if to < digits.len() {
        lemma_decimal_grows(digits, to + 1);
        assert(digits.take(to + 1).drop_last() == digits.take(to));
        assert(ascii_digit(digits[to]));
    } else {
        assert(digits.take(to) == digits);
    }
}

/// Reads an unsigned decimal number.
pub fn parse_u64(text: &str) -> (number: Option<u64>)
    ensures
        number == number_in(text@),
{
    let characters = chars_of(text);
    let mut i: usize = 0;
    if characters.len() > 0 && characters[0] == '+' {
        i = 1;
    }
    let ghost digits = unsigned_digits(text@);
    let from: usize = i;
    assert(digits == text@.skip(from as int));
    if i == characters.len() {
        return None;
    }
    let mut value: u64 = 0;
    assert(digits.take(0) == Seq::<char>::empty());
    while i < characters.len()
        invariant
            characters@ == text@,
            from <= i <= text@.len(),
            digits == text@.skip(from as int),
            digits == unsigned_digits(text@),
            value == decimal_value(digits.take(i - from)),
            forall|j: int| 0 <= j < i - from ==> ascii_digit(#[trigger] digits[j]),
        decreases text@.len() - i,
    {
        let c = characters[i];
        assert(c == digits[i - from]);
        if !('0' <= c && c <= '9') {
            return None;
        }
        let digit: u64 = (c as u32 - '0' as u32) as u64;
        proof {
            assert(digits.take(i - from + 1).drop_last() == digits.take(i - from));
            assert(decimal_value(digits.take(i - from + 1)) == value * 10 + digit);
            if all_digits(digits) {
                lemma_decimal_grows(digits, i - from + 1);
            }
        }
        if value > u64::MAX / 10 || value * 10 > u64::MAX - digit {
            return None;
        }
        value = value * 10 + digit;
        i = i + 1;
    }
    assert(digits.take(i - from) == digits);
    Some(value)
}

/// The decimal digits of a number, without leading zeros.
pub open spec fn decimal(number: nat) -> Seq<char>
    decreases number,
{
    if number < 10 {
        seq![digit_char(number)]
    } else {
        decimal(number / 10).push(digit_char(number % 10))
    }
}

/// The character of a decimal digit.
pub open spec fn digit_char(digit: nat) -> char {
    ('0' as u32 + digit) as char
}

/// Reading back the decimal digits of a number gives the number.
pub proof fn lemma_decimal_round_trip(number: nat)
    ensures
        decimal(number).len() > 0,
        all_digits(decimal(number)),
        decimal_value(decimal(number)) == number,
    decreases number,
{
    if number < 10 {
        let single = decimal(number);
        assert(single.drop_last() == Seq::<char>::empty());
        assert(decimal_value(single.drop_last()) == 0);
    } else {
        lemma_decimal_round_trip(number / 10);
        let whole = decimal(number);
        assert(whole.drop_last() == decimal(number / 10));
        assert forall|i: int| 0 <= i < whole.len() implies ascii_digit(#[trigger] whole[i]) by {
            if i < whole.len() - 1 {
                assert(whole[i] == decimal(number / 10)[i]);
            }
        }
    }
}

/// The decimal form of a number.
pub fn decimal_text(number: u64) -> (result: String)
    ensures
        result@ == decimal(number as nat),
    decreases number,
{
    if number < 10 {
        let mut result = String::new();
        result.push((48u8 + number as u8) as char);
        result
    } else {
        let mut result = decimal_text(number / 10);
        result.push((48u8 + (number % 10) as u8) as char);
        result
    }
}

// ---------------------------------------------------------------------------
// Joining and ordering
// ---------------------------------------------------------------------------

/// The texts of a list with `separator` between neighbours.
pub open spec fn joined(list: Seq<Seq<char>>, separator: Seq<char>) -> Seq<char>
    decreases list.len(),
{
    if list.len() == 0 {
        Seq::empty()
    } else if list.len() == 1 {
        list[0]
    } else {
        joined(list.drop_last(), separator) + separator + list.last()
    }
}

/// Joins texts with a separator.
pub fn join(list: &Vec<String>, separator: &str) -> (result: String)
    ensures
        result@ == joined(texts(list@), separator@),
{
    let mut result = String::new();
    for i in 0..list.len()
        invariant
            result@ == joined(texts(list@).take(i as int), separator@),
    {
        proof {
            assert(texts(list@).take(i + 1).drop_last() == texts(list@).take(i as int));
        }
        if i > 0 {
            result.append(separator);
        }
        result.append(list[i].as_str());
        proof {
            if i == 0 {
                assert(result@ == list@[0]@);
            }
        }
    }
    assert(texts(list@).take(list@.len() as int) == texts(list@));
    result
}

/// The lexicographic order of texts by code point, which is also the order of
/// their UTF-8 bytes.
pub open spec fn before(left: Seq<char>, right: Seq<char>) -> bool
    decreases left.len(),
{
    if right.len() == 0 {
        false
    } else if left.len() == 0 {
        true
    } else if left[0] != right[0] {
        left[0] < right[0]
    } else {
        before(left.skip(1), right.skip(1))
    }
}

/// Whether one text sorts strictly before another.
pub fn sorts_before(left: &str, right: &str) -> (yes: bool)
    ensures
        yes == before(left@, right@),
{
    let a = chars_of(left);
    let b = chars_of(right);
    let mut i: usize = 0;
    assert(left@.skip(0) == left@);
    assert(right@.skip(0) == right@);
    while i < a.len() && i < b.len() && a[i] == b[i]
        invariant
            a@ == left@,
            b@ == right@,
            i <= left@.len(),
            i <= right@.len(),
            before(left@, right@) == before(left@.skip(i as int), right@.skip(i as int)),
        decreases left@.len() - i,
    {
        proof {
            assert(left@.skip(i as int).skip(1) == left@.skip(i + 1));
            assert(right@.skip(i as int).skip(1) == right@.skip(i + 1));
        }
        i = i + 1;
    }
    if i >= b.len() {
        false
    } else if i >= a.len() {
        true
    } else {
        a[i] < b[i]
    }
}

/// `before` is a strict total order on texts.
pub proof fn lemma_before_is_total(left: Seq<char>, right: Seq<char>)
    ensures
        !(before(left, right) && before(right, left)),
        left == right ==> !before(left, right),
        left != right ==> before(left, right) || before(right, left),
    decreases left.len(),
{
    if left.len() > 0 && right.len() > 0 && left[0] == right[0] {
        lemma_before_is_total(left.skip(1), right.skip(1));
        if left.skip(1) == right.skip(1) {
            assert(left == seq![left[0]] + left.skip(1));
            assert(right == seq![right[0]] + right.skip(1));
        }
    } else if left.len() == 0 && right.len() == 0 {
        assert(left == right);
    }
}

/// `before` is transitive, and so is its negation.
pub proof fn lemma_before_is_transitive(first: Seq<char>, second: Seq<char>, third: Seq<char>)
    ensures
        before(first, second) && before(second, third) ==> before(first, third),
        !before(second, first) && !before(third, second) ==> !before(third, first),
    decreases first.len(),
{
    if first.len() > 0 && second.len() > 0 && third.len() > 0 {
        lemma_before_is_transitive(first.skip(1), second.skip(1), third.skip(1));
    }
}

proof fn lemma_trimmed_start(text: Seq<char>)
    ensures
        trimmed_start(text).len() <= text.len(),
        trimmed_start(text) == text.skip(text.len() - trimmed_start(text).len()),
        trimmed_start(text).len() > 0 ==> !white_space(trimmed_start(text)[0]),
        forall|i: int|
            0 <= i < text.len() - trimmed_start(text).len() ==> white_space(#[trigger] text[i]),
    decreases text.len(),
{
    if text.len() > 0 && white_space(text[0]) {
        let rest = text.skip(1);
        lemma_trimmed_start(rest);
        let cut = text.len() - trimmed_start(text).len();
        assert(trimmed_start(text) =~= text.skip(cut));
        assert forall|i: int| 0 <= i < cut implies white_space(#[trigger] text[i]) by {
            if i > 0 {
                assert(rest[i - 1] == text[i]);
            }
        }
    } else {
        assert(text.skip(0) =~= text);
    }
}

proof fn lemma_trimmed_end(text: Seq<char>)
    ensures
        trimmed_end(text).len() <= text.len(),
        trimmed_end(text) == text.take(trimmed_end(text).len() as int),
        trimmed_end(text).len() > 0 ==> !white_space(trimmed_end(text).last()),
        forall|i: int|
            trimmed_end(text).len() <= i < text.len() ==> white_space(#[trigger] text[i]),
    decreases text.len(),
{
    if text.len() > 0 && white_space(text.last()) {
        let rest = text.drop_last();
        lemma_trimmed_end(rest);
        assert(trimmed_end(text) =~= text.take(trimmed_end(text).len() as int));
        assert forall|i: int| trimmed_end(text).len() <= i < text.len() implies white_space(
            #[trigger] text[i],
        ) by {
            if i < rest.len() {
                assert(rest[i] == text[i]);
            }
        }
    } else {
        assert(text.take(text.len() as int) =~= text);
    }
}

/// A trimmed text is the text without the white space around it: it begins and ends
/// with something else, and nothing but white space was taken away.
pub proof fn law_trimming_takes_the_space_around(text: Seq<char>)
    ensures
        trimmed(text).len() > 0 ==> !white_space(trimmed(text)[0]) && !white_space(
            trimmed(text).last(),
        ),
        exists|from: int|
            0 <= from <= from + trimmed(text).len() <= text.len() && trimmed(text)
                == #[trigger] text.subrange(from, from + trimmed(text).len()) && (forall|i: int|
                0 <= i < from ==> white_space(#[trigger] text[i])) && (forall|i: int|
                from + trimmed(text).len() <= i < text.len() ==> white_space(#[trigger] text[i])),
{
    lemma_trimmed_start(text);
    let start = trimmed_start(text);
    lemma_trimmed_end(start);
    let from = text.len() - start.len();
    let rest = trimmed(text);
    assert(rest =~= text.subrange(from, from + rest.len()));
    assert forall|i: int| from + rest.len() <= i < text.len() implies white_space(
        #[trigger] text[i],
    ) by {
        assert(start[i - from] == text[i]);
    }
    if rest.len() > 0 {
        assert(rest[0] == start[0]);
    }
}

/// Letters in upper or lower case are those of the alphabet, and nothing else of a
/// text changes.
pub proof fn law_case_changes_letters_alone(text: Seq<char>, i: int)
    requires
        0 <= i < text.len(),
    ensures
        lower(text).len() == text.len() && upper(text).len() == text.len(),
        !('A' <= text[i] <= 'Z') ==> lower(text)[i] == text[i],
        !('a' <= text[i] <= 'z') ==> upper(text)[i] == text[i],
        'A' <= text[i] <= 'Z' ==> 'a' <= lower(text)[i] <= 'z' && lower(text)[i] as u32
            == text[i] as u32 + 32,
        'a' <= text[i] <= 'z' ==> 'A' <= upper(text)[i] <= 'Z' && upper(text)[i] as u32 + 32
            == text[i] as u32,
{
}

/// A number is read as it is written: what is written of a number reads back as it.
pub proof fn law_numbers_read_back(number: nat)
    requires
        number <= u64::MAX,
    ensures
        all_digits(decimal(number)) && decimal(number).len() > 0,
        decimal_value(decimal(number)) == number,
        number_in(decimal(number)) == Some(number as u64),
    decreases number,
{
    lemma_decimal_round_trip(number);
    let written = decimal(number);
    assert(written.len() > 0);
    assert(ascii_digit(written[0]));
    assert(unsigned_digits(written) == written);
}

/// Texts that are joined stand in their order with the separator between them.
pub proof fn law_joined_texts_stand_in_order(
    list: Seq<Seq<char>>,
    next: Seq<char>,
    separator: Seq<char>,
)
    ensures
        joined(Seq::empty(), separator).len() == 0,
        list.len() == 0 ==> joined(list.push(next), separator) == next,
        list.len() > 0 ==> joined(list.push(next), separator) == joined(list, separator) + separator
            + next,
{
    assert(list.push(next).drop_last() =~= list);
}

/// Texts stand in the order of their first characters that differ, the shorter of
/// two that do not differ first; of two texts that are not the same one stands
/// before the other.
pub proof fn law_texts_are_ordered(left: Seq<char>, right: Seq<char>)
    ensures
        left.len() > 0 && right.len() > 0 && left[0] < right[0] ==> before(left, right) && !before(
            right,
            left,
        ),
        left.len() == 0 && right.len() > 0 ==> before(left, right),
        !before(left, left),
        left != right ==> (before(left, right) <==> !before(right, left)),
{
    lemma_before_is_total(left, right);
    lemma_before_is_total(left, left);
}

} // verus!
