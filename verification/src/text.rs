//! Text as sequences of characters: decimal numbers, prefixes, substrings,
//! ASCII case and white space.

use vstd::prelude::*;

verus! {

/// `String::push` appends one character at the end.
pub assume_specification[ String::push ](text: &mut String, c: char)
    ensures
        final(text)@ == old(text)@.push(c),
;

/// `str::eq` compares two strings character by character.
pub assume_specification[ <str as PartialEq<str>>::eq ](a: &str, b: &str) -> (same: bool)
    ensures
        same == (a@ == b@),
;

/// Whether two strings hold the same characters.
pub fn same_text(a: &str, b: &str) -> (same: bool)
    ensures
        same == (a@ == b@),
{
    a.eq(b)
}

/// The characters of a string.
pub fn chars_of(text: &str) -> (chars: Vec<char>)
    ensures
        chars@ == text@,
{
    let mut chars: Vec<char> = Vec::new();
    for c in it: text.chars()
        invariant
            it.seq() == text@,
            chars@ == it.seq().take(it.index() as int),
    {
        chars.push(c);
        assert(chars@ =~= it.seq().take(it.index() + 1));
    }
    assert(chars@ =~= text@);
    chars
}

/// The string made of the given characters.
pub fn text_of(chars: &Vec<char>) -> (text: String)
    ensures
        text@ == chars@,
{
    let mut text = String::new();
    let mut i: usize = 0;
    while i < chars.len()
        invariant
            i <= chars.len(),
            text@ == chars@.take(i as int),
        decreases chars.len() - i,
    {
        text.push(chars[i]);
        i += 1;
        assert(text@ =~= chars@.take(i as int));
    }
    assert(text@ =~= chars@);
    text
}

/// A new string holding `a` followed by `b`.
pub fn joined(a: &str, b: &str) -> (text: String)
    ensures
        text@ == a@ + b@,
{
    let mut text = a.to_owned();
    text.append(b);
    text
}

/// The text `true` or `false`.
pub open spec fn bool_chars(value: bool) -> Seq<char> {
    if value {
        "true"@
    } else {
        "false"@
    }
}

/// Writes a truth value.
pub fn bool_text(value: bool) -> (text: String)
    ensures
        text@ == bool_chars(value),
{
    if value {
        "true".to_owned()
    } else {
        "false".to_owned()
    }
}

/// The characters of an optional string.
pub open spec fn opt_chars(text: Option<String>) -> Option<Seq<char>> {
    match text {
        Some(text) => Some(text@),
        None => None,
    }
}

/// The characters of an optional string slice.
pub open spec fn opt_str_chars(text: Option<&str>) -> Option<Seq<char>> {
    match text {
        Some(text) => Some(text@),
        None => None,
    }
}

/// The characters of each string of a list.
pub open spec fn chars_list(list: Seq<String>) -> Seq<Seq<char>> {
    Seq::new(list.len(), |i: int| list[i]@)
}

/// A copy of an optional string.
pub fn clone_opt(text: &Option<String>) -> (copy: Option<String>)
    ensures
        copy == *text,
        opt_chars(copy) == opt_chars(*text),
{
    match text {
        Some(text) => Some(text.clone()),
        None => None,
    }
}

/// An owned copy of an optional string slice.
pub fn own_opt(text: Option<&str>) -> (copy: Option<String>)
    ensures
        opt_chars(copy) == opt_str_chars(text),
{
    match text {
        Some(text) => Some(text.to_owned()),
        None => None,
    }
}

/// Whether an optional string is present and reads `expected`.
pub fn opt_reads(text: &Option<String>, expected: &str) -> (reads: bool)
    ensures
        reads == (opt_chars(*text) == Some(expected@)),
{
    match text {
        Some(text) => same_text(text.as_str(), expected),
        None => false,
    }
}

/// A copy of a list of strings.
pub fn clone_list(list: &Vec<String>) -> (copy: Vec<String>)
    ensures
        copy@ == list@,
{
    let mut copy: Vec<String> = Vec::new();
    let mut i: usize = 0;
    while i < list.len()
        invariant
            i <= list.len(),
            copy@ == list@.take(i as int),
        decreases list.len() - i,
    {
        copy.push(list[i].clone());
        i += 1;
        assert(copy@ =~= list@.take(i as int));
    }
    assert(copy@ =~= list@);
    copy
}

/// The place of the first string of a list that reads `wanted`.
pub fn position_of(list: &Vec<String>, wanted: &str) -> (place: Option<usize>)
    ensures
        match place {
            Some(i) => {
                &&& i < list.len()
                &&& list[i as int]@ == wanted@
                &&& forall|j: int| 0 <= j < i ==> #[trigger] list[j]@ != wanted@
            },
            None => forall|j: int| 0 <= j < list.len() ==> #[trigger] list[j]@ != wanted@,
        },
{
    let mut i: usize = 0;
    while i < list.len()
        invariant
            i <= list.len(),
            forall|j: int| 0 <= j < i ==> #[trigger] list[j]@ != wanted@,
        decreases list.len() - i,
    {
        if same_text(list[i].as_str(), wanted) {
            return Some(i);
        }
        i += 1;
    }
    None
}

// ---------------------------------------------------------------------------
// Decimal numbers
// ---------------------------------------------------------------------------

/// The decimal digit of a value below ten.
pub open spec fn digit_char(value: int) -> char {
    (48 + value) as char
}

/// Whether a character is an ASCII digit.
pub open spec fn is_digit(c: char) -> bool {
    '0' <= c && c <= '9'
}

/// The value of a decimal digit.
pub open spec fn digit_value(c: char) -> int {
    c as int - 48
}

/// A number in decimal, without leading zeros.
pub open spec fn decimal(n: nat) -> Seq<char>
    decreases n,
{
    if n < 10 {
        seq![digit_char(n as int)]
    } else {
        decimal(n / 10).push(digit_char((n % 10) as int))
    }
}

/// The value of a run of decimal digits, most significant digit first.
pub open spec fn decimal_value(digits: Seq<char>) -> int
    decreases digits.len(),
{
    if digits.len() == 0 {
        0
    } else {
        decimal_value(digits.drop_last()) * 10 + digit_value(digits.last())
    }
}

/// Whether every character is an ASCII digit.
pub open spec fn all_digits(text: Seq<char>) -> bool {
    forall|i: int| 0 <= i < text.len() ==> is_digit(#[trigger] text[i])
}

/// The digits of an unsigned number: an optional plus sign is passed over.
pub open spec fn unsigned_digits(text: Seq<char>) -> Seq<char> {
    if text.len() > 0 && text[0] == '+' {
        text.drop_first()
    } else {
        text
    }
}

/// The unsigned number that a text spells, if it spells one that is at most
/// `max`: an optional plus sign followed by at least one ASCII digit.
pub open spec fn parsed_unsigned(text: Seq<char>, max: int) -> Option<int> {
    let digits = unsigned_digits(text);
    if digits.len() > 0 && all_digits(digits) && decimal_value(digits) <= max {
        Some(decimal_value(digits))
    } else {
        None
    }
}

proof fn lemma_decimal_value_nonneg(digits: Seq<char>)
    requires
        all_digits(digits),
    ensures
        decimal_value(digits) >= 0,
    decreases digits.len(),
{
    if digits.len() > 0 {
        assert(all_digits(digits.drop_last()));
        lemma_decimal_value_nonneg(digits.drop_last());
        assert(is_digit(digits[digits.len() - 1]));
    }
}

proof fn lemma_decimal_value_prefix(digits: Seq<char>, i: int)
    requires
        all_digits(digits),
        0 <= i <= digits.len(),
    ensures
        decimal_value(digits.take(i)) <= decimal_value(digits),
    decreases digits.len() - i,
{
    if i == digits.len() {
        assert(digits.take(i) =~= digits);
    } else {
        let next = digits.take(i + 1);
        assert(next.drop_last() =~= digits.take(i));
        assert(all_digits(digits.take(i)));
        lemma_decimal_value_nonneg(digits.take(i));
        assert(is_digit(digits[i]));
        lemma_decimal_value_prefix(digits, i + 1);
    }
}

/// Decimal text is made of digits only and reads back as the number.
pub proof fn decimal_reads_back(n: nat)
    ensures
        decimal(n).len() > 0,
        all_digits(decimal(n)),
        decimal_value(decimal(n)) == n,
        unsigned_digits(decimal(n)) == decimal(n),
    decreases n,
{
    let text = decimal(n);
    if n < 10 {
        assert(text.drop_last() =~= Seq::<char>::empty());
        assert(decimal_value(text.drop_last()) == 0);
    } else {
        decimal_reads_back(n / 10);
        assert(text.drop_last() =~= decimal(n / 10));
    }
}

/// A number written in decimal parses to itself wherever it is in range.
pub proof fn decimal_parses_to_itself(n: nat, max: int)
    requires
        n <= max,
    ensures
        parsed_unsigned(decimal(n), max) == Some(n as int),
{
    decimal_reads_back(n);
}

/// Writes a number in decimal.
pub fn decimal_text(n: u64) -> (text: String)
    ensures
        text@ == decimal(n as nat),
    decreases n,
{
    let mut text = if n < 10 {
        String::new()
    } else {
        decimal_text(n / 10)
    };
    let digit: u8 = (n % 10) as u8;
    text.push((48u8 + digit) as char);
    assert(n < 10 ==> text@ =~= seq![digit_char(n as int)]);
    text
}

/// A signed number in decimal.
pub open spec fn signed_decimal(n: int) -> Seq<char> {
    if n < 0 {
        "-"@ + decimal((-n) as nat)
    } else {
        decimal(n as nat)
    }
}

/// Writes a signed number in decimal.
pub fn signed_text(n: i32) -> (text: String)
    ensures
        text@ == signed_decimal(n as int),
{
    let wide: i64 = n as i64;
    if wide < 0 {
        joined("-", decimal_text((-wide) as u64).as_str())
    } else {
        decimal_text(wide as u64)
    }
}

/// Reads an unsigned 64-bit number.
pub fn parse_u64(text: &str) -> (value: Option<u64>)
    ensures
        match value {
            Some(value) => parsed_unsigned(text@, u64::MAX as int) == Some(value as int),
            None => parsed_unsigned(text@, u64::MAX as int) is None,
        },
{
    let chars = chars_of(text);
    let start: usize = if chars.len() > 0 && chars[0] == '+' {
        1
    } else {
        0
    };
    let ghost digits = unsigned_digits(text@);
    assert(digits =~= chars@.subrange(start as int, chars.len() as int));
    if start == chars.len() {
        return None;
    }
    let mut value: u64 = 0;
    let mut i: usize = start;
    while i < chars.len()
        invariant
            start <= i <= chars.len(),
            start <= 1,
            digits == chars@.subrange(start as int, chars.len() as int),
            digits == unsigned_digits(text@),
            all_digits(digits.take(i - start)),
            value == decimal_value(digits.take(i - start)),
        decreases chars.len() - i,
    {
        let c = chars[i];
        assert(c == digits[i - start]);
        if !(c >= '0' && c <= '9') {
            return None;
        }
        let ghost shorter = digits.take(i - start);
        let ghost longer = digits.take(i - start + 1);
        assert(longer.drop_last() =~= shorter);
        assert(all_digits(longer));
        let digit: u64 = (c as u64) - 48;
        proof {
            if all_digits(digits) {
                lemma_decimal_value_prefix(digits, i - start + 1);
            }
        }
        value = match value.checked_mul(10) {
            Some(tens) => match tens.checked_add(digit) {
                Some(sum) => sum,
                None => {
                    return None;
                },
            },
            None => {
                return None;
            },
        };
        i += 1;
    }
    assert(digits.take(chars.len() - start) =~= digits);
    Some(value)
}

/// Reads an unsigned 32-bit number.
pub fn parse_u32(text: &str) -> (value: Option<u32>)
    ensures
        match value {
            Some(value) => parsed_unsigned(text@, u32::MAX as int) == Some(value as int),
            None => parsed_unsigned(text@, u32::MAX as int) is None,
        },
{
    match parse_u64(text) {
        Some(value) if value <= 0xffff_ffff => Some(value as u32),
        _ => None,
    }
}

// ---------------------------------------------------------------------------
// Prefixes and substrings
// ---------------------------------------------------------------------------

/// Whether a text starts with another.
pub open spec fn has_prefix(text: Seq<char>, prefix: Seq<char>) -> bool {
    prefix.len() <= text.len() && text.take(prefix.len() as int) == prefix
}

/// Whether a text holds another at the given place.
pub open spec fn occurs_at(text: Seq<char>, part: Seq<char>, at: int) -> bool {
    0 <= at <= text.len() - part.len() && text.subrange(at, at + part.len()) == part
}

/// Whether a text holds another somewhere.
pub open spec fn has_part(text: Seq<char>, part: Seq<char>) -> bool {
    exists|at: int| occurs_at(text, part, at)
}

fn chars_occur_at(chars: &Vec<char>, part: &Vec<char>, at: usize) -> (found: bool)
    requires
        at + part.len() <= chars.len(),
    ensures
        found == occurs_at(chars@, part@, at as int),
{
    let mut i: usize = 0;
    while i < part.len()
        invariant
            i <= part.len(),
            at + part.len() <= chars.len(),
            forall|j: int| 0 <= j < i ==> chars[at + j] == part[j],
        decreases part.len() - i,
    {
        if chars[at + i] != part[i] {
            assert(chars@.subrange(at as int, at + part.len())[i as int] != part[i as int]);
            return false;
        }
        i += 1;
    }
    assert(chars@.subrange(at as int, at + part.len()) =~= part@);
    true
}

/// Whether `text` starts with `prefix`.
pub fn starts_with(text: &str, prefix: &str) -> (found: bool)
    ensures
        found == has_prefix(text@, prefix@),
{
    let chars = chars_of(text);
    let part = chars_of(prefix);
    if part.len() > chars.len() {
        return false;
    }
    assert(chars@.take(part.len() as int) =~= chars@.subrange(0, 0 + part.len()));
    chars_occur_at(&chars, &part, 0)
}

/// What follows `prefix` at the start of `text`.
pub fn strip_prefix(text: &str, prefix: &str) -> (rest: Option<String>)
    ensures
        match rest {
            Some(rest) => has_prefix(text@, prefix@) && rest@ == text@.skip(prefix@.len() as int),
            None => !has_prefix(text@, prefix@),
        },
{
    if !starts_with(text, prefix) {
        return None;
    }
    let from: usize = prefix.unicode_len();
    let to: usize = text.unicode_len();
    let rest = text.substring_char(from, to).to_owned();
    assert(rest@ =~= text@.skip(prefix@.len() as int));
    Some(rest)
}

/// Whether `text` holds `part`.
pub fn contains(text: &str, part: &str) -> (found: bool)
    ensures
        found == has_part(text@, part@),
{
    let chars = chars_of(text);
    let wanted = chars_of(part);
    if wanted.len() > chars.len() {
        return false;
    }
    let last: usize = chars.len() - wanted.len();
    let mut at: usize = 0;
    while at <= last
        invariant
            at <= last + 1,
            last + wanted.len() == chars.len(),
            chars@ == text@,
            wanted@ == part@,
            forall|i: int| 0 <= i < at ==> !occurs_at(text@, part@, i),
        decreases last + 1 - at,
    {
        if chars_occur_at(&chars, &wanted, at) {
            return true;
        }
        if at == last {
            return false;
        }
        at += 1;
    }
    false
}

// ---------------------------------------------------------------------------
// ASCII case and white space
// ---------------------------------------------------------------------------

/// The lower-case form of an ASCII letter; any other character unchanged.
pub open spec fn lower_char(c: char) -> char {
    if 'A' <= c && c <= 'Z' {
        (c as int + 32) as char
    } else {
        c
    }
}

/// A text with its ASCII letters in lower case.
pub open spec fn lowered(text: Seq<char>) -> Seq<char> {
    Seq::new(text.len(), |i: int| lower_char(text[i]))
}

/// The lower-case form of an ASCII letter.
pub fn to_lower_char(c: char) -> (lower: char)
    ensures
        lower == lower_char(c),
{
    if c >= 'A' && c <= 'Z' {
        let code: u8 = c as u8;
        (code + 32) as char
    } else {
        c
    }
}

/// A copy of a text with its ASCII letters in lower case.
pub fn to_lowercase(text: &str) -> (lower: String)
    ensures
        lower@ == lowered(text@),
{
    let chars = chars_of(text);
    let mut lower = String::new();
    let mut i: usize = 0;
    while i < chars.len()
        invariant
            i <= chars.len(),
            chars@ == text@,
            lower@ == lowered(text@).take(i as int),
        decreases chars.len() - i,
    {
        lower.push(to_lower_char(chars[i]));
        i += 1;
        assert(lower@ =~= lowered(text@).take(i as int));
    }
    assert(lower@ =~= lowered(text@));
    lower
}

/// Whether a character has the Unicode property `White_Space`.
pub open spec fn is_space(c: char) -> bool {
    let code = c as int;
    ||| 9 <= code <= 13
    ||| code == 32
    ||| code == 0x85
    ||| code == 0xa0
    ||| code == 0x1680
    ||| 0x2000 <= code <= 0x200a
    ||| code == 0x2028
    ||| code == 0x2029
    ||| code == 0x202f
    ||| code == 0x205f
    ||| code == 0x3000
}

/// A text without the white space at its start.
pub open spec fn trimmed_start(text: Seq<char>) -> Seq<char>
    decreases text.len(),
{
    if text.len() > 0 && is_space(text[0]) {
        trimmed_start(text.drop_first())
    } else {
        text
    }
}

/// A text without the white space at its end.
pub open spec fn trimmed_end(text: Seq<char>) -> Seq<char>
    decreases text.len(),
{
    if text.len() > 0 && is_space(text.last()) {
        trimmed_end(text.drop_last())
    } else {
        text
    }
}

/// A text without the white space around it.
pub open spec fn trimmed(text: Seq<char>) -> Seq<char> {
    trimmed_end(trimmed_start(text))
}

/// Whether a character has the Unicode property `White_Space`.
pub fn is_space_char(c: char) -> (space: bool)
    ensures
        space == is_space(c),
{
    let code: u32 = c as u32;
    (code >= 9 && code <= 13) || code == 32 || code == 0x85 || code == 0xa0 || code == 0x1680 || (
    code >= 0x2000 && code <= 0x200a) || code == 0x2028 || code == 0x2029 || code == 0x202f || code
        == 0x205f || code == 0x3000
}

/// A copy of a text without the white space at its start.
pub fn trim_start(text: &str) -> (rest: String)
    ensures
        rest@ == trimmed_start(text@),
{
    let chars = chars_of(text);
    let mut from: usize = 0;
    assert(text@.skip(0) =~= text@);
    while from < chars.len() && is_space_char(chars[from])
        invariant
            from <= chars.len(),
            chars@ == text@,
            trimmed_start(text@) == trimmed_start(text@.skip(from as int)),
        decreases chars.len() - from,
    {
        assert(text@.skip(from as int).drop_first() =~= text@.skip(from + 1));
        from += 1;
    }
    let to: usize = text.unicode_len();
    let rest = text.substring_char(from, to).to_owned();
    assert(rest@ =~= text@.skip(from as int));
    rest
}

/// A copy of a text without the white space at its end.
pub fn trim_end(text: &str) -> (rest: String)
    ensures
        rest@ == trimmed_end(text@),
{
    let chars = chars_of(text);
    let mut to: usize = chars.len();
    assert(text@.take(to as int) =~= text@);
    while to > 0 && is_space_char(chars[to - 1])
        invariant
            to <= chars.len(),
            chars@ == text@,
            trimmed_end(text@) == trimmed_end(text@.take(to as int)),
        decreases to,
    {
        assert(text@.take(to as int).drop_last() =~= text@.take(to - 1));
        to -= 1;
    }
    let rest = text.substring_char(0, to).to_owned();
    assert(rest@ =~= text@.take(to as int));
    rest
}

/// A copy of a text without the white space around it.
pub fn trim(text: &str) -> (rest: String)
    ensures
        rest@ == trimmed(text@),
{
    let start = trim_start(text);
    trim_end(start.as_str())
}

// ---------------------------------------------------------------------------
// Splitting
// ---------------------------------------------------------------------------

/// The parts of a text between the occurrences of a separator.
pub open spec fn split_on(text: Seq<char>, separator: char) -> Seq<Seq<char>>
    decreases text.len(),
{
    if text.len() == 0 {
        seq![Seq::empty()]
    } else {
        let parts = split_on(text.drop_last(), separator);
        if text.last() == separator {
            parts.push(Seq::empty())
        } else {
            parts.update(parts.len() - 1, parts.last().push(text.last()))
        }
    }
}

/// A text has at least one part, whatever it is split at.
pub proof fn split_is_never_empty(text: Seq<char>, separator: char)
    ensures
        split_on(text, separator).len() > 0,
    decreases text.len(),
{
    if text.len() > 0 {
        split_is_never_empty(text.drop_last(), separator);
    }
}

/// Splits a text at every occurrence of a separator.
pub fn split(text: &str, separator: char) -> (parts: Vec<String>)
    ensures
        chars_list(parts@) == split_on(text@, separator),
{
    let chars = chars_of(text);
    let mut parts: Vec<String> = Vec::new();
    let mut current = String::new();
    let mut i: usize = 0;
    assert(chars_list(parts@).push(current@) =~= split_on(text@.take(0), separator));
    while i < chars.len()
        invariant
            i <= chars.len(),
            chars@ == text@,
            chars_list(parts@).push(current@) == split_on(text@.take(i as int), separator),
        decreases chars.len() - i,
    {
        let ghost before = split_on(text@.take(i as int), separator);
        let ghost next = text@.take(i + 1);
        assert(next.drop_last() =~= text@.take(i as int));
        assert(before.last() == current@);
        let ghost done = chars_list(parts@);
        if chars[i] == separator {
            let ghost part = current@;
            parts.push(current);
            current = String::new();
            assert(chars_list(parts@) =~= done.push(part));
        } else {
            current.push(chars[i]);
        }
        i += 1;
        assert(chars_list(parts@).push(current@) =~= split_on(next, separator));
    }
    assert(text@.take(chars.len() as int) =~= text@);
    let ghost done = chars_list(parts@);
    let ghost part = current@;
    parts.push(current);
    assert(chars_list(parts@) =~= done.push(part));
    parts
}

/// The place of the first occurrence of a character.
pub open spec fn first_place(text: Seq<char>, wanted: char) -> Option<int>
    decreases text.len(),
{
    if text.len() == 0 {
        None
    } else {
        match first_place(text.drop_last(), wanted) {
            Some(at) => Some(at),
            None => if text.last() == wanted {
                Some(text.len() - 1)
            } else {
                None
            },
        }
    }
}

/// What stands before and after the first occurrence of a separator.
pub open spec fn split_at_first(text: Seq<char>, separator: char) -> Option<
    (Seq<char>, Seq<char>),
> {
    match first_place(text, separator) {
        Some(at) => Some((text.take(at), text.skip(at + 1))),
        None => None,
    }
}

proof fn lemma_first_place(text: Seq<char>, wanted: char, upto: int, at: int)
    requires
        0 <= at < upto <= text.len(),
        first_place(text.take(at), wanted) is None,
        text[at] == wanted,
    ensures
        first_place(text.take(upto), wanted) == Some(at),
    decreases upto - at,
{
    let part = text.take(upto);
    assert(part.drop_last() =~= text.take(upto - 1));
    if upto > at + 1 {
        lemma_first_place(text, wanted, upto - 1, at);
    }
}

/// What stands before and after the first occurrence of a separator.
pub fn split_once(text: &str, separator: char) -> (parts: Option<(String, String)>)
    ensures
        match parts {
            Some((before, after)) => split_at_first(text@, separator) == Some((before@, after@)),
            None => split_at_first(text@, separator) is None,
        },
{
    let chars = chars_of(text);
    let mut at: usize = 0;
    while at < chars.len()
        invariant
            at <= chars.len(),
            chars@ == text@,
            first_place(text@.take(at as int), separator) is None,
        decreases chars.len() - at,
    {
        if chars[at] == separator {
            proof {
                assert(text@.take(text@.len() as int) =~= text@);
                lemma_first_place(text@, separator, text@.len() as int, at as int);
            }
            let before = text.substring_char(0, at).to_owned();
            let after = text.substring_char(at + 1, chars.len()).to_owned();
            assert(before@ =~= text@.take(at as int));
            assert(after@ =~= text@.skip(at + 1));
            return Some((before, after));
        }
        assert(text@.take(at + 1).drop_last() =~= text@.take(at as int));
        at += 1;
    }
    assert(text@.take(at as int) =~= text@);
    None
}

// ---------------------------------------------------------------------------
// Hexadecimal numbers and UTF-8
// ---------------------------------------------------------------------------

/// The hexadecimal digit of a value below sixteen.
pub open spec fn hex_char(value: int) -> char {
    if value < 10 {
        (48 + value) as char
    } else {
        (87 + value) as char
    }
}

/// A number in lower-case hexadecimal with a fixed number of digits.
pub open spec fn hexadecimal(n: nat, digits: nat) -> Seq<char>
    decreases digits,
{
    if digits == 0 {
        Seq::empty()
    } else {
        hexadecimal(n / 16, (digits - 1) as nat).push(hex_char((n % 16) as int))
    }
}

/// Writes a number in hexadecimal with a fixed number of digits.
pub fn hex_text(n: u64, digits: u8) -> (text: String)
    ensures
        text@ == hexadecimal(n as nat, digits as nat),
    decreases digits,
{
    if digits == 0 {
        return String::new();
    }
    let mut text = hex_text(n / 16, digits - 1);
    let digit: u8 = (n % 16) as u8;
    if digit < 10 {
        text.push((48u8 + digit) as char);
    } else {
        text.push((87u8 + digit) as char);
    }
    text
}

/// Two texts with the same bytes are the same text.
pub proof fn same_bytes_same_text(a: Seq<char>, b: Seq<char>)
    ensures
        (vstd::utf8::encode_utf8(a) == vstd::utf8::encode_utf8(b)) == (a == b),
{
    vstd::utf8::encode_utf8_decode_utf8(a);
    vstd::utf8::encode_utf8_decode_utf8(b);
}

/// `std::str::from_utf8`: the text of some bytes, where they are valid UTF-8.
#[verifier::external_body]
pub(crate) fn text_from_utf8(bytes: &[u8]) -> (text: Option<String>)
    ensures
        match text {
            Some(text) => vstd::utf8::valid_utf8(bytes@) && text@ == vstd::utf8::decode_utf8(
                bytes@,
            ),
            None => !vstd::utf8::valid_utf8(bytes@),
        },
{
    std::str::from_utf8(bytes).ok().map(str::to_owned)
}

/// A copy of some bytes.
pub fn clone_bytes(bytes: &Vec<u8>) -> (copy: Vec<u8>)
    ensures
        copy@ == bytes@,
{
    let mut copy: Vec<u8> = Vec::new();
    let mut i: usize = 0;
    while i < bytes.len()
        invariant
            i <= bytes.len(),
            copy@ == bytes@.take(i as int),
        decreases bytes.len() - i,
    {
        copy.push(bytes[i]);
        i += 1;
        assert(copy@ =~= bytes@.take(i as int));
    }
    assert(copy@ =~= bytes@);
    copy
}

/// Lower case changes the letters from A to Z and nothing else, and doing it again
/// changes nothing.
pub proof fn lower_case_changes_capitals_only(text: Seq<char>, i: int)
    requires
        0 <= i < text.len(),
    ensures
        lowered(text).len() == text.len(),
        'A' <= text[i] && text[i] <= 'Z' ==> lowered(text)[i] as int == text[i] as int + ('a' as int
            - 'A' as int),
        !('A' <= text[i] && text[i] <= 'Z') ==> lowered(text)[i] == text[i],
        lowered(lowered(text)) == lowered(text),
{
    assert(lowered(lowered(text)) =~= lowered(text));
}

/// Blanks, tabs and line ends are white space; printed ASCII characters are not.
pub proof fn blanks_are_white_space(c: char)
    ensures
        c == ' ' || c == '\t' || c == '\n' || c == '\r' ==> is_space(c),
        33 <= c as int && c as int <= 126 ==> !is_space(c),
{
}

proof fn start_trimming_is_a_suffix(text: Seq<char>) -> (from: int)
    ensures
        0 <= from <= text.len(),
        trimmed_start(text) == text.skip(from),
        forall|i: int| 0 <= i < from ==> is_space(#[trigger] text[i]),
        from < text.len() ==> !is_space(text[from]),
    decreases text.len(),
{
    if text.len() > 0 && is_space(text[0]) {
        let rest = start_trimming_is_a_suffix(text.drop_first());
        assert(text.drop_first().skip(rest) =~= text.skip(rest + 1));
        assert forall|i: int| 0 <= i < rest + 1 implies is_space(#[trigger] text[i]) by {
            if i > 0 {
                assert(text.drop_first()[i - 1] == text[i]);
            }
        }
        rest + 1
    } else {
        assert(text.skip(0) =~= text);
        0
    }
}

proof fn end_trimming_is_a_prefix(text: Seq<char>) -> (to: int)
    ensures
        0 <= to <= text.len(),
        trimmed_end(text) == text.take(to),
        forall|i: int| to <= i < text.len() ==> is_space(#[trigger] text[i]),
        to > 0 ==> !is_space(text[to - 1]),
    decreases text.len(),
{
    if text.len() > 0 && is_space(text.last()) {
        let to = end_trimming_is_a_prefix(text.drop_last());
        assert(text.drop_last().take(to) =~= text.take(to));
        assert forall|i: int| to <= i < text.len() implies is_space(#[trigger] text[i]) by {
            if i < text.len() - 1 {
                assert(text.drop_last()[i] == text[i]);
            }
        }
        to
    } else {
        assert(text.take(text.len() as int) =~= text);
        text.len() as int
    }
}

/// Trimming takes the white space at both ends and nothing else.
pub proof fn trimming_takes_white_space_only(text: Seq<char>) -> (span: (int, int))
    ensures
        0 <= span.0 <= span.1 <= text.len(),
        trimmed(text) == text.subrange(span.0, span.1),
        forall|i: int| 0 <= i < span.0 ==> is_space(#[trigger] text[i]),
        forall|i: int| span.1 <= i < text.len() ==> is_space(#[trigger] text[i]),
        trimmed(text).len() > 0 ==> !is_space(trimmed(text)[0]) && !is_space(trimmed(text).last()),
{
    let from = start_trimming_is_a_suffix(text);
    let rest = text.skip(from);
    let to = end_trimming_is_a_prefix(rest);
    assert(rest.take(to) =~= text.subrange(from, from + to));
    assert forall|i: int| from + to <= i < text.len() implies is_space(#[trigger] text[i]) by {
        assert(rest[i - from] == text[i]);
    }
    if to > 0 {
        assert(rest[0] == text[from]);
        assert(trimmed(text).last() == rest[to - 1]);
    }
    (from, from + to)
}

/// A text is split at its separators and nowhere else: a text without one is one part,
/// and the parts of two texts with a separator between them are the parts of both.
pub proof fn texts_split_at_separators(first: Seq<char>, second: Seq<char>, separator: char)
    ensures
        split_on(first.push(separator) + second, separator) == split_on(first, separator)
            + split_on(second, separator),
        !first.contains(separator) ==> split_on(first, separator) == seq![first],
    decreases first.len() + second.len(),
{
    let whole = first.push(separator) + second;
    if second.len() == 0 {
        assert(whole.drop_last() =~= first);
        assert(split_on(second, separator) =~= seq![Seq::<char>::empty()]);
        assert(split_on(whole, separator) =~= split_on(first, separator) + split_on(
            second,
            separator,
        ));
    } else {
        texts_split_at_separators(first, second.drop_last(), separator);
        assert(whole.drop_last() =~= first.push(separator) + second.drop_last());
        split_is_never_empty(second.drop_last(), separator);
        assert(split_on(whole, separator) =~= split_on(first, separator) + split_on(
            second,
            separator,
        ));
    }
    if !first.contains(separator) && first.len() > 0 {
        let before = first.drop_last();
        assert forall|i: int| 0 <= i < before.len() implies before[i] != separator by {
            assert(first[i] == before[i]);
            assert(first.contains(first[i]));
        }
        assert(first.contains(first.last()));
        texts_split_at_separators(before, Seq::empty(), separator);
        assert(before.push(first.last()) =~= first);
        assert(split_on(first, separator) =~= seq![first]);
    } else if first.len() == 0 {
        assert(first =~= Seq::<char>::empty());
    }
}

proof fn first_places_come_first(text: Seq<char>, wanted: char)
    ensures
        match first_place(text, wanted) {
            Some(at) => 0 <= at < text.len() && text[at] == wanted && forall|i: int|
                0 <= i < at ==> text[i] != wanted,
            None => forall|i: int| 0 <= i < text.len() ==> text[i] != wanted,
        },
    decreases text.len(),
{
    if text.len() > 0 {
        let before = text.drop_last();
        first_places_come_first(before, wanted);
        assert forall|i: int| 0 <= i < before.len() implies before[i] == text[i] by {}
        match first_place(before, wanted) {
            Some(at) => {
                assert(before[at] == text[at]);
                assert forall|i: int| 0 <= i < at implies text[i] != wanted by {
                    assert(before[i] == text[i]);
                }
            },
            None => {
                assert forall|i: int| 0 <= i < before.len() implies text[i] != wanted by {
                    assert(before[i] == text[i]);
                }
            },
        }
    }
}

/// A text is split once at its first separator: what comes before it, which has none,
/// the separator, and what comes after it make up the text.
pub proof fn texts_split_once_at_the_first(text: Seq<char>, separator: char)
    ensures
        match split_at_first(text, separator) {
            Some((before, after)) => before.push(separator) + after == text && !before.contains(
                separator,
            ),
            None => !text.contains(separator),
        },
{
    first_places_come_first(text, separator);
    match split_at_first(text, separator) {
        Some((before, after)) => {
            assert(before.push(separator) + after =~= text);
            if before.contains(separator) {
                let i = choose|i: int| 0 <= i < before.len() && before[i] == separator;
                assert(text[i] == separator);
            }
        },
        None => {},
    }
}

/// A text begins with a prefix exactly where the prefix and something make it up, and
/// it holds every part that it is put together from.
pub proof fn prefixes_and_parts_are_found(before: Seq<char>, part: Seq<char>, after: Seq<char>)
    ensures
        has_prefix(part + after, part),
        has_part(before + part + after, part),
        has_prefix(before, part) ==> part + before.skip(part.len() as int) == before,
{
    assert((part + after).take(part.len() as int) =~= part);
    let whole = before + part + after;
    assert(whole.subrange(before.len() as int, (before.len() + part.len()) as int) =~= part);
    assert(occurs_at(whole, part, before.len() as int));
    if has_prefix(before, part) {
        assert(part + before.skip(part.len() as int) =~= before);
    }
}

/// A number that is read is no larger than allowed, and only digits are read, with one
/// plus sign before them at most.
pub proof fn only_digits_are_read(text: Seq<char>, max: int, i: int)
    requires
        parsed_unsigned(text, max) is Some,
        0 <= i < text.len(),
    ensures
        parsed_unsigned(text, max)->Some_0 <= max,
        i > 0 || text[0] != '+' ==> '0' <= text[i] && text[i] <= '9',
        text[0] == '+' ==> text.len() > 1,
{
    let digits = unsigned_digits(text);
    if text[0] == '+' {
        if i > 0 {
            assert(digits[i - 1] == text[i]);
            assert(is_digit(digits[i - 1]));
        }
    } else {
        assert(is_digit(digits[i]));
    }
}

/// A number in hexadecimal has as many digits as asked for, from 0 to f, the last of
/// which counts one and each other sixteen times the next.
pub proof fn hexadecimal_digits_are_sixteens(n: nat, value: nat, digits: nat)
    requires
        value < 16,
    ensures
        hexadecimal(n, digits).len() == digits,
        hexadecimal(16 * n + value, digits + 1) == hexadecimal(n, digits).push(
            if value < 10 {
                (48 + value) as char
            } else {
                (97 + (value - 10)) as char
            },
        ),
    decreases digits,
{
    if digits > 0 {
        hexadecimal_digits_are_sixteens(n / 16, 0, (digits - 1) as nat);
    }
    assert((16 * n + value) / 16 == n);
    assert((16 * n + value) % 16 == value);
}

/// A number below zero has a minus sign before it, and no other number has one.
pub proof fn signs_stand_before_numbers(n: nat)
    ensures
        n > 0 ==> signed_decimal(-(n as int)) == "-"@ + decimal(n),
        signed_decimal(n as int) == decimal(n),
        n > 0 ==> decimal(10 * n + 7) == decimal(n).push('7'),
        decimal(0) == seq!['0'],
{
    assert((10 * n + 7) / 10 == n);
    assert((10 * n + 7) % 10 == 7);
}

/// What is found in a text is found in a longer one.
pub proof fn parts_are_found_in_more(text: Seq<char>, part: Seq<char>, more: Seq<char>)
    ensures
        has_part(text, part) ==> has_part(text + more, part),
{
    if has_part(text, part) {
        let at = choose|at: int| occurs_at(text, part, at);
        assert((text + more).subrange(at, at + part.len()) =~= text.subrange(at, at + part.len()));
        assert(occurs_at(text + more, part, at));
    }
}

/// What a text ends in is found in it.
pub proof fn parts_are_found_at_the_end(text: Seq<char>, first: Seq<char>, second: Seq<char>)
    ensures
        has_part(text + first + second, first + second),
{
    let whole = text + first + second;
    let part = first + second;
    assert(whole.subrange(text.len() as int, (text.len() + part.len()) as int) =~= part);
    assert(occurs_at(whole, part, text.len() as int));
}

/// A text with no white space at its ends is trimmed already.
pub proof fn bare_texts_stay(text: Seq<char>)
    requires
        text.len() > 0 ==> !is_space(text[0]) && !is_space(text.last()),
    ensures
        trimmed(text) == text,
{
    let span = trimming_takes_white_space_only(text);
    if text.len() > 0 {
        if span.0 > 0 {
            assert(is_space(text[0]));
        }
        if span.1 < text.len() {
            assert(is_space(text[text.len() - 1]));
        }
        assert(text.subrange(0, text.len() as int) =~= text);
    } else {
        assert(trimmed(text) =~= text);
    }
}

/// No visible character of ASCII is white space.
pub proof fn visible_characters_are_no_white_space(c: char)
    requires
        '!' <= c <= '~',
    ensures
        !is_space(c),
{
}

} // verus!
