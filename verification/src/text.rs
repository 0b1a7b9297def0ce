//! Text rules over the characters of a string.

use vstd::prelude::*;
use vstd::string::*;
use vstd::utf8::*;

verus! {

/// `String::push` appends one character to the end of the string.
pub assume_specification[ String::push ](text: &mut String, c: char)
    ensures
        final(text)@ == old(text)@.push(c),
;

/// Whether `c` has the Unicode property `White_Space`.
pub open spec fn white_space(c: char) -> bool {
    let code = c as u32;
    ||| 0x09 <= code <= 0x0d
    ||| code == 0x20
    ||| code == 0x85
    ||| code == 0xa0
    ||| code == 0x1680
    ||| 0x2000 <= code <= 0x200a
    ||| code == 0x2028
    ||| code == 0x2029
    ||| code == 0x202f
    ||| code == 0x205f
    ||| code == 0x3000
}

/// Whether every character of `text` is white space.
pub open spec fn blank(text: Seq<char>) -> bool {
    forall|i: int| 0 <= i < text.len() ==> white_space(#[trigger] text[i])
}

/// `text` without its leading white space.
pub open spec fn trimmed_start(text: Seq<char>) -> Seq<char>
    decreases text.len(),
{
    if text.len() > 0 && white_space(text[0]) {
        trimmed_start(text.drop_first())
    } else {
        text
    }
}

/// `text` without its trailing white space.
pub open spec fn trimmed_end(text: Seq<char>) -> Seq<char>
    decreases text.len(),
{
    if text.len() > 0 && white_space(text.last()) {
        trimmed_end(text.drop_last())
    } else {
        text
    }
}

/// `text` without white space at either end.
pub open spec fn trimmed(text: Seq<char>) -> Seq<char> {
    trimmed_end(trimmed_start(text))
}

/// The first `limit` characters of `text`, or all of them.
pub open spec fn leading(text: Seq<char>, limit: nat) -> Seq<char> {
    if text.len() <= limit {
        text
    } else {
        text.take(limit as int)
    }
}

/// Whether `part` stands in `text` at position `at`.
pub open spec fn stands_at(text: Seq<char>, part: Seq<char>, at: int) -> bool {
    0 <= at && at + part.len() <= text.len() && text.subrange(at, at + part.len()) == part
}

/// Whether `part` stands anywhere in `text`.
pub open spec fn occurs(text: Seq<char>, part: Seq<char>) -> bool {
    exists|at: int| #[trigger] stands_at(text, part, at)
}

/// `text` with every occurrence of `from`, met left to right without overlap,
/// replaced by `to`.
pub open spec fn replaced(text: Seq<char>, from: Seq<char>, to: Seq<char>) -> Seq<char>
    decreases text.len(),
{
    if text.len() == 0 || from.len() == 0 {
        text
    } else if stands_at(text, from, 0) {
        to + replaced(text.skip(from.len() as int), from, to)
    } else {
        seq![text[0]] + replaced(text.skip(1), from, to)
    }
}

/// The ten decimal digits.
pub open spec fn decimal_digit(value: nat) -> char {
    if value == 0 {
        '0'
    } else if value == 1 {
        '1'
    } else if value == 2 {
        '2'
    } else if value == 3 {
        '3'
    } else if value == 4 {
        '4'
    } else if value == 5 {
        '5'
    } else if value == 6 {
        '6'
    } else if value == 7 {
        '7'
    } else if value == 8 {
        '8'
    } else {
        '9'
    }
}

/// `value` written in decimal without leading zeros.
pub open spec fn decimal_text(value: nat) -> Seq<char>
    decreases value,
{
    if value < 10 {
        seq![decimal_digit(value)]
    } else {
        decimal_text(value / 10).push(decimal_digit(value % 10))
    }
}

/// An ASCII letter or digit.
pub open spec fn ascii_alphanumeric(c: char) -> bool {
    ('a' <= c <= 'z') || ('A' <= c <= 'Z') || ('0' <= c <= '9')
}

/// A digit of lowercase hexadecimal text.
pub open spec fn lower_hex(c: char) -> bool {
    ('0' <= c <= '9') || ('a' <= c <= 'f')
}

/// Equal UTF-8 bytes come from equal characters.
pub proof fn lemma_same_bytes(a: Seq<char>, b: Seq<char>)
    requires
        encode_utf8(a) == encode_utf8(b),
    ensures
        a == b,
{
    encode_utf8_decode_utf8(a);
    encode_utf8_decode_utf8(b);
}

/// Whether the two texts hold the same characters.
pub fn same_text(a: &str, b: &str) -> (r: bool)
    ensures
        r == (a@ == b@),
{
    let x = a.as_bytes();
    let y = b.as_bytes();
    if x.len() != y.len() {
        return false;
    }
    let mut i: usize = 0;
    while i < x.len()
        invariant
            i <= x.len(),
            x.len() == y.len(),
            x@ == encode_utf8(a@),
            y@ == encode_utf8(b@),
            forall|j: int| 0 <= j < i ==> x@[j] == y@[j],
        decreases x.len() - i,
    {
        if x[i] != y[i] {
            return false;
        }
        i = i + 1;
    }
    proof {
        assert(x@ =~= y@);
        lemma_same_bytes(a@, b@);
    }
    true
}

/// The views of strings.
pub open spec fn texts(values: Seq<String>) -> Seq<Seq<char>> {
    values.map_values(|value: String| value@)
}

/// The characters of an optional text.
pub open spec fn option_text(value: Option<String>) -> Option<Seq<char>> {
    match value {
        Some(text) => Some(text@),
        None => None,
    }
}

/// A copy of an optional text.
pub fn copy_option(value: &Option<String>) -> (copy: Option<String>)
    ensures
        copy == *value,
{
    match value {
        Some(text) => Some(text.clone()),
        None => None,
    }
}

/// Whether an optional text, where it is present, has at most `maximum`
/// characters.
pub open spec fn at_most_chars(value: Option<String>, maximum: nat) -> bool {
    value matches Some(text) ==> text@.len() <= maximum
}

/// Whether an optional text, where it is present, has at most `maximum`
/// characters.
pub fn optional_bounded(value: &Option<String>, maximum: usize) -> (r: bool)
    ensures
        r == at_most_chars(*value, maximum as nat),
{
    match value {
        Some(text) => char_count(text.as_str()) <= maximum,
        None => true,
    }
}

/// The characters of `value` in order.
pub fn chars_of(value: &str) -> (chars: Vec<char>)
    ensures
        chars@ == value@,
{
    let mut chars: Vec<char> = Vec::new();
    for c in iter: value.chars()
        invariant
            iter.seq() == value@,
            chars@ == value@.take(iter.index() as int),
    {
        chars.push(c);
        assert(value@.take(iter.index() + 1) =~= value@.take(iter.index() as int).push(c));
    }
    assert(value@.take(value@.len() as int) =~= value@);
    chars
}

/// The string made of `chars[from..to]`.
pub fn text_between(chars: &Vec<char>, from: usize, to: usize) -> (text: String)
    requires
        from <= to <= chars@.len(),
    ensures
        text@ == chars@.subrange(from as int, to as int),
{
    let mut text = String::new();
    let mut i: usize = from;
    while i < to
        invariant
            from <= i <= to <= chars@.len(),
            text@ == chars@.subrange(from as int, i as int),
        decreases to - i,
    {
        text.push(chars[i]);
        i = i + 1;
        assert(chars@.subrange(from as int, i as int) =~= chars@.subrange(
            from as int,
            i - 1,
        ).push(chars@[i - 1]));
    }
    text
}

/// The number of characters of `value`.
pub fn char_count(value: &str) -> (count: usize)
    ensures
        count == value@.len(),
{
    value.unicode_len()
}

/// Whether `c` is white space.
pub fn is_white_space(c: char) -> (r: bool)
    ensures
        r == white_space(c),
{
    let code: u32 = c as u32;
    (code >= 0x09 && code <= 0x0d) || code == 0x20 || code == 0x85 || code == 0xa0 || code == 0x1680
        || (code >= 0x2000 && code <= 0x200a) || code == 0x2028 || code == 0x2029 || code == 0x202f
        || code == 0x205f || code == 0x3000
}

/// Whether `value` holds nothing but white space.
pub fn is_blank(value: &str) -> (r: bool)
    ensures
        r == blank(value@),
{
    let chars = chars_of(value);
    let mut i: usize = 0;
    while i < chars.len()
        invariant
            i <= chars@.len(),
            chars@ == value@,
            forall|j: int| 0 <= j < i ==> white_space(#[trigger] chars@[j]),
        decreases chars@.len() - i,
    {
        if !is_white_space(chars[i]) {
            return false;
        }
        i = i + 1;
    }
    true
}

/// Whether `text` has between `minimum` and `maximum` characters, not all of
/// them white space.
pub open spec fn within(text: Seq<char>, minimum: nat, maximum: nat) -> bool {
    !blank(text) && minimum <= text.len() <= maximum
}

/// Whether `value` is not blank and its length lies between the two bounds.
pub fn required_bounded(value: &str, minimum: usize, maximum: usize) -> (r: bool)
    ensures
        r == within(value@, minimum as nat, maximum as nat),
{
    let length: usize = char_count(value);
    !is_blank(value) && minimum <= length && length <= maximum
}

/// `value` without white space at either end.
pub fn trim_text(value: &str) -> (text: String)
    ensures
        text@ == trimmed(value@),
{
    let chars = chars_of(value);
    let mut from: usize = 0;
    assert(chars@.skip(0) =~= chars@);
    while from < chars.len() && is_white_space(chars[from])
        invariant
            from <= chars@.len(),
            chars@ == value@,
            trimmed_start(value@) == trimmed_start(chars@.skip(from as int)),
        decreases chars@.len() - from,
    {
        assert(chars@.skip(from as int).drop_first() =~= chars@.skip(from + 1));
        from = from + 1;
    }
    let mut to: usize = chars.len();
    assert(chars@.subrange(from as int, to as int) =~= chars@.skip(from as int));
    while to > from && is_white_space(chars[to - 1])
        invariant
            from <= to <= chars@.len(),
            chars@ == value@,
            trimmed_end(trimmed_start(value@)) == trimmed_end(
                chars@.subrange(from as int, to as int),
            ),
        decreases to,
    {
        assert(chars@.subrange(from as int, to as int).drop_last() =~= chars@.subrange(
            from as int,
            to - 1,
        ));
        to = to - 1;
    }
    text_between(&chars, from, to)
}

/// A text that is not blank is not empty once trimmed, and the other way round.
pub proof fn law_blank_is_trimmed_empty(text: Seq<char>)
    ensures
        blank(text) == (trimmed(text).len() == 0),
{
    lemma_trimmed_start(text);
    lemma_trimmed_end(trimmed_start(text));
}

proof fn lemma_trimmed_start(text: Seq<char>)
    ensures
        blank(text) == blank(trimmed_start(text)),
    decreases text.len(),
{
    if text.len() > 0 && white_space(text[0]) {
        lemma_trimmed_start(text.drop_first());
        if blank(text.drop_first()) {
            assert forall|i: int| 0 <= i < text.len() implies white_space(#[trigger] text[i]) by {
                if i > 0 {
                    assert(text[i] == text.drop_first()[i - 1]);
                }
            }
        } else {
            let i = choose|i: int|
                0 <= i < text.drop_first().len() && !white_space(#[trigger] text.drop_first()[i]);
            assert(!white_space(text[i + 1]));
        }
    }
}

proof fn lemma_trimmed_end(text: Seq<char>)
    ensures
        blank(text) == (trimmed_end(text).len() == 0),
    decreases text.len(),
{
    if text.len() > 0 {
        if white_space(text.last()) {
            lemma_trimmed_end(text.drop_last());
            if blank(text.drop_last()) {
                assert forall|i: int| 0 <= i < text.len() implies white_space(
                    #[trigger] text[i],
                ) by {
                    if i < text.len() - 1 {
                        assert(text[i] == text.drop_last()[i]);
                    }
                }
            } else {
                let i = choose|i: int|
                    0 <= i < text.drop_last().len() && !white_space(#[trigger] text.drop_last()[i]);
                assert(!white_space(text[i]));
            }
        } else {
            assert(!white_space(text[text.len() - 1]));
        }
    }
}

/// The first `limit` characters of `value`, or all of them.
pub fn bounded(value: &str, limit: usize) -> (text: String)
    ensures
        text@ == leading(value@, limit as nat),
{
    let chars = chars_of(value);
    if chars.len() <= limit {
        return value.to_owned();
    }
    let text = text_between(&chars, 0, limit);
    assert(value@.take(limit as int) =~= chars@.subrange(0, limit as int));
    text
}

/// Whether `part` stands in `chars` at position `at`.
pub fn matches_at(chars: &Vec<char>, part: &Vec<char>, at: usize) -> (r: bool)
    requires
        at <= chars@.len(),
    ensures
        r == stands_at(chars@, part@, at as int),
{
    if part.len() > chars.len() - at {
        return false;
    }
    let mut i: usize = 0;
    while i < part.len()
        invariant
            i <= part@.len(),
            at + part@.len() <= chars.len(),
            forall|j: int| 0 <= j < i ==> chars@[at + j] == #[trigger] part@[j],
        decreases part@.len() - i,
    {
        if chars[at + i] != part[i] {
            assert(chars@.subrange(at as int, at + part@.len())[i as int] != part@[i as int]);
            return false;
        }
        i = i + 1;
    }
    assert(chars@.subrange(at as int, at + part@.len()) =~= part@);
    true
}

/// Whether `value` begins with `prefix`.
pub fn begins_with(value: &str, prefix: &str) -> (r: bool)
    ensures
        r == stands_at(value@, prefix@, 0),
{
    let chars = chars_of(value);
    let part = chars_of(prefix);
    matches_at(&chars, &part, 0)
}

/// What follows `prefix` in `value`, if `value` begins with it.
pub fn after_prefix(value: &str, prefix: &str) -> (rest: Option<String>)
    ensures
        rest is Some == stands_at(value@, prefix@, 0),
        rest matches Some(text) ==> text@ == value@.skip(prefix@.len() as int) && value@ == prefix@
            + text@,
{
    let chars = chars_of(value);
    let part = chars_of(prefix);
    if matches_at(&chars, &part, 0) {
        let text = text_between(&chars, part.len(), chars.len());
        proof {
            assert(text@ =~= value@.skip(prefix@.len() as int));
            assert(value@.subrange(0, prefix@.len() as int) == prefix@);
            assert(value@ =~= value@.subrange(0, prefix@.len() as int) + text@);
        }
        Some(text)
    } else {
        None
    }
}

/// Whether `c` occurs in `value`.
pub fn contains_char(value: &str, c: char) -> (r: bool)
    ensures
        r == value@.contains(c),
{
    let chars = chars_of(value);
    let mut i: usize = 0;
    while i < chars.len()
        invariant
            i <= chars@.len(),
            chars@ == value@,
            forall|j: int| 0 <= j < i ==> chars@[j] != c,
        decreases chars@.len() - i,
    {
        if chars[i] == c {
            assert(value@[i as int] == c);
            return true;
        }
        i = i + 1;
    }
    false
}

/// Whether `part` occurs in `value`.
pub fn contains_text(value: &str, part: &str) -> (r: bool)
    ensures
        r == occurs(value@, part@),
{
    let chars = chars_of(value);
    let wanted = chars_of(part);
    let mut at: usize = 0;
    while at < chars.len()
        invariant
            at <= chars@.len(),
            chars@ == value@,
            wanted@ == part@,
            forall|j: int| 0 <= j < at ==> !#[trigger] stands_at(value@, part@, j),
        decreases chars@.len() - at,
    {
        if matches_at(&chars, &wanted, at) {
            assert(stands_at(value@, part@, at as int));
            return true;
        }
        at = at + 1;
    }
    let r = matches_at(&chars, &wanted, at);
    proof {
        if r {
            assert(stands_at(value@, part@, at as int));
        } else {
            assert forall|j: int| !#[trigger] stands_at(value@, part@, j) by {}
        }
    }
    r
}

/// `value` with every occurrence of `from` replaced by `to`.
pub fn replace_text(value: &str, from: &str, to: &str) -> (text: String)
    requires
        from@.len() > 0,
    ensures
        text@ == replaced(value@, from@, to@),
{
    let chars = chars_of(value);
    let wanted = chars_of(from);
    let mut text = String::new();
    let mut at: usize = 0;
    assert(value@.skip(0) =~= value@);
    assert(text@ + replaced(value@.skip(0), from@, to@) =~= replaced(value@, from@, to@));
    while at < chars.len()
        invariant
            at <= chars@.len(),
            chars@ == value@,
            wanted@ == from@,
            from@.len() > 0,
            text@ + replaced(value@.skip(at as int), from@, to@) == replaced(value@, from@, to@),
        decreases chars@.len() - at,
    {
        let ghost rest = value@.skip(at as int);
        let ghost before = text@;
        let here = matches_at(&chars, &wanted, at);
        proof {
            if stands_at(value@, from@, at as int) {
                assert(rest.subrange(0, from@.len() as int) =~= value@.subrange(
                    at as int,
                    at + from@.len(),
                ));
            }
            if stands_at(rest, from@, 0) {
                assert(rest.subrange(0, from@.len() as int) =~= value@.subrange(
                    at as int,
                    at + from@.len(),
                ));
            }
        }
        if here {
            text.append(to);
            proof {
                assert(rest.skip(from@.len() as int) =~= value@.skip(at + from@.len()));
                assert(text@ + replaced(value@.skip(at + from@.len()), from@, to@) =~= before
                    + replaced(rest, from@, to@));
            }
            at = at + wanted.len();
        } else {
            text.push(chars[at]);
            proof {
                assert(rest.skip(1) =~= value@.skip(at + 1));
                assert(text@ + replaced(value@.skip(at + 1), from@, to@) =~= before + replaced(
                    rest,
                    from@,
                    to@,
                ));
            }
            at = at + 1;
        }
    }
    assert(value@.skip(at as int).len() == 0);
    assert(replaced(value@.skip(at as int), from@, to@) =~= Seq::<char>::empty());
    assert(text@ + replaced(value@.skip(at as int), from@, to@) =~= text@);
    text
}

fn digit_char(value: u64) -> (c: char)
    requires
        value < 10,
    ensures
        c == decimal_digit(value as nat),
{
    if value == 0 {
        '0'
    } else if value == 1 {
        '1'
    } else if value == 2 {
        '2'
    } else if value == 3 {
        '3'
    } else if value == 4 {
        '4'
    } else if value == 5 {
        '5'
    } else if value == 6 {
        '6'
    } else if value == 7 {
        '7'
    } else if value == 8 {
        '8'
    } else {
        '9'
    }
}

/// `value` written in decimal.
pub fn decimal(value: u64) -> (text: String)
    ensures
        text@ == decimal_text(value as nat),
    decreases value,
{
    if value < 10 {
        let mut text = String::new();
        text.push(digit_char(value));
        assert(text@ =~= seq![decimal_digit(value as nat)]);
        text
    } else {
        let mut text = decimal(value / 10);
        text.push(digit_char(value % 10));
        text
    }
}

/// `value` written in decimal, with a minus sign where it is negative.
pub open spec fn signed_decimal_text(value: int) -> Seq<char> {
    if value < 0 {
        seq!['-'] + decimal_text((-value) as nat)
    } else {
        decimal_text(value as nat)
    }
}

/// `value` written in decimal, with a minus sign where it is negative.
pub fn signed_decimal(value: i32) -> (text: String)
    ensures
        text@ == signed_decimal_text(value as int),
{
    if value < 0 {
        let mut text = String::new();
        text.push('-');
        text.append(decimal((-(value as i64)) as u64).as_str());
        assert(text@ =~= signed_decimal_text(value as int));
        text
    } else {
        decimal(value as u64)
    }
}

/// A decimal text consists of digits.
pub proof fn lemma_decimal_digits(value: nat)
    ensures
        decimal_text(value).len() > 0,
        forall|i: int|
            0 <= i < decimal_text(value).len() ==> '0' <= #[trigger] decimal_text(value)[i] <= '9',
    decreases value,
{
    if value >= 10 {
        lemma_decimal_digits(value / 10);
    }
}

/// Different numbers have different decimal texts.
pub proof fn lemma_decimal_text_is_injective(a: nat, b: nat)
    requires
        decimal_text(a) == decimal_text(b),
    ensures
        a == b,
    decreases a,
{
    lemma_decimal_digits(a / 10);
    lemma_decimal_digits(b / 10);
    assert(a < 10 ==> decimal_text(a).len() == 1);
    assert(b < 10 ==> decimal_text(b).len() == 1);
    assert(decimal_text(a).last() == decimal_digit(a % 10));
    assert(decimal_text(b).last() == decimal_digit(b % 10));
    if a >= 10 && b >= 10 {
        assert(decimal_text(a / 10) =~= decimal_text(a).drop_last());
        assert(decimal_text(b / 10) =~= decimal_text(b).drop_last());
        lemma_decimal_text_is_injective(a / 10, b / 10);
    }
}

proof fn lemma_signed_decimal_text(a: int, b: int)
    ensures
        forall|i: int|
            0 <= i < signed_decimal_text(a).len() ==> #[trigger] signed_decimal_text(a)[i] != ',',
        signed_decimal_text(a) == signed_decimal_text(b) ==> a == b,
{
    let size_a: nat = if a < 0 {
        (-a) as nat
    } else {
        a as nat
    };
    let size_b: nat = if b < 0 {
        (-b) as nat
    } else {
        b as nat
    };
    lemma_decimal_digits(size_a);
    lemma_decimal_digits(size_b);
    if signed_decimal_text(a) == signed_decimal_text(b) {
        assert(signed_decimal_text(a)[0] == signed_decimal_text(b)[0]);
        assert(decimal_text(size_a)[0] != '-' && decimal_text(size_b)[0] != '-');
        if a < 0 {
            assert(decimal_text(size_a) =~= signed_decimal_text(a).skip(1));
            assert(decimal_text(size_b) =~= signed_decimal_text(b).skip(1));
        }
        lemma_decimal_text_is_injective(size_a, size_b);
    }
}

/// A number in front of a comma tells where it ends and what it is.
pub proof fn lemma_decimal_is_delimited(a: int, b: int, after_a: Seq<char>, after_b: Seq<char>)
    requires
        after_a.len() > 0 && after_a[0] == ',',
        after_b.len() > 0 && after_b[0] == ',',
        signed_decimal_text(a) + after_a == signed_decimal_text(b) + after_b,
    ensures
        a == b,
        after_a == after_b,
{
    lemma_signed_decimal_text(a, b);
    lemma_signed_decimal_text(b, a);
    let left = signed_decimal_text(a) + after_a;
    let right = signed_decimal_text(b) + after_b;
    let end_a = signed_decimal_text(a).len() as int;
    let end_b = signed_decimal_text(b).len() as int;
    assert(left[end_a] == ',' && right[end_b] == ',');
    if end_a < end_b {
        assert(right[end_a] == signed_decimal_text(b)[end_a]);
    }
    if end_b < end_a {
        assert(left[end_b] == signed_decimal_text(a)[end_b]);
    }
    assert(signed_decimal_text(a) =~= left.take(end_a));
    assert(signed_decimal_text(b) =~= right.take(end_b));
    assert(after_a =~= left.skip(end_a));
    assert(after_b =~= right.skip(end_b));
}

} // verus!
