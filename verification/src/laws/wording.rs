//! Texts, numbers, digests and instants.

use vstd::prelude::*;
use vstd::utf8::*;

use crate::digest::{encoded_digest, hex_digest, hex_text, sha256, stable_id, valid_digest};
use crate::domain::RetryPolicy;
use crate::error::RuntimeFailure;
use crate::laws::boundary::{lemma_begins, lemma_filled, lemma_sha256_text};
use crate::laws::observing::pause_after;
use crate::laws::storing::{cut, digest_of, lemma_cut};
use crate::laws::{absent_or_short, begins, can_be_told, clipped, filled, later, sha256_text, tells};
use crate::text::{after_prefix, begins_with, bounded, char_count, chars_of, contains_char,
    contains_text, decimal, decimal_text, is_blank, is_white_space, optional_bounded, replace_text,
    replaced, required_bounded, same_text, signed_decimal, stands_at, text_between, trim_text,
    white_space};
use crate::time::{format_template_time, format_time, rfc3339_instant, rfc3339_seconds, valid_time,
    UtcTime};

verus! {

/// Whether a character is one of the 25 that Unicode calls white space.
pub open spec fn spacing(c: char) -> bool {
    let code = c as u32;
    code == 0x0009 || code == 0x000a || code == 0x000b || code == 0x000c || code == 0x000d || code
        == 0x0020 || code == 0x0085 || code == 0x00a0 || code == 0x1680 || code == 0x2000 || code
        == 0x2001 || code == 0x2002 || code == 0x2003 || code == 0x2004 || code == 0x2005 || code
        == 0x2006 || code == 0x2007 || code == 0x2008 || code == 0x2009 || code == 0x200a || code
        == 0x2028 || code == 0x2029 || code == 0x202f || code == 0x205f || code == 0x3000
}

/// White space is what Unicode calls so, and nothing else.
pub proof fn law_white_space_is_what_unicode_calls_so(c: char, r: bool)
    requires
        call_ensures(is_white_space, (c,), r),
    ensures
        r <==> spacing(c),
        r <==> white_space(c),
{
}

/// A text is blank where it is nothing but white space.
pub proof fn law_blank_text_is_nothing_but_white_space(text: &str, r: bool)
    requires
        call_ensures(is_blank, (text,), r),
    ensures
        r <==> forall|i: int| 0 <= i < text@.len() ==> spacing(#[trigger] text@[i]),
{
    if r {
        assert forall|i: int| 0 <= i < text@.len() implies spacing(#[trigger] text@[i]) by {
            assert(white_space(text@[i]));
        }
    }
    if forall|i: int| 0 <= i < text@.len() ==> spacing(#[trigger] text@[i]) {
        assert forall|i: int| 0 <= i < text@.len() implies white_space(#[trigger] text@[i]) by {
            assert(spacing(text@[i]));
        }
    }
}

/// A required text is not blank and keeps its bounds; an optional one is absent
/// or keeps its bound.
pub proof fn law_texts_keep_their_bounds(
    text: &str,
    least: usize,
    most: usize,
    r: bool,
    optional: &Option<String>,
    s: bool,
)
    requires
        call_ensures(required_bounded, (text, least, most), r),
        call_ensures(optional_bounded, (optional, most), s),
    ensures
        r <==> filled(text@, least as nat, most as nat),
        s <==> absent_or_short(*optional, most as nat),
{
    lemma_filled(text@, least as nat, most as nat);
}

/// A trimmed text is the text without the white space at its ends.
pub proof fn law_trimmed_text_has_no_white_space_at_its_ends(text: &str, r: String)
    requires
        call_ensures(trim_text, (text,), r),
    ensures
        cut(r@, text@),
{
    lemma_cut(text@);
}

/// A clipped text is the text, or as much of it as may stand.
pub proof fn law_clipped_text_is_a_beginning(text: &str, most: usize, r: String)
    requires
        call_ensures(bounded, (text, most), r),
    ensures
        clipped(r@, text@, most as nat),
{
}

/// A text is read character by character.
pub proof fn law_text_is_its_characters(
    text: &str,
    chars: Vec<char>,
    count: usize,
    from: usize,
    to: usize,
    part: String,
    other: &str,
    same: bool,
)
    requires
        call_ensures(chars_of, (text,), chars),
        call_ensures(char_count, (text,), count),
        call_ensures(text_between, (&chars, from, to), part),
        from <= to <= chars@.len(),
        call_ensures(same_text, (text, other), same),
    ensures
        count == text@.len(),
        chars@.len() == text@.len(),
        forall|i: int| 0 <= i < text@.len() ==> #[trigger] chars@[i] == text@[i],
        part@.len() == to - from,
        forall|i: int| 0 <= i < to - from ==> #[trigger] part@[i] == text@[from + i],
        same <==> text@.len() == other@.len() && forall|i: int|
            0 <= i < text@.len() ==> #[trigger] text@[i] == other@[i],
{
    if text@.len() == other@.len() && forall|i: int|
        0 <= i < text@.len() ==> #[trigger] text@[i] == other@[i] {
        assert(text@ =~= other@);
    }
}

/// A text begins with a part exactly where the part and what follows it are the
/// text.
pub proof fn law_beginning_and_rest_are_the_text(
    text: &str,
    part: &str,
    r: bool,
    rest: Option<String>,
)
    requires
        call_ensures(begins_with, (text, part), r),
        call_ensures(after_prefix, (text, part), rest),
    ensures
        r <==> begins(text@, part@),
        rest is Some <==> r,
        rest is Some ==> text@ == part@ + rest->Some_0@,
{
    lemma_begins(text@, part@);
}

/// A text holds a character where one of its characters is it, and a part where
/// something, the part and something else are the text.
pub proof fn law_text_holds_its_parts(
    text: &str,
    c: char,
    r: bool,
    before: Seq<char>,
    part: &str,
    after: Seq<char>,
    s: bool,
)
    requires
        call_ensures(contains_char, (text, c), r),
        call_ensures(contains_text, (text, part), s),
    ensures
        r <==> exists|i: int| 0 <= i < text@.len() && text@[i] == c,
        text@ == before + part@ + after ==> s,
        s ==> exists|at: int|
            0 <= at <= text@.len() - part@.len() && #[trigger] text@.subrange(
                at,
                at + part@.len(),
            ) == part@,
{
    if text@ == before + part@ + after {
        let at = before.len() as int;
        assert(text@.subrange(at, at + part@.len()) =~= part@);
        assert(stands_at(text@, part@, at));
    }
    if s {
        let at = choose|at: int| #[trigger] stands_at(text@, part@, at);
        assert(text@.subrange(at, at + part@.len()) == part@);
    }
}

proof fn lemma_not_replaced(text: Seq<char>, from: Seq<char>, to: Seq<char>)
    requires
        forall|at: int| 0 <= at ==> !#[trigger] stands_at(text, from, at),
    ensures
        replaced(text, from, to) == text,
    decreases text.len(),
{
    if text.len() > 0 && from.len() > 0 {
        assert(!stands_at(text, from, 0));
        let rest = text.skip(1);
        assert forall|at: int| 0 <= at implies !#[trigger] stands_at(rest, from, at) by {
            assert(!stands_at(text, from, at + 1));
            if stands_at(rest, from, at) {
                assert(rest.subrange(at, at + from.len()) =~= text.subrange(
                    at + 1,
                    at + 1 + from.len(),
                ));
            }
        }
        lemma_not_replaced(rest, from, to);
        assert(seq![text[0]] + rest =~= text);
    }
}

proof fn lemma_first_replaced(
    before: Seq<char>,
    from: Seq<char>,
    after: Seq<char>,
    to: Seq<char>,
)
    requires
        from.len() > 0,
        forall|at: int|
            0 <= at < before.len() ==> !#[trigger] stands_at(before + from + after, from, at),
    ensures
        replaced(before + from + after, from, to) == before + to + replaced(after, from, to),
    decreases before.len(),
{
    let text = before + from + after;
    if before.len() == 0 {
        assert(text.subrange(0, from.len() as int) =~= from);
        assert(stands_at(text, from, 0));
        assert(text.skip(from.len() as int) =~= after);
        assert(before + to + replaced(after, from, to) =~= to + replaced(after, from, to));
    } else {
        assert(!stands_at(text, from, 0));
        let shorter = before.skip(1);
        let rest = text.skip(1);
        assert(rest =~= shorter + from + after);
        assert forall|at: int| 0 <= at < shorter.len() implies !#[trigger] stands_at(
            shorter + from + after,
            from,
            at,
        ) by {
            assert(!stands_at(text, from, at + 1));
            if stands_at(rest, from, at) {
                assert(rest.subrange(at, at + from.len()) =~= text.subrange(
                    at + 1,
                    at + 1 + from.len(),
                ));
            }
        }
        lemma_first_replaced(shorter, from, after, to);
        assert(text[0] == before[0]);
        assert(seq![before[0]] + (shorter + to + replaced(after, from, to)) =~= before + to
            + replaced(after, from, to));
    }
}

/// A text without a part is kept, and in any other the first occurrence is
/// replaced and what follows it is treated likewise.
pub proof fn law_every_occurrence_is_replaced(
    text: &str,
    from: &str,
    to: &str,
    r: String,
    before: Seq<char>,
    after: &str,
    s: String,
)
    requires
        from@.len() > 0,
        call_ensures(replace_text, (text, from, to), r),
        call_ensures(replace_text, (after, from, to), s),
    ensures
        (forall|at: int| 0 <= at ==> !#[trigger] stands_at(text@, from@, at)) ==> r@ == text@,
        text@ == before + from@ + after@ && (forall|at: int|
            0 <= at < before.len() ==> !#[trigger] stands_at(text@, from@, at)) ==> r@ == before
            + to@ + s@,
{
    if forall|at: int| 0 <= at ==> !#[trigger] stands_at(text@, from@, at) {
        lemma_not_replaced(text@, from@, to@);
    }
    if text@ == before + from@ + after@ && (forall|at: int|
        0 <= at < before.len() ==> !#[trigger] stands_at(text@, from@, at)) {
        lemma_first_replaced(before, from@, after@, to@);
    }
}

/// A number below ten is written as its digit, and ten times a number and a
/// digit as the number followed by the digit.
pub proof fn law_number_is_written_digit_by_digit(
    value: u64,
    r: String,
    tens: u64,
    s: String,
    last: u64,
)
    requires
        call_ensures(decimal, (value,), r),
        call_ensures(decimal, (tens,), s),
        value == 10 * tens + last,
        last < 10,
    ensures
        tens == 0 ==> r@.len() == 1 && r@[0] as int == '0' as int + last,
        tens > 0 ==> r@.len() == s@.len() + 1 && r@.drop_last() == s@ && r@.last() as int
            == '0' as int + last,
{
    reveal_with_fuel(decimal_text, 2);
    assert(value as nat / 10 == tens as nat);
    assert(value as nat % 10 == last as nat);
    if tens > 0 {
        assert(r@.drop_last() =~= s@);
    }
}

/// A number of at least zero is written as such, and one below zero with a minus
/// sign in front.
pub proof fn law_sign_goes_first(value: i32, r: String, size: u64, s: String)
    requires
        call_ensures(signed_decimal, (value,), r),
        call_ensures(decimal, (size,), s),
    ensures
        value >= 0 && size == value ==> r@ == s@,
        value < 0 && size == -value ==> r@ == seq!['-'] + s@,
{
}

/// A digest is the name of the hash and its digits, and is told from any other
/// text.
pub proof fn law_digest_is_told_from_other_texts(
    bytes: &[u8],
    digest: String,
    bare: String,
    text: &str,
    r: bool,
)
    requires
        call_ensures(encoded_digest, (bytes,), digest),
        call_ensures(hex_digest, (bytes,), bare),
        call_ensures(valid_digest, (text,), r),
    ensures
        digest@ == digest_of(bytes@),
        digest@ == "sha256:"@ + bare@,
        sha256_text(digest@),
        bare@.len() == 64,
        r <==> sha256_text(text@),
{
    lemma_sha256_text(text@);
    lemma_sha256_text(digest@);
}

/// An identifier is its prefix and the first 32 digits of a digest, and the same
/// input has the same one.
pub proof fn law_identifier_is_stable(
    prefix: &str,
    input: &str,
    id: String,
    again: &str,
    other: String,
)
    requires
        call_ensures(stable_id, (prefix, input), id),
        call_ensures(stable_id, (prefix, again), other),
    ensures
        id@ == prefix@ + "_"@ + hex_text(sha256(encode_utf8(input@))).take(32),
        id@.len() == prefix@.len() + 33,
        input@ == again@ ==> id@ == other@,
{
}

/// Of two instants one comes first, the seconds before the nanoseconds, and the
/// later of them is one of the two that does not come before the other.
pub proof fn law_instants_are_ordered(
    a: UtcTime,
    b: UtcTime,
    r: bool,
    s: bool,
    last: UtcTime,
)
    requires
        call_ensures(UtcTime::is_before, (&a, &b), r),
        call_ensures(UtcTime::is_before, (&b, &a), s),
        call_ensures(UtcTime::later_of, (a, b), last),
    ensures
        r <==> later(a, b),
        r || s <==> a != b,
        !(r && s),
        last == a || last == b,
        !later(last, a) && !later(last, b),
{
}

/// An instant is one in the calendar's range, with less than a second of
/// nanoseconds, or less than two in the last second of a minute.
pub proof fn law_instant_is_in_the_calendar(seconds: i64, nanos: u32, r: Option<UtcTime>)
    requires
        call_ensures(UtcTime::at, (seconds, nanos), r),
    ensures
        r is Some <==> -8_334_601_228_800 <= seconds <= 8_210_266_876_799 && (nanos
            < 1_000_000_000 || (nanos < 2_000_000_000 && seconds % 60 == 59)),
        r is Some ==> r->Some_0.seconds == seconds && r->Some_0.nanos == nanos,
{
}

/// There is room for a wait exactly where it ends in the calendar's range.
pub proof fn law_wait_ends_in_the_calendar(time: UtcTime, millis: u64, r: bool)
    requires
        call_ensures(UtcTime::has_room, (&time, millis), r),
        time.nanos < 1_000_000_000,
        -8_334_601_228_800 <= time.seconds <= 8_210_266_876_799,
    ensures
        r <==> time.seconds * 1_000_000_000 + time.nanos + millis * 1_000_000
            < 8_210_266_876_800 * 1_000_000_000,
{
}

/// A text is of an instant exactly where it denotes one in no more characters
/// than an instant needs.
pub proof fn law_text_of_an_instant(text: &str, r: bool)
    requires
        call_ensures(valid_time, (text,), r),
    ensures
        r <==> filled(text@, 1, 64) && rfc3339_instant(text@) is Some,
{
    lemma_filled(text@, 1, 64);
}

/// An instant is told exactly where it lies in the years 0 to 9999.
pub proof fn law_instant_is_told(
    time: UtcTime,
    r: Result<String, RuntimeFailure>,
    short: String,
)
    requires
        call_ensures(format_time, (time,), r),
        call_ensures(format_template_time, (time,), short),
    ensures
        r is Ok <==> can_be_told(time),
        r is Ok ==> tells(r->Ok_0@, time),
        r is Err ==> r->Err_0 is PluginFailure && r->Err_0->PluginFailure_detail@ == (if
        -62_167_219_200 <= time.seconds < 253_402_300_800 {
            "stored Notification timestamp violates its bounded Capability Contract"@
        } else {
            "stored Notification timestamp is outside the RFC 3339 four-digit year range"@
        }),
        short@ == rfc3339_seconds(time.seconds, time.nanos),
{
    lemma_filled(crate::time::rfc3339_millis(time.seconds, time.nanos), 1, 64);
    assert(crate::time::new_year(0) == -62_167_219_200);
    assert(crate::time::new_year(10_000) == 253_402_300_800);
}

/// The policy waits one minute, five minutes and half an hour, as long as an
/// attempt is left, and then gives up.
pub proof fn law_policy_waits_longer_each_time(
    most: i32,
    policy: RetryPolicy,
    completed: i32,
    now: UtcTime,
    next: Option<UtcTime>,
)
    requires
        call_ensures(RetryPolicy::with_max_attempts, (most,), policy),
        call_ensures(RetryPolicy::next_at, (&policy, completed, now), next),
    ensures
        policy.max_attempts == most,
        next is Some <==> 1 <= completed <= 3 && completed < most,
        next is Some ==> next->Some_0 == now.plus_millis(pause_after(completed as int)),
{
    assert(crate::domain::default_delays().len() == 3);
}

/// The default policy allows four attempts.
pub proof fn law_default_policy_allows_four_attempts(
    policy: RetryPolicy,
    completed: i32,
    now: UtcTime,
    next: Option<UtcTime>,
)
    requires
        call_ensures(<RetryPolicy as Default>::default, (), policy),
        call_ensures(RetryPolicy::next_at, (&policy, completed, now), next),
    ensures
        policy.max_attempts == 4,
        next is Some <==> 1 <= completed <= 3,
        next is Some ==> next->Some_0 == now.plus_millis(pause_after(completed as int)),
{
    assert(crate::domain::default_delays().len() == 3);
}

} // verus!
