//! What holds of the library's operations, whatever they are given. Each law
//! is stated of what an operation hands back: of its contract, by the values
//! that go in and come out.

use vstd::prelude::*;

use crate::error::{ErrorCode, NotificationError};
use crate::text::white_space;
use crate::time::{rfc3339_instant, rfc3339_millis, UtcTime};

pub mod accepting;
pub mod administering;
pub mod answering;
pub mod boundary;
pub mod comparing;
pub mod console;
pub mod consuming;
pub mod dispatching;
pub mod hiding;
pub mod managing;
pub mod observing;
pub mod storing;
pub mod wording;
pub mod writing;

verus! {

/// Whether a text has a character that is no white space, and a length between
/// the two bounds.
pub open spec fn filled(text: Seq<char>, least: nat, most: nat) -> bool {
    &&& least <= text.len() <= most
    &&& exists|i: int| 0 <= i < text.len() && !white_space(#[trigger] text[i])
}

/// Whether an optional text is absent or short enough.
pub open spec fn absent_or_short(text: Option<String>, most: nat) -> bool {
    text is None || text->Some_0@.len() <= most
}

/// Whether somebody called whose name stands in the list.
pub open spec fn listed(caller: Option<&str>, allowed: Seq<String>) -> bool {
    caller is Some && exists|i: int|
        0 <= i < allowed.len() && (#[trigger] allowed[i])@ == caller->Some_0@
}

/// Whether `text` is RFC 3339 text of the instant `at`.
pub open spec fn denotes(text: Seq<char>, at: UtcTime) -> bool {
    rfc3339_instant(text) == Some((at.seconds, at.nanos))
}

/// Whether `late` comes after `early`.
pub open spec fn later(early: UtcTime, late: UtcTime) -> bool {
    early.seconds < late.seconds || (early.seconds == late.seconds && early.nanos < late.nanos)
}

/// Whether `text` denotes an instant after `now`, in no more characters than an
/// instant needs.
pub open spec fn later_text(text: Seq<char>, now: UtcTime) -> bool {
    filled(text, 1, 64) && rfc3339_instant(text) is Some && later(
        now,
        UtcTime {
            seconds: rfc3339_instant(text)->Some_0.0,
            nanos: rfc3339_instant(text)->Some_0.1,
        },
    )
}

/// Whether `text` begins with `part`.
pub open spec fn begins(text: Seq<char>, part: Seq<char>) -> bool {
    part.len() <= text.len() && text.take(part.len() as int) == part
}

/// A digit of lowercase hexadecimal text.
pub open spec fn digit_of_sixteen(c: char) -> bool {
    ('0' <= c <= '9') || ('a' <= c <= 'f')
}

/// Whether `text` is the name of the hash and 64 digits of lowercase
/// hexadecimal text.
pub open spec fn sha256_text(text: Seq<char>) -> bool {
    &&& text.len() == 71
    &&& begins(text, "sha256:"@)
    &&& forall|i: int| 7 <= i < 71 ==> digit_of_sixteen(#[trigger] text[i])
}

/// Whether the ledger refused with the given code and text, and with no
/// underlying failure.
pub open spec fn refused<T>(
    r: Result<T, NotificationError>,
    code: ErrorCode,
    text: Seq<char>,
) -> bool {
    r is Err && r->Err_0.code == code && r->Err_0.message@ == text && r->Err_0.source is None
}

/// The first `most` characters of a text, or all of them.
pub open spec fn clipped(stored: Seq<char>, text: Seq<char>, most: nat) -> bool {
    &&& stored.len() == (if text.len() < most {
        text.len()
    } else {
        most
    })
    &&& forall|i: int| 0 <= i < stored.len() ==> stored[i] == text[i]
}

/// Whether an instant lies in the years 0 to 9999 and has a text of bounded
/// length.
pub open spec fn can_be_told(time: UtcTime) -> bool {
    let text = rfc3339_millis(time.seconds, time.nanos);
    &&& -62_167_219_200 <= time.seconds < 253_402_300_800
    &&& filled(text, 1, 64)
    &&& rfc3339_instant(text) is Some
}

/// Whether `text` tells the instant.
pub open spec fn tells(text: Seq<char>, time: UtcTime) -> bool {
    text == rfc3339_millis(time.seconds, time.nanos)
}

/// Whether `text` tells the instant where there is one, and is absent where
/// there is none.
pub open spec fn tells_any(text: Option<String>, time: Option<UtcTime>) -> bool {
    &&& text is Some <==> time is Some
    &&& time is Some ==> tells(text->Some_0@, time->Some_0)
}

} // verus!
