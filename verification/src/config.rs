//! The immutable configuration: schema, secret references and the callers of
//! each authority.

use vstd::prelude::*;
use vstd::utf8::*;

use crate::error::RuntimeFailure;
use crate::text::{ascii_alphanumeric, chars_of, same_text};

verus! {

/// Why a configuration is refused.
#[derive(Clone, Copy, Debug, Eq, PartialEq, Structural)]
pub enum NotificationConfigError {
    InvalidSchema,
    InvalidSecretReference,
    InvalidCallers,
}

impl NotificationConfigError {
    /// The public text of the refusal.
    pub open spec fn text(self) -> Seq<char> {
        match self {
            NotificationConfigError::InvalidSchema =>
                "the legacy Notification schema identity must remain `notification`"@,
            NotificationConfigError::InvalidSecretReference =>
                "database and snapshot keys require distinct valid secret references"@,
            NotificationConfigError::InvalidCallers =>
                "each authority role requires unique valid caller Instance keys"@,
        }
    }

    /// The public text of the refusal.
    pub fn message(&self) -> (message: &'static str)
        ensures
            message@ == self.text(),
    {
        match self {
            NotificationConfigError::InvalidSchema => {
                "the legacy Notification schema identity must remain `notification`"
            },
            NotificationConfigError::InvalidSecretReference => {
                "database and snapshot keys require distinct valid secret references"
            },
            NotificationConfigError::InvalidCallers => {
                "each authority role requires unique valid caller Instance keys"
            },
        }
    }
}

/// The configuration of one plugin instance.
#[derive(Clone, Debug, Eq, PartialEq)]
pub struct NotificationConfig {
    pub schema: String,
    pub database_url_secret: String,
    pub snapshot_key_secret: String,
    pub transactional_callers: Vec<String>,
    pub dispatch_callers: Vec<String>,
    pub receipt_callers: Vec<String>,
    pub admin_callers: Vec<String>,
}

/// A character of a secret reference's segment.
pub open spec fn segment_char(c: char) -> bool {
    ascii_alphanumeric(c) || c == '.' || c == '_' || c == '-'
}

/// A segment that names something and does not step out.
pub open spec fn sound_segment(segment: Seq<char>) -> bool {
    &&& segment.len() > 0
    &&& segment != "."@
    &&& segment != ".."@
    &&& forall|i: int| 0 <= i < segment.len() ==> segment_char(#[trigger] segment[i])
}

/// Where the segment that begins at `from` ends.
pub open spec fn segment_end(text: Seq<char>, from: int) -> int
    decreases text.len() - from,
{
    if from >= text.len() || text[from] == '/' {
        from
    } else {
        segment_end(text, from + 1)
    }
}

/// Whether the segments from position `from` on are all sound.
pub open spec fn sound_segments(text: Seq<char>, from: int) -> bool
    decreases text.len() - from,
    when 0 <= from <= text.len()
    via sound_segments_decreases
{
    let end = segment_end(text, from);
    sound_segment(text.subrange(from, end)) && (end < text.len() ==> sound_segments(
        text,
        end + 1,
    ))
}

#[via_fn]
proof fn sound_segments_decreases(text: Seq<char>, from: int) {
    lemma_segment_end(text, from);
}

proof fn lemma_segment_end(text: Seq<char>, from: int)
    requires
        0 <= from <= text.len(),
    ensures
        from <= segment_end(text, from) <= text.len(),
    decreases text.len() - from,
{
    if from < text.len() && text[from] != '/' {
        lemma_segment_end(text, from + 1);
    }
}

/// A slash-separated reference to a secret.
pub open spec fn secret_reference(text: Seq<char>) -> bool {
    &&& text.len() > 0
    &&& encode_utf8(text).len() <= 256
    &&& text[0] != '/'
    &&& text.last() != '/'
    &&& sound_segments(text, 0)
}

fn is_ascii_alphanumeric(c: char) -> (r: bool)
    ensures
        r == ascii_alphanumeric(c),
{
    (c >= 'a' && c <= 'z') || (c >= 'A' && c <= 'Z') || (c >= '0' && c <= '9')
}

/// Whether `chars[from..to]` is a sound segment.
fn segment_is_sound(chars: &Vec<char>, from: usize, to: usize) -> (r: bool)
    requires
        from <= to <= chars@.len(),
    ensures
        r == sound_segment(chars@.subrange(from as int, to as int)),
{
    let ghost segment = chars@.subrange(from as int, to as int);
    proof {
        reveal_strlit(".");
        reveal_strlit("..");
    }
    if from == to {
        return false;
    }
    if to - from == 1 && chars[from] == '.' {
        assert(segment =~= "."@);
        return false;
    }
    if to - from == 2 && chars[from] == '.' && chars[from + 1] == '.' {
        assert(segment =~= ".."@);
        return false;
    }
    proof {
        assert(segment[0] == chars@[from as int]);
        if to - from >= 2 {
            assert(segment[1] == chars@[from + 1]);
        }
    }
    let mut i: usize = from;
    while i < to
        invariant
            from <= i <= to <= chars@.len(),
            segment == chars@.subrange(from as int, to as int),
            segment.len() > 0,
            segment != "."@,
            segment != ".."@,
            forall|j: int| from <= j < i ==> segment_char(#[trigger] chars@[j]),
        decreases to - i,
    {
        let c = chars[i];
        if !(is_ascii_alphanumeric(c) || c == '.' || c == '_' || c == '-') {
            assert(segment[i - from] == c);
            return false;
        }
        i = i + 1;
    }
    true
}

/// Whether `value` is a slash-separated reference to a secret.
pub fn valid_secret_reference(value: &str) -> (r: bool)
    ensures
        r == secret_reference(value@),
{
    let chars = chars_of(value);
    if chars.len() == 0 || value.as_bytes().len() > 256 || chars[0] == '/' || chars[chars.len() - 1]
        == '/' {
        return false;
    }
    let mut from: usize = 0;
    loop
        invariant
            chars@ == value@,
            from <= chars@.len(),
            chars@.len() > 0,
            encode_utf8(value@).len() <= 256,
            value@[0] != '/',
            value@.last() != '/',
            sound_segments(value@, 0) == sound_segments(value@, from as int),
        decreases chars@.len() - from,
    {
        let mut end: usize = from;
        while end < chars.len() && chars[end] != '/'
            invariant
                chars@ == value@,
                from <= end <= chars@.len(),
                segment_end(value@, from as int) == segment_end(value@, end as int),
            decreases chars@.len() - end,
        {
            end = end + 1;
        }
        assert(segment_end(value@, from as int) == end);
        if !segment_is_sound(&chars, from, end) {
            return false;
        }
        if end == chars.len() {
            return true;
        }
        from = end + 1;
    }
}

/// A character of a caller's instance key.
pub open spec fn instance_char(c: char) -> bool {
    segment_char(c) || c == '/'
}

/// The key of a caller's instance.
pub open spec fn instance_key(text: Seq<char>) -> bool {
    &&& text.len() > 0
    &&& encode_utf8(text).len() <= 160
    &&& forall|i: int| 0 <= i < text.len() ==> instance_char(#[trigger] text[i])
}

/// Whether `value` is the key of a caller's instance.
pub fn valid_instance(value: &str) -> (r: bool)
    ensures
        r == instance_key(value@),
{
    let chars = chars_of(value);
    if chars.len() == 0 || value.as_bytes().len() > 160 {
        return false;
    }
    let mut i: usize = 0;
    while i < chars.len()
        invariant
            i <= chars@.len(),
            chars@ == value@,
            forall|j: int| 0 <= j < i ==> instance_char(#[trigger] chars@[j]),
        decreases chars@.len() - i,
    {
        let c = chars[i];
        if !(is_ascii_alphanumeric(c) || c == '.' || c == '_' || c == '-' || c == '/') {
            return false;
        }
        i = i + 1;
    }
    true
}

/// Between 1 and 64 instance keys, each of them once.
pub open spec fn sound_callers(callers: Seq<String>) -> bool {
    &&& 1 <= callers.len() <= 64
    &&& forall|i: int| 0 <= i < callers.len() ==> instance_key((#[trigger] callers[i])@)
    &&& forall|i: int, j: int|
        0 <= i < j < callers.len() ==> (#[trigger] callers[i])@ != (#[trigger] callers[j])@
}

/// Whether `wanted` is among the first `upto` callers.
fn contains_before(callers: &Vec<String>, upto: usize, wanted: &str) -> (r: bool)
    requires
        upto <= callers@.len(),
    ensures
        r == exists|i: int| 0 <= i < upto && (#[trigger] callers@[i])@ == wanted@,
{
    let mut i: usize = 0;
    while i < upto
        invariant
            i <= upto <= callers@.len(),
            forall|j: int| 0 <= j < i ==> (#[trigger] callers@[j])@ != wanted@,
        decreases upto - i,
    {
        if same_text(callers[i].as_str(), wanted) {
            return true;
        }
        i = i + 1;
    }
    false
}

/// Whether the list holds between 1 and 64 instance keys, each of them once.
pub fn valid_callers(callers: &Vec<String>) -> (r: bool)
    ensures
        r == sound_callers(callers@),
{
    if callers.len() == 0 || callers.len() > 64 {
        return false;
    }
    let mut i: usize = 0;
    while i < callers.len()
        invariant
            i <= callers@.len() <= 64,
            forall|j: int| 0 <= j < i ==> instance_key((#[trigger] callers@[j])@),
            forall|j: int, k: int|
                0 <= j < k < i ==> (#[trigger] callers@[j])@ != (#[trigger] callers@[k])@,
        decreases callers@.len() - i,
    {
        if !valid_instance(callers[i].as_str()) {
            return false;
        }
        if contains_before(callers, i, callers[i].as_str()) {
            return false;
        }
        i = i + 1;
    }
    true
}

impl NotificationConfig {
    /// What is wrong with the configuration, if anything is.
    pub open spec fn fault(self) -> Option<NotificationConfigError> {
        if self.schema@ != "notification"@ {
            Some(NotificationConfigError::InvalidSchema)
        } else if !(secret_reference(self.database_url_secret@) && secret_reference(
            self.snapshot_key_secret@,
        ) && self.database_url_secret@ != self.snapshot_key_secret@) {
            Some(NotificationConfigError::InvalidSecretReference)
        } else if !(sound_callers(self.transactional_callers@) && sound_callers(
            self.dispatch_callers@,
        ) && sound_callers(self.receipt_callers@) && sound_callers(self.admin_callers@)) {
            Some(NotificationConfigError::InvalidCallers)
        } else {
            None
        }
    }

    /// Whether the configuration is sound.
    pub open spec fn well_formed(self) -> bool {
        self.fault() is None
    }

    /// The configuration with the given secrets and callers, if it is sound.
    pub fn new(
        database_url_secret: &str,
        snapshot_key_secret: &str,
        transactional_callers: Vec<String>,
        dispatch_callers: Vec<String>,
        receipt_callers: Vec<String>,
        admin_callers: Vec<String>,
    ) -> (r: Result<NotificationConfig, NotificationConfigError>)
        ensures
            match r {
                Ok(config) => {
                    &&& config.well_formed()
                    &&& config.schema@ == "notification"@
                    &&& config.database_url_secret@ == database_url_secret@
                    &&& config.snapshot_key_secret@ == snapshot_key_secret@
                    &&& config.transactional_callers == transactional_callers
                    &&& config.dispatch_callers == dispatch_callers
                    &&& config.receipt_callers == receipt_callers
                    &&& config.admin_callers == admin_callers
                },
                Err(error) => if secret_reference(database_url_secret@) && secret_reference(
                    snapshot_key_secret@,
                ) && database_url_secret@ != snapshot_key_secret@ {
                    error is InvalidCallers && !(sound_callers(transactional_callers@)
                        && sound_callers(dispatch_callers@) && sound_callers(receipt_callers@)
                        && sound_callers(admin_callers@))
                } else {
                    error is InvalidSecretReference
                },
            },
    {
        let config = NotificationConfig {
            schema: "notification".to_owned(),
            database_url_secret: database_url_secret.to_owned(),
            snapshot_key_secret: snapshot_key_secret.to_owned(),
            transactional_callers,
            dispatch_callers,
            receipt_callers,
            admin_callers,
        };
        match config.validate() {
            Ok(_) => Ok(config),
            Err(error) => Err(error),
        }
    }

    /// Accepts a sound configuration.
    pub fn validate(&self) -> (r: Result<(), NotificationConfigError>)
        ensures
            match r {
                Ok(_) => self.fault() is None,
                Err(error) => self.fault() == Some(error),
            },
    {
        if !same_text(self.schema.as_str(), "notification") {
            return Err(NotificationConfigError::InvalidSchema);
        }
        if !valid_secret_reference(self.database_url_secret.as_str()) || !valid_secret_reference(
            self.snapshot_key_secret.as_str(),
        ) || same_text(self.database_url_secret.as_str(), self.snapshot_key_secret.as_str()) {
            return Err(NotificationConfigError::InvalidSecretReference);
        }
        if !valid_callers(&self.transactional_callers) || !valid_callers(&self.dispatch_callers)
            || !valid_callers(&self.receipt_callers) || !valid_callers(&self.admin_callers) {
            return Err(NotificationConfigError::InvalidCallers);
        }
        Ok(())
    }
}

/// Accepts a sound configuration of a resolved plan.
pub fn validate_config(config: &NotificationConfig) -> (r: Result<(), RuntimeFailure>)
    ensures
        match config.fault() {
            None => r is Ok,
            Some(error) => r matches Err(RuntimeFailure::InvalidResolvedPlan { detail })
                && detail@ == error.text(),
        },
{
    match config.validate() {
        Ok(_) => Ok(()),
        Err(error) => Err(
            RuntimeFailure::InvalidResolvedPlan { detail: error.message().to_owned() },
        ),
    }
}

/// Whether `caller` is one of the allowed ones.
pub open spec fn is_among(caller: Seq<char>, allowed: Seq<String>) -> bool {
    exists|i: int| 0 <= i < allowed.len() && (#[trigger] allowed[i])@ == caller
}

/// The authenticated caller, if it is one of the allowed ones.
pub fn authorized_caller<'a>(caller: Option<&'a str>, allowed: &Vec<String>) -> (r: Option<&'a str>)
    ensures
        match caller {
            Some(name) => if is_among(name@, allowed@) {
                r == Some(name)
            } else {
                r is None
            },
            None => r is None,
        },
{
    match caller {
        Some(name) => if contains_before(allowed, allowed.len(), name) {
            Some(name)
        } else {
            None
        },
        None => None,
    }
}

/// Whether the authenticated caller is one of the allowed ones.
pub fn authorized(caller: Option<&str>, allowed: &Vec<String>) -> (r: bool)
    ensures
        r == (caller matches Some(name) && is_among(name@, allowed@)),
{
    authorized_caller(caller, allowed).is_some()
}

} // verus!
