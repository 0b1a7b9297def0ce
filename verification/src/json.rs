//! JSON text: what is read from it, and how strings are written in it.

use vstd::prelude::*;

use crate::digest::hex_digit;
use crate::text::texts;

verus! {

/// The compact text of a JSON text, if it is one.
pub uninterp spec fn json_compact(text: Seq<char>) -> Option<Seq<char>>;

/// The elements of a JSON array, each as compact JSON, if the text is one.
pub uninterp spec fn json_elements(row: Seq<char>) -> Option<Seq<Seq<char>>>;

/// The string that a JSON text spells, if it spells one.
pub uninterp spec fn json_string(element: Seq<char>) -> Option<Seq<char>>;

/// How a character is written inside a JSON string: quotes, backslashes and
/// control characters are escaped, everything else stands for itself.
pub open spec fn json_escaped(c: char) -> Seq<char> {
    if c == '"' || c == '\\' {
        seq!['\\', c]
    } else if c == '\u{8}' {
        seq!['\\', 'b']
    } else if c == '\t' {
        seq!['\\', 't']
    } else if c == '\n' {
        seq!['\\', 'n']
    } else if c == '\u{c}' {
        seq!['\\', 'f']
    } else if c == '\r' {
        seq!['\\', 'r']
    } else if c <= '\u{1f}' {
        seq!['\\', 'u', '0', '0', hex_digit(c as int / 16), hex_digit(c as int % 16)]
    } else {
        seq![c]
    }
}

/// The characters of a text, each as it is written inside a JSON string.
pub open spec fn json_body(text: Seq<char>) -> Seq<char>
    decreases text.len(),
{
    if text.len() == 0 {
        Seq::empty()
    } else {
        json_escaped(text[0]) + json_body(text.skip(1))
    }
}

/// The JSON text that spells a string.
pub open spec fn json_quoted(text: Seq<char>) -> Seq<char> {
    seq!['"'] + json_body(text) + seq!['"']
}

/// An optional string as JSON.
pub open spec fn json_option(value: Option<Seq<char>>) -> Seq<char> {
    match value {
        Some(text) => json_quoted(text),
        None => "null"@,
    }
}

/// Optional strings as JSON, each behind the text that leads to it.
pub open spec fn json_members(members: Seq<(Seq<char>, Option<Seq<char>>)>) -> Seq<char>
    decreases members.len(),
{
    if members.len() == 0 {
        Seq::empty()
    } else {
        members[0].0 + json_option(members[0].1) + json_members(members.skip(1))
    }
}

/// `serde_json::from_str` into a `Value` and its compact text: a function of
/// the text alone.
#[verifier::external_body]
pub(crate) fn compact_json(text: &str) -> (compact: Option<String>)
    ensures
        match compact {
            Some(found) => json_compact(text@) == Some(found@),
            None => json_compact(text@) is None,
        },
{
    let value = serde_json::from_str::<serde_json::Value>(text).ok()?;
    Some(value.to_string())
}

/// `serde_json::from_str` into a `Value`, `Value::as_array`, and the compact
/// text of each element: a function of the text alone.
#[verifier::external_body]
pub(crate) fn array_elements(row: &str) -> (elements: Option<Vec<String>>)
    ensures
        match elements {
            Some(found) => json_elements(row@) == Some(texts(found@)),
            None => json_elements(row@) is None,
        },
{
    let value = serde_json::from_str::<serde_json::Value>(row).ok()?;
    let elements = value.as_array()?;
    Some(elements.iter().map(|element| element.to_string()).collect())
}

/// `serde_json::from_str` into a `Value` and `Value::as_str`: a function of the
/// text alone.
#[verifier::external_body]
pub(crate) fn element_text(element: &str) -> (text: Option<String>)
    ensures
        match text {
            Some(found) => json_string(element@) == Some(found@),
            None => json_string(element@) is None,
        },
{
    let value = serde_json::from_str::<serde_json::Value>(element).ok()?;
    value.as_str().map(str::to_owned)
}

/// The compact text of a `serde_json::Value::String`: the string in quotes,
/// with `serde_json`'s escapes, which reads back as the string.
#[verifier::external_body]
pub(crate) fn quote_text(text: &str) -> (quoted: String)
    ensures
        quoted@ == json_quoted(text@),
        json_string(quoted@) == Some(text@),
{
    serde_json::Value::String(text.to_owned()).to_string()
}

/// An optional string, behind the text that leads to it.
pub(crate) struct JsonMember<'a> {
    pub label: &'static str,
    pub value: Option<&'a str>,
}

/// What members hold.
pub(crate) open spec fn member_views(members: Seq<JsonMember>) -> Seq<
    (Seq<char>, Option<Seq<char>>),
> {
    Seq::new(
        members.len(),
        |i: int|
            (
                members[i].label@,
                match members[i].value {
                    Some(text) => Some(text@),
                    None => None,
                },
            ),
    )
}

/// Writes members one after the other.
pub(crate) fn write_members(members: &Vec<JsonMember>) -> (text: String)
    ensures
        text@ == json_members(member_views(members@)),
{
    let mut text = String::new();
    let ghost views = member_views(members@);
    let mut i: usize = 0;
    assert(views.skip(0) =~= views);
    assert(text@ + json_members(views) =~= json_members(views));
    while i < members.len()
        invariant
            i <= members.len(),
            views == member_views(members@),
            text@ + json_members(views.skip(i as int)) == json_members(views),
        decreases members.len() - i,
    {
        let ghost before = text@;
        let ghost rest = views.skip(i as int);
        text.append(members[i].label);
        match members[i].value {
            Some(value) => text.append(quote_text(value).as_str()),
            None => text.append("null"),
        }
        proof {
            assert(rest.skip(1) =~= views.skip(i + 1));
            assert(rest[0] == views[i as int]);
            assert(text@ =~= before + (rest[0].0 + json_option(rest[0].1)));
            assert(text@ + json_members(rest.skip(1)) =~= before + json_members(rest));
        }
        i = i + 1;
    }
    assert(views.skip(i as int).len() == 0);
    assert(text@ + json_members(views.skip(i as int)) =~= text@);
    text
}

/// The first character of an escape tells where it ends and what it stands for.
proof fn lemma_escape_is_delimited(a: char, b: char, after_a: Seq<char>, after_b: Seq<char>)
    requires
        json_escaped(a) + after_a == json_escaped(b) + after_b,
    ensures
        a == b,
        after_a == after_b,
{
    let left = json_escaped(a) + after_a;
    let right = json_escaped(b) + after_b;
    assert(left[0] == right[0]);
    assert(json_escaped(a)[0] == left[0] && json_escaped(b)[0] == right[0]);
    if json_escaped(a).len() > 1 {
        assert(json_escaped(a)[1] == left[1] && json_escaped(b)[1] == right[1]);
        if json_escaped(a).len() > 2 {
            assert(json_escaped(a)[4] == left[4] && json_escaped(b)[4] == right[4]);
            assert(json_escaped(a)[5] == left[5] && json_escaped(b)[5] == right[5]);
            assert(a as int / 16 == b as int / 16 && a as int % 16 == b as int % 16);
        }
    }
    assert(a == b);
    let width = json_escaped(a).len() as int;
    assert(after_a =~= left.skip(width));
    assert(after_b =~= right.skip(width));
}

proof fn lemma_body_is_delimited(a: Seq<char>, b: Seq<char>, after_a: Seq<char>, after_b: Seq<char>)
    requires
        json_body(a) + (seq!['"'] + after_a) == json_body(b) + (seq!['"'] + after_b),
    ensures
        a == b,
        after_a == after_b,
    decreases a.len(),
{
    let tail_a = seq!['"'] + after_a;
    let tail_b = seq!['"'] + after_b;
    let left = json_body(a) + tail_a;
    let right = json_body(b) + tail_b;
    if a.len() == 0 || b.len() == 0 {
        if a.len() > 0 {
            assert(left[0] == json_escaped(a[0])[0]);
            assert(right[0] == '"');
        }
        if b.len() > 0 {
            assert(right[0] == json_escaped(b[0])[0]);
            assert(left[0] == '"');
        }
        assert(a =~= b);
        assert(left =~= tail_a && right =~= tail_b);
        assert(after_a =~= tail_a.skip(1) && after_b =~= tail_b.skip(1));
    } else {
        let rest_a = json_body(a.skip(1)) + tail_a;
        let rest_b = json_body(b.skip(1)) + tail_b;
        assert(left =~= json_escaped(a[0]) + rest_a);
        assert(right =~= json_escaped(b[0]) + rest_b);
        lemma_escape_is_delimited(a[0], b[0], rest_a, rest_b);
        lemma_body_is_delimited(a.skip(1), b.skip(1), after_a, after_b);
        assert(a =~= seq![a[0]] + a.skip(1));
        assert(b =~= seq![b[0]] + b.skip(1));
    }
}

/// A JSON string tells where it ends and what it spells, whatever follows it.
pub proof fn lemma_quoted_is_delimited(
    a: Seq<char>,
    b: Seq<char>,
    after_a: Seq<char>,
    after_b: Seq<char>,
)
    requires
        json_quoted(a) + after_a == json_quoted(b) + after_b,
    ensures
        a == b,
        after_a == after_b,
{
    let left = json_body(a) + (seq!['"'] + after_a);
    let right = json_body(b) + (seq!['"'] + after_b);
    assert(left =~= (json_quoted(a) + after_a).skip(1));
    assert(right =~= (json_quoted(b) + after_b).skip(1));
    lemma_body_is_delimited(a, b, after_a, after_b);
}

/// An optional string tells where it ends and what it is, whatever follows it.
pub proof fn lemma_option_is_delimited(
    a: Option<Seq<char>>,
    b: Option<Seq<char>>,
    after_a: Seq<char>,
    after_b: Seq<char>,
)
    requires
        json_option(a) + after_a == json_option(b) + after_b,
    ensures
        a == b,
        after_a == after_b,
{
    reveal_strlit("null");
    let left = json_option(a) + after_a;
    let right = json_option(b) + after_b;
    assert(left[0] == json_option(a)[0]);
    assert(right[0] == json_option(b)[0]);
    match (a, b) {
        (Some(a_text), Some(b_text)) => {
            lemma_quoted_is_delimited(a_text, b_text, after_a, after_b);
        },
        (None, None) => {
            assert(after_a =~= left.skip(4));
            assert(after_b =~= right.skip(4));
        },
        _ => {},
    }
}

/// Members behind the same leading texts tell what they are and where they end.
pub proof fn lemma_members_are_delimited(
    a: Seq<(Seq<char>, Option<Seq<char>>)>,
    b: Seq<(Seq<char>, Option<Seq<char>>)>,
    after_a: Seq<char>,
    after_b: Seq<char>,
)
    requires
        a.len() == b.len(),
        forall|i: int| 0 <= i < a.len() ==> (#[trigger] a[i]).0 == b[i].0,
        json_members(a) + after_a == json_members(b) + after_b,
    ensures
        a == b,
        after_a == after_b,
    decreases a.len(),
{
    if a.len() == 0 {
        assert(a =~= b);
        assert(json_members(a) + after_a =~= after_a);
        assert(json_members(b) + after_b =~= after_b);
    } else {
        let label = a[0].0;
        let rest_a = json_members(a.skip(1)) + after_a;
        let rest_b = json_members(b.skip(1)) + after_b;
        let left = json_option(a[0].1) + rest_a;
        let right = json_option(b[0].1) + rest_b;
        assert(a[0].0 == b[0].0);
        assert(left =~= (json_members(a) + after_a).skip(label.len() as int));
        assert(right =~= (json_members(b) + after_b).skip(label.len() as int));
        lemma_option_is_delimited(a[0].1, b[0].1, rest_a, rest_b);
        assert forall|i: int| 0 <= i < a.skip(1).len() implies (#[trigger] a.skip(1)[i]).0
            == b.skip(1)[i].0 by {
            assert(a[i + 1].0 == b[i + 1].0);
        }
        lemma_members_are_delimited(a.skip(1), b.skip(1), after_a, after_b);
        assert(a =~= seq![a[0]] + a.skip(1));
        assert(b =~= seq![b[0]] + b.skip(1));
    }
}

/// Members can be written in two parts.
pub proof fn lemma_members_split(members: Seq<(Seq<char>, Option<Seq<char>>)>, at: int)
    requires
        0 <= at <= members.len(),
    ensures
        json_members(members) == json_members(members.take(at)) + json_members(members.skip(at)),
    decreases at,
{
    if at == 0 {
        assert(members.skip(0) =~= members);
        assert(json_members(members.take(0)) + json_members(members) =~= json_members(members));
    } else {
        let rest = members.skip(1);
        lemma_members_split(rest, at - 1);
        assert(rest.take(at - 1) =~= members.take(at).skip(1));
        assert(rest.skip(at - 1) =~= members.skip(at));
        assert(members.take(at)[0] == members[0]);
        assert(json_members(members) =~= json_members(members.take(at)) + json_members(
            members.skip(at),
        ));
    }
}

} // verus!
