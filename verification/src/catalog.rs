//! Comparing database catalogs that live in different schemas: what names the
//! schema is taken out of their definitions first.

use vstd::prelude::*;
use vstd::string::*;

use crate::json::{array_elements, element_text, json_elements, json_quoted, json_string,
    quote_text};
use crate::text::{ascii_alphanumeric, begins_with, chars_of, matches_at, same_text, stands_at,
    texts};

verus! {

// SQL text

/// Whether `c` can stand in the middle of an SQL word.
pub open spec fn word_char(c: char) -> bool {
    ascii_alphanumeric(c) || c == '_' || c == '$'
}

fn is_word_char(c: char) -> (r: bool)
    ensures
        r == word_char(c),
{
    (c >= '0' && c <= '9') || (c >= 'a' && c <= 'z') || (c >= 'A' && c <= 'Z') || c == '_' || c
        == '$'
}

/// The first place from `from` on where `c` stands, or the end of the text.
pub open spec fn place_of(text: Seq<char>, c: char, from: int) -> int
    decreases text.len() - from,
{
    if from >= text.len() {
        text.len() as int
    } else if text[from] == c {
        from
    } else {
        place_of(text, c, from + 1)
    }
}

/// Where a string literal ends whose inside starts at `from`: behind its
/// closing quote. A doubled quote and a character behind a backslash belong to
/// the literal.
pub open spec fn literal_end(sql: Seq<char>, from: int) -> int
    decreases sql.len() - from,
{
    if from >= sql.len() {
        sql.len() as int
    } else if sql[from] == '\\' {
        if from + 1 < sql.len() {
            literal_end(sql, from + 2)
        } else {
            sql.len() as int
        }
    } else if sql[from] != '\'' {
        literal_end(sql, from + 1)
    } else if from + 1 < sql.len() && sql[from + 1] == '\'' {
        literal_end(sql, from + 2)
    } else {
        from + 1
    }
}

/// Where a quoted text ends whose inside starts at `from`: behind the first
/// `delimiter`.
pub open spec fn quoted_end(sql: Seq<char>, delimiter: Seq<char>, from: int) -> int
    decreases sql.len() - from,
{
    if from >= sql.len() {
        sql.len() as int
    } else if stands_at(sql, delimiter, from) {
        from + delimiter.len()
    } else {
        quoted_end(sql, delimiter, from + 1)
    }
}

/// Whether `tag` can stand between the dollars of a delimiter.
pub open spec fn dollar_tag(tag: Seq<char>) -> bool {
    &&& tag.len() > 0 ==> !('0' <= tag[0] <= '9')
    &&& forall|i: int| 0 <= i < tag.len() ==> ascii_alphanumeric(#[trigger] tag[i]) || tag[i] == '_'
}

/// Where the inside of a dollar-quoted text starts that opens at `at`, if one
/// opens there.
pub open spec fn dollar_inside(sql: Seq<char>, at: int) -> Option<int> {
    let close = place_of(sql, '$', at + 1);
    if sql[at] == '$' && close < sql.len() && dollar_tag(sql.subrange(at + 1, close)) {
        Some(close + 1)
    } else {
        None
    }
}

/// Where the string literal or dollar-quoted text ends that opens at `at`, if
/// one opens there.
pub open spec fn quotation_end(sql: Seq<char>, at: int) -> Option<int> {
    if sql[at] == '\'' {
        Some(literal_end(sql, at + 1))
    } else {
        match dollar_inside(sql, at) {
            Some(inside) => Some(quoted_end(sql, sql.subrange(at, inside), inside)),
            None => None,
        }
    }
}

/// What names `schema` in front of an object of it. Objects of a session's
/// temporary schema can be named by its alias too.
pub open spec fn qualifiers(schema: Seq<char>) -> Seq<Seq<char>> {
    let own = seq![schema + "."@, "\""@ + schema + "\"."@];
    if stands_at(schema, "pg_temp_"@, 0) {
        own + seq!["pg_temp."@, "\"pg_temp\"."@]
    } else {
        own
    }
}

/// The length of the first of `names` that stands at `at`, or zero.
pub open spec fn name_length(sql: Seq<char>, names: Seq<Seq<char>>, at: int) -> int
    decreases names.len(),
{
    if names.len() == 0 {
        0
    } else if stands_at(sql, names[0], at) {
        names[0].len() as int
    } else {
        name_length(sql, names.drop_first(), at)
    }
}

/// Whether a word can start at `at`.
pub open spec fn word_start(sql: Seq<char>, at: int) -> bool {
    at == 0 || !word_char(sql[at - 1])
}

/// The length of the qualifier of `schema` that stands at `at`, or zero.
pub open spec fn qualifier_length(sql: Seq<char>, schema: Seq<char>, at: int) -> int {
    if word_start(sql, at) {
        name_length(sql, qualifiers(schema), at)
    } else {
        0
    }
}

/// What of `sql` is copied from `at` on, and where to go on: a quotation or a
/// quoted identifier as a whole, a qualifier not at all, and otherwise one
/// character.
pub open spec fn token_at(sql: Seq<char>, schema: Seq<char>, at: int) -> (Seq<char>, int) {
    match quotation_end(sql, at) {
        Some(end) => (sql.subrange(at, end), end),
        None => {
            let skipped = qualifier_length(sql, schema, at);
            if skipped > 0 {
                (Seq::empty(), at + skipped)
            } else if sql[at] == '"' {
                let end = quoted_end(sql, "\""@, at + 1);
                (sql.subrange(at, end), end)
            } else {
                (seq![sql[at]], at + 1)
            }
        },
    }
}

/// `sql` from `at` on without the qualifiers of `schema`.
pub open spec fn unqualified(sql: Seq<char>, schema: Seq<char>, at: int) -> Seq<char>
    decreases sql.len() - at,
    via unqualified_decreases
{
    if at < 0 || at >= sql.len() {
        Seq::empty()
    } else {
        let (kept, end) = token_at(sql, schema, at);
        kept + unqualified(sql, schema, end)
    }
}

#[via_fn]
proof fn unqualified_decreases(sql: Seq<char>, schema: Seq<char>, at: int) {
    if 0 <= at < sql.len() {
        lemma_token_advances(sql, schema, at);
    }
}

proof fn lemma_place_of(text: Seq<char>, c: char, from: int)
    requires
        from <= text.len(),
    ensures
        from <= place_of(text, c, from) <= text.len(),
        place_of(text, c, from) < text.len() ==> text[place_of(text, c, from)] == c,
    decreases text.len() - from,
{
    if from < text.len() && text[from] != c {
        lemma_place_of(text, c, from + 1);
    }
}

proof fn lemma_literal_end(sql: Seq<char>, from: int)
    requires
        from <= sql.len(),
    ensures
        from <= literal_end(sql, from) <= sql.len(),
    decreases sql.len() - from,
{
    if from < sql.len() {
        if sql[from] == '\\' {
            if from + 2 <= sql.len() {
                lemma_literal_end(sql, from + 2);
            }
        } else if sql[from] != '\'' {
            lemma_literal_end(sql, from + 1);
        } else if from + 1 < sql.len() && sql[from + 1] == '\'' {
            lemma_literal_end(sql, from + 2);
        }
    }
}

proof fn lemma_quoted_end(sql: Seq<char>, delimiter: Seq<char>, from: int)
    requires
        from <= sql.len(),
    ensures
        from <= quoted_end(sql, delimiter, from) <= sql.len(),
    decreases sql.len() - from,
{
    if from < sql.len() && !stands_at(sql, delimiter, from) {
        lemma_quoted_end(sql, delimiter, from + 1);
    }
}

proof fn lemma_name_length(sql: Seq<char>, names: Seq<Seq<char>>, at: int)
    requires
        0 <= at <= sql.len(),
    ensures
        0 <= name_length(sql, names, at) <= sql.len() - at,
    decreases names.len(),
{
    if names.len() > 0 && !stands_at(sql, names[0], at) {
        lemma_name_length(sql, names.drop_first(), at);
    }
}

/// Reading goes forward and stays in the text.
pub proof fn lemma_token_advances(sql: Seq<char>, schema: Seq<char>, at: int)
    requires
        0 <= at < sql.len(),
    ensures
        at < token_at(sql, schema, at).1 <= sql.len(),
{
    lemma_literal_end(sql, at + 1);
    lemma_place_of(sql, '$', at + 1);
    match dollar_inside(sql, at) {
        Some(inside) => lemma_quoted_end(sql, sql.subrange(at, inside), inside),
        None => {},
    }
    lemma_name_length(sql, qualifiers(schema), at);
    lemma_quoted_end(sql, "\""@, at + 1);
}

fn find_char(chars: &Vec<char>, c: char, from: usize) -> (place: usize)
    requires
        from <= chars@.len(),
    ensures
        place == place_of(chars@, c, from as int),
        from <= place <= chars@.len(),
{
    let mut place: usize = from;
    while place < chars.len() && chars[place] != c
        invariant
            from <= place <= chars@.len(),
            place_of(chars@, c, from as int) == place_of(chars@, c, place as int),
        decreases chars@.len() - place,
    {
        place += 1;
    }
    place
}

fn find_literal_end(chars: &Vec<char>, from: usize) -> (end: usize)
    requires
        from <= chars@.len(),
    ensures
        end == literal_end(chars@, from as int),
{
    let mut place: usize = from;
    while place < chars.len()
        invariant
            from <= place <= chars@.len(),
            literal_end(chars@, from as int) == literal_end(chars@, place as int),
        decreases chars@.len() - place,
    {
        let c = chars[place];
        if c == '\\' {
            if chars.len() - place < 2 {
                return chars.len();
            }
            place += 2;
        } else if c != '\'' {
            place += 1;
        } else if chars.len() - place >= 2 && chars[place + 1] == '\'' {
            place += 2;
        } else {
            return place + 1;
        }
    }
    place
}

fn find_quoted_end(chars: &Vec<char>, delimiter: &Vec<char>, from: usize) -> (end: usize)
    requires
        from <= chars@.len(),
    ensures
        end == quoted_end(chars@, delimiter@, from as int),
{
    let mut place: usize = from;
    while place < chars.len()
        invariant
            from <= place <= chars@.len(),
            quoted_end(chars@, delimiter@, from as int) == quoted_end(
                chars@,
                delimiter@,
                place as int,
            ),
        decreases chars@.len() - place,
    {
        if matches_at(chars, delimiter, place) {
            return place + delimiter.len();
        }
        place += 1;
    }
    place
}

fn is_dollar_tag(chars: &Vec<char>, from: usize, to: usize) -> (r: bool)
    requires
        from <= to <= chars@.len(),
    ensures
        r == dollar_tag(chars@.subrange(from as int, to as int)),
{
    let ghost tag = chars@.subrange(from as int, to as int);
    if from < to && chars[from] >= '0' && chars[from] <= '9' {
        assert('0' <= tag[0] <= '9');
        return false;
    }
    let mut place: usize = from;
    while place < to
        invariant
            from <= place <= to <= chars@.len(),
            tag == chars@.subrange(from as int, to as int),
            forall|i: int|
                0 <= i < place - from ==> ascii_alphanumeric(#[trigger] tag[i]) || tag[i] == '_',
        decreases to - place,
    {
        let c = chars[place];
        assert(tag[place - from] == c);
        if !is_word_char(c) || c == '$' {
            return false;
        }
        place += 1;
    }
    true
}

/// Where the inside of a dollar-quoted text starts that opens at `at`, if one
/// opens there.
fn dollar_quote_delimiter(chars: &Vec<char>, at: usize) -> (inside: Option<usize>)
    requires
        at < chars.len(),
    ensures
        match inside {
            Some(start) => dollar_inside(chars@, at as int) == Some(start as int) && at < start
                <= chars@.len(),
            None => dollar_inside(chars@, at as int) is None,
        },
{
    if chars[at] != '$' {
        return None;
    }
    let close: usize = find_char(chars, '$', at + 1);
    if close < chars.len() && is_dollar_tag(chars, at + 1, close) {
        Some(close + 1)
    } else {
        None
    }
}

fn copy_between(chars: &Vec<char>, from: usize, to: usize) -> (part: Vec<char>)
    requires
        from <= to <= chars@.len(),
    ensures
        part@ == chars@.subrange(from as int, to as int),
{
    let mut part: Vec<char> = Vec::new();
    let mut place: usize = from;
    while place < to
        invariant
            from <= place <= to <= chars@.len(),
            part@ == chars@.subrange(from as int, place as int),
        decreases to - place,
    {
        part.push(chars[place]);
        place += 1;
        assert(chars@.subrange(from as int, place as int) =~= chars@.subrange(
            from as int,
            place - 1,
        ).push(chars@[place - 1]));
    }
    part
}

/// The views of character lists.
pub open spec fn char_lists(names: Seq<Vec<char>>) -> Seq<Seq<char>> {
    names.map_values(|name: Vec<char>| name@)
}

fn qualifier_list(schema: &str) -> (names: Vec<Vec<char>>)
    ensures
        char_lists(names@) == qualifiers(schema@),
{
    let mut bare = schema.to_owned();
    bare.append(".");
    let mut quoted = "\"".to_owned();
    quoted.append(schema);
    quoted.append("\".");
    let mut names: Vec<Vec<char>> = Vec::new();
    names.push(chars_of(bare.as_str()));
    names.push(chars_of(quoted.as_str()));
    if begins_with(schema, "pg_temp_") {
        names.push(chars_of("pg_temp."));
        names.push(chars_of("\"pg_temp\"."));
    }
    assert(char_lists(names@) =~= qualifiers(schema@));
    names
}

fn find_name(chars: &Vec<char>, names: &Vec<Vec<char>>, at: usize) -> (length: usize)
    requires
        at <= chars@.len(),
    ensures
        length == name_length(chars@, char_lists(names@), at as int),
{
    let ghost all = char_lists(names@);
    let mut next: usize = 0;
    assert(all.skip(0) =~= all);
    while next < names.len()
        invariant
            next <= names@.len(),
            at <= chars@.len(),
            all == char_lists(names@),
            name_length(chars@, all, at as int) == name_length(
                chars@,
                all.skip(next as int),
                at as int,
            ),
        decreases names@.len() - next,
    {
        assert(all.skip(next as int)[0] == names@[next as int]@);
        if matches_at(chars, &names[next], at) {
            return names[next].len();
        }
        assert(all.skip(next as int).drop_first() =~= all.skip(next + 1));
        next += 1;
    }
    0
}

/// `sql` without the qualifiers of `schema`. Quotations and quoted identifiers
/// stay as they are, and so does what only ends like a qualifier.
pub fn normalize_sql_qualifiers(sql: &str, schema: &str) -> (normalized: String)
    ensures
        normalized@ == unqualified(sql@, schema@, 0),
{
    let chars = chars_of(sql);
    let names = qualifier_list(schema);
    let double_quote = chars_of("\"");
    let mut normalized = String::new();
    let mut at: usize = 0;
    assert(normalized@ + unqualified(sql@, schema@, 0) =~= unqualified(sql@, schema@, 0));
    while at < chars.len()
        invariant
            at <= chars@.len(),
            chars@ == sql@,
            char_lists(names@) == qualifiers(schema@),
            double_quote@ == "\""@,
            normalized@ + unqualified(sql@, schema@, at as int) == unqualified(sql@, schema@, 0),
        decreases chars@.len() - at,
    {
        let ghost before = normalized@;
        proof {
            lemma_token_advances(sql@, schema@, at as int);
        }
        let end: usize;
        if chars[at] == '\'' {
            end = find_literal_end(&chars, at + 1);
            normalized.append(crate::text::text_between(&chars, at, end).as_str());
        } else if let Some(inside) = dollar_quote_delimiter(&chars, at) {
            let delimiter = copy_between(&chars, at, inside);
            end = find_quoted_end(&chars, &delimiter, inside);
            normalized.append(crate::text::text_between(&chars, at, end).as_str());
        } else {
            let starts = at == 0 || !is_word_char(chars[at - 1]);
            let skipped: usize = if starts {
                find_name(&chars, &names, at)
            } else {
                0
            };
            if skipped > 0 {
                end = at + skipped;
            } else if chars[at] == '"' {
                end = find_quoted_end(&chars, &double_quote, at + 1);
                normalized.append(crate::text::text_between(&chars, at, end).as_str());
            } else {
                normalized.push(chars[at]);
                end = at + 1;
            }
        }
        proof {
            let (kept, next) = token_at(sql@, schema@, at as int);
            assert(next == end);
            assert(normalized@ =~= before + kept);
            assert(before + (kept + unqualified(sql@, schema@, end as int)) =~= normalized@
                + unqualified(sql@, schema@, end as int));
        }
        at = end;
    }
    assert(normalized@ + unqualified(sql@, schema@, at as int) =~= normalized@);
    normalized
}

/// Where no qualifier of the schema stands, nothing is taken out.
pub proof fn law_unqualified_text_is_kept(sql: Seq<char>, schema: Seq<char>)
    requires
        forall|at: int, i: int|
            0 <= i < qualifiers(schema).len() ==> !#[trigger] stands_at(
                sql,
                qualifiers(schema)[i],
                at,
            ),
    ensures
        unqualified(sql, schema, 0) == sql,
{
    lemma_unqualified_rest(sql, schema, 0);
    assert(sql.subrange(0, sql.len() as int) =~= sql);
}

proof fn lemma_unqualified_rest(sql: Seq<char>, schema: Seq<char>, at: int)
    requires
        0 <= at <= sql.len(),
        forall|at: int, i: int|
            0 <= i < qualifiers(schema).len() ==> !#[trigger] stands_at(
                sql,
                qualifiers(schema)[i],
                at,
            ),
    ensures
        unqualified(sql, schema, at) == sql.subrange(at, sql.len() as int),
    decreases sql.len() - at,
{
    if at < sql.len() {
        let (kept, end) = token_at(sql, schema, at);
        lemma_token_advances(sql, schema, at);
        lemma_no_name(sql, qualifiers(schema), at);
        lemma_unqualified_rest(sql, schema, end);
        assert(kept =~= sql.subrange(at, end));
        assert(sql.subrange(at, sql.len() as int) =~= sql.subrange(at, end) + sql.subrange(
            end,
            sql.len() as int,
        ));
    } else {
        assert(sql.subrange(at, sql.len() as int) =~= Seq::<char>::empty());
    }
}

proof fn lemma_no_name(sql: Seq<char>, names: Seq<Seq<char>>, at: int)
    requires
        forall|i: int| 0 <= i < names.len() ==> !#[trigger] stands_at(sql, names[i], at),
    ensures
        name_length(sql, names, at) == 0,
    decreases names.len(),
{
    if names.len() > 0 {
        assert(!stands_at(sql, names[0], at));
        assert forall|i: int| 0 <= i < names.drop_first().len() implies !#[trigger] stands_at(
            sql,
            names.drop_first()[i],
            at,
        ) by {
            assert(names.drop_first()[i] == names[i + 1]);
            assert(!stands_at(sql, names[i + 1], at));
        }
        lemma_no_name(sql, names.drop_first(), at);
    }
}

// Catalog rows

/// The elements with commas between them.
pub open spec fn comma_joined(elements: Seq<Seq<char>>) -> Seq<char>
    decreases elements.len(),
{
    if elements.len() == 0 {
        Seq::empty()
    } else if elements.len() == 1 {
        elements[0]
    } else {
        comma_joined(elements.drop_last()) + ","@ + elements.last()
    }
}

/// The compact JSON array of the elements.
pub open spec fn json_array(elements: Seq<Seq<char>>) -> Seq<char> {
    "["@ + comma_joined(elements) + "]"@
}

fn array_text(elements: &Vec<String>) -> (text: String)
    ensures
        text@ == json_array(texts(elements@)),
{
    let ghost all = texts(elements@);
    let mut text = "[".to_owned();
    let mut next: usize = 0;
    assert(all.take(0) =~= Seq::<Seq<char>>::empty());
    assert(text@ =~= "["@ + comma_joined(all.take(0)));
    while next < elements.len()
        invariant
            next <= elements@.len(),
            all == texts(elements@),
            text@ == "["@ + comma_joined(all.take(next as int)),
        decreases elements@.len() - next,
    {
        proof {
            let longer = all.take(next + 1);
            assert(longer.drop_last() =~= all.take(next as int));
            assert(longer.last() == elements@[next as int]@);
        }
        if next > 0 {
            text.append(",");
        }
        text.append(elements[next].as_str());
        assert(text@ =~= "["@ + comma_joined(all.take(next + 1)));
        next += 1;
    }
    assert(all.take(next as int) =~= all);
    text.append("]");
    text
}

/// What becomes of an element: where it is a string, `change` of the string.
pub open spec fn changed_element(
    element: Seq<char>,
    change: spec_fn(Seq<char>) -> Option<Seq<char>>,
) -> Seq<char> {
    match json_string(element) {
        None => element,
        Some(text) => match change(text) {
            None => element,
            Some(changed) => json_quoted(changed),
        },
    }
}

/// The elements with those at `fields` changed, in the order of `fields`. A
/// field past the last element changes nothing.
pub open spec fn changed_elements(
    elements: Seq<Seq<char>>,
    fields: Seq<usize>,
    change: spec_fn(Seq<char>) -> Option<Seq<char>>,
) -> Seq<Seq<char>>
    decreases fields.len(),
{
    if fields.len() == 0 {
        elements
    } else {
        let before = changed_elements(elements, fields.drop_last(), change);
        let field = fields.last() as int;
        if field < before.len() {
            before.update(field, changed_element(before[field], change))
        } else {
            before
        }
    }
}

/// A catalog row with the strings at `fields` changed. What is no JSON array
/// stays as it is.
pub open spec fn changed_row(
    row: Seq<char>,
    fields: Seq<usize>,
    change: spec_fn(Seq<char>) -> Option<Seq<char>>,
) -> Seq<char> {
    match json_elements(row) {
        None => row,
        Some(elements) => json_array(changed_elements(elements, fields, change)),
    }
}

/// The change of an SQL definition: qualifiers of `schema` are taken out.
pub open spec fn sql_change(schema: Seq<char>) -> spec_fn(Seq<char>) -> Option<Seq<char>> {
    |sql: Seq<char>| Some(unqualified(sql, schema, 0))
}

/// What stands for the schema under comparison.
pub const OWNED_SCHEMA: &'static str = "__lenso_owned_schema__";

/// The change of a schema's name: the schema under comparison loses its own.
pub open spec fn name_change(schema: Seq<char>) -> spec_fn(Seq<char>) -> Option<Seq<char>> {
    |name: Seq<char>|
        if name == schema {
            Some(OWNED_SCHEMA@)
        } else {
            None
        }
}

/// Catalog rows, each changed at `fields`.
pub open spec fn changed_rows(
    rows: Seq<Seq<char>>,
    fields: Seq<usize>,
    change: spec_fn(Seq<char>) -> Option<Seq<char>>,
) -> Seq<Seq<char>> {
    rows.map_values(|row: Seq<char>| changed_row(row, fields, change))
}

/// What is changed in a field of a catalog row.
#[derive(Clone, Copy)]
enum FieldChange {
    Sql,
    SchemaName,
}

impl FieldChange {
    spec fn change(self, schema: Seq<char>) -> spec_fn(Seq<char>) -> Option<Seq<char>> {
        match self {
            FieldChange::Sql => sql_change(schema),
            FieldChange::SchemaName => name_change(schema),
        }
    }

    fn apply(self, text: &str, schema: &str) -> (changed: Option<String>)
        ensures
            match changed {
                Some(found) => self.change(schema@)(text@) == Some(found@),
                None => self.change(schema@)(text@) is None,
            },
    {
        match self {
            FieldChange::Sql => Some(normalize_sql_qualifiers(text, schema)),
            FieldChange::SchemaName => if same_text(text, schema) {
                Some(OWNED_SCHEMA.to_owned())
            } else {
                None
            },
        }
    }
}

fn change_row(row: &String, fields: &Vec<usize>, schema: &str, kind: FieldChange) -> (changed:
    String)
    ensures
        changed@ == changed_row(row@, fields@, kind.change(schema@)),
{
    let elements = match array_elements(row.as_str()) {
        Some(elements) => elements,
        None => {
            return row.clone();
        },
    };
    let ghost change = kind.change(schema@);
    let ghost given = texts(elements@);
    let mut elements = elements;
    let mut next: usize = 0;
    assert(fields@.take(0) =~= Seq::<usize>::empty());
    while next < fields.len()
        invariant
            next <= fields@.len(),
            change == kind.change(schema@),
            texts(elements@) == changed_elements(given, fields@.take(next as int), change),
        decreases fields@.len() - next,
    {
        let field: usize = fields[next];
        let ghost before = texts(elements@);
        proof {
            let longer = fields@.take(next + 1);
            assert(longer.drop_last() =~= fields@.take(next as int));
            assert(longer.last() == field);
        }
        if field < elements.len() {
            assert(before[field as int] == elements@[field as int]@);
            let mut element = elements[field].clone();
            if let Some(text) = element_text(element.as_str()) {
                if let Some(other) = kind.apply(text.as_str(), schema) {
                    element = quote_text(other.as_str());
                }
            }
            elements.set(field, element);
            assert(texts(elements@) =~= before.update(
                field as int,
                changed_element(before[field as int], change),
            ));
        }
        next += 1;
    }
    assert(fields@.take(next as int) =~= fields@);
    array_text(&elements)
}

fn change_rows(rows: &mut Vec<String>, fields: &Vec<usize>, schema: &str, kind: FieldChange)
    ensures
        texts(final(rows)@) == changed_rows(texts(old(rows)@), fields@, kind.change(schema@)),
{
    let ghost given = rows@;
    let mut next: usize = 0;
    while next < rows.len()
        invariant
            next <= rows@.len(),
            rows@.len() == given.len(),
            forall|i: int|
                0 <= i < next ==> (#[trigger] rows@[i])@ == changed_row(
                    given[i]@,
                    fields@,
                    kind.change(schema@),
                ),
            forall|i: int| next <= i < rows@.len() ==> #[trigger] rows@[i] == given[i],
        decreases rows@.len() - next,
    {
        let row = change_row(&rows[next], fields, schema, kind);
        rows.set(next, row);
        next += 1;
    }
    assert(texts(rows@) =~= changed_rows(texts(given), fields@, kind.change(schema@)));
}

/// Takes the qualifiers of `schema` out of the SQL definitions at `fields`.
pub fn normalize_sql_fields(rows: &mut Vec<String>, fields: &Vec<usize>, schema: &str)
    ensures
        texts(final(rows)@) == changed_rows(texts(old(rows)@), fields@, sql_change(schema@)),
{
    change_rows(rows, fields, schema, FieldChange::Sql);
}

/// Replaces the name of `schema` at `fields`.
pub fn normalize_schema_name_fields(rows: &mut Vec<String>, fields: &Vec<usize>, schema: &str)
    ensures
        texts(final(rows)@) == changed_rows(texts(old(rows)@), fields@, name_change(schema@)),
{
    change_rows(rows, fields, schema, FieldChange::SchemaName);
}

/// What a catalog says of one schema, each row as a JSON array.
#[derive(Debug, Eq, PartialEq)]
pub struct LegacySchemaFingerprint {
    pub schema: String,
    pub relations: Vec<String>,
    pub columns: Vec<String>,
    pub constraints: Vec<String>,
    pub indexes: Vec<String>,
    pub triggers: Vec<String>,
    pub types: Vec<String>,
    pub routines: Vec<String>,
    pub policies: Vec<String>,
    pub inheritance: Vec<String>,
    pub rules: Vec<String>,
    pub security_labels: Vec<String>,
    pub publication_memberships: Vec<String>,
}

/// The fingerprint of a schema as text.
#[verifier::ext_equal]
pub struct FingerprintView {
    pub schema: Seq<char>,
    pub relations: Seq<Seq<char>>,
    pub columns: Seq<Seq<char>>,
    pub constraints: Seq<Seq<char>>,
    pub indexes: Seq<Seq<char>>,
    pub triggers: Seq<Seq<char>>,
    pub types: Seq<Seq<char>>,
    pub routines: Seq<Seq<char>>,
    pub policies: Seq<Seq<char>>,
    pub inheritance: Seq<Seq<char>>,
    pub rules: Seq<Seq<char>>,
    pub security_labels: Seq<Seq<char>>,
    pub publication_memberships: Seq<Seq<char>>,
}

impl View for LegacySchemaFingerprint {
    type V = FingerprintView;

    open spec fn view(&self) -> FingerprintView {
        FingerprintView {
            schema: self.schema@,
            relations: texts(self.relations@),
            columns: texts(self.columns@),
            constraints: texts(self.constraints@),
            indexes: texts(self.indexes@),
            triggers: texts(self.triggers@),
            types: texts(self.types@),
            routines: texts(self.routines@),
            policies: texts(self.policies@),
            inheritance: texts(self.inheritance@),
            rules: texts(self.rules@),
            security_labels: texts(self.security_labels@),
            publication_memberships: texts(self.publication_memberships@),
        }
    }
}

impl FingerprintView {
    /// The fingerprint without what names the schema that it was taken from.
    pub open spec fn without(self, schema: Seq<char>) -> FingerprintView {
        let sql = sql_change(schema);
        FingerprintView {
            columns: changed_rows(self.columns, seq![3, 5], sql),
            constraints: changed_rows(self.constraints, seq![7], sql),
            indexes: changed_rows(self.indexes, seq![18], sql),
            triggers: changed_rows(self.triggers, seq![3], sql),
            routines: changed_rows(self.routines, seq![1, 10], sql),
            policies: changed_rows(self.policies, seq![5, 6], sql),
            inheritance: changed_rows(self.inheritance, seq![0, 2], name_change(schema)),
            rules: changed_rows(self.rules, seq![3], sql),
            publication_memberships: changed_rows(self.publication_memberships, seq![2], sql),
            ..self
        }
    }
}

fn one_field(field: usize) -> (fields: Vec<usize>)
    ensures
        fields@ == seq![field],
{
    let fields: Vec<usize> = vec![field];
    assert(fields@ =~= seq![field]);
    fields
}

fn two_fields(first: usize, second: usize) -> (fields: Vec<usize>)
    ensures
        fields@ == seq![first, second],
{
    let fields: Vec<usize> = vec![first, second];
    assert(fields@ =~= seq![first, second]);
    fields
}

impl LegacySchemaFingerprint {
    /// The fingerprint without what names the schema that it was taken from.
    pub fn normalized(self, schema: &str) -> (normalized: Self)
        ensures
            normalized@ == self@.without(schema@),
    {
        let mut fingerprint = self;
        normalize_sql_fields(&mut fingerprint.columns, &two_fields(3, 5), schema);
        normalize_sql_fields(&mut fingerprint.constraints, &one_field(7), schema);
        normalize_sql_fields(&mut fingerprint.indexes, &one_field(18), schema);
        normalize_sql_fields(&mut fingerprint.triggers, &one_field(3), schema);
        normalize_sql_fields(&mut fingerprint.routines, &two_fields(1, 10), schema);
        normalize_sql_fields(&mut fingerprint.policies, &two_fields(5, 6), schema);
        normalize_schema_name_fields(&mut fingerprint.inheritance, &two_fields(0, 2), schema);
        normalize_sql_fields(&mut fingerprint.rules, &one_field(3), schema);
        normalize_sql_fields(&mut fingerprint.publication_memberships, &one_field(2), schema);
        fingerprint
    }

    /// Whether two fingerprints are the same.
    pub fn same_as(&self, other: &Self) -> (r: bool)
        ensures
            r == (self@ == other@),
    {
        same_text(self.schema.as_str(), other.schema.as_str()) && same_rows(
            &self.relations,
            &other.relations,
        ) && same_rows(&self.columns, &other.columns) && same_rows(
            &self.constraints,
            &other.constraints,
        ) && same_rows(&self.indexes, &other.indexes) && same_rows(&self.triggers, &other.triggers)
            && same_rows(&self.types, &other.types) && same_rows(&self.routines, &other.routines)
            && same_rows(&self.policies, &other.policies) && same_rows(
            &self.inheritance,
            &other.inheritance,
        ) && same_rows(&self.rules, &other.rules) && same_rows(
            &self.security_labels,
            &other.security_labels,
        ) && same_rows(&self.publication_memberships, &other.publication_memberships)
    }
}

/// Whether two lists hold the same texts in the same order.
pub fn same_rows(a: &Vec<String>, b: &Vec<String>) -> (r: bool)
    ensures
        r == (texts(a@) == texts(b@)),
{
    if a.len() != b.len() {
        assert(texts(a@).len() != texts(b@).len());
        return false;
    }
    let mut next: usize = 0;
    while next < a.len()
        invariant
            next <= a@.len(),
            a@.len() == b@.len(),
            forall|i: int| 0 <= i < next ==> (#[trigger] a@[i])@ == b@[i]@,
        decreases a@.len() - next,
    {
        if !same_text(a[next].as_str(), b[next].as_str()) {
            assert(texts(a@)[next as int] != texts(b@)[next as int]);
            return false;
        }
        next += 1;
    }
    assert(texts(a@) =~= texts(b@));
    true
}

/// Whether the schema `notification` is what the reference schema is, but for
/// the name.
pub fn catalogs_match(
    actual: LegacySchemaFingerprint,
    expected: LegacySchemaFingerprint,
    reference_schema: &str,
) -> (r: bool)
    ensures
        r == (actual@.without("notification"@) == expected@.without(reference_schema@)),
{
    let actual = actual.normalized("notification");
    let expected = expected.normalized(reference_schema);
    actual.same_as(&expected)
}

} // verus!
