//! How the definitions of two schemas are compared: what names the schema is
//! taken out, and everything else stays.

use vstd::prelude::*;

use crate::catalog::{catalogs_match, changed_element, changed_elements, changed_row, dollar_inside,
    dollar_tag, json_array, literal_end, name_change, name_length, normalize_sql_qualifiers,
    place_of, qualifier_length, qualifiers, quotation_end, quoted_end, same_rows, sql_change,
    token_at, unqualified, word_char, word_start, LegacySchemaFingerprint};
use crate::json::{json_elements, json_quoted, json_string};
use crate::laws::begins;
use crate::laws::boundary::lemma_begins;
use crate::text::{stands_at, texts};

verus! {

/// Whether a character can stand in a plain word.
pub open spec fn letter(c: char) -> bool {
    'a' <= c <= 'z' || 'A' <= c <= 'Z' || '0' <= c <= '9' || c == '_'
}

/// Whether a text is a plain word.
pub open spec fn word(text: Seq<char>) -> bool {
    text.len() > 0 && forall|i: int| 0 <= i < text.len() ==> letter(#[trigger] text[i])
}

/// Whether a text begins with a character that neither goes on with a word nor
/// opens a quoted name, or is empty.
pub open spec fn breaks_off(text: Seq<char>) -> bool {
    text.len() == 0 || (!letter(text[0]) && text[0] != '$' && text[0] != '"')
}

proof fn lemma_shifted_stands(front: Seq<char>, rest: Seq<char>, part: Seq<char>, at: int)
    requires
        0 <= at,
    ensures
        stands_at(front + rest, part, front.len() + at) <==> stands_at(rest, part, at),
{
    let text = front + rest;
    if at + part.len() <= rest.len() {
        assert(text.subrange(front.len() + at, front.len() + at + part.len()) =~= rest.subrange(
            at,
            at + part.len(),
        ));
    }
}

proof fn lemma_shifted_place(front: Seq<char>, rest: Seq<char>, c: char, from: int)
    requires
        0 <= from <= rest.len(),
    ensures
        place_of(front + rest, c, front.len() + from) == front.len() + place_of(rest, c, from),
    decreases rest.len() - from,
{
    if from < rest.len() {
        assert((front + rest)[front.len() + from] == rest[from]);
        if rest[from] != c {
            lemma_shifted_place(front, rest, c, from + 1);
        }
    }
}

proof fn lemma_shifted_literal(front: Seq<char>, rest: Seq<char>, from: int)
    requires
        0 <= from <= rest.len(),
    ensures
        literal_end(front + rest, front.len() + from) == front.len() + literal_end(rest, from),
    decreases rest.len() - from,
{
    let text = front + rest;
    if from < rest.len() {
        assert(text[front.len() + from] == rest[from]);
        if from + 1 < rest.len() {
            assert(text[front.len() + from + 1] == rest[from + 1]);
        }
        if rest[from] == '\\' {
            if from + 1 < rest.len() {
                lemma_shifted_literal(front, rest, from + 2);
            }
        } else if rest[from] != '\'' {
            lemma_shifted_literal(front, rest, from + 1);
        } else if from + 1 < rest.len() && rest[from + 1] == '\'' {
            lemma_shifted_literal(front, rest, from + 2);
        }
    }
}

proof fn lemma_shifted_quoted(front: Seq<char>, rest: Seq<char>, delimiter: Seq<char>, from: int)
    requires
        0 <= from <= rest.len(),
    ensures
        quoted_end(front + rest, delimiter, front.len() + from) == front.len() + quoted_end(
            rest,
            delimiter,
            from,
        ),
    decreases rest.len() - from,
{
    lemma_shifted_stands(front, rest, delimiter, from);
    if from < rest.len() && !stands_at(rest, delimiter, from) {
        lemma_shifted_quoted(front, rest, delimiter, from + 1);
    }
}

proof fn lemma_shifted_name(front: Seq<char>, rest: Seq<char>, names: Seq<Seq<char>>, at: int)
    requires
        0 <= at,
    ensures
        name_length(front + rest, names, front.len() + at) == name_length(rest, names, at),
    decreases names.len(),
{
    if names.len() > 0 {
        lemma_shifted_stands(front, rest, names[0], at);
        lemma_shifted_name(front, rest, names.drop_first(), at);
    }
}

proof fn lemma_place_is_inside(text: Seq<char>, c: char, from: int)
    requires
        from <= text.len(),
    ensures
        from <= place_of(text, c, from) <= text.len(),
    decreases text.len() - from,
{
    if from < text.len() && text[from] != c {
        lemma_place_is_inside(text, c, from + 1);
    }
}

/// Whether reading goes on behind `front` as it would begin there.
spec fn starts_afresh(front: Seq<char>, rest: Seq<char>, schema: Seq<char>) -> bool {
    front.len() == 0 || !word_char(front.last()) || name_length(rest, qualifiers(schema), 0) == 0
}

proof fn lemma_shifted_token(front: Seq<char>, rest: Seq<char>, schema: Seq<char>, at: int)
    requires
        0 <= at < rest.len(),
        starts_afresh(front, rest, schema),
    ensures
        token_at(front + rest, schema, front.len() + at).0 == token_at(rest, schema, at).0,
        token_at(front + rest, schema, front.len() + at).1 == front.len() + token_at(
            rest,
            schema,
            at,
        ).1,
{
    let text = front + rest;
    let skip = front.len();
    assert(text[skip + at] == rest[at]);
    lemma_shifted_literal(front, rest, at + 1);
    lemma_shifted_place(front, rest, '$', at + 1);
    lemma_place_is_inside(rest, '$', at + 1);
    lemma_shifted_quoted(front, rest, "\""@, at + 1);
    lemma_shifted_name(front, rest, qualifiers(schema), at);
    let close = place_of(rest, '$', at + 1);
    assert(text.subrange(skip + at + 1, skip + close) =~= rest.subrange(at + 1, close));
    match dollar_inside(rest, at) {
        Some(inside) => {
            assert(inside <= rest.len());
            assert(text.subrange(skip + at, skip + inside) =~= rest.subrange(at, inside));
            lemma_shifted_quoted(front, rest, rest.subrange(at, inside), inside);
            lemma_end_is_inside(rest, rest.subrange(at, inside), inside);
            let end = quoted_end(rest, rest.subrange(at, inside), inside);
            assert(text.subrange(skip + at, skip + end) =~= rest.subrange(at, end));
        },
        None => {},
    }
    lemma_literal_is_inside(rest, at + 1);
    let end = literal_end(rest, at + 1);
    assert(text.subrange(skip + at, skip + end) =~= rest.subrange(at, end));
    lemma_end_is_inside(rest, "\""@, at + 1);
    let named = quoted_end(rest, "\""@, at + 1);
    assert(text.subrange(skip + at, skip + named) =~= rest.subrange(at, named));
    if at > 0 {
        assert(text[skip + at - 1] == rest[at - 1]);
        assert(word_start(text, skip + at) == word_start(rest, at));
    } else if skip > 0 {
        assert(text[skip - 1] == front.last());
    }
    assert(qualifier_length(text, schema, skip + at) == qualifier_length(rest, schema, at));
    assert(quotation_end(text, skip + at) is Some <==> quotation_end(rest, at) is Some);
}

proof fn lemma_end_is_inside(sql: Seq<char>, delimiter: Seq<char>, from: int)
    requires
        0 <= from <= sql.len(),
    ensures
        from <= quoted_end(sql, delimiter, from) <= sql.len(),
    decreases sql.len() - from,
{
    if from < sql.len() && !stands_at(sql, delimiter, from) {
        lemma_end_is_inside(sql, delimiter, from + 1);
    }
}

proof fn lemma_literal_is_inside(sql: Seq<char>, from: int)
    requires
        0 <= from <= sql.len(),
    ensures
        from <= literal_end(sql, from) <= sql.len(),
    decreases sql.len() - from,
{
    if from < sql.len() {
        if sql[from] == '\\' {
            if from + 1 < sql.len() {
                lemma_literal_is_inside(sql, from + 2);
            }
        } else if sql[from] != '\'' {
            lemma_literal_is_inside(sql, from + 1);
        } else if from + 1 < sql.len() && sql[from + 1] == '\'' {
            lemma_literal_is_inside(sql, from + 2);
        }
    }
}

proof fn lemma_shifted(front: Seq<char>, rest: Seq<char>, schema: Seq<char>, at: int)
    requires
        0 <= at <= rest.len(),
        starts_afresh(front, rest, schema),
    ensures
        unqualified(front + rest, schema, front.len() + at) == unqualified(rest, schema, at),
    decreases rest.len() - at,
{
    if at < rest.len() {
        lemma_shifted_token(front, rest, schema, at);
        crate::catalog::lemma_token_advances(rest, schema, at);
        crate::catalog::lemma_token_advances(front + rest, schema, front.len() + at);
        lemma_shifted(front, rest, schema, token_at(rest, schema, at).1);
    }
}

/// The first name that stands in front of a text decides; where none does, no
/// name is taken out.
proof fn lemma_no_name_stands(sql: Seq<char>, names: Seq<Seq<char>>)
    requires
        forall|i: int| 0 <= i < names.len() ==> !#[trigger] stands_at(sql, names[i], 0),
    ensures
        name_length(sql, names, 0) == 0,
    decreases names.len(),
{
    if names.len() > 0 {
        assert(!stands_at(sql, names[0], 0));
        assert forall|i: int| 0 <= i < names.drop_first().len() implies !#[trigger] stands_at(
            sql,
            names.drop_first()[i],
            0,
        ) by {
            assert(!stands_at(sql, names[i + 1], 0));
        }
        lemma_no_name_stands(sql, names.drop_first());
    }
}

/// A text that begins with no letter and no quotation mark begins with no
/// qualifier.
proof fn lemma_no_qualifier(sql: Seq<char>, schema: Seq<char>)
    requires
        word(schema),
        sql.len() == 0 || (!letter(sql[0]) && sql[0] != '"'),
    ensures
        name_length(sql, qualifiers(schema), 0) == 0,
{
    let names = qualifiers(schema);
    reveal_strlit(".");
    reveal_strlit("\"");
    reveal_strlit("\".");
    reveal_strlit("pg_temp.");
    reveal_strlit("\"pg_temp\".");
    assert(letter(schema[0]));
    assert forall|i: int| 0 <= i < names.len() implies !#[trigger] stands_at(sql, names[i], 0) by {
        assert(names[i].len() > 0);
        if stands_at(sql, names[i], 0) {
            assert(sql.subrange(0, names[i].len() as int)[0] == sql[0]);
            assert(names[i][0] == sql[0]);
            if i == 0 {
                assert(names[0] == schema + "."@);
            } else if i == 1 {
                assert(names[1] == "\""@ + schema + "\"."@);
            }
        }
    }
    lemma_no_name_stands(sql, names);
}

/// What names the schema in front of an object is taken out, bare or quoted,
/// and the rest is read as if it stood alone.
pub proof fn law_qualifier_is_taken_out(
    sql: &str,
    schema: &str,
    r: String,
    rest: &str,
    s: String,
)
    requires
        call_ensures(normalize_sql_qualifiers, (sql, schema), r),
        call_ensures(normalize_sql_qualifiers, (rest, schema), s),
        word(schema@),
        sql@ == schema@ + "."@ + rest@ || sql@ == "\""@ + schema@ + "\"."@ + rest@,
    ensures
        r@ == s@,
{
    reveal_strlit(".");
    reveal_strlit("\"");
    reveal_strlit("\".");
    let names = qualifiers(schema@);
    let bare = schema@ + "."@;
    let quoted = "\""@ + schema@ + "\"."@;
    let front = if sql@ == bare + rest@ {
        bare
    } else {
        quoted
    };
    assert(letter(schema@[0]));
    assert(names[0] == bare);
    assert(names[1] == quoted);
    assert(sql@ =~= front + rest@);
    assert(sql@.subrange(0, front.len() as int) =~= front);
    assert(stands_at(sql@, front, 0));
    if front == quoted {
        assert(!stands_at(sql@, bare, 0)) by {
            if stands_at(sql@, bare, 0) {
                assert(sql@.subrange(0, bare.len() as int)[0] == sql@[0]);
                assert(bare[0] == schema@[0]);
                assert(sql@[0] == '"');
            }
        }
        assert(names.drop_first()[0] == quoted);
        reveal_with_fuel(name_length, 3);
    }
    assert(name_length(sql@, names, 0) == front.len());
    assert(sql@[0] == front[0]);
    assert(front[0] == '"' || letter(front[0]));
    assert(quotation_end(sql@, 0) is None);
    assert(token_at(sql@, schema@, 0) == (Seq::<char>::empty(), front.len() as int));
    assert(front.last() == '.');
    lemma_shifted(front, rest@, schema@, 0);
    assert(Seq::<char>::empty() + unqualified(sql@, schema@, front.len() as int) =~= unqualified(
        rest@,
        schema@,
        0,
    ));
}

/// A temporary schema is taken out by its alias too.
pub proof fn law_alias_of_a_temporary_schema_is_taken_out(
    sql: &str,
    schema: &str,
    r: String,
    rest: &str,
    s: String,
)
    requires
        call_ensures(normalize_sql_qualifiers, (sql, schema), r),
        call_ensures(normalize_sql_qualifiers, (rest, schema), s),
        word(schema@),
        begins(schema@, "pg_temp_"@),
        sql@ == "pg_temp."@ + rest@ || sql@ == "\"pg_temp\"."@ + rest@,
    ensures
        r@ == s@,
{
    reveal_strlit(".");
    reveal_strlit("\"");
    reveal_strlit("\".");
    reveal_strlit("pg_temp_");
    reveal_strlit("pg_temp.");
    reveal_strlit("\"pg_temp\".");
    lemma_begins(schema@, "pg_temp_"@);
    let names = qualifiers(schema@);
    let bare = schema@ + "."@;
    let quoted = "\""@ + schema@ + "\"."@;
    let front = if sql@ == "pg_temp."@ + rest@ {
        "pg_temp."@
    } else {
        "\"pg_temp\"."@
    };
    assert(names.len() == 4);
    assert(names[0] == bare);
    assert(names[1] == quoted);
    assert(names[2] == "pg_temp."@);
    assert(names[3] == "\"pg_temp\"."@);
    assert(sql@.subrange(0, front.len() as int) =~= front);
    assert(stands_at(sql@, front, 0));
    assert(schema@.take(8) == "pg_temp_"@);
    assert(schema@[7] == "pg_temp_"@[7]);
    assert(schema@[0] == "pg_temp_"@[0]);
    assert(!stands_at(sql@, bare, 0)) by {
        if stands_at(sql@, bare, 0) {
            let found = sql@.subrange(0, bare.len() as int);
            assert(found[0] == bare[0] && found[0] == sql@[0]);
            assert(found[7] == bare[7] && found[7] == sql@[7]);
            assert(sql@[0] == front[0] && sql@[7] == front[7]);
        }
    }
    assert(!stands_at(sql@, quoted, 0)) by {
        if stands_at(sql@, quoted, 0) {
            let found = sql@.subrange(0, quoted.len() as int);
            assert(found[0] == quoted[0] && found[0] == sql@[0]);
            assert(found[8] == quoted[8] && found[8] == sql@[8]);
            assert(quoted[8] == schema@[7]);
            assert(sql@[0] == front[0]);
            assert(front == "\"pg_temp\"."@);
            assert(sql@[8] == front[8]);
        }
    }
    if front == "\"pg_temp\"."@ {
        assert(!stands_at(sql@, "pg_temp."@, 0)) by {
            if stands_at(sql@, "pg_temp."@, 0) {
                assert(sql@.subrange(0, 8)[0] == sql@[0]);
                assert(sql@[0] == front[0]);
            }
        }
    }
    let first = names.drop_first();
    let second = first.drop_first();
    let third = second.drop_first();
    assert(first[0] == names[1]);
    assert(second[0] == names[2]);
    assert(third[0] == names[3]);
    reveal_with_fuel(name_length, 5);
    assert(name_length(sql@, names, 0) == front.len());
    assert(sql@[0] == front[0]);
    assert(quotation_end(sql@, 0) is None);
    assert(front.last() == '.');
    assert(front + rest@ =~= sql@);
    lemma_shifted(front, rest@, schema@, 0);
    assert(Seq::<char>::empty() + unqualified(sql@, schema@, front.len() as int) =~= unqualified(
        rest@,
        schema@,
        0,
    ));
}

proof fn lemma_word_is_copied(
    whole: Seq<char>,
    name: Seq<char>,
    rest: Seq<char>,
    schema: Seq<char>,
    at: int,
)
    requires
        whole == name + rest,
        word(name),
        word(schema),
        breaks_off(rest),
        0 < at <= name.len(),
    ensures
        unqualified(whole, schema, at) == name.skip(at) + unqualified(rest, schema, 0),
    decreases name.len() - at,
{
    assert(letter(name[at - 1]));
    assert(whole[at - 1] == name[at - 1]);
    if at < name.len() {
        assert(letter(name[at]));
        assert(whole[at] == name[at]);
        assert(!word_start(whole, at));
        assert(token_at(whole, schema, at) == (seq![name[at]], at + 1));
        lemma_word_is_copied(whole, name, rest, schema, at + 1);
        assert(name.skip(at) =~= seq![name[at]] + name.skip(at + 1));
        assert(unqualified(whole, schema, at) =~= name.skip(at) + unqualified(rest, schema, 0));
    } else {
        lemma_no_qualifier(rest, schema);
        lemma_shifted(name, rest, schema, 0);
        assert(name.skip(at) =~= Seq::<char>::empty());
        assert(unqualified(whole, schema, at) =~= name.skip(at) + unqualified(rest, schema, 0));
    }
}

/// A word that does not name the schema of what follows it is kept, whatever it
/// ends like, and the rest is read as if it stood alone.
pub proof fn law_word_is_kept(
    sql: &str,
    schema: &str,
    r: String,
    name: Seq<char>,
    rest: &str,
    s: String,
)
    requires
        call_ensures(normalize_sql_qualifiers, (sql, schema), r),
        call_ensures(normalize_sql_qualifiers, (rest, schema), s),
        word(schema@),
        word(name),
        sql@ == name + rest@,
        breaks_off(rest@),
        rest@.len() > 0 && rest@[0] == '.' ==> name != schema@ && name != "pg_temp"@,
    ensures
        r@ == name + s@,
{
    reveal_strlit(".");
    reveal_strlit("\"");
    reveal_strlit("\".");
    reveal_strlit("pg_temp");
    reveal_strlit("pg_temp.");
    reveal_strlit("\"pg_temp\".");
    let names = qualifiers(schema@);
    assert(letter(name[0]));
    assert(sql@[0] == name[0]);
    assert forall|i: int| 0 <= i < names.len() implies !#[trigger] stands_at(
        sql@,
        names[i],
        0,
    ) by {
        if stands_at(sql@, names[i], 0) {
            let found = sql@.subrange(0, names[i].len() as int);
            assert(found[0] == sql@[0]);
            if i == 0 {
                lemma_dotted_word(sql@, name, rest@, schema@);
            } else if i == 1 {
                assert(names[1][0] == '"');
            } else if i == 2 {
                assert(names[2] == "pg_temp."@);
                assert("pg_temp"@ + "."@ =~= "pg_temp."@);
                assert(word("pg_temp"@));
                lemma_dotted_word(sql@, name, rest@, "pg_temp"@);
            } else {
                assert(names[3][0] == '"');
            }
        }
    }
    lemma_no_name_stands(sql@, names);
    assert(quotation_end(sql@, 0) is None);
    assert(token_at(sql@, schema@, 0) == (seq![name[0]], 1int));
    lemma_word_is_copied(sql@, name, rest@, schema@, 1);
    assert(name =~= seq![name[0]] + name.skip(1));
    assert(r@ =~= name + s@);
}

proof fn lemma_dotted_word(sql: Seq<char>, name: Seq<char>, rest: Seq<char>, other: Seq<char>)
    requires
        sql == name + rest,
        word(name),
        word(other),
        breaks_off(rest),
        stands_at(sql, other + "."@, 0),
    ensures
        name == other,
        rest.len() > 0,
        rest[0] == '.',
{
    reveal_strlit(".");
    let dotted = other + "."@;
    let found = sql.subrange(0, dotted.len() as int);
    assert(found == dotted);
    assert(found[other.len() as int] == '.');
    assert(sql[other.len() as int] == '.');
    assert forall|i: int| 0 <= i < other.len() implies sql[i] == #[trigger] other[i] by {
        assert(found[i] == dotted[i]);
    }
    if name.len() < other.len() {
        assert(letter(other[name.len() as int]));
        assert(sql[name.len() as int] == rest[0]);
    } else if name.len() > other.len() {
        assert(letter(name[other.len() as int]));
        assert(sql[other.len() as int] == name[other.len() as int]);
    } else {
        assert(name =~= other) by {
            assert forall|i: int| 0 <= i < name.len() implies name[i] == other[i] by {
                assert(sql[i] == name[i]);
            }
        }
        assert(sql[name.len() as int] == rest[0]);
    }
}

/// A character that belongs to no word and opens nothing is kept.
pub proof fn law_mark_is_kept(
    sql: &str,
    schema: &str,
    r: String,
    mark: char,
    rest: &str,
    s: String,
)
    requires
        call_ensures(normalize_sql_qualifiers, (sql, schema), r),
        call_ensures(normalize_sql_qualifiers, (rest, schema), s),
        word(schema@),
        sql@ == seq![mark] + rest@,
        !letter(mark),
        mark != '\'',
        mark != '"',
        mark != '$',
    ensures
        r@ == seq![mark] + s@,
{
    assert(sql@[0] == mark);
    lemma_no_qualifier(sql@, schema@);
    assert(quotation_end(sql@, 0) is None);
    assert(token_at(sql@, schema@, 0) == (seq![mark], 1int));
    assert(seq![mark].last() == mark);
    lemma_shifted(seq![mark], rest@, schema@, 0);
}

/// Whether a text can stand inside a string literal: a quote in it is doubled,
/// and a backslash takes the next character with it.
pub open spec fn inner(text: Seq<char>) -> bool
    decreases text.len(),
{
    if text.len() == 0 {
        true
    } else if text[0] == '\\' {
        text.len() >= 2 && inner(text.skip(2))
    } else if text[0] == '\'' {
        text.len() >= 2 && text[1] == '\'' && inner(text.skip(2))
    } else {
        inner(text.skip(1))
    }
}

proof fn lemma_literal(front: Seq<char>, text: Seq<char>, rest: Seq<char>)
    requires
        inner(text),
        rest.len() == 0 || rest[0] != '\'',
    ensures
        literal_end(front + text + seq!['\''] + rest, front.len() as int) == front.len()
            + text.len() + 1,
    decreases text.len(),
{
    let whole = front + text + seq!['\''] + rest;
    let at = front.len() as int;
    if text.len() == 0 {
        assert(whole[at] == '\'');
        if rest.len() > 0 {
            assert(whole[at + 1] == rest[0]);
        }
    } else {
        assert(whole[at] == text[0]);
        let step: int = if text[0] == '\\' || text[0] == '\'' {
            2
        } else {
            1
        };
        if step == 2 {
            assert(whole[at + 1] == text[1]);
        }
        let longer = front + text.take(step);
        assert(longer + text.skip(step) + seq!['\''] + rest =~= whole);
        lemma_literal(longer, text.skip(step), rest);
    }
}

/// A string literal is kept as it is, whatever it holds, and the rest is read as
/// if it stood alone.
pub proof fn law_string_literal_is_kept(
    sql: &str,
    schema: &str,
    r: String,
    text: Seq<char>,
    rest: &str,
    s: String,
)
    requires
        call_ensures(normalize_sql_qualifiers, (sql, schema), r),
        call_ensures(normalize_sql_qualifiers, (rest, schema), s),
        inner(text),
        sql@ == seq!['\''] + text + seq!['\''] + rest@,
        rest@.len() == 0 || rest@[0] != '\'',
    ensures
        r@ == seq!['\''] + text + seq!['\''] + s@,
{
    let front = seq!['\''] + text + seq!['\''];
    lemma_literal(seq!['\''], text, rest@);
    assert(sql@[0] == '\'');
    assert(sql@.subrange(0, front.len() as int) =~= front);
    assert(token_at(sql@, schema@, 0) == (front, front.len() as int));
    assert(front.last() == '\'');
    assert(front + rest@ =~= sql@);
    lemma_shifted(front, rest@, schema@, 0);
    assert(r@ =~= front + s@);
}

/// A quoted name that is not the schema of what follows it is kept, and the
/// rest is read as if it stood alone.
pub proof fn law_quoted_name_is_kept(
    sql: &str,
    schema: &str,
    r: String,
    name: Seq<char>,
    rest: &str,
    s: String,
)
    requires
        call_ensures(normalize_sql_qualifiers, (sql, schema), r),
        call_ensures(normalize_sql_qualifiers, (rest, schema), s),
        word(schema@),
        forall|i: int| 0 <= i < name.len() ==> #[trigger] name[i] != '"',
        sql@ == seq!['"'] + name + seq!['"'] + rest@,
        rest@.len() > 0 && rest@[0] == '.' ==> name != schema@ && name != "pg_temp"@,
    ensures
        r@ == seq!['"'] + name + seq!['"'] + s@,
{
    reveal_strlit(".");
    reveal_strlit("\"");
    reveal_strlit("\".");
    reveal_strlit("pg_temp");
    reveal_strlit("pg_temp.");
    reveal_strlit("\"pg_temp\".");
    let front = seq!['"'] + name + seq!['"'];
    let names = qualifiers(schema@);
    assert(letter(schema@[0]));
    assert(sql@[0] == '"');
    assert forall|i: int| 0 <= i < names.len() implies !#[trigger] stands_at(
        sql@,
        names[i],
        0,
    ) by {
        if stands_at(sql@, names[i], 0) {
            let found = sql@.subrange(0, names[i].len() as int);
            assert(found[0] == sql@[0]);
            if i == 0 {
                assert(names[0][0] == schema@[0]);
            } else if i == 1 {
                assert(names[1] =~= seq!['"'] + schema@ + seq!['"'] + seq!['.']);
                lemma_quoted_dotted(sql@, name, rest@, schema@);
            } else if i == 2 {
                assert(names[2][0] == 'p');
            } else {
                assert(names[3] =~= seq!['"'] + "pg_temp"@ + seq!['"'] + seq!['.']);
                lemma_quoted_dotted(sql@, name, rest@, "pg_temp"@);
            }
        }
    }
    lemma_no_name_stands(sql@, names);
    assert(quotation_end(sql@, 0) is None);
    assert("\""@ =~= seq!['"']);
    lemma_name_ends(seq!['"'], name, rest@);
    assert(quoted_end(sql@, "\""@, 1) == front.len());
    assert(sql@.subrange(0, front.len() as int) =~= front);
    assert(token_at(sql@, schema@, 0) == (front, front.len() as int));
    assert(front.last() == '"');
    assert(front + rest@ =~= sql@);
    lemma_shifted(front, rest@, schema@, 0);
    assert(r@ =~= front + s@);
}

proof fn lemma_name_ends(front: Seq<char>, name: Seq<char>, rest: Seq<char>)
    requires
        forall|i: int| 0 <= i < name.len() ==> #[trigger] name[i] != '"',
    ensures
        quoted_end(front + name + seq!['"'] + rest, seq!['"'], front.len() as int) == front.len()
            + name.len() + 1,
    decreases name.len(),
{
    let whole = front + name + seq!['"'] + rest;
    let at = front.len() as int;
    if name.len() == 0 {
        assert(whole.subrange(at, at + 1) =~= seq!['"']);
        assert(stands_at(whole, seq!['"'], at));
    } else {
        assert(whole[at] == name[0]);
        assert(!stands_at(whole, seq!['"'], at)) by {
            if stands_at(whole, seq!['"'], at) {
                assert(whole.subrange(at, at + 1)[0] == whole[at]);
            }
        }
        let longer = front.push(name[0]);
        assert(longer + name.skip(1) + seq!['"'] + rest =~= whole);
        assert forall|i: int| 0 <= i < name.skip(1).len() implies #[trigger] name.skip(1)[i]
            != '"' by {
            assert(name[i + 1] != '"');
        }
        lemma_name_ends(longer, name.skip(1), rest);
    }
}

proof fn lemma_quoted_dotted(sql: Seq<char>, name: Seq<char>, rest: Seq<char>, other: Seq<char>)
    requires
        sql == seq!['"'] + name + seq!['"'] + rest,
        forall|i: int| 0 <= i < name.len() ==> #[trigger] name[i] != '"',
        forall|i: int| 0 <= i < other.len() ==> letter(#[trigger] other[i]),
        stands_at(sql, seq!['"'] + other + seq!['"'] + seq!['.'], 0),
    ensures
        name == other,
        rest.len() > 0,
        rest[0] == '.',
{
    let part = seq!['"'] + other + seq!['"'] + seq!['.'];
    let found = sql.subrange(0, part.len() as int);
    assert(found == part);
    assert forall|i: int| 0 <= i < part.len() implies sql[i] == #[trigger] part[i] by {
        assert(found[i] == part[i]);
    }
    assert(part[other.len() as int + 1] == '"');
    assert(part[other.len() as int + 2] == '.');
    if name.len() < other.len() {
        assert(sql[name.len() as int + 1] == '"');
        assert(part[name.len() as int + 1] == other[name.len() as int]);
        assert(letter(other[name.len() as int]));
    } else if name.len() > other.len() {
        assert(sql[other.len() as int + 1] == name[other.len() as int]);
    } else {
        assert forall|i: int| 0 <= i < name.len() implies name[i] == other[i] by {
            assert(sql[i + 1] == name[i]);
            assert(part[i + 1] == other[i]);
        }
        assert(name =~= other);
        assert(sql[name.len() as int + 2] == rest[0]);
    }
}

/// A dollar-quoted text is kept as it is, whatever it holds, up to where its own
/// tag closes it.
pub proof fn law_dollar_quoted_text_is_kept(
    sql: &str,
    schema: &str,
    r: String,
    tag: Seq<char>,
    text: Seq<char>,
    rest: &str,
    s: String,
)
    requires
        call_ensures(normalize_sql_qualifiers, (sql, schema), r),
        call_ensures(normalize_sql_qualifiers, (rest, schema), s),
        word(schema@),
        tag.len() == 0 || (word(tag) && !('0' <= tag[0] <= '9')),
        ({
            let mark = seq!['$'] + tag + seq!['$'];
            &&& sql@ == mark + text + mark + rest@
            &&& forall|at: int|
                0 <= at < text.len() ==> !#[trigger] stands_at(text + mark + rest@, mark, at)
        }),
        breaks_off(rest@),
    ensures
        r@ == seq!['$'] + tag + seq!['$'] + text + seq!['$'] + tag + seq!['$'] + s@,
{
    let mark = seq!['$'] + tag + seq!['$'];
    let front = mark + text + mark;
    let behind = text + mark + rest@;
    assert(sql@ =~= mark + behind);
    assert(sql@[0] == '$');
    let close = tag.len() + 1;
    assert forall|i: int| 1 <= i < close implies #[trigger] sql@[i] != '$' by {
        assert(sql@[i] == tag[i - 1]);
        assert(letter(tag[i - 1]));
    }
    assert(sql@[close as int] == '$');
    lemma_place(sql@, '$', 1, close as int);
    assert(sql@.subrange(1, close as int) =~= tag);
    assert(dollar_tag(tag)) by {
        assert forall|i: int| 0 <= i < tag.len() implies crate::text::ascii_alphanumeric(
            #[trigger] tag[i],
        ) || tag[i] == '_' by {
            assert(letter(tag[i]));
        }
    }
    assert(dollar_inside(sql@, 0) == Some(mark.len() as int));
    assert(sql@.subrange(0, mark.len() as int) =~= mark);
    lemma_shifted_quoted(mark, behind, mark, 0);
    assert(behind.subrange(text.len() as int, text.len() as int + mark.len()) =~= mark);
    lemma_first_stand(behind, mark, 0, text.len() as int);
    assert(quoted_end(sql@, mark, mark.len() as int) == front.len());
    assert(sql@.subrange(0, front.len() as int) =~= front);
    assert(token_at(sql@, schema@, 0) == (front, front.len() as int));
    lemma_no_qualifier(rest@, schema@);
    assert(front + rest@ =~= sql@);
    lemma_shifted(front, rest@, schema@, 0);
    assert(r@ =~= seq!['$'] + tag + seq!['$'] + text + seq!['$'] + tag + seq!['$'] + s@);
}

proof fn lemma_place(text: Seq<char>, c: char, from: int, to: int)
    requires
        0 <= from <= to < text.len(),
        text[to] == c,
        forall|i: int| from <= i < to ==> #[trigger] text[i] != c,
    ensures
        place_of(text, c, from) == to,
    decreases to - from,
{
    if from < to {
        assert(text[from] != c);
        lemma_place(text, c, from + 1, to);
    }
}

proof fn lemma_first_stand(sql: Seq<char>, mark: Seq<char>, from: int, to: int)
    requires
        0 <= from <= to,
        mark.len() > 0,
        stands_at(sql, mark, to),
        forall|at: int| from <= at < to ==> !#[trigger] stands_at(sql, mark, at),
    ensures
        quoted_end(sql, mark, from) == to + mark.len(),
    decreases to - from,
{
    if from < to {
        assert(!stands_at(sql, mark, from));
        lemma_first_stand(sql, mark, from + 1, to);
    }
}

/// An empty text stays empty.
pub proof fn law_nothing_stays_nothing(sql: &str, schema: &str, r: String)
    requires
        call_ensures(normalize_sql_qualifiers, (sql, schema), r),
        sql@.len() == 0,
    ensures
        r@.len() == 0,
{
}

/// Two lists are the same where they hold the same texts in the same order.
pub proof fn law_rows_are_compared_one_by_one(a: &Vec<String>, b: &Vec<String>, r: bool)
    requires
        call_ensures(same_rows, (a, b), r),
    ensures
        r <==> a@.len() == b@.len() && forall|i: int|
            0 <= i < a@.len() ==> (#[trigger] a@[i])@ == b@[i]@,
{
    assert(texts(a@).len() == a@.len());
    assert(texts(b@).len() == b@.len());
    if texts(a@) == texts(b@) {
        assert forall|i: int| 0 <= i < a@.len() implies (#[trigger] a@[i])@ == b@[i]@ by {
            assert(texts(a@)[i] == texts(b@)[i]);
        }
    }
    if a@.len() == b@.len() && forall|i: int|
        0 <= i < a@.len() ==> (#[trigger] a@[i])@ == b@[i]@ {
        assert(texts(a@) =~= texts(b@));
    }
}

/// Two fingerprints are the same where every part of them is.
pub proof fn law_fingerprints_are_compared_part_by_part(
    a: &LegacySchemaFingerprint,
    b: &LegacySchemaFingerprint,
    r: bool,
)
    requires
        call_ensures(LegacySchemaFingerprint::same_as, (a, b), r),
    ensures
        r <==> {
            &&& a.schema@ == b.schema@
            &&& texts(a.relations@) == texts(b.relations@)
            &&& texts(a.columns@) == texts(b.columns@)
            &&& texts(a.constraints@) == texts(b.constraints@)
            &&& texts(a.indexes@) == texts(b.indexes@)
            &&& texts(a.triggers@) == texts(b.triggers@)
            &&& texts(a.types@) == texts(b.types@)
            &&& texts(a.routines@) == texts(b.routines@)
            &&& texts(a.policies@) == texts(b.policies@)
            &&& texts(a.inheritance@) == texts(b.inheritance@)
            &&& texts(a.rules@) == texts(b.rules@)
            &&& texts(a.security_labels@) == texts(b.security_labels@)
            &&& texts(a.publication_memberships@) == texts(b.publication_memberships@)
        },
{
}

/// A schema matches its reference exactly where the two fingerprints, each
/// without its own name, are the same; so a schema matches itself.
pub proof fn law_schemas_match_but_for_their_names(
    actual: LegacySchemaFingerprint,
    expected: LegacySchemaFingerprint,
    reference: &str,
    r: bool,
    own: &str,
    bare_actual: LegacySchemaFingerprint,
    bare_expected: LegacySchemaFingerprint,
    same: bool,
)
    requires
        call_ensures(catalogs_match, (actual, expected, reference), r),
        own@ == "notification"@,
        call_ensures(LegacySchemaFingerprint::normalized, (actual, own), bare_actual),
        call_ensures(LegacySchemaFingerprint::normalized, (expected, reference), bare_expected),
        call_ensures(LegacySchemaFingerprint::same_as, (&bare_actual, &bare_expected), same),
    ensures
        r <==> same,
        actual == expected && reference@ == "notification"@ ==> r,
{
}

/// Whether the elements of a row are kept but for the SQL definitions at the two
/// places (or one, where they are the same), which lose what names the schema.
pub open spec fn loses_qualifiers(
    new: Seq<char>,
    old: Seq<char>,
    a: int,
    b: int,
    schema: Seq<char>,
) -> bool {
    &&& json_elements(old) is None ==> new == old
    &&& json_elements(old) is Some ==> exists|elements: Seq<Seq<char>>|
        {
            let given = json_elements(old)->Some_0;
            &&& new == #[trigger] json_array(elements)
            &&& elements.len() == given.len()
            &&& forall|k: int|
                0 <= k < given.len() ==> #[trigger] elements[k] == (if (k == a || k == b)
                    && json_string(given[k]) is Some {
                    json_quoted(unqualified(json_string(given[k])->Some_0, schema, 0))
                } else {
                    given[k]
                })
        }
}

/// Whether the elements of a row are kept but for the name of the schema at the
/// two places, for which a name stands that both schemas share.
pub open spec fn loses_name(
    new: Seq<char>,
    old: Seq<char>,
    a: int,
    b: int,
    schema: Seq<char>,
) -> bool {
    &&& json_elements(old) is None ==> new == old
    &&& json_elements(old) is Some ==> exists|elements: Seq<Seq<char>>|
        {
            let given = json_elements(old)->Some_0;
            &&& new == #[trigger] json_array(elements)
            &&& elements.len() == given.len()
            &&& forall|k: int|
                0 <= k < given.len() ==> #[trigger] elements[k] == (if (k == a || k == b)
                    && json_string(given[k]) == Some(schema) {
                    json_quoted("__lenso_owned_schema__"@)
                } else {
                    given[k]
                })
        }
}

proof fn lemma_one_changed(
    given: Seq<Seq<char>>,
    a: usize,
    change: spec_fn(Seq<char>) -> Option<Seq<char>>,
    elements: Seq<Seq<char>>,
)
    requires
        elements == changed_elements(given, seq![a], change),
    ensures
        elements.len() == given.len(),
        forall|k: int|
            0 <= k < given.len() ==> #[trigger] elements[k] == (if k == a {
                changed_element(given[k], change)
            } else {
                given[k]
            }),
{
    reveal_with_fuel(changed_elements, 2);
    assert(seq![a].drop_last() =~= Seq::<usize>::empty());
}

proof fn lemma_two_changed(
    given: Seq<Seq<char>>,
    a: usize,
    b: usize,
    change: spec_fn(Seq<char>) -> Option<Seq<char>>,
    elements: Seq<Seq<char>>,
)
    requires
        a != b,
        elements == changed_elements(given, seq![a, b], change),
    ensures
        elements.len() == given.len(),
        forall|k: int|
            0 <= k < given.len() ==> #[trigger] elements[k] == (if k == a || k == b {
                changed_element(given[k], change)
            } else {
                given[k]
            }),
{
    reveal_with_fuel(changed_elements, 3);
    assert(seq![a, b].drop_last() =~= seq![a]);
    assert(seq![a].drop_last() =~= Seq::<usize>::empty());
    lemma_one_changed(given, a, change, changed_elements(given, seq![a], change));
}

proof fn lemma_row_loses_qualifiers(row: Seq<char>, a: usize, b: usize, schema: Seq<char>)
    ensures
        a == b ==> loses_qualifiers(
            changed_row(row, seq![a], sql_change(schema)),
            row,
            a as int,
            b as int,
            schema,
        ),
        a != b ==> loses_qualifiers(
            changed_row(row, seq![a, b], sql_change(schema)),
            row,
            a as int,
            b as int,
            schema,
        ),
{
    if json_elements(row) is Some {
        let given = json_elements(row)->Some_0;
        let change = sql_change(schema);
        if a == b {
            let elements = changed_elements(given, seq![a], change);
            lemma_one_changed(given, a, change, elements);
            assert(changed_row(row, seq![a], change) == json_array(elements));
        } else {
            let elements = changed_elements(given, seq![a, b], change);
            lemma_two_changed(given, a, b, change, elements);
            assert(changed_row(row, seq![a, b], change) == json_array(elements));
        }
    }
}

proof fn lemma_row_loses_name(row: Seq<char>, a: usize, b: usize, schema: Seq<char>)
    requires
        a != b,
    ensures
        loses_name(
            changed_row(row, seq![a, b], name_change(schema)),
            row,
            a as int,
            b as int,
            schema,
        ),
{
    if json_elements(row) is Some {
        let given = json_elements(row)->Some_0;
        let change = name_change(schema);
        let elements = changed_elements(given, seq![a, b], change);
        lemma_two_changed(given, a, b, change, elements);
        assert(changed_row(row, seq![a, b], change) == json_array(elements));
    }
}

/// Whether rows correspond one to one, and each loses what names the schema in
/// the definitions at the two places.
pub open spec fn rows_lose_qualifiers(
    new: Seq<String>,
    old: Seq<String>,
    a: int,
    b: int,
    schema: Seq<char>,
) -> bool {
    &&& new.len() == old.len()
    &&& forall|i: int|
        0 <= i < old.len() ==> loses_qualifiers((#[trigger] new[i])@, old[i]@, a, b, schema)
}

proof fn lemma_rows_lose_qualifiers(
    new: Seq<String>,
    old: Seq<String>,
    a: usize,
    b: usize,
    schema: Seq<char>,
)
    requires
        texts(new) == (if a == b {
            crate::catalog::changed_rows(texts(old), seq![a], sql_change(schema))
        } else {
            crate::catalog::changed_rows(texts(old), seq![a, b], sql_change(schema))
        }),
    ensures
        rows_lose_qualifiers(new, old, a as int, b as int, schema),
{
    assert(texts(new).len() == new.len());
    assert(texts(old).len() == old.len());
    assert forall|i: int| 0 <= i < old.len() implies loses_qualifiers(
        (#[trigger] new[i])@,
        old[i]@,
        a as int,
        b as int,
        schema,
    ) by {
        assert(texts(new)[i] == new[i]@);
        assert(texts(old)[i] == old[i]@);
        lemma_row_loses_qualifiers(old[i]@, a, b, schema);
    }
}

/// A fingerprint loses its schema's name in the definitions of columns,
/// constraints, indexes, triggers, routines, policies, rules and memberships,
/// and where it names whom it inherits from. Everything else in it is kept.
pub proof fn law_fingerprint_loses_the_name_of_its_schema(
    given: LegacySchemaFingerprint,
    schema: &str,
    bare: LegacySchemaFingerprint,
)
    requires
        call_ensures(LegacySchemaFingerprint::normalized, (given, schema), bare),
    ensures
        bare.schema@ == given.schema@,
        texts(bare.relations@) == texts(given.relations@),
        texts(bare.types@) == texts(given.types@),
        texts(bare.security_labels@) == texts(given.security_labels@),
        rows_lose_qualifiers(bare.columns@, given.columns@, 3, 5, schema@),
        rows_lose_qualifiers(bare.constraints@, given.constraints@, 7, 7, schema@),
        rows_lose_qualifiers(bare.indexes@, given.indexes@, 18, 18, schema@),
        rows_lose_qualifiers(bare.triggers@, given.triggers@, 3, 3, schema@),
        rows_lose_qualifiers(bare.routines@, given.routines@, 1, 10, schema@),
        rows_lose_qualifiers(bare.policies@, given.policies@, 5, 6, schema@),
        rows_lose_qualifiers(bare.rules@, given.rules@, 3, 3, schema@),
        rows_lose_qualifiers(
            bare.publication_memberships@,
            given.publication_memberships@,
            2,
            2,
            schema@,
        ),
        bare.inheritance@.len() == given.inheritance@.len(),
        forall|i: int|
            0 <= i < given.inheritance@.len() ==> loses_name(
                (#[trigger] bare.inheritance@[i])@,
                given.inheritance@[i]@,
                0,
                2,
                schema@,
            ),
{
    lemma_rows_lose_qualifiers(bare.columns@, given.columns@, 3, 5, schema@);
    lemma_rows_lose_qualifiers(bare.constraints@, given.constraints@, 7, 7, schema@);
    lemma_rows_lose_qualifiers(bare.indexes@, given.indexes@, 18, 18, schema@);
    lemma_rows_lose_qualifiers(bare.triggers@, given.triggers@, 3, 3, schema@);
    lemma_rows_lose_qualifiers(bare.routines@, given.routines@, 1, 10, schema@);
    lemma_rows_lose_qualifiers(bare.policies@, given.policies@, 5, 6, schema@);
    lemma_rows_lose_qualifiers(bare.rules@, given.rules@, 3, 3, schema@);
    lemma_rows_lose_qualifiers(
        bare.publication_memberships@,
        given.publication_memberships@,
        2,
        2,
        schema@,
    );
    assert(texts(bare.inheritance@).len() == bare.inheritance@.len());
    assert(texts(given.inheritance@).len() == given.inheritance@.len());
    assert forall|i: int| 0 <= i < given.inheritance@.len() implies loses_name(
        (#[trigger] bare.inheritance@[i])@,
        given.inheritance@[i]@,
        0,
        2,
        schema@,
    ) by {
        assert(texts(bare.inheritance@)[i] == bare.inheritance@[i]@);
        assert(texts(given.inheritance@)[i] == given.inheritance@[i]@);
        lemma_row_loses_name(given.inheritance@[i]@, 0, 2, schema@);
    }
}

} // verus!
