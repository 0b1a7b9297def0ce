//! The proof that the host's ledger of migrations is the genuine one and
//! records the first migration.

use vstd::prelude::*;

use crate::catalog::same_rows;
use crate::json::{array_elements, json_elements, json_quoted, quote_text};
use crate::text::{same_text, texts};

verus! {

/// The migration that the host recorded.
pub const LEGACY_HOST_MIGRATION_NAME: &'static str =
    "notification/0001_create_notification_schema";

/// What the catalog says of the ledger's table.
#[derive(Debug)]
pub struct HostLedgerRelation {
    pub kind: String,
    pub schema_owner: String,
    pub table_owner: String,
    pub schema_acl: Option<String>,
    pub table_acl: Option<String>,
    pub row_security: bool,
    pub force_row_security: bool,
    pub persistence: String,
    pub access_method: String,
    pub options: String,
    pub is_partition: bool,
    pub replica_identity: String,
    pub tablespace: String,
    pub comment: Option<String>,
}

impl HostLedgerRelation {
    /// Whether this is a plain private table of `role`.
    pub open spec fn genuine(self, role: Seq<char>) -> bool {
        &&& self.kind@ == "r"@
        &&& self.schema_owner@ == role
        &&& self.table_owner@ == role
        &&& self.schema_acl is None
        &&& self.table_acl is None
        &&& !self.row_security
        &&& !self.force_row_security
        &&& self.persistence@ == "p"@
        &&& self.access_method@ == "heap"@
        &&& self.options@ == "[]"@
        &&& !self.is_partition
        &&& self.replica_identity@ == "d"@
        &&& self.tablespace@.len() == 0
        &&& self.comment is None
    }

    /// Whether this is a plain private table of `role`.
    pub fn is_genuine(&self, role: &str) -> (r: bool)
        ensures
            r == self.genuine(role@),
    {
        same_text(self.kind.as_str(), "r") && same_text(self.schema_owner.as_str(), role)
            && same_text(self.table_owner.as_str(), role) && self.schema_acl.is_none()
            && self.table_acl.is_none() && !self.row_security && !self.force_row_security
            && same_text(self.persistence.as_str(), "p") && same_text(
            self.access_method.as_str(),
            "heap",
        ) && same_text(self.options.as_str(), "[]") && !self.is_partition && same_text(
            self.replica_identity.as_str(),
            "d",
        ) && self.tablespace.as_str().is_empty() && self.comment.is_none()
    }
}

/// A row type that belongs to the ledger's table.
#[derive(Debug)]
pub struct HostLedgerType {
    pub name: String,
    pub owner: String,
    pub acl: Option<String>,
    pub comment: Option<String>,
}

impl HostLedgerType {
    /// Whether this is the private type `name` of `role`.
    pub open spec fn genuine(self, name: Seq<char>, role: Seq<char>) -> bool {
        self.name@ == name && self.owner@ == role && self.acl is None && self.comment is None
    }

    fn is_genuine(&self, name: &str, role: &str) -> (r: bool)
        ensures
            r == self.genuine(name@, role@),
    {
        same_text(self.name.as_str(), name) && same_text(self.owner.as_str(), role)
            && self.acl.is_none() && self.comment.is_none()
    }
}

/// A constraint on the ledger's table.
#[derive(Debug)]
pub struct HostLedgerConstraint {
    pub name: String,
    pub kind: String,
    pub definition: String,
    pub deferrable: bool,
    pub deferred: bool,
    pub validated: bool,
    pub no_inherit: bool,
    pub comment: Option<String>,
}

impl HostLedgerConstraint {
    /// Whether this is the ledger's primary key.
    pub open spec fn genuine(self) -> bool {
        &&& self.name@ == "schema_migrations_pkey"@
        &&& self.kind@ == "p"@
        &&& self.definition@ == "PRIMARY KEY (name)"@
        &&& !self.deferrable
        &&& !self.deferred
        &&& self.validated
        &&& self.no_inherit
        &&& self.comment is None
    }

    fn is_genuine(&self) -> (r: bool)
        ensures
            r == self.genuine(),
    {
        same_text(self.name.as_str(), "schema_migrations_pkey") && same_text(
            self.kind.as_str(),
            "p",
        ) && same_text(self.definition.as_str(), "PRIMARY KEY (name)") && !self.deferrable
            && !self.deferred && self.validated && self.no_inherit && self.comment.is_none()
    }
}

/// The catalog row of the column `name`, as JSON elements.
pub open spec fn name_column() -> Seq<Seq<char>> {
    seq![
        "1"@,
        "\"name\""@,
        "\"text\""@,
        "true"@,
        "\"\""@,
        "\"\""@,
        "\"\""@,
        "0"@,
        "true"@,
        "0"@,
        "false"@,
        "\"\""@,
        "\"x\""@,
        "\"\""@,
        "-1"@,
        "[]"@,
        "[]"@,
        "\"default\""@,
        "\"\""@,
        "\"\""@,
    ]
}

/// The catalog row of the column `applied_at`, as JSON elements.
pub open spec fn applied_at_column() -> Seq<Seq<char>> {
    seq![
        "2"@,
        "\"applied_at\""@,
        "\"timestamp with time zone\""@,
        "true"@,
        "\"now()\""@,
        "\"\""@,
        "\"\""@,
        "0"@,
        "true"@,
        "0"@,
        "false"@,
        "\"\""@,
        "\"p\""@,
        "\"\""@,
        "-1"@,
        "[]"@,
        "[]"@,
        "\"\""@,
        "\"\""@,
        "\"\""@,
    ]
}

/// The catalog row of the primary key's index, as JSON elements.
pub open spec fn key_index(role: Seq<char>) -> Seq<Seq<char>> {
    seq![
        "\"schema_migrations_pkey\""@,
        "true"@,
        "true"@,
        "false"@,
        "true"@,
        "true"@,
        "true"@,
        "true"@,
        "false"@,
        "false"@,
        "\"p\""@,
        json_quoted(role),
        "\"btree\""@,
        "[]"@,
        "\"\""@,
        "\"\""@,
        "\"\""@,
        "\"CREATE UNIQUE INDEX schema_migrations_pkey ON platform.schema_migrations USING btree (name)\""@,
    ]
}

fn owned_texts(values: &[&str]) -> (list: Vec<String>)
    ensures
        list@.len() == values@.len(),
        forall|i: int| 0 <= i < list@.len() ==> (#[trigger] list@[i])@ == values@[i]@,
{
    let mut list: Vec<String> = Vec::new();
    let mut next: usize = 0;
    while next < values.len()
        invariant
            next <= values@.len(),
            list@.len() == next,
            forall|i: int| 0 <= i < next ==> (#[trigger] list@[i])@ == values@[i]@,
        decreases values@.len() - next,
    {
        list.push(values[next].to_owned());
        next += 1;
    }
    list
}

fn name_column_list() -> (list: Vec<String>)
    ensures
        texts(list@) == name_column(),
{
    let list = owned_texts(
        &[
            "1",
            "\"name\"",
            "\"text\"",
            "true",
            "\"\"",
            "\"\"",
            "\"\"",
            "0",
            "true",
            "0",
            "false",
            "\"\"",
            "\"x\"",
            "\"\"",
            "-1",
            "[]",
            "[]",
            "\"default\"",
            "\"\"",
            "\"\"",
        ],
    );
    assert(texts(list@) =~= name_column());
    list
}

fn applied_at_column_list() -> (list: Vec<String>)
    ensures
        texts(list@) == applied_at_column(),
{
    let list = owned_texts(
        &[
            "2",
            "\"applied_at\"",
            "\"timestamp with time zone\"",
            "true",
            "\"now()\"",
            "\"\"",
            "\"\"",
            "0",
            "true",
            "0",
            "false",
            "\"\"",
            "\"p\"",
            "\"\"",
            "-1",
            "[]",
            "[]",
            "\"\"",
            "\"\"",
            "\"\"",
        ],
    );
    assert(texts(list@) =~= applied_at_column());
    list
}

fn key_index_list(role: &str) -> (list: Vec<String>)
    ensures
        texts(list@) == key_index(role@),
{
    let quoted = quote_text(role);
    let list = owned_texts(
        &[
            "\"schema_migrations_pkey\"",
            "true",
            "true",
            "false",
            "true",
            "true",
            "true",
            "true",
            "false",
            "false",
            "\"p\"",
            quoted.as_str(),
            "\"btree\"",
            "[]",
            "\"\"",
            "\"\"",
            "\"\"",
            "\"CREATE UNIQUE INDEX schema_migrations_pkey ON platform.schema_migrations USING btree (name)\"",
        ],
    );
    assert(texts(list@) =~= key_index(role@));
    list
}

fn row_is(row: &String, expected: &Vec<String>) -> (r: bool)
    ensures
        r == (json_elements(row@) == Some(texts(expected@))),
{
    match array_elements(row.as_str()) {
        Some(elements) => same_rows(&elements, expected),
        None => false,
    }
}

/// Whether the ledger has exactly its two columns.
pub open spec fn genuine_columns(rows: Seq<String>) -> bool {
    &&& rows.len() == 2
    &&& json_elements(rows[0]@) == Some(name_column())
    &&& json_elements(rows[1]@) == Some(applied_at_column())
}

/// Whether the ledger has exactly the row type and its array type.
pub open spec fn genuine_types(types: Seq<HostLedgerType>, role: Seq<char>) -> bool {
    &&& types.len() == 2
    &&& types[0].genuine("_schema_migrations"@, role)
    &&& types[1].genuine("schema_migrations"@, role)
}

/// Whether the ledger has exactly its primary key.
pub open spec fn genuine_constraints(constraints: Seq<HostLedgerConstraint>) -> bool {
    constraints.len() == 1 && constraints[0].genuine()
}

/// Whether the ledger has exactly the index of its primary key.
pub open spec fn genuine_indexes(rows: Seq<String>, role: Seq<char>) -> bool {
    rows.len() == 1 && json_elements(rows[0]@) == Some(key_index(role))
}

/// What is asked next of the catalog.
#[derive(Debug)]
pub enum HostLedgerStage {
    /// Whether the ledger's schema is published.
    Publication,
    /// The ledger's table.
    Relation,
    /// The current role.
    Role { relation: Option<HostLedgerRelation> },
    /// The columns, each as a JSON array.
    Columns { role: String },
    /// The row types.
    Types { role: String },
    /// The constraints.
    Constraints { role: String },
    /// The indexes, each as a JSON array.
    Indexes { role: String },
    /// Whether triggers, policies, rules, labels, publications or inheritance
    /// are attached.
    Extras,
    /// Whether the first migration is recorded.
    Migration,
}

/// What the catalog answered.
#[derive(Debug)]
pub enum HostLedgerAnswer {
    Flag(bool),
    Relation(Option<HostLedgerRelation>),
    Role(String),
    Rows(Vec<String>),
    Types(Vec<HostLedgerType>),
    Constraints(Vec<HostLedgerConstraint>),
}

/// What follows from an answer.
#[derive(Debug)]
pub enum HostLedgerStep {
    Ask(HostLedgerStage),
    Verdict(bool),
}

/// Whether `answer` is of the kind that `stage` asks for.
pub open spec fn answers_stage(stage: HostLedgerStage, answer: HostLedgerAnswer) -> bool {
    match stage {
        HostLedgerStage::Publication
        | HostLedgerStage::Extras
        | HostLedgerStage::Migration => answer is Flag,
        HostLedgerStage::Relation => answer is Relation,
        HostLedgerStage::Role { .. } => answer is Role,
        HostLedgerStage::Columns { .. } | HostLedgerStage::Indexes { .. } => answer is Rows,
        HostLedgerStage::Types { .. } => answer is Types,
        HostLedgerStage::Constraints { .. } => answer is Constraints,
    }
}

/// The next question where what was found is genuine, and no proof otherwise.
pub open spec fn onward(genuine: bool, next: HostLedgerStage) -> HostLedgerStep {
    if genuine {
        HostLedgerStep::Ask(next)
    } else {
        HostLedgerStep::Verdict(false)
    }
}

/// What follows from an answer: the next question, or the verdict.
pub open spec fn host_ledger_next(stage: HostLedgerStage, answer: HostLedgerAnswer) ->
    HostLedgerStep {
    match stage {
        HostLedgerStage::Publication => onward(!answer->Flag_0, HostLedgerStage::Relation),
        HostLedgerStage::Relation => HostLedgerStep::Ask(
            HostLedgerStage::Role { relation: answer->Relation_0 },
        ),
        HostLedgerStage::Role { relation } => onward(
            relation matches Some(found) && found.genuine(answer->Role_0@),
            HostLedgerStage::Columns { role: answer->Role_0 },
        ),
        HostLedgerStage::Columns { role } => onward(
            genuine_columns(answer->Rows_0@),
            HostLedgerStage::Types { role },
        ),
        HostLedgerStage::Types { role } => onward(
            genuine_types(answer->Types_0@, role@),
            HostLedgerStage::Constraints { role },
        ),
        HostLedgerStage::Constraints { role } => onward(
            genuine_constraints(answer->Constraints_0@),
            HostLedgerStage::Indexes { role },
        ),
        HostLedgerStage::Indexes { role } => onward(
            genuine_indexes(answer->Rows_0@, role@),
            HostLedgerStage::Extras,
        ),
        HostLedgerStage::Extras => onward(!answer->Flag_0, HostLedgerStage::Migration),
        HostLedgerStage::Migration => HostLedgerStep::Verdict(answer->Flag_0),
    }
}

fn ask_if(genuine: bool, next: HostLedgerStage) -> (step: HostLedgerStep)
    ensures
        step == onward(genuine, next),
{
    if genuine {
        HostLedgerStep::Ask(next)
    } else {
        HostLedgerStep::Verdict(false)
    }
}

/// The next question about the host's ledger, or whether it proves the first
/// migration. The first thing that is not genuine ends the questions.
pub fn legacy_host_ledger_matches(stage: HostLedgerStage, answer: HostLedgerAnswer) -> (step:
    HostLedgerStep)
    requires
        answers_stage(stage, answer),
    ensures
        step == host_ledger_next(stage, answer),
{
    match (stage, answer) {
        (HostLedgerStage::Publication, HostLedgerAnswer::Flag(published)) => ask_if(
            !published,
            HostLedgerStage::Relation,
        ),
        (HostLedgerStage::Relation, HostLedgerAnswer::Relation(relation)) => HostLedgerStep::Ask(
            HostLedgerStage::Role { relation },
        ),
        (HostLedgerStage::Role { relation }, HostLedgerAnswer::Role(role)) => {
            let genuine = match &relation {
                Some(found) => found.is_genuine(role.as_str()),
                None => false,
            };
            ask_if(genuine, HostLedgerStage::Columns { role })
        },
        (HostLedgerStage::Columns { role }, HostLedgerAnswer::Rows(rows)) => {
            let genuine = rows.len() == 2 && row_is(&rows[0], &name_column_list()) && row_is(
                &rows[1],
                &applied_at_column_list(),
            );
            ask_if(genuine, HostLedgerStage::Types { role })
        },
        (HostLedgerStage::Types { role }, HostLedgerAnswer::Types(types)) => {
            let genuine = types.len() == 2 && types[0].is_genuine(
                "_schema_migrations",
                role.as_str(),
            ) && types[1].is_genuine("schema_migrations", role.as_str());
            ask_if(genuine, HostLedgerStage::Constraints { role })
        },
        (HostLedgerStage::Constraints { role }, HostLedgerAnswer::Constraints(constraints)) => {
            let genuine = constraints.len() == 1 && constraints[0].is_genuine();
            ask_if(genuine, HostLedgerStage::Indexes { role })
        },
        (HostLedgerStage::Indexes { role }, HostLedgerAnswer::Rows(rows)) => {
            let genuine = rows.len() == 1 && row_is(&rows[0], &key_index_list(role.as_str()));
            ask_if(genuine, HostLedgerStage::Extras)
        },
        (HostLedgerStage::Extras, HostLedgerAnswer::Flag(extras)) => ask_if(
            !extras,
            HostLedgerStage::Migration,
        ),
        (HostLedgerStage::Migration, HostLedgerAnswer::Flag(recorded)) => HostLedgerStep::Verdict(
            recorded,
        ),
        _ => HostLedgerStep::Verdict(false),
    }
}

/// The verdict that a run of answers leads to, if it leads to one.
pub open spec fn host_ledger_run(stage: HostLedgerStage, answers: Seq<HostLedgerAnswer>) -> Option<
    bool,
>
    decreases answers.len(),
{
    if answers.len() == 0 || !answers_stage(stage, answers[0]) {
        None
    } else {
        match host_ledger_next(stage, answers[0]) {
            HostLedgerStep::Ask(next) => host_ledger_run(next, answers.drop_first()),
            HostLedgerStep::Verdict(verdict) => Some(verdict),
        }
    }
}

/// The ledger proves the migration only if every answer is genuine and the
/// migration is recorded.
pub proof fn law_host_ledger_proof_is_complete(answers: Seq<HostLedgerAnswer>)
    requires
        host_ledger_run(HostLedgerStage::Publication, answers) == Some(true),
    ensures
        answers.len() >= 9,
        answers[0] == HostLedgerAnswer::Flag(false),
        answers[1] matches HostLedgerAnswer::Relation(Some(relation)) && relation.genuine(
            answers[2]->Role_0@,
        ),
        genuine_columns(answers[3]->Rows_0@),
        genuine_types(answers[4]->Types_0@, answers[2]->Role_0@),
        genuine_constraints(answers[5]->Constraints_0@),
        genuine_indexes(answers[6]->Rows_0@, answers[2]->Role_0@),
        answers[7] == HostLedgerAnswer::Flag(false),
        answers[8] == HostLedgerAnswer::Flag(true),
{
    reveal_with_fuel(host_ledger_run, 10);
}

} // verus!
