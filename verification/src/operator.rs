//! Schema administration: the one-time adoption of a schema that an earlier
//! host created, and the proof that a managed schema is the expected one.

use vstd::prelude::*;
use vstd::string::*;
use vstd::utf8::*;

use crate::catalog::same_rows;
use crate::digest::{hex_digest, hex_text, sha256};
use crate::snapshot::{be_bytes, push_be, push_text};
use crate::text::{after_prefix, replace_text, replaced, same_text, stands_at, texts};

verus! {

/// What was adopted.
#[derive(Clone, Copy, Debug, Eq, PartialEq, Structural)]
pub struct LegacyAdoptionOutcome {
    pub version: u64,
}

/// Why schema administration failed.
#[derive(Debug)]
pub enum NotificationOperatorError {
    Plan { detail: String },
    Postgres { detail: String },
    LegacySchemaMissing,
    LegacySchemaAlreadyManaged,
    LegacySchemaMismatch,
    ManagedSchemaMismatch,
    LegacyHostLedgerMismatch,
    LegacyOwnershipMismatch { owner: String, current_role: String },
    Database { detail: String },
}

impl NotificationOperatorError {
    /// The text of the failure. A failed plan or connection speaks for itself;
    /// a failed statement is not quoted.
    pub open spec fn text(self) -> Seq<char> {
        match self {
            NotificationOperatorError::Plan { detail } => detail@,
            NotificationOperatorError::Postgres { detail } => detail@,
            NotificationOperatorError::LegacySchemaMissing =>
                "legacy Notification schema does not exist"@,
            NotificationOperatorError::LegacySchemaAlreadyManaged =>
                "Notification schema is already managed; use setup or upgrade"@,
            NotificationOperatorError::LegacySchemaMismatch =>
                "legacy Notification schema does not match the immutable v1 fingerprint"@,
            NotificationOperatorError::ManagedSchemaMismatch =>
                "managed Notification schema does not match the exact Plugin catalog fingerprint"@,
            NotificationOperatorError::LegacyHostLedgerMismatch =>
                "legacy Host migration ledger does not prove the Notification v1 migration"@,
            NotificationOperatorError::LegacyOwnershipMismatch { owner, current_role } =>
                "legacy Notification schema is owned by `"@ + owner@ + "`, not current role `"@
                    + current_role@ + "`"@,
            NotificationOperatorError::Database { .. } =>
                "legacy Notification schema adoption failed"@,
        }
    }

    pub fn message(&self) -> (message: String)
        ensures
            message@ == self.text(),
    {
        match self {
            NotificationOperatorError::Plan { detail } => detail.clone(),
            NotificationOperatorError::Postgres { detail } => detail.clone(),
            NotificationOperatorError::LegacySchemaMissing =>
                "legacy Notification schema does not exist".to_owned(),
            NotificationOperatorError::LegacySchemaAlreadyManaged =>
                "Notification schema is already managed; use setup or upgrade".to_owned(),
            NotificationOperatorError::LegacySchemaMismatch =>
                "legacy Notification schema does not match the immutable v1 fingerprint".to_owned(),
            NotificationOperatorError::ManagedSchemaMismatch =>
                "managed Notification schema does not match the exact Plugin catalog fingerprint".to_owned(),
            NotificationOperatorError::LegacyHostLedgerMismatch =>
                "legacy Host migration ledger does not prove the Notification v1 migration".to_owned(),
            NotificationOperatorError::LegacyOwnershipMismatch { owner, current_role } => {
                let mut text = "legacy Notification schema is owned by `".to_owned();
                text.append(owner.as_str());
                text.append("`, not current role `");
                text.append(current_role.as_str());
                text.append("`");
                text
            },
            NotificationOperatorError::Database { .. } =>
                "legacy Notification schema adoption failed".to_owned(),
        }
    }
}

// Migrations

/// One step of the schema's history.
#[derive(Debug, PartialEq, Eq)]
pub struct Migration {
    pub version: u64,
    pub name: String,
    pub sql: String,
}

impl Migration {
    /// The bytes over which the checksum is taken: the version as eight bytes,
    /// the name and the SQL, with a zero byte in front of each text.
    pub open spec fn checksum_frame(self) -> Seq<u8> {
        be_bytes(self.version as nat, 8).push(0u8) + encode_utf8(self.name@).push(0u8)
            + encode_utf8(self.sql@)
    }
}

/// The checksum that is recorded of a migration.
pub fn migration_checksum(migration: &Migration) -> (checksum: String)
    ensures
        checksum@ == hex_text(sha256(migration.checksum_frame())),
{
    let mut frame: Vec<u8> = Vec::new();
    push_be(&mut frame, migration.version, 8);
    frame.push(0u8);
    push_text(&mut frame, migration.name.as_str());
    frame.push(0u8);
    push_text(&mut frame, migration.sql.as_str());
    assert(frame@ =~= migration.checksum_frame());
    hex_digest(frame.as_slice())
}

/// What the first migration starts with.
pub const LEGACY_SCHEMA_PREFIX: &'static str = "create schema if not exists notification;";

/// SQL that makes the same objects in the temporary schema of the session.
pub open spec fn temporary(sql: Seq<char>) -> Seq<char> {
    replaced(sql, "notification."@, "pg_temp."@)
}

/// SQL that makes the objects of the first migration for reference, if the
/// migration starts by making its schema.
pub open spec fn legacy_reference(sql: Seq<char>) -> Option<Seq<char>> {
    if stands_at(sql, LEGACY_SCHEMA_PREFIX@, 0) {
        Some(temporary(sql.skip(LEGACY_SCHEMA_PREFIX@.len() as int)))
    } else {
        None
    }
}

/// The SQL of later migrations for reference, each on a line of its own.
pub open spec fn later_references(migrations: Seq<Migration>) -> Seq<char>
    decreases migrations.len(),
{
    if migrations.len() == 0 {
        Seq::empty()
    } else {
        later_references(migrations.drop_last()) + "\n"@ + temporary(migrations.last().sql@)
    }
}

fn temporary_sql(sql: &str) -> (text: String)
    ensures
        text@ == temporary(sql@),
{
    proof {
        reveal_strlit("notification.");
    }
    replace_text(sql, "notification.", "pg_temp.")
}

/// SQL that makes the objects of the first migration for reference.
pub fn legacy_reference_sql(first: &Migration) -> (reference: Option<String>)
    ensures
        match reference {
            Some(sql) => legacy_reference(first.sql@) == Some(sql@),
            None => legacy_reference(first.sql@) is None,
        },
{
    match after_prefix(first.sql.as_str(), LEGACY_SCHEMA_PREFIX) {
        Some(body) => Some(temporary_sql(body.as_str())),
        None => None,
    }
}

/// SQL that makes the objects of all migrations for reference.
pub fn managed_reference_sql(migrations: &Vec<Migration>) -> (reference: Option<String>)
    requires
        migrations@.len() > 0,
    ensures
        match reference {
            Some(sql) => legacy_reference(migrations@[0].sql@) is Some && sql@ == legacy_reference(
                migrations@[0].sql@,
            )->Some_0 + later_references(migrations@.drop_first()),
            None => legacy_reference(migrations@[0].sql@) is None,
        },
{
    let mut reference = match legacy_reference_sql(&migrations[0]) {
        Some(reference) => reference,
        None => {
            return None;
        },
    };
    let ghost first = reference@;
    let ghost later = migrations@.drop_first();
    let mut next: usize = 1;
    assert(later.take(0) =~= Seq::<Migration>::empty());
    assert(reference@ =~= first + later_references(later.take(0)));
    while next < migrations.len()
        invariant
            1 <= next <= migrations@.len(),
            later == migrations@.drop_first(),
            reference@ == first + later_references(later.take(next - 1)),
        decreases migrations@.len() - next,
    {
        reference.append("\n");
        reference.append(temporary_sql(migrations[next].sql.as_str()).as_str());
        proof {
            let longer = later.take(next as int);
            assert(longer.drop_last() =~= later.take(next - 1));
            assert(longer.last() == migrations@[next as int]);
            assert(reference@ =~= first + later_references(longer));
        }
        next += 1;
    }
    assert(later.take(next - 1) =~= later);
    Some(reference)
}

// Adoption

/// The tables of the schema under adoption, ordered by name.
pub open spec fn legacy_tables() -> Seq<Seq<char>> {
    seq![
        "attempts"@,
        "consumed_events"@,
        "deliveries"@,
        "intents"@,
        "receipts"@,
        "render_snapshots"@,
        "retry_requests"@,
        "source_lifecycle_events"@,
        "template_releases"@,
    ]
}

fn legacy_table_list() -> (tables: Vec<String>)
    ensures
        texts(tables@) == legacy_tables(),
{
    let mut tables: Vec<String> = Vec::new();
    tables.push("attempts".to_owned());
    tables.push("consumed_events".to_owned());
    tables.push("deliveries".to_owned());
    tables.push("intents".to_owned());
    tables.push("receipts".to_owned());
    tables.push("render_snapshots".to_owned());
    tables.push("retry_requests".to_owned());
    tables.push("source_lifecycle_events".to_owned());
    tables.push("template_releases".to_owned());
    assert(texts(tables@) =~= legacy_tables());
    tables
}

/// What is done next to adopt a schema. Each stage asks one thing of the
/// database or does one thing to it, under locks that the transaction holds.
#[derive(Debug)]
pub enum AdoptionStage {
    /// Ask who owns the schema.
    Owner,
    /// Ask for the current role.
    Role { owner: String },
    /// Ask for default privileges of the role.
    DefaultPrivileges,
    /// Ask whether the schema is published.
    Publication,
    /// Ask whether the schema of the host's ledger is published.
    HostPublication,
    /// Ask whether the schema is managed already.
    Managed,
    /// Ask for the tables to be locked.
    LockTargets,
    /// Lock the host's ledger and all tables of the schema.
    Lock,
    /// Ask whether the host's ledger proves the first migration.
    HostLedger,
    /// Ask whether the schema is exactly what the first migration made.
    Schema,
    /// Make the ledger of migrations.
    CreateLedger,
    /// Ask whether that ledger is private.
    LedgerPrivacy,
    /// Record the first migration.
    Record,
    /// Ask for default privileges once more.
    FinalDefaultPrivileges,
    /// Ask whether the schema is published once more.
    FinalPublication,
    /// Ask whether the schema of the host's ledger is published once more.
    FinalHostPublication,
    /// Ask whether the schema is exactly what it is under management.
    FinalSchema,
    /// Commit.
    Commit,
}

/// What came back from a stage.
#[derive(Debug)]
pub enum AdoptionAnswer {
    Owner(Option<String>),
    Role(String),
    Answer(bool),
    Targets { host_ledger: bool, tables: Vec<String> },
    Done,
}

/// Whether `answer` is of the kind that `stage` asks for.
pub open spec fn fits(stage: AdoptionStage, answer: AdoptionAnswer) -> bool {
    match stage {
        AdoptionStage::Owner => answer is Owner,
        AdoptionStage::Role { .. } => answer is Role,
        AdoptionStage::LockTargets => answer is Targets,
        AdoptionStage::Lock | AdoptionStage::CreateLedger | AdoptionStage::Record => answer is Done,
        AdoptionStage::Commit => false,
        _ => answer is Answer,
    }
}

/// The stage after one that asks a question to be answered with `wanted`.
pub open spec fn expecting(
    answer: AdoptionAnswer,
    wanted: bool,
    next: AdoptionStage,
    failure: NotificationOperatorError,
) -> Result<AdoptionStage, NotificationOperatorError> {
    if answer->Answer_0 == wanted {
        Ok(next)
    } else {
        Err(failure)
    }
}

/// What follows from an answer: the next stage, or the failure that ends the
/// adoption without a trace.
pub open spec fn adoption_next(stage: AdoptionStage, answer: AdoptionAnswer) -> Result<
    AdoptionStage,
    NotificationOperatorError,
> {
    let mismatch = NotificationOperatorError::LegacySchemaMismatch;
    match stage {
        AdoptionStage::Owner => match answer->Owner_0 {
            Some(owner) => Ok(AdoptionStage::Role { owner }),
            None => Err(NotificationOperatorError::LegacySchemaMissing),
        },
        AdoptionStage::Role { owner } => if owner@ == answer->Role_0@ {
            Ok(AdoptionStage::DefaultPrivileges)
        } else {
            Err(
                NotificationOperatorError::LegacyOwnershipMismatch {
                    owner,
                    current_role: answer->Role_0,
                },
            )
        },
        AdoptionStage::DefaultPrivileges => expecting(
            answer,
            false,
            AdoptionStage::Publication,
            mismatch,
        ),
        AdoptionStage::Publication => expecting(
            answer,
            false,
            AdoptionStage::HostPublication,
            mismatch,
        ),
        AdoptionStage::HostPublication => expecting(
            answer,
            false,
            AdoptionStage::Managed,
            mismatch,
        ),
        AdoptionStage::Managed => expecting(
            answer,
            false,
            AdoptionStage::LockTargets,
            NotificationOperatorError::LegacySchemaAlreadyManaged,
        ),
        AdoptionStage::LockTargets => if !answer->host_ledger {
            Err(NotificationOperatorError::LegacyHostLedgerMismatch)
        } else if texts(answer->tables@) != legacy_tables() {
            Err(mismatch)
        } else {
            Ok(AdoptionStage::Lock)
        },
        AdoptionStage::Lock => Ok(AdoptionStage::HostLedger),
        AdoptionStage::HostLedger => expecting(
            answer,
            true,
            AdoptionStage::Schema,
            NotificationOperatorError::LegacyHostLedgerMismatch,
        ),
        AdoptionStage::Schema => expecting(answer, true, AdoptionStage::CreateLedger, mismatch),
        AdoptionStage::CreateLedger => Ok(AdoptionStage::LedgerPrivacy),
        AdoptionStage::LedgerPrivacy => expecting(answer, true, AdoptionStage::Record, mismatch),
        AdoptionStage::Record => Ok(AdoptionStage::FinalDefaultPrivileges),
        AdoptionStage::FinalDefaultPrivileges => expecting(
            answer,
            false,
            AdoptionStage::FinalPublication,
            mismatch,
        ),
        AdoptionStage::FinalPublication => expecting(
            answer,
            false,
            AdoptionStage::FinalHostPublication,
            mismatch,
        ),
        AdoptionStage::FinalHostPublication => expecting(
            answer,
            false,
            AdoptionStage::FinalSchema,
            mismatch,
        ),
        AdoptionStage::FinalSchema => expecting(answer, true, AdoptionStage::Commit, mismatch),
        AdoptionStage::Commit => Ok(AdoptionStage::Commit),
    }
}

fn expect(
    answer: AdoptionAnswer,
    wanted: bool,
    next: AdoptionStage,
    failure: NotificationOperatorError,
) -> (r: Result<AdoptionStage, NotificationOperatorError>)
    requires
        answer is Answer,
    ensures
        r == expecting(answer, wanted, next, failure),
{
    match answer {
        AdoptionAnswer::Answer(found) => if found == wanted {
            Ok(next)
        } else {
            Err(failure)
        },
        _ => Err(failure),
    }
}

/// The next stage of an adoption, or the failure that ends it.
pub fn advance_adoption(stage: AdoptionStage, answer: AdoptionAnswer) -> (r: Result<
    AdoptionStage,
    NotificationOperatorError,
>)
    requires
        fits(stage, answer),
    ensures
        r == adoption_next(stage, answer),
{
    let mismatch = NotificationOperatorError::LegacySchemaMismatch;
    match stage {
        AdoptionStage::Owner => match answer {
            AdoptionAnswer::Owner(Some(owner)) => Ok(AdoptionStage::Role { owner }),
            _ => Err(NotificationOperatorError::LegacySchemaMissing),
        },
        AdoptionStage::Role { owner } => match answer {
            AdoptionAnswer::Role(current_role) => if same_text(
                owner.as_str(),
                current_role.as_str(),
            ) {
                Ok(AdoptionStage::DefaultPrivileges)
            } else {
                Err(NotificationOperatorError::LegacyOwnershipMismatch { owner, current_role })
            },
            _ => Err(mismatch),
        },
        AdoptionStage::DefaultPrivileges => expect(
            answer,
            false,
            AdoptionStage::Publication,
            mismatch,
        ),
        AdoptionStage::Publication => expect(
            answer,
            false,
            AdoptionStage::HostPublication,
            mismatch,
        ),
        AdoptionStage::HostPublication => expect(answer, false, AdoptionStage::Managed, mismatch),
        AdoptionStage::Managed => expect(
            answer,
            false,
            AdoptionStage::LockTargets,
            NotificationOperatorError::LegacySchemaAlreadyManaged,
        ),
        AdoptionStage::LockTargets => match answer {
            AdoptionAnswer::Targets { host_ledger, tables } => if !host_ledger {
                Err(NotificationOperatorError::LegacyHostLedgerMismatch)
            } else if !same_rows(&tables, &legacy_table_list()) {
                Err(mismatch)
            } else {
                Ok(AdoptionStage::Lock)
            },
            _ => Err(mismatch),
        },
        AdoptionStage::Lock => Ok(AdoptionStage::HostLedger),
        AdoptionStage::HostLedger => expect(
            answer,
            true,
            AdoptionStage::Schema,
            NotificationOperatorError::LegacyHostLedgerMismatch,
        ),
        AdoptionStage::Schema => expect(answer, true, AdoptionStage::CreateLedger, mismatch),
        AdoptionStage::CreateLedger => Ok(AdoptionStage::LedgerPrivacy),
        AdoptionStage::LedgerPrivacy => expect(answer, true, AdoptionStage::Record, mismatch),
        AdoptionStage::Record => Ok(AdoptionStage::FinalDefaultPrivileges),
        AdoptionStage::FinalDefaultPrivileges => expect(
            answer,
            false,
            AdoptionStage::FinalPublication,
            mismatch,
        ),
        AdoptionStage::FinalPublication => expect(
            answer,
            false,
            AdoptionStage::FinalHostPublication,
            mismatch,
        ),
        AdoptionStage::FinalHostPublication => expect(
            answer,
            false,
            AdoptionStage::FinalSchema,
            mismatch,
        ),
        AdoptionStage::FinalSchema => expect(answer, true, AdoptionStage::Commit, mismatch),
        AdoptionStage::Commit => Ok(AdoptionStage::Commit),
    }
}

/// The outcome of a committed adoption.
pub fn adoption_outcome() -> (outcome: LegacyAdoptionOutcome)
    ensures
        outcome.version == 1,
{
    LegacyAdoptionOutcome { version: 1 }
}

/// The stage that a run of answers leads to, if no answer ends it.
pub open spec fn adoption_run(stage: AdoptionStage, answers: Seq<AdoptionAnswer>) -> Option<
    AdoptionStage,
>
    decreases answers.len(),
{
    if answers.len() == 0 {
        Some(stage)
    } else if !fits(stage, answers[0]) {
        None
    } else {
        match adoption_next(stage, answers[0]) {
            Ok(next) => adoption_run(next, answers.drop_first()),
            Err(_) => None,
        }
    }
}

/// An adoption commits only after every proof: the role owns the schema, it
/// was not managed, exactly its tables were locked, the host's ledger proves
/// the migration, and the schema is the expected one before and after.
pub proof fn law_adoption_is_fail_closed(answers: Seq<AdoptionAnswer>)
    requires
        adoption_run(AdoptionStage::Owner, answers) matches Some(stage) && stage is Commit,
    ensures
        answers.len() == 17,
        answers[0] matches AdoptionAnswer::Owner(Some(owner)) && (
        answers[1] matches AdoptionAnswer::Role(role) && owner@ == role@),
        answers[2] == AdoptionAnswer::Answer(false),
        answers[3] == AdoptionAnswer::Answer(false),
        answers[4] == AdoptionAnswer::Answer(false),
        answers[5] == AdoptionAnswer::Answer(false),
        answers[6] matches AdoptionAnswer::Targets { host_ledger, tables } && host_ledger && texts(
            tables@,
        ) == legacy_tables(),
        answers[8] == AdoptionAnswer::Answer(true),
        answers[9] == AdoptionAnswer::Answer(true),
        answers[11] == AdoptionAnswer::Answer(true),
        answers[13] == AdoptionAnswer::Answer(false),
        answers[14] == AdoptionAnswer::Answer(false),
        answers[15] == AdoptionAnswer::Answer(false),
        answers[16] == AdoptionAnswer::Answer(true),
{
    reveal_with_fuel(adoption_run, 19);
}

// The managed catalog

/// Whether a schema holds only kinds of objects that a fingerprint tells of,
/// and is not published.
pub fn catalog_is_supported(published: bool, unsupported_objects: i64) -> (r: bool)
    ensures
        r == (!published && unsupported_objects == 0),
{
    !published && unsupported_objects == 0
}

/// Accepts a managed schema that is the expected one, under a role without
/// default privileges.
pub fn verify_managed_catalog(default_privileges: bool, catalog_matches: bool) -> (r: Result<
    (),
    NotificationOperatorError,
>)
    ensures
        if default_privileges || !catalog_matches {
            r == Err::<(), _>(NotificationOperatorError::ManagedSchemaMismatch)
        } else {
            r is Ok
        },
{
    if default_privileges || !catalog_matches {
        Err(NotificationOperatorError::ManagedSchemaMismatch)
    } else {
        Ok(())
    }
}

} // verus!
