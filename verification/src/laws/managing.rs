//! What a configuration must be, how a schema is adopted, and what the module
//! declares.

use vstd::prelude::*;
use vstd::utf8::*;

use crate::config::{authorized, authorized_caller, segment_end, sound_segment, sound_segments,
    valid_callers, valid_instance, valid_secret_reference, validate_config, NotificationConfig,
    NotificationConfigError};
use crate::digest::{hex_text, sha256};
use crate::error::RuntimeFailure;
use crate::events::NotificationEventHandler;
use crate::host_ledger::{legacy_host_ledger_matches, HostLedgerAnswer, HostLedgerConstraint,
    HostLedgerRelation, HostLedgerStage, HostLedgerStep, HostLedgerType};
use crate::json::{json_elements, json_quoted};
use crate::laws::boundary::lemma_begins;
use crate::laws::{begins, listed};
use crate::module::{http_routes, manifest, ModuleHttpRoute, ModuleManifest};
use crate::operator::{adoption_outcome, adoption_run, advance_adoption, catalog_is_supported,
    legacy_reference_sql, managed_reference_sql, migration_checksum, verify_managed_catalog,
    AdoptionAnswer, AdoptionStage, LegacyAdoptionOutcome, Migration, NotificationOperatorError};
use crate::snapshot::be_bytes;
use crate::text::{replaced, texts};

verus! {

/// Whether a character can stand in a reference or a key.
pub open spec fn plain(c: char) -> bool {
    'a' <= c <= 'z' || 'A' <= c <= 'Z' || '0' <= c <= '9' || c == '.' || c == '_' || c == '-'
}

/// Whether a text can be the key of an instance.
pub open spec fn can_be_a_key(text: Seq<char>) -> bool {
    &&& 1 <= text.len() <= 160
    &&& forall|i: int| 0 <= i < text.len() ==> plain(#[trigger] text[i]) || text[i] == '/'
}

proof fn lemma_key(text: Seq<char>)
    ensures
        can_be_a_key(text) <==> crate::config::instance_key(text),
{
    if forall|i: int| 0 <= i < text.len() ==> plain(#[trigger] text[i]) || text[i] == '/' {
        assert forall|i: int| 0 <= i < text.len() implies (0 <= #[trigger] text[i] < 128) by {
            assert(plain(text[i]) || text[i] == '/');
        }
        is_ascii_chars_encode_utf8(text);
        assert forall|i: int| 0 <= i < text.len() implies crate::config::instance_char(
            #[trigger] text[i],
        ) by {
            assert(plain(text[i]) || text[i] == '/');
        }
    }
    if forall|i: int|
        0 <= i < text.len() ==> crate::config::instance_char(#[trigger] text[i]) {
        assert forall|i: int| 0 <= i < text.len() implies plain(#[trigger] text[i]) || text[i]
            == '/' by {
            assert(crate::config::instance_char(text[i]));
        }
    }
}

/// A key of an instance has 1 to 160 letters, digits, dots, underscores,
/// hyphens and slashes.
pub proof fn law_instance_key(text: &str, r: bool)
    requires
        call_ensures(valid_instance, (text,), r),
    ensures
        r <==> can_be_a_key(text@),
{
    lemma_key(text@);
}

/// Callers of a role are 1 to 64 keys, each listed once.
pub proof fn law_callers_are_listed_once(callers: &Vec<String>, r: bool)
    requires
        call_ensures(valid_callers, (callers,), r),
    ensures
        r <==> {
            &&& 1 <= callers@.len() <= 64
            &&& forall|i: int| 0 <= i < callers@.len() ==> can_be_a_key((#[trigger] callers@[i])@)
            &&& forall|i: int, j: int|
                0 <= i < callers@.len() && 0 <= j < callers@.len() && i != j ==> (
                #[trigger] callers@[i])@ != (#[trigger] callers@[j])@
        },
{
    assert forall|i: int| 0 <= i < callers@.len() implies (can_be_a_key((#[trigger] callers@[i])@)
        <==> crate::config::instance_key(callers@[i]@)) by {
        lemma_key(callers@[i]@);
    }
}

proof fn lemma_sound_is_ascii(text: Seq<char>, from: int)
    requires
        0 <= from <= text.len(),
        sound_segments(text, from),
    ensures
        forall|i: int| from <= i < text.len() ==> 0 <= #[trigger] text[i] < 128,
    decreases text.len() - from,
{
    lemma_end(text, from);
    let end = segment_end(text, from);
    let segment = text.subrange(from, end);
    assert forall|i: int| from <= i < end implies 0 <= #[trigger] text[i] < 128 by {
        assert(crate::config::segment_char(segment[i - from]));
    }
    if end < text.len() {
        lemma_sound_is_ascii(text, end + 1);
    }
}

proof fn lemma_end(text: Seq<char>, from: int)
    requires
        0 <= from <= text.len(),
    ensures
        from <= segment_end(text, from) <= text.len(),
        segment_end(text, from) < text.len() ==> text[segment_end(text, from)] == '/',
        forall|i: int| from <= i < segment_end(text, from) ==> #[trigger] text[i] != '/',
    decreases text.len() - from,
{
    if from < text.len() && text[from] != '/' {
        lemma_end(text, from + 1);
    }
}

proof fn lemma_end_is_unique(text: Seq<char>, from: int, end: int)
    requires
        0 <= from <= end <= text.len(),
        end < text.len() ==> text[end] == '/',
        forall|i: int| from <= i < end ==> #[trigger] text[i] != '/',
    ensures
        segment_end(text, from) == end,
    decreases end - from,
{
    if from < end {
        assert(text[from] != '/');
        lemma_end_is_unique(text, from + 1, end);
    }
}

proof fn lemma_tail_segments(a: Seq<char>, b: Seq<char>, from: int)
    requires
        0 <= from <= b.len(),
    ensures
        sound_segments(a + seq!['/'] + b, a.len() + 1 + from) <==> sound_segments(b, from),
    decreases b.len() - from,
{
    let text = a + seq!['/'] + b;
    let skip = a.len() + 1;
    lemma_end(b, from);
    let end = segment_end(b, from);
    assert forall|i: int| skip + from <= i < skip + end implies #[trigger] text[i] != '/' by {
        assert(text[i] == b[i - skip]);
    }
    if end < b.len() {
        assert(text[skip + end] == b[end]);
    }
    lemma_end_is_unique(text, skip + from, skip + end);
    assert(text.subrange(skip + from, skip + end) =~= b.subrange(from, end));
    if end < b.len() {
        lemma_tail_segments(a, b, end + 1);
    }
}

proof fn lemma_joined_segments(a: Seq<char>, b: Seq<char>, from: int)
    requires
        0 <= from <= a.len(),
    ensures
        sound_segments(a + seq!['/'] + b, from) <==> sound_segments(a, from) && sound_segments(
            b,
            0,
        ),
    decreases a.len() - from,
{
    let text = a + seq!['/'] + b;
    lemma_end(a, from);
    let end = segment_end(a, from);
    assert forall|i: int| from <= i < end implies #[trigger] text[i] != '/' by {
        assert(text[i] == a[i]);
    }
    if end < a.len() {
        assert(text[end] == a[end]);
    }
    lemma_end_is_unique(text, from, end);
    assert(text.subrange(from, end) =~= a.subrange(from, end));
    if end < a.len() {
        lemma_joined_segments(a, b, end + 1);
    } else {
        lemma_tail_segments(a, b, 0);
    }
}

proof fn lemma_segments_do_not_hang(text: Seq<char>, from: int)
    requires
        0 <= from <= text.len(),
        sound_segments(text, from),
    ensures
        from < text.len(),
        text[from] != '/',
        text.last() != '/',
    decreases text.len() - from,
{
    lemma_end(text, from);
    let end = segment_end(text, from);
    assert(text.subrange(from, end).len() > 0);
    if end < text.len() {
        lemma_segments_do_not_hang(text, end + 1);
    }
}

/// A reference without a slash is a name of plain characters, and neither of
/// the two names that point elsewhere.
pub proof fn law_single_name_is_a_reference(text: &str, r: bool)
    requires
        call_ensures(valid_secret_reference, (text,), r),
        forall|i: int| 0 <= i < text@.len() ==> #[trigger] text@[i] != '/',
    ensures
        r <==> {
            &&& 1 <= text@.len() <= 256
            &&& text@ != "."@
            &&& text@ != ".."@
            &&& forall|i: int| 0 <= i < text@.len() ==> plain(#[trigger] text@[i])
        },
{
    lemma_end_is_unique(text@, 0, text@.len() as int);
    assert(text@.subrange(0, text@.len() as int) =~= text@);
    if sound_segment(text@) {
        assert forall|i: int| 0 <= i < text@.len() implies plain(#[trigger] text@[i]) by {
            assert(crate::config::segment_char(text@[i]));
        }
    }
    if forall|i: int| 0 <= i < text@.len() ==> plain(#[trigger] text@[i]) {
        assert forall|i: int| 0 <= i < text@.len() implies (0 <= #[trigger] text@[i] < 128) by {
            assert(plain(text@[i]));
        }
        is_ascii_chars_encode_utf8(text@);
        assert forall|i: int| 0 <= i < text@.len() implies crate::config::segment_char(
            #[trigger] text@[i],
        ) by {
            assert(plain(text@[i]));
        }
    }
}

/// A reference is one exactly where both sides of any slash in it are, and it
/// has no more than 256 characters.
pub proof fn law_reference_is_made_of_references(
    whole: &str,
    r: bool,
    left: &str,
    r_left: bool,
    right: &str,
    r_right: bool,
)
    requires
        call_ensures(valid_secret_reference, (whole,), r),
        call_ensures(valid_secret_reference, (left,), r_left),
        call_ensures(valid_secret_reference, (right,), r_right),
        whole@ == left@ + seq!['/'] + right@,
    ensures
        r <==> r_left && r_right && whole@.len() <= 256,
{
    lemma_joined_segments(left@, right@, 0);
    if sound_segments(left@, 0) && sound_segments(right@, 0) {
        lemma_sound_is_ascii(left@, 0);
        lemma_sound_is_ascii(right@, 0);
        lemma_sound_is_ascii(whole@, 0);
        is_ascii_chars_encode_utf8(left@);
        is_ascii_chars_encode_utf8(right@);
        is_ascii_chars_encode_utf8(whole@);
        lemma_segments_do_not_hang(left@, 0);
        lemma_segments_do_not_hang(right@, 0);
        lemma_segments_do_not_hang(whole@, 0);
    }
}

/// A configuration is refused for its schema first, for its secrets next, and
/// for its callers last, and otherwise accepted; a plan with a refused one is
/// told why.
pub proof fn law_configuration_is_accepted(
    config: &NotificationConfig,
    r: Result<(), NotificationConfigError>,
    planned: Result<(), RuntimeFailure>,
    database: &str,
    database_valid: bool,
    snapshot: &str,
    snapshot_valid: bool,
    transactional_valid: bool,
    dispatch_valid: bool,
    receipt_valid: bool,
    admin_valid: bool,
)
    requires
        call_ensures(NotificationConfig::validate, (config,), r),
        call_ensures(validate_config, (config,), planned),
        database@ == config.database_url_secret@,
        call_ensures(valid_secret_reference, (database,), database_valid),
        snapshot@ == config.snapshot_key_secret@,
        call_ensures(valid_secret_reference, (snapshot,), snapshot_valid),
        call_ensures(valid_callers, (&config.transactional_callers,), transactional_valid),
        call_ensures(valid_callers, (&config.dispatch_callers,), dispatch_valid),
        call_ensures(valid_callers, (&config.receipt_callers,), receipt_valid),
        call_ensures(valid_callers, (&config.admin_callers,), admin_valid),
    ensures
        ({
            let named = config.schema@ == "notification"@;
            let secret = database_valid && snapshot_valid && database@ != snapshot@;
            let called = transactional_valid && dispatch_valid && receipt_valid && admin_valid;
            &&& r is Ok <==> named && secret && called
            &&& !named ==> r == Err::<(), _>(NotificationConfigError::InvalidSchema)
            &&& named && !secret ==> r == Err::<(), _>(
                NotificationConfigError::InvalidSecretReference,
            )
            &&& named && secret && !called ==> r == Err::<(), _>(
                NotificationConfigError::InvalidCallers,
            )
        }),
        planned is Ok <==> r is Ok,
        planned is Err ==> planned->Err_0 is InvalidResolvedPlan
            && planned->Err_0->InvalidResolvedPlan_detail@ == (if r->Err_0 is InvalidSchema {
            "the legacy Notification schema identity must remain `notification`"@
        } else if r->Err_0 is InvalidSecretReference {
            "database and snapshot keys require distinct valid secret references"@
        } else {
            "each authority role requires unique valid caller Instance keys"@
        }),
{
}

/// A new configuration holds what it was given, under the schema that does not
/// change, exactly where that is sound.
pub proof fn law_new_configuration_holds_what_was_given(
    database: &str,
    snapshot: &str,
    transactional: Vec<String>,
    dispatch: Vec<String>,
    receipt: Vec<String>,
    admin: Vec<String>,
    r: Result<NotificationConfig, NotificationConfigError>,
    database_valid: bool,
    snapshot_valid: bool,
    transactional_valid: bool,
    dispatch_valid: bool,
    receipt_valid: bool,
    admin_valid: bool,
)
    requires
        call_ensures(
            NotificationConfig::new,
            (database, snapshot, transactional, dispatch, receipt, admin),
            r,
        ),
        call_ensures(valid_secret_reference, (database,), database_valid),
        call_ensures(valid_secret_reference, (snapshot,), snapshot_valid),
        call_ensures(valid_callers, (&transactional,), transactional_valid),
        call_ensures(valid_callers, (&dispatch,), dispatch_valid),
        call_ensures(valid_callers, (&receipt,), receipt_valid),
        call_ensures(valid_callers, (&admin,), admin_valid),
    ensures
        r is Ok <==> database_valid && snapshot_valid && database@ != snapshot@
            && transactional_valid && dispatch_valid && receipt_valid && admin_valid,
        r is Ok ==> {
            &&& r->Ok_0.schema@ == "notification"@
            &&& r->Ok_0.database_url_secret@ == database@
            &&& r->Ok_0.snapshot_key_secret@ == snapshot@
            &&& r->Ok_0.transactional_callers == transactional
            &&& r->Ok_0.dispatch_callers == dispatch
            &&& r->Ok_0.receipt_callers == receipt
            &&& r->Ok_0.admin_callers == admin
        },
        r is Err ==> (r->Err_0 is InvalidSecretReference <==> !(database_valid && snapshot_valid
            && database@ != snapshot@)) && !(r->Err_0 is InvalidSchema),
{
}

/// A caller is authorized exactly where it is listed, and is then itself.
pub proof fn law_listed_caller_is_authorized(
    caller: Option<&'static str>,
    allowed: &Vec<String>,
    named: Option<&'static str>,
    r: bool,
)
    requires
        call_ensures(authorized_caller, (caller, allowed), named),
        call_ensures(authorized, (caller, allowed), r),
    ensures
        r <==> listed(caller, allowed@),
        named is Some <==> listed(caller, allowed@),
        named is Some ==> named->Some_0@ == caller->Some_0@,
{
}

/// The nine tables of a schema that can be adopted.
pub open spec fn nine_tables(tables: Seq<String>) -> bool {
    &&& tables.len() == 9
    &&& tables[0]@ == "attempts"@
    &&& tables[1]@ == "consumed_events"@
    &&& tables[2]@ == "deliveries"@
    &&& tables[3]@ == "intents"@
    &&& tables[4]@ == "receipts"@
    &&& tables[5]@ == "render_snapshots"@
    &&& tables[6]@ == "retry_requests"@
    &&& tables[7]@ == "source_lifecycle_events"@
    &&& tables[8]@ == "template_releases"@
}

proof fn lemma_nine_tables(tables: Seq<String>)
    ensures
        nine_tables(tables) <==> texts(tables) == crate::operator::legacy_tables(),
{
    let expected = crate::operator::legacy_tables();
    if nine_tables(tables) {
        assert(texts(tables) =~= expected);
    }
    if texts(tables) == expected {
        assert(tables.len() == texts(tables).len());
        assert forall|i: int| 0 <= i < tables.len() implies (#[trigger] tables[i])@
            == expected[i] by {
            assert(texts(tables)[i] == tables[i]@);
        }
        assert(tables[0]@ == expected[0]);
        assert(tables[1]@ == expected[1]);
        assert(tables[2]@ == expected[2]);
        assert(tables[3]@ == expected[3]);
        assert(tables[4]@ == expected[4]);
        assert(tables[5]@ == expected[5]);
        assert(tables[6]@ == expected[6]);
        assert(tables[7]@ == expected[7]);
        assert(tables[8]@ == expected[8]);
    }
}

/// Each question of an adoption has one answer that leads on to the next, and
/// any other answer ends the adoption with the failure that it shows.
pub proof fn law_adoption_asks_one_thing_at_a_time(
    stage: AdoptionStage,
    answer: AdoptionAnswer,
    r: Result<AdoptionStage, NotificationOperatorError>,
)
    requires
        call_ensures(advance_adoption, (stage, answer), r),
    ensures
        stage is Owner ==> match answer->Owner_0 {
            Some(owner) => r is Ok && r->Ok_0 is Role && r->Ok_0->Role_owner == owner,
            None => r is Err && r->Err_0 is LegacySchemaMissing,
        },
        stage is Role ==> if stage->Role_owner@ == answer->Role_0@ {
            r is Ok && r->Ok_0 is DefaultPrivileges
        } else {
            r is Err && r->Err_0 is LegacyOwnershipMismatch
                && r->Err_0->LegacyOwnershipMismatch_owner@ == stage->Role_owner@
                && r->Err_0->LegacyOwnershipMismatch_current_role@ == answer->Role_0@
        },
        stage is DefaultPrivileges && !answer->Answer_0 ==> r is Ok && r->Ok_0 is Publication,
        stage is Publication && !answer->Answer_0 ==> r is Ok && r->Ok_0 is HostPublication,
        stage is HostPublication && !answer->Answer_0 ==> r is Ok && r->Ok_0 is Managed,
        stage is Managed && !answer->Answer_0 ==> r is Ok && r->Ok_0 is LockTargets,
        stage is Managed && answer->Answer_0 ==> r is Err && r->Err_0
            is LegacySchemaAlreadyManaged,
        stage is LockTargets && !answer->host_ledger ==> r is Err && r->Err_0
            is LegacyHostLedgerMismatch,
        stage is LockTargets && answer->host_ledger ==> if nine_tables(answer->tables@) {
            r is Ok && r->Ok_0 is Lock
        } else {
            r is Err && r->Err_0 is LegacySchemaMismatch
        },
        stage is Lock ==> r is Ok && r->Ok_0 is HostLedger,
        stage is HostLedger && answer->Answer_0 ==> r is Ok && r->Ok_0 is Schema,
        stage is HostLedger && !answer->Answer_0 ==> r is Err && r->Err_0
            is LegacyHostLedgerMismatch,
        stage is Schema && answer->Answer_0 ==> r is Ok && r->Ok_0 is CreateLedger,
        stage is CreateLedger ==> r is Ok && r->Ok_0 is LedgerPrivacy,
        stage is LedgerPrivacy && answer->Answer_0 ==> r is Ok && r->Ok_0 is Record,
        stage is Record ==> r is Ok && r->Ok_0 is FinalDefaultPrivileges,
        stage is FinalDefaultPrivileges && !answer->Answer_0 ==> r is Ok && r->Ok_0
            is FinalPublication,
        stage is FinalPublication && !answer->Answer_0 ==> r is Ok && r->Ok_0
            is FinalHostPublication,
        stage is FinalHostPublication && !answer->Answer_0 ==> r is Ok && r->Ok_0 is FinalSchema,
        stage is FinalSchema && answer->Answer_0 ==> r is Ok && r->Ok_0 is Commit,
        (stage is DefaultPrivileges || stage is Publication || stage is HostPublication || stage
            is FinalDefaultPrivileges || stage is FinalPublication || stage
            is FinalHostPublication) && answer->Answer_0 ==> r is Err && r->Err_0
            is LegacySchemaMismatch,
        (stage is Schema || stage is LedgerPrivacy || stage is FinalSchema) && !answer->Answer_0
            ==> r is Err && r->Err_0 is LegacySchemaMismatch,
{
    if stage is LockTargets {
        lemma_nine_tables(answer->tables@);
    }
}

/// A schema that its role owns, that is private, unmanaged and exactly the
/// expected one, and that the host's ledger proves, is adopted.
pub proof fn law_sound_schema_is_adopted(
    owner: String,
    role: String,
    tables: Vec<String>,
    outcome: LegacyAdoptionOutcome,
)
    requires
        owner@ == role@,
        nine_tables(tables@),
        call_ensures(adoption_outcome, (), outcome),
    ensures
        adoption_run(
            AdoptionStage::Owner,
            seq![
                AdoptionAnswer::Owner(Some(owner)),
                AdoptionAnswer::Role(role),
                AdoptionAnswer::Answer(false),
                AdoptionAnswer::Answer(false),
                AdoptionAnswer::Answer(false),
                AdoptionAnswer::Answer(false),
                AdoptionAnswer::Targets { host_ledger: true, tables },
                AdoptionAnswer::Done,
                AdoptionAnswer::Answer(true),
                AdoptionAnswer::Answer(true),
                AdoptionAnswer::Done,
                AdoptionAnswer::Answer(true),
                AdoptionAnswer::Done,
                AdoptionAnswer::Answer(false),
                AdoptionAnswer::Answer(false),
                AdoptionAnswer::Answer(false),
                AdoptionAnswer::Answer(true),
            ],
        ) == Some(AdoptionStage::Commit),
        outcome.version == 1,
{
    lemma_nine_tables(tables@);
    reveal_with_fuel(adoption_run, 19);
}

/// Every failure of schema administration is told by its own text.
pub proof fn law_failed_administration_is_told(
    error: &NotificationOperatorError,
    text: String,
)
    requires
        call_ensures(NotificationOperatorError::message, (error,), text),
    ensures
        *error matches NotificationOperatorError::Plan { detail } ==> text@ == detail@,
        *error matches NotificationOperatorError::Postgres { detail } ==> text@ == detail@,
        error is LegacySchemaMissing ==> text@ == "legacy Notification schema does not exist"@,
        error is LegacySchemaAlreadyManaged ==> text@
            == "Notification schema is already managed; use setup or upgrade"@,
        error is LegacySchemaMismatch ==> text@
            == "legacy Notification schema does not match the immutable v1 fingerprint"@,
        error is ManagedSchemaMismatch ==> text@
            == "managed Notification schema does not match the exact Plugin catalog fingerprint"@,
        error is LegacyHostLedgerMismatch ==> text@
            == "legacy Host migration ledger does not prove the Notification v1 migration"@,
        *error matches NotificationOperatorError::LegacyOwnershipMismatch { owner, current_role }
            ==> text@ == "legacy Notification schema is owned by `"@ + owner@
            + "`, not current role `"@ + current_role@ + "`"@,
        error is Database ==> text@ == "legacy Notification schema adoption failed"@,
{
}

/// The checksum of a migration is taken over its version as eight bytes, its
/// name and its SQL, with a zero byte between each two.
pub proof fn law_migration_is_told_by_its_content(migration: &Migration, checksum: String)
    requires
        call_ensures(migration_checksum, (migration,), checksum),
    ensures
        checksum@ == hex_text(
            sha256(
                be_bytes(migration.version as nat, 8) + seq![0u8] + encode_utf8(migration.name@)
                    + seq![0u8] + encode_utf8(migration.sql@),
            ),
        ),
{
    assert(migration.checksum_frame() =~= be_bytes(migration.version as nat, 8) + seq![0u8]
        + encode_utf8(migration.name@) + seq![0u8] + encode_utf8(migration.sql@));
}

/// The first migration has a reference exactly where it begins by making its
/// schema: what follows, with every object in the temporary schema instead.
pub proof fn law_first_migration_has_a_reference(first: &Migration, reference: Option<String>)
    requires
        call_ensures(legacy_reference_sql, (first,), reference),
    ensures
        reference is Some <==> begins(
            first.sql@,
            "create schema if not exists notification;"@,
        ),
        reference is Some ==> reference->Some_0@ == replaced(
            first.sql@.skip("create schema if not exists notification;"@.len() as int),
            "notification."@,
            "pg_temp."@,
        ),
{
    lemma_begins(first.sql@, "create schema if not exists notification;"@);
}

/// The reference of a history grows with each migration by a line of its own,
/// with every object in the temporary schema.
pub proof fn law_reference_grows_with_the_history(
    history: &Vec<Migration>,
    reference: Option<String>,
    longer: &Vec<Migration>,
    longer_reference: Option<String>,
    next: Migration,
)
    requires
        history@.len() > 0,
        longer@ == history@.push(next),
        call_ensures(managed_reference_sql, (history,), reference),
        call_ensures(managed_reference_sql, (longer,), longer_reference),
    ensures
        reference is Some <==> longer_reference is Some,
        reference is Some ==> longer_reference->Some_0@ == reference->Some_0@ + "\n"@ + replaced(
            next.sql@,
            "notification."@,
            "pg_temp."@,
        ),
{
    let later = history@.drop_first();
    assert(longer@.drop_first() =~= later.push(next));
    assert(later.push(next).drop_last() =~= later);
    assert(longer@[0] == history@[0]);
    if reference is Some {
        assert(longer_reference->Some_0@ =~= reference->Some_0@ + "\n"@ + replaced(
            next.sql@,
            "notification."@,
            "pg_temp."@,
        ));
    }
}

/// The reference of a history of one migration is that of the migration.
pub proof fn law_reference_begins_with_the_first(
    history: &Vec<Migration>,
    reference: Option<String>,
    first: &Migration,
    first_reference: Option<String>,
)
    requires
        history@ == seq![*first],
        call_ensures(managed_reference_sql, (history,), reference),
        call_ensures(legacy_reference_sql, (first,), first_reference),
    ensures
        reference is Some <==> first_reference is Some,
        reference is Some ==> reference->Some_0@ == first_reference->Some_0@,
{
    assert(history@.drop_first() =~= Seq::<Migration>::empty());
    assert(crate::operator::later_references(history@.drop_first()) =~= Seq::<char>::empty());
}

/// A managed schema is accepted exactly where it is the expected one and its
/// role has no default privileges; a published one, or one with objects that
/// cannot be told of, is none.
pub proof fn law_managed_schema_is_the_expected_one(
    privileges: bool,
    matches: bool,
    r: Result<(), NotificationOperatorError>,
    published: bool,
    unsupported: i64,
    supported: bool,
)
    requires
        call_ensures(verify_managed_catalog, (privileges, matches), r),
        call_ensures(catalog_is_supported, (published, unsupported), supported),
    ensures
        r is Ok <==> matches && !privileges,
        r is Err ==> r->Err_0 is ManagedSchemaMismatch,
        supported <==> unsupported == 0 && !published,
{
}

/// Whether a table is a plain private one of the role.
pub open spec fn plain_table(relation: HostLedgerRelation, role: Seq<char>) -> bool {
    &&& relation.kind@ == "r"@
    &&& relation.schema_owner@ == role
    &&& relation.table_owner@ == role
    &&& relation.schema_acl is None
    &&& relation.table_acl is None
    &&& !relation.row_security
    &&& !relation.force_row_security
    &&& relation.persistence@ == "p"@
    &&& relation.access_method@ == "heap"@
    &&& relation.options@ == "[]"@
    &&& !relation.is_partition
    &&& relation.replica_identity@ == "d"@
    &&& relation.tablespace@.len() == 0
    &&& relation.comment is None
}

/// Whether a type is a private one of the role, under the given name.
pub open spec fn private_type(found: HostLedgerType, name: Seq<char>, role: Seq<char>) -> bool {
    found.name@ == name && found.owner@ == role && found.acl is None && found.comment is None
}

/// Whether a constraint is the ledger's primary key.
pub open spec fn primary_key(found: HostLedgerConstraint) -> bool {
    &&& found.name@ == "schema_migrations_pkey"@
    &&& found.kind@ == "p"@
    &&& found.definition@ == "PRIMARY KEY (name)"@
    &&& !found.deferrable
    &&& !found.deferred
    &&& found.validated
    &&& found.no_inherit
    &&& found.comment is None
}

/// Each question about the host's ledger leads on to the next exactly where the
/// answer is genuine; anything else ends the proof, and only a recorded
/// migration completes it.
pub proof fn law_host_ledger_is_asked_one_thing_at_a_time(
    stage: HostLedgerStage,
    answer: HostLedgerAnswer,
    step: HostLedgerStep,
)
    requires
        call_ensures(legacy_host_ledger_matches, (stage, answer), step),
    ensures
        stage is Publication ==> if answer->Flag_0 {
            step == HostLedgerStep::Verdict(false)
        } else {
            step == HostLedgerStep::Ask(HostLedgerStage::Relation)
        },
        stage is Relation ==> step == HostLedgerStep::Ask(
            HostLedgerStage::Role { relation: answer->Relation_0 },
        ),
        stage is Role ==> if stage->relation is Some && plain_table(
            stage->relation->Some_0,
            answer->Role_0@,
        ) {
            step == HostLedgerStep::Ask(HostLedgerStage::Columns { role: answer->Role_0 })
        } else {
            step == HostLedgerStep::Verdict(false)
        },
        stage is Columns ==> if answer->Rows_0@.len() == 2 && name_row(
            json_elements(answer->Rows_0@[0]@),
        ) && applied_at_row(json_elements(answer->Rows_0@[1]@)) {
            step == HostLedgerStep::Ask(HostLedgerStage::Types { role: stage->Columns_role })
        } else {
            step == HostLedgerStep::Verdict(false)
        },
        stage is Types ==> if answer->Types_0@.len() == 2 && private_type(
            answer->Types_0@[0],
            "_schema_migrations"@,
            stage->Types_role@,
        ) && private_type(answer->Types_0@[1], "schema_migrations"@, stage->Types_role@) {
            step == HostLedgerStep::Ask(HostLedgerStage::Constraints { role: stage->Types_role })
        } else {
            step == HostLedgerStep::Verdict(false)
        },
        stage is Constraints ==> if answer->Constraints_0@.len() == 1 && primary_key(
            answer->Constraints_0@[0],
        ) {
            step == HostLedgerStep::Ask(HostLedgerStage::Indexes { role: stage->Constraints_role })
        } else {
            step == HostLedgerStep::Verdict(false)
        },
        stage is Indexes ==> if answer->Rows_0@.len() == 1 && index_row(
            json_elements(answer->Rows_0@[0]@),
            stage->Indexes_role@,
        ) {
            step == HostLedgerStep::Ask(HostLedgerStage::Extras)
        } else {
            step == HostLedgerStep::Verdict(false)
        },
        stage is Extras ==> if answer->Flag_0 {
            step == HostLedgerStep::Verdict(false)
        } else {
            step == HostLedgerStep::Ask(HostLedgerStage::Migration)
        },
        stage is Migration ==> step == HostLedgerStep::Verdict(answer->Flag_0),
{
    if stage is Columns && answer->Rows_0@.len() == 2 {
        lemma_rows(json_elements(answer->Rows_0@[0]@));
        lemma_rows(json_elements(answer->Rows_0@[1]@));
    }
    if stage is Indexes && answer->Rows_0@.len() == 1 {
        lemma_index(json_elements(answer->Rows_0@[0]@), stage->Indexes_role@);
    }
}

/// Whether the elements are those of a column of the ledger: its number, name,
/// type and default, not null, with its storage and collation and nothing
/// else set.
pub open spec fn column_row(
    elements: Option<Seq<Seq<char>>>,
    number: Seq<char>,
    name: Seq<char>,
    column_type: Seq<char>,
    default: Seq<char>,
    storage: Seq<char>,
    collation: Seq<char>,
) -> bool {
    let e = elements->Some_0;
    let nothing = "\"\""@;
    &&& elements is Some
    &&& e.len() == 20
    &&& e[0] == number
    &&& e[1] == name
    &&& e[2] == column_type
    &&& e[3] == "true"@
    &&& e[4] == default
    &&& e[5] == nothing
    &&& e[6] == nothing
    &&& e[7] == "0"@
    &&& e[8] == "true"@
    &&& e[9] == "0"@
    &&& e[10] == "false"@
    &&& e[11] == nothing
    &&& e[12] == storage
    &&& e[13] == nothing
    &&& e[14] == "-1"@
    &&& e[15] == "[]"@
    &&& e[16] == "[]"@
    &&& e[17] == collation
    &&& e[18] == nothing
    &&& e[19] == nothing
}

/// Whether the elements are those of the column that names a migration.
pub open spec fn name_row(elements: Option<Seq<Seq<char>>>) -> bool {
    column_row(
        elements,
        "1"@,
        "\"name\""@,
        "\"text\""@,
        "\"\""@,
        "\"x\""@,
        "\"default\""@,
    )
}

/// Whether the elements are those of the column that tells when a migration was
/// applied.
pub open spec fn applied_at_row(elements: Option<Seq<Seq<char>>>) -> bool {
    column_row(
        elements,
        "2"@,
        "\"applied_at\""@,
        "\"timestamp with time zone\""@,
        "\"now()\""@,
        "\"p\""@,
        "\"\""@,
    )
}

/// Whether the elements are those of the index of the primary key.
pub open spec fn index_row(elements: Option<Seq<Seq<char>>>, role: Seq<char>) -> bool {
    let e = elements->Some_0;
    &&& elements is Some
    &&& e.len() == 18
    &&& e[0] == "\"schema_migrations_pkey\""@
    &&& e[1] == "true"@
    &&& e[2] == "true"@
    &&& e[3] == "false"@
    &&& e[4] == "true"@
    &&& e[5] == "true"@
    &&& e[6] == "true"@
    &&& e[7] == "true"@
    &&& e[8] == "false"@
    &&& e[9] == "false"@
    &&& e[10] == "\"p\""@
    &&& e[11] == json_quoted(role)
    &&& e[12] == "\"btree\""@
    &&& e[13] == "[]"@
    &&& e[14] == "\"\""@
    &&& e[15] == "\"\""@
    &&& e[16] == "\"\""@
    &&& e[17]
        == "\"CREATE UNIQUE INDEX schema_migrations_pkey ON platform.schema_migrations USING btree (name)\""@
}

proof fn lemma_rows(elements: Option<Seq<Seq<char>>>)
    ensures
        name_row(elements) <==> elements == Some(crate::host_ledger::name_column()),
        applied_at_row(elements) <==> elements == Some(crate::host_ledger::applied_at_column()),
{
    if name_row(elements) {
        assert(elements->Some_0 =~= crate::host_ledger::name_column());
    }
    if applied_at_row(elements) {
        assert(elements->Some_0 =~= crate::host_ledger::applied_at_column());
    }
}

proof fn lemma_index(elements: Option<Seq<Seq<char>>>, role: Seq<char>)
    ensures
        index_row(elements, role) <==> elements == Some(crate::host_ledger::key_index(role)),
{
    if index_row(elements, role) {
        assert(elements->Some_0 =~= crate::host_ledger::key_index(role));
    }
}

/// The module declares the routes that it serves, each under a capability that
/// it declares; its page needs a capability that it declares; its schedule runs
/// the function that it declares; and its handlers are the ones that it has.
pub proof fn law_manifest_declares_what_there_is(
    function: &str,
    queue: &str,
    declared: ModuleManifest,
    routes: Vec<ModuleHttpRoute>,
    dispatch: NotificationEventHandler,
    receipt: NotificationEventHandler,
    terminal: NotificationEventHandler,
    accepted: NotificationEventHandler,
    revoked: NotificationEventHandler,
)
    requires
        call_ensures(manifest, (function, queue), declared),
        call_ensures(http_routes, (), routes),
        call_ensures(NotificationEventHandler::dispatch_observed, (), dispatch),
        call_ensures(NotificationEventHandler::receipt_observed, (), receipt),
        call_ensures(NotificationEventHandler::runtime_terminal, (), terminal),
        call_ensures(NotificationEventHandler::invitation_accepted, (), accepted),
        call_ensures(NotificationEventHandler::invitation_revoked, (), revoked),
    ensures
        declared.id@ == "lenso/notification"@,
        declared.summary@
            == "Transactional notification intents, delivery attempts, receipts, and final state"@,
        declared.capabilities@.len() == 2,
        declared.capabilities@[0]@ == "notification.deliveries.read"@,
        declared.capabilities@[1]@ == "notification.deliveries.retry"@,
        declared.http_routes@.len() == routes@.len(),
        forall|i: int|
            0 <= i < routes@.len() ==> (#[trigger] declared.http_routes@[i]).path@
                == routes@[i].path@ && declared.http_routes@[i].capability@
                == routes@[i].capability@ && declared.http_routes@[i].method == routes@[i].method,
        forall|i: int|
            0 <= i < routes@.len() ==> (#[trigger] routes@[i]).capability@
                == declared.capabilities@[0]@ || routes@[i].capability@
                == declared.capabilities@[1]@,
        declared.event_handlers@.len() == 5,
        declared.event_handlers@[0].name@ == dispatch.handler_name@,
        declared.event_handlers@[0].event_name@ == dispatch.event_name@,
        declared.event_handlers@[1].name@ == receipt.handler_name@,
        declared.event_handlers@[1].event_name@ == receipt.event_name@,
        declared.event_handlers@[2].name@ == terminal.handler_name@,
        declared.event_handlers@[2].event_name@ == terminal.event_name@,
        declared.event_handlers@[3].name@ == accepted.handler_name@,
        declared.event_handlers@[3].event_name@ == accepted.event_name@,
        declared.event_handlers@[4].name@ == revoked.handler_name@,
        declared.event_handlers@[4].event_name@ == revoked.event_name@,
        declared.functions@.len() == 1,
        declared.functions@[0].name@ == function@,
        declared.functions@[0].queue@ == queue@,
        declared.functions@[0].version == 1,
        declared.functions@[0].input_schema@
            == "contracts/runtime/notification.dispatch-due.v1.schema.json"@,
        declared.functions@[0].max_attempts == 3,
        declared.functions@[0].initial_delay_ms == 5_000,
        declared.functions@[0].operation is None,
        declared.schedules@.len() == 1,
        declared.schedules@[0].name@ == "notification-dispatch-due"@,
        declared.schedules@[0].function_name@ == declared.functions@[0].name@,
        declared.schedules@[0].cron@ == "* * * * *"@,
        declared.schedules@[0].input_limit == 25,
        declared.workflows@.len() == 0,
{
    assert(texts(declared.capabilities@).len() == declared.capabilities@.len());
    assert(texts(declared.capabilities@)[0] == declared.capabilities@[0]@);
    assert(texts(declared.capabilities@)[1] == declared.capabilities@[1]@);
    assert forall|i: int| 0 <= i < routes@.len() implies (
    #[trigger] declared.http_routes@[i]).path@ == routes@[i].path@
        && declared.http_routes@[i].capability@ == routes@[i].capability@
        && declared.http_routes@[i].method == routes@[i].method by {
        if i == 0 {
        } else if i == 1 {
        } else {
            assert(i == 2);
        }
    }
    assert forall|i: int| 0 <= i < routes@.len() implies (#[trigger] routes@[i]).capability@
        == declared.capabilities@[0]@ || routes@[i].capability@ == declared.capabilities@[1]@ by {
        if i == 0 {
        } else if i == 1 {
        } else {
            assert(i == 2);
        }
    }
}

/// What the module needs: one email provider, a protection key that is a secret
/// and never a default, and its migration before it starts.
pub proof fn law_manifest_declares_what_is_needed(
    function: &str,
    queue: &str,
    declared: ModuleManifest,
)
    requires
        call_ensures(manifest, (function, queue), declared),
    ensures
        declared.requires_modules@.len() == 1,
        declared.requires_modules@[0].module_id@ == "lenso/email-provider"@,
        declared.requires_modules@[0].version_requirement@ == "*"@,
        declared.requires_modules@[0].capabilities@.len() == 1,
        declared.requires_modules@[0].capabilities@[0]@ == "email.dispatch"@,
        !declared.requires_modules@[0].optional,
        declared.config@.len() == 1,
        declared.config@[0].key@ == "snapshot_protection_key"@,
        declared.config@[0].required,
        declared.config@[0].sensitive,
        declared.config@[0].secret_reference,
        declared.config@[0].read_capability is None,
        declared.config@[0].write_capability is None,
        declared.config@[0].default is None,
        declared.config@[0].validation is None,
        declared.migrations@.len() == 1,
        declared.migrations@[0].migration_id@ == "notification/0001_create_notification_schema"@,
        declared.migrations@[0].order == 1,
        declared.migrations@[0].store@ == "postgres"@,
        !declared.migrations@[0].destructive,
        !declared.migrations@[0].reversible,
        declared.console@.len() == 1,
        declared.console@[0].name@ == "deliveries"@,
        declared.console@[0].label@ == "Deliveries"@,
        declared.console@[0].route@ == "/notifications/deliveries"@,
        declared.console@[0].presentation->entry@ == "index.js"@,
        declared.console@[0].icon@ == "activity"@,
        declared.console@[0].required_capabilities@.len() == 1,
        declared.console@[0].required_capabilities@[0]@ == "notification.deliveries.read"@,
        declared.console@[0].workspace.id@ == "notifications"@,
        declared.console@[0].workspace.label@ == "Notifications"@,
        declared.console@[0].workspace.icon@ == "workflow"@,
        declared.console@[0].group.id@ == "transactional"@,
        declared.console@[0].group.label@ == "Transactional"@,
        declared.console@[0].group.icon@ == "activity"@,
        declared.console@[0].group_order == 10,
        declared.console@[0].order == 10,
{
    let needed = declared.requires_modules@[0].capabilities@;
    assert(texts(needed).len() == needed.len());
    assert(texts(needed)[0] == needed[0]@);
    let page = declared.console@[0].required_capabilities@;
    assert(texts(page).len() == page.len());
    assert(texts(page)[0] == page[0]@);
}

/// The three routes: two that read, under the capability to read, and one that
/// retries, under the capability to retry.
pub proof fn law_routes_are_declared(routes: Vec<ModuleHttpRoute>)
    requires
        call_ensures(http_routes, (), routes),
    ensures
        routes@.len() == 3,
        routes@[0].method is Get,
        routes@[0].path@ == "/v1/notification/console/deliveries"@,
        routes@[0].capability@ == "notification.deliveries.read"@,
        routes@[0].display_name@ == "List notification deliveries"@,
        routes@[1].method is Get,
        routes@[1].path@ == "/v1/notification/console/deliveries/{delivery_id}"@,
        routes@[1].capability@ == "notification.deliveries.read"@,
        routes@[1].display_name@ == "Get notification delivery"@,
        routes@[2].method is Post,
        routes@[2].path@ == "/v1/notification/console/deliveries/{delivery_id}/retry"@,
        routes@[2].capability@ == "notification.deliveries.retry"@,
        routes@[2].display_name@ == "Retry notification delivery"@,
        forall|i: int|
            0 <= i < 3 ==> (#[trigger] routes@[i]).story_title@ == routes@[i].display_name@,
{
}

/// A table is genuine where it is a plain private one of the role.
pub proof fn law_genuine_table_is_plain(relation: &HostLedgerRelation, role: &str, r: bool)
    requires
        call_ensures(HostLedgerRelation::is_genuine, (relation, role), r),
    ensures
        r <==> plain_table(*relation, role@),
{
}

} // verus!
