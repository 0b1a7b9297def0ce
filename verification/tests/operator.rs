use notification::catalog::{
    catalogs_match, normalize_schema_name_fields, normalize_sql_fields, normalize_sql_qualifiers,
    LegacySchemaFingerprint,
};
use notification::host_ledger::{
    legacy_host_ledger_matches, HostLedgerAnswer, HostLedgerConstraint, HostLedgerRelation,
    HostLedgerStage, HostLedgerStep, HostLedgerType,
};
use notification::operator::{
    advance_adoption, adoption_outcome, catalog_is_supported, legacy_reference_sql,
    managed_reference_sql, migration_checksum, verify_managed_catalog, AdoptionAnswer,
    AdoptionStage, LegacyAdoptionOutcome, Migration, NotificationOperatorError,
};

fn array(values: Vec<serde_json::Value>) -> String {
    serde_json::Value::Array(values).to_string()
}

#[test]
fn catalog_normalization_changes_only_identifier_qualifiers_in_sql_fields() {
    let mut rows = vec![array(vec![
        "deliveries".into(),
        "notification_delivery_status".into(),
        "c".into(),
        false.into(),
        false.into(),
        true.into(),
        true.into(),
        "CHECK (status = 'notification.delivery_unknown' AND notification.revision > 0 AND \"notification\".attempt_count >= 0 AND \"notification.keep\" = \"notification.keep\" AND note = $$notification.keep$$)".into(),
        "notification.".into(),
    ])];

    normalize_sql_fields(&mut rows, &vec![7], "notification");
    let normalized: serde_json::Value =
        serde_json::from_str(&rows[0]).expect("normalized catalog row");
    let definition = normalized[7].as_str().expect("constraint definition");
    assert!(definition.contains("'notification.delivery_unknown'"));
    assert!(definition.contains("$$notification.keep$$"));
    assert_eq!(definition.matches("\"notification.keep\"").count(), 2);
    assert!(!definition.contains("notification.revision"));
    assert!(!definition.contains("\"notification\".attempt_count"));
    assert!(definition.contains("revision > 0"));
    assert!(definition.contains("attempt_count >= 0"));
    assert_eq!(normalized[8], "notification.");
}

#[test]
fn qualifiers_are_removed_at_word_starts_only() {
    let normalize = |sql: &str| normalize_sql_qualifiers(sql, "notification");
    assert_eq!(normalize("notification.a"), "a");
    assert_eq!(normalize("notification.notification.a"), "a");
    assert_eq!(normalize("my_notification.a"), "my_notification.a");
    assert_eq!(normalize("$notification.a"), "$notification.a");
    assert_eq!(normalize("änotification.a"), "äa");
    assert_eq!(normalize("(\"notification\".a)"), "(a)");
    assert_eq!(normalize("'it''s notification.a'"), "'it''s notification.a'");
    assert_eq!(normalize("'\\' notification.a' notification.b"), "'\\' notification.a' b");
    assert_eq!(normalize("'open notification.a"), "'open notification.a");
    assert_eq!(normalize("'end\\"), "'end\\");
    assert_eq!(normalize("$tag$notification.a$tag$ notification.b"), "$tag$notification.a$tag$ b");
    assert_eq!(normalize("$1 notification.a $2"), "$1 a $2");
    assert_eq!(normalize("$1$notification.a"), "$1$notification.a");
    assert_eq!(normalize("$a b$ notification.c"), "$a b$ c");
    assert_eq!(normalize("$open$ notification.a"), "$open$ notification.a");
    assert_eq!(normalize("\"x notification.a"), "\"x notification.a");
    assert_eq!(normalize("nothing here"), "nothing here");
    assert_eq!(normalize(""), "");
}

#[test]
fn temporary_schemas_have_an_alias() {
    let sql = "pg_temp_3.a pg_temp.b \"pg_temp\".c \"pg_temp_3\".d";
    assert_eq!(normalize_sql_qualifiers(sql, "pg_temp_3"), "a b c d");
    assert_eq!(
        normalize_sql_qualifiers("pg_temp.a", "notification"),
        "pg_temp.a"
    );
}

#[test]
fn rows_that_are_no_arrays_stay_as_they_are() {
    let mut rows = vec![
        "not json".to_owned(),
        "{\"a\": \"notification.b\"}".to_owned(),
        "[ 1, \"notification.b\", 2.50 ]".to_owned(),
    ];
    normalize_sql_fields(&mut rows, &vec![0, 1, 9], "notification");
    assert_eq!(rows[0], "not json");
    assert_eq!(rows[1], "{\"a\": \"notification.b\"}");
    assert_eq!(rows[2], "[1,\"b\",2.5]");
}

#[test]
fn schema_names_are_replaced_where_they_stand_alone() {
    let mut rows = vec![array(vec!["notification".into(), "notification".into(), "other".into()])];
    normalize_schema_name_fields(&mut rows, &vec![0, 2], "notification");
    assert_eq!(
        rows[0],
        "[\"__lenso_owned_schema__\",\"notification\",\"other\"]"
    );
}

fn fingerprint(schema: &str) -> LegacySchemaFingerprint {
    LegacySchemaFingerprint {
        schema: "[\"owner\",\"\",\"\"]".to_owned(),
        relations: vec!["[\"deliveries\"]".to_owned()],
        columns: vec![array(vec![
            "deliveries".into(),
            1.into(),
            "id".into(),
            format!("{schema}.kind").into(),
            true.into(),
            format!("'x'::{schema}.kind").into(),
        ])],
        constraints: Vec::new(),
        indexes: Vec::new(),
        triggers: vec![array(vec![
            "deliveries".into(),
            "t".into(),
            "O".into(),
            format!("CREATE TRIGGER t ON {schema}.deliveries").into(),
        ])],
        types: Vec::new(),
        routines: Vec::new(),
        policies: Vec::new(),
        inheritance: vec![array(vec![schema.into(), "a".into(), schema.into(), "b".into()])],
        rules: Vec::new(),
        security_labels: Vec::new(),
        publication_memberships: Vec::new(),
    }
}

#[test]
fn catalogs_match_but_for_their_schema() {
    assert!(catalogs_match(
        fingerprint("notification"),
        fingerprint("pg_temp_3"),
        "pg_temp_3"
    ));
    let mut changed = fingerprint("pg_temp_3");
    changed.triggers.push("[]".to_owned());
    assert!(!catalogs_match(fingerprint("notification"), changed, "pg_temp_3"));
    let mut literal = fingerprint("notification");
    literal.columns = vec![array(vec![
        "deliveries".into(),
        1.into(),
        "id".into(),
        "notification.kind".into(),
        true.into(),
        "'notification.x'::notification.kind".into(),
    ])];
    assert!(!catalogs_match(literal, fingerprint("pg_temp_3"), "pg_temp_3"));
}

fn migrations() -> Vec<Migration> {
    vec![
        Migration {
            version: 1,
            name: "create-notification-schema".to_owned(),
            sql: "create schema if not exists notification;\ncreate table notification.a (id int);"
                .to_owned(),
        },
        Migration {
            version: 2,
            name: "add".to_owned(),
            sql: "alter table notification.a add b int;".to_owned(),
        },
    ]
}

#[test]
fn reference_sql_goes_to_the_temporary_schema() {
    let migrations = migrations();
    assert_eq!(
        legacy_reference_sql(&migrations[0]).as_deref(),
        Some("\ncreate table pg_temp.a (id int);")
    );
    assert_eq!(
        managed_reference_sql(&migrations).as_deref(),
        Some("\ncreate table pg_temp.a (id int);\nalter table pg_temp.a add b int;")
    );
    assert_eq!(legacy_reference_sql(&migrations[1]), None);
}

#[test]
fn checksums_bind_version_name_and_sql() {
    let migration = Migration {
        version: 2,
        name: "add".to_owned(),
        sql: "select 1".to_owned(),
    };
    let mut bytes = vec![0, 0, 0, 0, 0, 0, 0, 2, 0];
    bytes.extend_from_slice(b"add");
    bytes.push(0);
    bytes.extend_from_slice(b"select 1");
    assert_eq!(
        migration_checksum(&migration),
        hex::encode(<sha2::Sha256 as sha2::Digest>::digest(&bytes))
    );
}

fn tables() -> Vec<String> {
    [
        "attempts",
        "consumed_events",
        "deliveries",
        "intents",
        "receipts",
        "render_snapshots",
        "retry_requests",
        "source_lifecycle_events",
        "template_releases",
    ]
    .iter()
    .map(|table| (*table).to_owned())
    .collect()
}

fn sound_answer(stage: &AdoptionStage) -> AdoptionAnswer {
    match stage {
        AdoptionStage::Owner => AdoptionAnswer::Owner(Some("lenso".to_owned())),
        AdoptionStage::Role { .. } => AdoptionAnswer::Role("lenso".to_owned()),
        AdoptionStage::LockTargets => AdoptionAnswer::Targets {
            host_ledger: true,
            tables: tables(),
        },
        AdoptionStage::Lock | AdoptionStage::CreateLedger | AdoptionStage::Record => {
            AdoptionAnswer::Done
        }
        AdoptionStage::HostLedger
        | AdoptionStage::Schema
        | AdoptionStage::LedgerPrivacy
        | AdoptionStage::FinalSchema => AdoptionAnswer::Answer(true),
        _ => AdoptionAnswer::Answer(false),
    }
}

#[test]
fn adoption_commits_after_every_proof() {
    let mut stage = AdoptionStage::Owner;
    let mut steps = 0;
    while !matches!(stage, AdoptionStage::Commit) {
        let answer = sound_answer(&stage);
        stage = advance_adoption(stage, answer).expect("proof");
        steps += 1;
    }
    assert_eq!(steps, 17);
    assert_eq!(adoption_outcome(), LegacyAdoptionOutcome { version: 1 });
}

#[test]
fn adoption_ends_at_the_first_failed_proof() {
    let mut stage = AdoptionStage::Owner;
    loop {
        if matches!(stage, AdoptionStage::Commit) {
            break;
        }
        if let AdoptionAnswer::Answer(value) = sound_answer(&stage) {
            let name = format!("{stage:?}");
            let probe = match name.as_str() {
                "DefaultPrivileges" => AdoptionStage::DefaultPrivileges,
                "Publication" => AdoptionStage::Publication,
                "HostPublication" => AdoptionStage::HostPublication,
                "Managed" => AdoptionStage::Managed,
                "HostLedger" => AdoptionStage::HostLedger,
                "Schema" => AdoptionStage::Schema,
                "LedgerPrivacy" => AdoptionStage::LedgerPrivacy,
                "FinalDefaultPrivileges" => AdoptionStage::FinalDefaultPrivileges,
                "FinalPublication" => AdoptionStage::FinalPublication,
                "FinalHostPublication" => AdoptionStage::FinalHostPublication,
                _ => AdoptionStage::FinalSchema,
            };
            let error = advance_adoption(probe, AdoptionAnswer::Answer(!value)).expect_err("refused");
            match name.as_str() {
                "Managed" => assert!(matches!(
                    error,
                    NotificationOperatorError::LegacySchemaAlreadyManaged
                )),
                "HostLedger" => assert!(matches!(
                    error,
                    NotificationOperatorError::LegacyHostLedgerMismatch
                )),
                _ => assert!(matches!(error, NotificationOperatorError::LegacySchemaMismatch)),
            }
        }
        let answer = sound_answer(&stage);
        stage = advance_adoption(stage, answer).expect("proof");
    }
    assert!(matches!(
        advance_adoption(AdoptionStage::Owner, AdoptionAnswer::Owner(None)),
        Err(NotificationOperatorError::LegacySchemaMissing)
    ));
    let error = advance_adoption(
        AdoptionStage::Role { owner: "lenso".to_owned() },
        AdoptionAnswer::Role("other".to_owned()),
    )
    .expect_err("foreign owner");
    assert_eq!(
        error.message(),
        "legacy Notification schema is owned by `lenso`, not current role `other`"
    );
    assert!(matches!(
        advance_adoption(
            AdoptionStage::LockTargets,
            AdoptionAnswer::Targets { host_ledger: false, tables: tables() },
        ),
        Err(NotificationOperatorError::LegacyHostLedgerMismatch)
    ));
    let mut extra = tables();
    extra.push("zzz".to_owned());
    assert!(matches!(
        advance_adoption(
            AdoptionStage::LockTargets,
            AdoptionAnswer::Targets { host_ledger: true, tables: extra },
        ),
        Err(NotificationOperatorError::LegacySchemaMismatch)
    ));
}

#[test]
fn managed_catalogs_are_verified() {
    assert!(catalog_is_supported(false, 0));
    assert!(!catalog_is_supported(true, 0));
    assert!(!catalog_is_supported(false, 1));
    assert!(verify_managed_catalog(false, true).is_ok());
    for (privileges, matches) in [(true, true), (false, false), (true, false)] {
        let error = verify_managed_catalog(privileges, matches).expect_err("refused");
        assert_eq!(
            error.message(),
            "managed Notification schema does not match the exact Plugin catalog fingerprint"
        );
    }
    assert_eq!(
        NotificationOperatorError::Database { detail: "secret".to_owned() }.message(),
        "legacy Notification schema adoption failed"
    );
}

fn relation() -> HostLedgerRelation {
    HostLedgerRelation {
        kind: "r".to_owned(),
        schema_owner: "lenso".to_owned(),
        table_owner: "lenso".to_owned(),
        schema_acl: None,
        table_acl: None,
        row_security: false,
        force_row_security: false,
        persistence: "p".to_owned(),
        access_method: "heap".to_owned(),
        options: "[]".to_owned(),
        is_partition: false,
        replica_identity: "d".to_owned(),
        tablespace: String::new(),
        comment: None,
    }
}

fn columns() -> Vec<String> {
    vec![
        "[1, \"name\", \"text\", true, \"\", \"\", \"\", 0, true, 0, false, \"\", \"x\", \"\", -1, [], [], \"default\", \"\", \"\"]".to_owned(),
        "[2, \"applied_at\", \"timestamp with time zone\", true, \"now()\", \"\", \"\", 0, true, 0, false, \"\", \"p\", \"\", -1, [], [], \"\", \"\", \"\"]".to_owned(),
    ]
}

fn ledger_type(name: &str) -> HostLedgerType {
    HostLedgerType {
        name: name.to_owned(),
        owner: "lenso".to_owned(),
        acl: None,
        comment: None,
    }
}

fn key() -> HostLedgerConstraint {
    HostLedgerConstraint {
        name: "schema_migrations_pkey".to_owned(),
        kind: "p".to_owned(),
        definition: "PRIMARY KEY (name)".to_owned(),
        deferrable: false,
        deferred: false,
        validated: true,
        no_inherit: true,
        comment: None,
    }
}

fn index() -> String {
    "[\"schema_migrations_pkey\", true, true, false, true, true, true, true, false, false, \"p\", \"lenso\", \"btree\", [], \"\", \"\", \"\", \"CREATE UNIQUE INDEX schema_migrations_pkey ON platform.schema_migrations USING btree (name)\"]".to_owned()
}

fn ledger_answer(stage: &HostLedgerStage) -> HostLedgerAnswer {
    match stage {
        HostLedgerStage::Publication | HostLedgerStage::Extras => HostLedgerAnswer::Flag(false),
        HostLedgerStage::Relation => HostLedgerAnswer::Relation(Some(relation())),
        HostLedgerStage::Role { .. } => HostLedgerAnswer::Role("lenso".to_owned()),
        HostLedgerStage::Columns { .. } => HostLedgerAnswer::Rows(columns()),
        HostLedgerStage::Types { .. } => HostLedgerAnswer::Types(vec![
            ledger_type("_schema_migrations"),
            ledger_type("schema_migrations"),
        ]),
        HostLedgerStage::Constraints { .. } => HostLedgerAnswer::Constraints(vec![key()]),
        HostLedgerStage::Indexes { .. } => HostLedgerAnswer::Rows(vec![index()]),
        HostLedgerStage::Migration => HostLedgerAnswer::Flag(true),
    }
}

#[test]
fn genuine_host_ledgers_prove_the_migration() {
    let mut stage = HostLedgerStage::Publication;
    let mut steps = 0;
    let verdict = loop {
        let answer = ledger_answer(&stage);
        steps += 1;
        match legacy_host_ledger_matches(stage, answer) {
            HostLedgerStep::Ask(next) => stage = next,
            HostLedgerStep::Verdict(verdict) => break verdict,
        }
    };
    assert!(verdict);
    assert_eq!(steps, 9);
}

#[test]
fn altered_host_ledgers_prove_nothing() {
    let role = || "lenso".to_owned();
    let mut altered_columns = columns();
    altered_columns[1] = altered_columns[1].replace("now()", "");
    let altered: Vec<(HostLedgerStage, HostLedgerAnswer)> = vec![
        (HostLedgerStage::Publication, HostLedgerAnswer::Flag(true)),
        (HostLedgerStage::Role { relation: None }, HostLedgerAnswer::Role(role())),
        (
            HostLedgerStage::Role { relation: Some(relation()) },
            HostLedgerAnswer::Role("other".to_owned()),
        ),
        (
            HostLedgerStage::Role {
                relation: Some(HostLedgerRelation {
                    comment: Some("unexpected".to_owned()),
                    ..relation()
                }),
            },
            HostLedgerAnswer::Role(role()),
        ),
        (HostLedgerStage::Columns { role: role() }, HostLedgerAnswer::Rows(altered_columns)),
        (HostLedgerStage::Columns { role: role() }, HostLedgerAnswer::Rows(Vec::new())),
        (
            HostLedgerStage::Types { role: role() },
            HostLedgerAnswer::Types(vec![ledger_type("schema_migrations")]),
        ),
        (
            HostLedgerStage::Constraints { role: role() },
            HostLedgerAnswer::Constraints(vec![HostLedgerConstraint {
                deferrable: true,
                ..key()
            }]),
        ),
        (
            HostLedgerStage::Indexes { role: "other".to_owned() },
            HostLedgerAnswer::Rows(vec![index()]),
        ),
        (HostLedgerStage::Extras, HostLedgerAnswer::Flag(true)),
        (HostLedgerStage::Migration, HostLedgerAnswer::Flag(false)),
    ];
    for (stage, answer) in altered {
        let name = format!("{stage:?}");
        assert!(
            matches!(
                legacy_host_ledger_matches(stage, answer),
                HostLedgerStep::Verdict(false)
            ),
            "{name}"
        );
    }
}
