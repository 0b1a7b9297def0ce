use notification::consumption::{
    advance_consumption, begin_consumption, ConsumptionEvent, ConsumptionStage, ConsumptionStep,
    LedgerEffect, Observation,
};
use notification::contracts::{
    DispatchOutcome, EmailReceiptObserved, ReceiptKind, RuntimeFunctionTerminal,
    EMAIL_DISPATCH_OBSERVED_EVENT, EMAIL_RECEIPT_OBSERVED_EVENT, RUNTIME_FUNCTION_TERMINAL_EVENT,
};
use notification::creation::{
    advance_creation, begin_creation, CreationEvent, CreationFailure, CreationStage, CreationStep,
    NewIntent,
};
use notification::delivery::{DispatchDueError, DispatchDueResponseStatus};
use notification::email::{
    DispatchError, DispatchReply, DispatchResponse, DispatchResponseOutcome,
};
use notification::error::{ErrorCode, NotificationError, PluginError, RuntimeFailure};
use notification::events::{
    apply_receipt, claim_event, event_digest, DeliveryChange, DispatchTarget, ObservationEnvelope,
    ReceiptTarget, DELIVERED_REASON, EMAIL_DISPATCH_FUNCTION, EMAIL_RUNTIME_OWNER,
};
use notification::intent::{encode_access_request, encode_invitation};
use notification::observation::observation_digest;
use notification::public::{
    AccessRequestNotificationEvent, AccessRequestNotificationTemplateV1, AccessRequestRoleV1,
    AccessRequestScopeV1, CreateAccessRequestNotificationIntent, CreateTransactionalEmailIntent,
    EmailRecipient, IntentSource, OrganizationInvitationTemplateV1, StoredIntent,
};
use notification::repository::DeliverySummary;
use notification::runtime::{claim_one_due, DueClaim, DueRow};
use notification::snapshot::{content_digest, SnapshotProtector, TestSnapshotProtector};
use notification::template::{RenderError, RenderInvocationError, RenderResponse};
use notification::time::UtcTime;
use notification::worker::{advance_worker, WorkerEvent, WorkerStage, WorkerStep};

const PROVIDER: &str = "smtp.primary";

const PAYLOAD: &str = "{\"a\":1}";

fn now() -> UtcTime {
    UtcTime::at(1_780_000_000, 0).expect("valid instant")
}

fn invitation() -> CreateTransactionalEmailIntent {
    CreateTransactionalEmailIntent {
        source: IntentSource {
            module_id: "organization".to_owned(),
            entity_type: "organization_invitation".to_owned(),
            entity_id: "invite_1".to_owned(),
        },
        recipient: EmailRecipient {
            address: "member@example.com".to_owned(),
            display_name: None,
            locale: "en".to_owned(),
        },
        template: OrganizationInvitationTemplateV1 {
            organization_id: "org_1".to_owned(),
            organization_name: "Acme".to_owned(),
            invitation_id: "invite_1".to_owned(),
            invitation_url: "https://example.test/invitations/token".to_owned(),
            inviter_display_name: None,
            role_name: None,
            expires_at: UtcTime::at(1_780_086_400, 0).expect("valid instant"),
        },
        idempotency_key: "invite:1".to_owned(),
        correlation_id: "corr_1".to_owned(),
        causation_id: None,
        requested_by: None,
    }
}

fn rendered() -> RenderResponse {
    let (subject, text, html) = ("Join Acme", "Accept the invitation", "<p>Accept</p>");
    RenderResponse {
        template_id: "organization-invitation".to_owned(),
        version: "v1".to_owned(),
        requested_locale: "en".to_owned(),
        resolved_locale: "en".to_owned(),
        fallback_used: false,
        renderer_identity: "renderer@1".to_owned(),
        template_digest: format!("sha256:{}", "a".repeat(64)),
        content_digest: content_digest(subject, text, html),
        subject: subject.to_owned(),
        text: text.to_owned(),
        html: html.to_owned(),
    }
}

fn advance(stage: CreationStage, event: CreationEvent) -> CreationStep {
    advance_creation(stage, event, now(), &TestSnapshotProtector)
}

fn begun() -> CreationStage {
    match begin_creation(NewIntent::Invitation(invitation()), now()) {
        CreationStep::Go(stage) => stage,
        CreationStep::Answer(_) => panic!("refused"),
    }
}

fn stage_of(step: CreationStep) -> CreationStage {
    match step {
        CreationStep::Go(stage) => stage,
        CreationStep::Answer(_) => panic!("answered"),
    }
}

fn ledger_error(step: CreationStep) -> NotificationError {
    match step {
        CreationStep::Answer(Err(CreationFailure::Ledger(error))) => error,
        _ => panic!("no ledger failure"),
    }
}

#[test]
fn new_intents_are_rendered_stored_and_answered() {
    let stage = begun();
    assert!(matches!(&stage, CreationStage::Lookup { intent }
        if intent.source_module() == "organization" && intent.idempotency_key() == "invite:1"));
    let stage = stage_of(advance(stage, CreationEvent::Stored(None)));
    match &stage {
        CreationStage::Render { request, .. } => {
            assert_eq!(request.template_id, "organization-invitation");
            assert_eq!(request.version.as_deref(), Some("v1"));
        }
        _ => panic!("not rendered"),
    }
    let stage = stage_of(advance(stage, CreationEvent::Rendered(rendered())));
    assert!(matches!(&stage, CreationStage::Begin { rendered, .. }
        if rendered.subject == "Join Acme"));
    let stage = stage_of(advance(stage, CreationEvent::Done));
    match &stage {
        CreationStage::Recheck { lock, admitted } => {
            assert_eq!(lock, "notification:organization:invite:1");
            assert_eq!(admitted.rendered.subject, "Join Acme");
        }
        _ => panic!("not rechecked"),
    }
    let stage = stage_of(advance(stage, CreationEvent::Stored(None)));
    let digest = match &stage {
        CreationStage::Release { release, .. } => release.template_digest.clone(),
        _ => panic!("not released"),
    };
    let stage = stage_of(advance(stage, CreationEvent::Released(digest)));
    let (intent_id, delivery_id, request_digest) = match &stage {
        CreationStage::Record { rows } => (
            rows.intent.id.clone(),
            rows.delivery.id.clone(),
            rows.intent.request_digest.clone(),
        ),
        _ => panic!("not recorded"),
    };
    let stage = stage_of(advance(stage, CreationEvent::Done));
    match advance(stage, CreationEvent::Done) {
        CreationStep::Answer(Ok(response)) => {
            assert_eq!(response.intent_id, intent_id);
            assert_eq!(response.delivery_id, delivery_id);
            assert!(!response.idempotent_replay);
        }
        _ => panic!("not answered"),
    }

    let stored = |digest: &str| StoredIntent {
        intent_id: intent_id.clone(),
        delivery_id: delivery_id.clone(),
        request_digest: digest.to_owned(),
        status: "delivered".to_owned(),
    };
    match advance(begun(), CreationEvent::Stored(Some(stored(&request_digest)))) {
        CreationStep::Answer(Ok(response)) => {
            assert_eq!(response.intent_id, intent_id);
            assert!(response.idempotent_replay);
        }
        _ => panic!("replay was not answered at once"),
    }
    // A change in any field is a conflict.
    let mut changed = vec![invitation(), invitation(), invitation(), invitation()];
    changed[0].recipient.display_name = Some("Member".to_owned());
    changed[1].template.expires_at = UtcTime::at(1_780_086_400, 1).expect("valid instant");
    changed[2].correlation_id = "corr_2".to_owned();
    changed[3].template.role_name = Some("null".to_owned());
    for request in changed {
        let stage = stage_of(begin_creation(NewIntent::Invitation(request), now()));
        let other = advance(stage, CreationEvent::Stored(Some(stored(&request_digest))));
        assert_eq!(ledger_error(other).code, ErrorCode::Conflict);
    }
}

#[test]
fn concurrent_contenders_commit_the_stored_intent() {
    let stage = stage_of(advance(begun(), CreationEvent::Stored(None)));
    let stage = stage_of(advance(stage, CreationEvent::Rendered(rendered())));
    assert!(matches!(&stage, CreationStage::Begin { rendered, .. }
        if rendered.subject == "Join Acme"));
    let stage = stage_of(advance(stage, CreationEvent::Done));
    let digest = match &stage {
        CreationStage::Recheck { admitted, .. } => admitted.request_digest.clone(),
        _ => panic!("not rechecked"),
    };
    let stored = StoredIntent {
        intent_id: "ntf_int_1".to_owned(),
        delivery_id: "ntf_dlv_1".to_owned(),
        request_digest: digest,
        status: "queued".to_owned(),
    };
    let stage = stage_of(advance(stage, CreationEvent::Stored(Some(stored))));
    match &stage {
        CreationStage::Commit { receipt } => {
            assert_eq!(receipt.intent_id, "ntf_int_1");
            assert!(receipt.idempotent_replay);
        }
        _ => panic!("not committed"),
    }
    let failure = RuntimeFailure::PluginFailure { detail: "connection lost".to_owned() };
    assert!(matches!(
        advance(stage, CreationEvent::Interrupted(failure)),
        CreationStep::Answer(Err(CreationFailure::Runtime(RuntimeFailure::PluginFailure { detail })))
            if detail == "connection lost"
    ));
}

#[test]
fn failed_renderings_store_nothing() {
    let mut faulty = invitation();
    faulty.idempotency_key = String::new();
    let refused = ledger_error(begin_creation(NewIntent::Invitation(faulty), now()));
    assert_eq!(refused.code, ErrorCode::Validation);

    let rendering = || stage_of(advance(begun(), CreationEvent::Stored(None)));
    let missing = RenderInvocationError::Domain(RenderError::NotFound);
    assert!(matches!(
        advance(rendering(), CreationEvent::NotRendered(missing)),
        CreationStep::Answer(Err(CreationFailure::Runtime(RuntimeFailure::PluginFailure { .. })))
    ));
    let mut wrong = rendered();
    wrong.template_id = "another-template".to_owned();
    let begun_with = |response: RenderResponse| {
        stage_of(advance(rendering(), CreationEvent::Rendered(response)))
    };
    let refused = ledger_error(advance(begun_with(wrong.clone()), CreationEvent::Done));
    assert_eq!(refused.code, ErrorCode::Internal);
    // Where no transaction begins, that is the answer, whatever was rendered.
    let lost = RuntimeFailure::PluginFailure { detail: "no connection".to_owned() };
    assert!(matches!(
        advance(begun_with(wrong), CreationEvent::Interrupted(lost)),
        CreationStep::Answer(Err(CreationFailure::Runtime(RuntimeFailure::PluginFailure { detail })))
            if detail == "no connection"
    ));

    let stage = stage_of(advance(begun_with(rendered()), CreationEvent::Done));
    let stage = stage_of(advance(stage, CreationEvent::Stored(None)));
    let other_release = format!("sha256:{}", "b".repeat(64));
    let refused = ledger_error(advance(stage, CreationEvent::Released(other_release)));
    assert_eq!(refused.message(), "Notification template release is immutable");

    let lost = NotificationError::new(ErrorCode::Internal, "ledger is gone");
    let refused = ledger_error(advance(begun(), CreationEvent::Failed(lost)));
    assert_eq!(refused.message(), "ledger is gone");
    assert!(matches!(
        advance(begun(), CreationEvent::Done),
        CreationStep::Go(CreationStage::Lookup { .. })
    ));
}

fn claim() -> DueClaim {
    let protected = TestSnapshotProtector.protect("part").expect("protected");
    let row = DueRow {
        delivery_id: "ntf_dlv_1".to_owned(),
        status: "queued".to_owned(),
        next_attempt_at: Some(now()),
        revision: 1,
        attempt_count: 0,
        max_attempts: 4,
        correlation_id: "corr_1".to_owned(),
        recipient_ciphertext: protected.ciphertext.clone(),
        recipient_key_ref: protected.key_reference.clone(),
        locale: "en".to_owned(),
        subject_ciphertext: protected.ciphertext.clone(),
        text_ciphertext: protected.ciphertext.clone(),
        html_ciphertext: protected.ciphertext.clone(),
        protection_key_ref: protected.key_reference.clone(),
        content_digest: format!("sha256:{}", "c".repeat(64)),
        template_id: "organization-invitation".to_owned(),
        template_version: "v1".to_owned(),
    };
    claim_one_due(row, now(), &TestSnapshotProtector).expect("claim").expect("due")
}

fn next(stage: WorkerStage, event: WorkerEvent) -> WorkerStep {
    advance_worker(stage, event, PROVIDER, now())
}

fn go(step: WorkerStep) -> WorkerStage {
    match step {
        WorkerStep::Go(stage) => stage,
        WorkerStep::Answer(_) => panic!("answered"),
    }
}

fn replied(reply: DispatchReply) -> WorkerStage {
    let stage = go(next(WorkerStage::Claim, WorkerEvent::Claimed(Some(claim()))));
    go(next(stage, WorkerEvent::Replied(reply)))
}

fn accepted() -> DispatchReply {
    DispatchReply::Response(DispatchResponse {
        outcome: DispatchResponseOutcome::Accepted,
        provider: PROVIDER.to_owned(),
        observed_at: "2026-05-28T20:26:41Z".to_owned(),
        remote_receipt: None,
        failure: None,
    })
}

fn summary(status: &str) -> DeliverySummary {
    DeliverySummary {
        id: "ntf_dlv_1".to_owned(),
        recipient_mask: "m***@example.com".to_owned(),
        template_id: "organization-invitation".to_owned(),
        template_version: "v1".to_owned(),
        locale: "en".to_owned(),
        status: status.to_owned(),
        revision: 3,
        attempt_count: 1,
        max_attempts: 4,
        redacted_preview: "Accept the invitation".to_owned(),
        content_digest: format!("sha256:{}", "c".repeat(64)),
        correlation_id: "corr_1".to_owned(),
        next_attempt_at: None,
        final_reason: None,
        created_at: now(),
        updated_at: now(),
    }
}

#[test]
fn accepted_dispatches_are_recorded_and_read_back() {
    let stage = replied(accepted());
    match &stage {
        WorkerStage::Record { work, aftermath, event } => {
            assert_eq!(aftermath.observed.outcome, DispatchOutcome::Accepted);
            assert_eq!(aftermath.observed.attempt_id, work.claim.attempt_id);
            assert_eq!(event.event_name, EMAIL_DISPATCH_OBSERVED_EVENT);
            assert_eq!(event.id, format!("dispatch-observation:{}", work.claim.attempt_id));
            assert_eq!(event.source_module, PROVIDER);
        }
        _ => panic!("not recorded"),
    }
    let stage = go(next(stage, WorkerEvent::Recorded));
    match next(stage, WorkerEvent::Found(Some(summary("accepted")))) {
        WorkerStep::Answer(Ok(response)) => {
            assert_eq!(response.delivery_id, "ntf_dlv_1");
            assert_eq!(response.status, DispatchDueResponseStatus::Accepted);
            assert_eq!(response.observed_at, "2026-05-28T20:26:41.000Z");
        }
        _ => panic!("not answered"),
    }
    let stage = go(next(replied(accepted()), WorkerEvent::Recorded));
    assert!(matches!(
        next(stage, WorkerEvent::Found(None)),
        WorkerStep::Answer(Err(PluginError::Runtime(RuntimeFailure::PluginFailure { detail })))
            if detail == "claimed delivery disappeared"
    ));
}

#[test]
fn workers_record_every_reply_before_answering() {
    let stage = replied(DispatchReply::Domain(DispatchError::InvalidDispatch));
    assert!(matches!(&stage, WorkerStage::Record { aftermath, .. }
        if aftermath.observed.outcome == DispatchOutcome::PermanentFailure));
    assert!(matches!(
        next(stage, WorkerEvent::Recorded),
        WorkerStep::Answer(Err(PluginError::Domain(DispatchDueError::DispatchRejected)))
    ));

    let lost = RuntimeFailure::PluginFailure { detail: "provider is gone".to_owned() };
    let stage = replied(DispatchReply::Runtime(lost));
    assert!(matches!(&stage, WorkerStage::Record { aftermath, .. }
        if aftermath.observed.outcome == DispatchOutcome::DeliveryUnknown));
    assert!(matches!(
        next(stage, WorkerEvent::Recorded),
        WorkerStep::Answer(Err(PluginError::Runtime(RuntimeFailure::PluginFailure { detail })))
            if detail == "provider is gone"
    ));

    let failed = NotificationError::new(ErrorCode::Internal, "ledger is gone");
    assert!(matches!(
        next(replied(accepted()), WorkerEvent::Failed(failed)),
        WorkerStep::Answer(Err(PluginError::Runtime(RuntimeFailure::PluginFailure { detail })))
            if detail == "ledger is gone"
    ));
    assert!(matches!(
        next(WorkerStage::Claim, WorkerEvent::Claimed(None)),
        WorkerStep::Answer(Err(PluginError::Domain(DispatchDueError::NoDeliveryDue)))
    ));
    let dispatching = go(next(WorkerStage::Claim, WorkerEvent::Claimed(Some(claim()))));
    assert!(matches!(
        next(dispatching, WorkerEvent::Recorded),
        WorkerStep::Go(WorkerStage::Dispatch { .. })
    ));
}

fn dispatch_event(stage: &WorkerStage) -> (ObservationEnvelope, Observation) {
    match stage {
        WorkerStage::Record { aftermath, event, .. } => (
            ObservationEnvelope {
                id: event.id.clone(),
                event_name: event.event_name.clone(),
                event_version: event.event_version,
                source_module: event.source_module.clone(),
                aggregate_id: event.aggregate_id.clone(),
                occurred_at: event.occurred_at,
            },
            Observation::Dispatch(aftermath.observed.clone()),
        ),
        _ => panic!("not recorded"),
    }
}

fn begun_consumption(event: &ObservationEnvelope, observation: Observation) -> ConsumptionStage {
    match begin_consumption(event, PAYLOAD, observation) {
        ConsumptionStep::Go(stage) => stage,
        ConsumptionStep::Answer(_) => panic!("refused"),
    }
}

#[test]
fn observations_are_consumed_once() {
    let recording = replied(accepted());
    let (event, observation) = dispatch_event(&recording);
    assert_eq!(observation.consumed_at(&event), event.occurred_at);
    let run_id = claim().work.claim.run_id;
    let stage = begun_consumption(&event, observation);
    let stage = match advance_consumption(stage, ConsumptionEvent::Claimed(None), &event) {
        ConsumptionStep::Go(stage) => stage,
        ConsumptionStep::Answer(_) => panic!("refused"),
    };
    let target = DispatchTarget {
        delivery_status: "attempting".to_owned(),
        revision: 2,
        attempt_count: 1,
        max_attempts: 4,
        function_run_id: run_id,
        attempt_status: "dispatching".to_owned(),
        has_receipt: false,
    };
    let found = ConsumptionEvent::FoundDispatch(Some(target));
    let stage = match advance_consumption(stage, found, &event) {
        ConsumptionStep::Go(stage) => stage,
        ConsumptionStep::Answer(_) => panic!("refused"),
    };
    match &stage {
        ConsumptionStage::Store { effect: LedgerEffect::Dispatch(settlement) } => {
            assert_eq!(settlement.delivery.expected_revision, 2);
            assert_eq!(settlement.delivery.new_revision, 3);
        }
        _ => panic!("not settled"),
    }
    let stage = match advance_consumption(stage, ConsumptionEvent::Done, &event) {
        ConsumptionStep::Go(stage) => stage,
        ConsumptionStep::Answer(_) => panic!("refused"),
    };
    assert!(matches!(
        advance_consumption(stage, ConsumptionEvent::Done, &event),
        ConsumptionStep::Answer(Ok(()))
    ));

    let (event, observation) = dispatch_event(&recording);
    let stage = begun_consumption(&event, observation);
    let digest = observation_digest(&event, PAYLOAD).expect("digest");
    match &stage {
        ConsumptionStage::Claim { digest: claimed, .. } => assert_eq!(claimed, &digest),
        _ => panic!("not claimed"),
    }
    let replay = ConsumptionEvent::Claimed(Some(digest));
    assert!(matches!(
        advance_consumption(stage, replay, &event),
        ConsumptionStep::Go(ConsumptionStage::Commit)
    ));
    let (event, observation) = dispatch_event(&recording);
    let stage = begun_consumption(&event, observation);
    let reuse = ConsumptionEvent::Claimed(Some("other".to_owned()));
    match advance_consumption(stage, reuse, &event) {
        ConsumptionStep::Answer(Err(error)) => assert_eq!(error.code, ErrorCode::Conflict),
        _ => panic!("accepted"),
    }
    let (event, observation) = dispatch_event(&recording);
    match begin_consumption(&event, "{", observation) {
        ConsumptionStep::Answer(Err(error)) => {
            assert_eq!(error.message(), "Notification Event cannot be hashed");
        }
        _ => panic!("accepted"),
    }
    let (mut event, observation) = dispatch_event(&recording);
    event.source_module = "another.provider".to_owned();
    match begin_consumption(&event, PAYLOAD, observation) {
        ConsumptionStep::Answer(Err(error)) => assert_eq!(error.code, ErrorCode::Validation),
        _ => panic!("accepted"),
    }
}

#[test]
fn receipts_count_once() {
    let event = || ObservationEnvelope {
        id: "obs_1".to_owned(),
        event_name: EMAIL_RECEIPT_OBSERVED_EVENT.to_owned(),
        event_version: 1,
        source_module: PROVIDER.to_owned(),
        aggregate_id: "ntf_dlv_1".to_owned(),
        occurred_at: now(),
    };
    let digest = format!("sha256:{}", "d".repeat(64));
    let identify = || {
        let receipt = EmailReceiptObserved {
            delivery_id: "ntf_dlv_1".to_owned(),
            attempt_id: "ntf_att_1".to_owned(),
            function_run_id: "ntf_run_1".to_owned(),
            kind: ReceiptKind::Delivered,
            source: PROVIDER.to_owned(),
            remote_id: "remote_1".to_owned(),
            digest: digest.clone(),
            observed_at: now(),
        };
        let stage = begun_consumption(&event(), Observation::Receipt(receipt));
        match advance_consumption(stage, ConsumptionEvent::Claimed(None), &event()) {
            ConsumptionStep::Go(stage) => stage,
            ConsumptionStep::Answer(_) => panic!("refused"),
        }
    };
    let known = ConsumptionEvent::Identified(Some(digest.clone()));
    assert!(matches!(
        advance_consumption(identify(), known, &event()),
        ConsumptionStep::Go(ConsumptionStage::Commit)
    ));
    let other = ConsumptionEvent::Identified(Some("sha256:other".to_owned()));
    assert!(matches!(
        advance_consumption(identify(), other, &event()),
        ConsumptionStep::Answer(Err(_))
    ));
    let finding =
        match advance_consumption(identify(), ConsumptionEvent::Identified(None), &event()) {
            ConsumptionStep::Go(stage) => stage,
            ConsumptionStep::Answer(_) => panic!("refused"),
        };
    match advance_consumption(finding, ConsumptionEvent::FoundReceipt(None), &event()) {
        ConsumptionStep::Answer(Err(error)) => assert_eq!(error.code, ErrorCode::NotFound),
        _ => panic!("accepted"),
    }
}

#[test]
fn ended_runs_without_an_attempt_change_nothing() {
    let event = ObservationEnvelope {
        id: "obs_2".to_owned(),
        event_name: RUNTIME_FUNCTION_TERMINAL_EVENT.to_owned(),
        event_version: 1,
        source_module: "runtime".to_owned(),
        aggregate_id: "ntf_run_1".to_owned(),
        occurred_at: now(),
    };
    let ended = |owner: &str| {
        Observation::Terminal(RuntimeFunctionTerminal {
            owner_module: owner.to_owned(),
            function_name: EMAIL_DISPATCH_FUNCTION.to_owned(),
            function_run_id: "ntf_run_1".to_owned(),
            terminal_state: "dead".to_owned(),
            failure_code: "crashed".to_owned(),
            failure_classification: "permanent_failure".to_owned(),
        })
    };
    match begin_consumption(&event, PAYLOAD, ended("another/owner")) {
        ConsumptionStep::Answer(Err(error)) => assert_eq!(error.code, ErrorCode::Validation),
        _ => panic!("accepted"),
    }
    let stage = begun_consumption(&event, ended(EMAIL_RUNTIME_OWNER));
    let stage = match advance_consumption(stage, ConsumptionEvent::Claimed(None), &event) {
        ConsumptionStep::Go(stage) => stage,
        ConsumptionStep::Answer(_) => panic!("refused"),
    };
    assert!(matches!(
        advance_consumption(stage, ConsumptionEvent::FoundRun(None), &event),
        ConsumptionStep::Go(ConsumptionStage::Commit)
    ));
}

#[test]
fn observations_are_the_same_by_content() {
    let event = || ObservationEnvelope {
        id: "obs \"1\"\n\u{1}".to_owned(),
        event_name: EMAIL_RECEIPT_OBSERVED_EVENT.to_owned(),
        event_version: 1,
        source_module: PROVIDER.to_owned(),
        aggregate_id: "ntf_dlv_1".to_owned(),
        occurred_at: now(),
    };
    let digest = |event: &ObservationEnvelope, payload: &str| {
        observation_digest(event, payload).expect("digest")
    };
    let first = digest(&event(), "{ \"b\": [1], \"a\": null }");

    let mut object = serde_json::Map::new();
    object.insert("id".to_owned(), event().id.into());
    object.insert("name".to_owned(), event().event_name.into());
    object.insert("version".to_owned(), event().event_version.into());
    object.insert("source".to_owned(), event().source_module.into());
    object.insert("aggregateId".to_owned(), event().aggregate_id.into());
    let payload = serde_json::from_str("{\"b\":[1],\"a\":null}").expect("JSON");
    object.insert("payload".to_owned(), payload);
    let encoded = serde_json::to_vec(&serde_json::Value::Object(object)).expect("encoded");
    assert_eq!(first, event_digest(&encoded));

    let mut later = event();
    later.occurred_at = UtcTime::at(1_780_000_001, 0).expect("valid instant");
    assert_eq!(digest(&later, "{\"b\":[1],\"a\":null}"), first);
    assert_eq!(claim_event(Some(&first), &digest(&later, "{\"b\":[1],\"a\":null}")).ok(), Some(true));

    let mut changed = [event(), event(), event(), event(), event()];
    changed[0].id = "obs_2".to_owned();
    changed[1].event_name = EMAIL_DISPATCH_OBSERVED_EVENT.to_owned();
    changed[2].event_version = 2;
    changed[3].source_module = "another.provider".to_owned();
    changed[4].aggregate_id = "ntf_dlv_2".to_owned();
    for other in &changed {
        let error = claim_event(Some(&first), &digest(other, "{\"b\":[1],\"a\":null}")).unwrap_err();
        assert_eq!(error.code, ErrorCode::Conflict);
    }
    let error = claim_event(Some(&first), &digest(&event(), "{\"b\":[2],\"a\":null}")).unwrap_err();
    assert_eq!(error.code, ErrorCode::Conflict);
    assert_eq!(observation_digest(&event(), "no JSON"), None);
}

#[test]
fn ended_deliveries_are_stored_with_a_reason() {
    let event = ObservationEnvelope {
        id: "obs_1".to_owned(),
        event_name: EMAIL_RECEIPT_OBSERVED_EVENT.to_owned(),
        event_version: 1,
        source_module: PROVIDER.to_owned(),
        aggregate_id: "ntf_dlv_1".to_owned(),
        occurred_at: now(),
    };
    let reason = |kind: ReceiptKind| {
        let receipt = EmailReceiptObserved {
            delivery_id: "ntf_dlv_1".to_owned(),
            attempt_id: "ntf_att_1".to_owned(),
            function_run_id: "ntf_run_1".to_owned(),
            kind,
            source: PROVIDER.to_owned(),
            remote_id: "remote_1".to_owned(),
            digest: format!("sha256:{}", "d".repeat(64)),
            observed_at: now(),
        };
        let target = ReceiptTarget {
            delivery_status: "accepted".to_owned(),
            revision: 3,
            function_run_id: "ntf_run_1".to_owned(),
        };
        let settlement = apply_receipt(Some(target), &event, &receipt).expect("settled");
        settlement.delivery.change.final_reason().map(str::to_owned)
    };
    assert_eq!(reason(ReceiptKind::Delivered).as_deref(), Some(DELIVERED_REASON));
    assert_eq!(reason(ReceiptKind::Delivered).as_deref(), Some("authoritative_delivery_receipt"));
    assert_eq!(reason(ReceiptKind::Bounced).as_deref(), Some("bounced"));
    assert_eq!(DeliveryChange::Accepted.final_reason(), None);
}

fn object(entries: Vec<(&str, serde_json::Value)>) -> serde_json::Value {
    let mut map = serde_json::Map::new();
    for (name, value) in entries {
        map.insert(name.to_owned(), value);
    }
    serde_json::Value::Object(map)
}

#[test]
fn intents_are_encoded_field_by_field() {
    let mut request = invitation();
    request.recipient.display_name = Some("A \"quoted\" name\n".to_owned());
    request.template.expires_at = UtcTime::at(1_780_086_400, 120_000_000).expect("valid instant");
    let expected = object(vec![
        (
            "source",
            object(vec![
                ("module_id", "organization".into()),
                ("entity_type", "organization_invitation".into()),
                ("entity_id", "invite_1".into()),
            ]),
        ),
        (
            "recipient",
            object(vec![
                ("address", "member@example.com".into()),
                ("display_name", "A \"quoted\" name\n".into()),
                ("locale", "en".into()),
            ]),
        ),
        (
            "template",
            object(vec![
                ("organization_id", "org_1".into()),
                ("organization_name", "Acme".into()),
                ("invitation_id", "invite_1".into()),
                ("invitation_url", "https://example.test/invitations/token".into()),
                ("inviter_display_name", serde_json::Value::Null),
                ("role_name", serde_json::Value::Null),
                ("expires_at", "2026-05-29T20:26:40.120Z".into()),
            ]),
        ),
        ("idempotency_key", "invite:1".into()),
        ("correlation_id", "corr_1".into()),
        ("causation_id", serde_json::Value::Null),
        ("requested_by", serde_json::Value::Null),
    ]);
    assert_eq!(encode_invitation(&request), serde_json::to_vec(&expected).expect("encoded"));

    // An instant is written as it is serialised.
    let at = |seconds: i64, nanos: u32| {
        let mut request = invitation();
        request.template.expires_at = UtcTime::at(seconds, nanos).expect("valid instant");
        String::from_utf8(encode_invitation(&request)).expect("text")
    };
    for (seconds, nanos) in [(1_780_086_400, 0), (0, 5_000), (59, 1_500_000_000), (-1, 7)] {
        let instant = chrono::DateTime::from_timestamp(seconds, nanos).expect("valid instant");
        let written = serde_json::to_string(&instant).expect("encoded");
        assert!(at(seconds, nanos).contains(&format!("\"expires_at\":{written}}}")), "{written}");
    }

    let access = CreateAccessRequestNotificationIntent {
        source: IntentSource {
            module_id: "access".to_owned(),
            entity_type: "access_request".to_owned(),
            entity_id: "ar_1".to_owned(),
        },
        recipient: invitation().recipient,
        template: AccessRequestNotificationTemplateV1 {
            request_id: "ar_1".to_owned(),
            organization_id: "org_1".to_owned(),
            event: AccessRequestNotificationEvent::Approved,
            role: AccessRequestRoleV1 {
                role_id: "role_1".to_owned(),
                display_name: Some("Member".to_owned()),
            },
            scope: AccessRequestScopeV1 {
                kind: "organization".to_owned(),
                id: "org_1".to_owned(),
                display_name: None,
            },
            expires_at: None,
        },
        idempotency_key: "key".to_owned(),
        correlation_id: "corr".to_owned(),
        causation_id: Some("cause".to_owned()),
        requested_by: None,
    };
    assert_eq!(
        String::from_utf8(encode_access_request(&access)).expect("text"),
        "{\"source\":{\"module_id\":\"access\",\"entity_type\":\"access_request\",\
         \"entity_id\":\"ar_1\"},\"recipient\":{\"address\":\"member@example.com\",\
         \"display_name\":null,\"locale\":\"en\"},\"template\":{\"request_id\":\"ar_1\",\
         \"organization_id\":\"org_1\",\"event\":\"approved\",\"role\":{\"role_id\":\"role_1\",\
         \"display_name\":\"Member\"},\"scope\":{\"kind\":\"organization\",\"id\":\"org_1\",\
         \"display_name\":null},\"expires_at\":null},\"idempotency_key\":\"key\",\
         \"correlation_id\":\"corr\",\"causation_id\":\"cause\",\"requested_by\":null}"
    );
    assert_eq!(NewIntent::AccessRequest(access.clone()).encoded(), encode_access_request(&access));
}
