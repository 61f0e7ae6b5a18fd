use protobuf::Message;
use up_rust::{UMessage, UPayloadFormat};
use ustreamer_bridge::failure::Failure;
use ustreamer_bridge::lifecycle::{
    conclude_initialize, refused_status, required_handles, Bridge, HandleKind, LifecycleError,
    Phase, WorkerState,
};
use ustreamer_bridge::message::{
    encode_message, encode_sample, format_code, sample_message, sample_topic, MessageId, OutboundMessage,
    PayloadFormat, TopicAddress, SAMPLE_LISTENER_ID,
};
use ustreamer_bridge::status::{
    headline_status, initialize_status, join_status, teardown_status,
};
use ustreamer_bridge::worker::{
    advance, start, ClassTarget, StepOutcome, WorkerAction, WorkerPhase,
};
use ustreamer_bridge::DummyListener;

fn started_bridge() -> Bridge {
    let mut bridge = Bridge::new();
    assert_eq!(bridge.begin_initialize(), Ok(()));
    for kind in required_handles() {
        assert_eq!(bridge.record_handle(kind), Ok(()));
    }
    bridge
}

#[test]
fn join_status_puts_newlines_between_tokens() {
    let tokens = vec!["a".to_string(), "b".to_string(), "c".to_string()];
    assert_eq!(join_status(&tokens), "a\nb\nc");
    assert_eq!(join_status(&vec![]), "");
    assert_eq!(join_status(&vec!["only".to_string()]), "only");
}

#[test]
fn placeholder_statuses() {
    assert_eq!(initialize_status(), "\nmock_string");
    assert_eq!(teardown_status(WorkerState::Succeeded), "");
    assert_eq!(teardown_status(WorkerState::NotStarted), "");
    assert_eq!(headline_status("x", "y"), "x\ny");
}

#[test]
fn failure_and_refusal_texts() {
    assert_eq!(Failure::ClassResolution.describe(), "class resolution failed");
    assert_eq!(Failure::Serialization.describe(), "message serialization failed");
    assert_eq!(
        refused_status(LifecycleError::AlreadyActive),
        "initialize refused\na session is already active"
    );
}

#[test]
fn required_handles_in_order() {
    assert_eq!(
        required_handles(),
        vec![
            HandleKind::TransportClient,
            HandleKind::Subscriber,
            HandleKind::UriClass,
            HandleKind::StatusClass,
            HandleKind::ListenerBridgeClass,
            HandleKind::NativeBridgeClass,
            HandleKind::ClassLoader,
        ]
    );
}

#[test]
fn second_start_is_refused_until_teardown() {
    let mut bridge = started_bridge();
    assert_eq!(bridge.begin_initialize(), Err(LifecycleError::AlreadyActive));
    let (status, released) = conclude_initialize(&mut bridge, Ok(()));
    assert_eq!(status, "\nmock_string");
    assert!(released.is_empty());
    assert_eq!(bridge.phase(), Phase::Running);
    assert_eq!(bridge.begin_initialize(), Err(LifecycleError::AlreadyActive));
    assert_eq!(bridge.teardown().err(), Some(LifecycleError::WorkerRunning));
    bridge.worker_finished(Ok(()));
    assert!(bridge.teardown().is_ok());
    assert_eq!(bridge.begin_initialize(), Ok(()));
}

#[test]
fn handle_recorded_once() {
    let mut bridge = Bridge::new();
    assert_eq!(bridge.record_handle(HandleKind::Subscriber), Err(LifecycleError::NotStarting));
    bridge.begin_initialize().unwrap();
    assert_eq!(bridge.record_handle(HandleKind::Subscriber), Ok(()));
    assert_eq!(bridge.record_handle(HandleKind::Subscriber), Err(LifecycleError::HandleAlreadyHeld));
    assert_eq!(bridge.handle_count(), 1);
}

#[test]
fn listener_never_registered_twice() {
    let mut bridge = started_bridge();
    assert_eq!(bridge.register_listener(SAMPLE_LISTENER_ID), Err(LifecycleError::NotRunning));
    conclude_initialize(&mut bridge, Ok(()));
    assert_eq!(bridge.register_listener(SAMPLE_LISTENER_ID), Ok(()));
    assert_eq!(
        bridge.register_listener(SAMPLE_LISTENER_ID),
        Err(LifecycleError::ListenerAlreadyRegistered)
    );
    assert_eq!(bridge.listener_count(), 1);
}

#[test]
fn teardown_after_start_leaves_nothing() {
    let mut bridge = started_bridge();
    conclude_initialize(&mut bridge, Ok(()));
    bridge.register_listener(7).unwrap();
    bridge.register_listener(8).unwrap();
    bridge.worker_finished(Err(Failure::ObjectConstruction));
    let report = bridge.teardown().unwrap();
    assert_eq!(report.released_handles, required_handles());
    assert_eq!(report.released_listeners, vec![7, 8]);
    assert_eq!(report.worker, WorkerState::Failed(Failure::ObjectConstruction));
    assert_eq!(bridge.handle_count(), 0);
    assert_eq!(bridge.listener_count(), 0);
    assert_eq!(bridge.phase(), Phase::Idle);
    assert_eq!(bridge.worker(), WorkerState::NotStarted);
}

#[test]
fn failed_promotion_reports_and_releases() {
    let mut bridge = Bridge::new();
    bridge.begin_initialize().unwrap();
    bridge.record_handle(HandleKind::TransportClient).unwrap();
    bridge.record_handle(HandleKind::Subscriber).unwrap();
    let (status, released) = conclude_initialize(&mut bridge, Err(Failure::HandlePromotion));
    assert_eq!(status, "initialize failed\nhandle promotion failed");
    assert_eq!(released, vec![HandleKind::TransportClient, HandleKind::Subscriber]);
    assert_eq!(bridge.phase(), Phase::Idle);
    assert_eq!(bridge.handle_count(), 0);
}

#[test]
fn unresolvable_class_does_not_end_the_caller() {
    let mut bridge = started_bridge();
    let (status, released) = conclude_initialize(&mut bridge, Err(Failure::ClassResolution));
    assert_eq!(status, "initialize failed\nclass resolution failed");
    assert_eq!(released.len(), 7);
}

#[test]
fn late_worker_report_is_ignored() {
    let mut bridge = Bridge::new();
    bridge.worker_finished(Ok(()));
    assert_eq!(bridge.worker(), WorkerState::NotStarted);
    let mut bridge = started_bridge();
    conclude_initialize(&mut bridge, Ok(()));
    assert_eq!(bridge.worker(), WorkerState::Running);
    bridge.worker_finished(Ok(()));
    assert_eq!(bridge.worker(), WorkerState::Succeeded);
}

#[test]
fn worker_round_trip_scenario() {
    let (mut phase, mut action) = start();
    let mut actions = vec![action];
    while !matches!(action, WorkerAction::Finish(_)) {
        let next = advance(phase, StepOutcome::Completed);
        phase = next.0;
        action = next.1;
        actions.push(action);
    }
    assert_eq!(
        actions,
        vec![
            WorkerAction::AttachThread,
            WorkerAction::LoadClass(ClassTarget::ListenerBridge),
            WorkerAction::ConstructProxy(123),
            WorkerAction::LoadClass(ClassTarget::NativeBridge),
            WorkerAction::EncodeSample,
            WorkerAction::DecodeOnManagedSide,
            WorkerAction::Finish(None),
        ]
    );
    assert_eq!(phase, WorkerPhase::Succeeded);
}

#[test]
fn pending_exception_is_cleared_before_stopping() {
    let (phase, _) = advance(WorkerPhase::Attaching, StepOutcome::Completed);
    let (phase, action) = advance(phase, StepOutcome::Failed { pending_exception: true });
    assert_eq!(phase, WorkerPhase::Clearing(Failure::ClassResolution));
    assert_eq!(action, WorkerAction::ClearPendingException);
    let (phase, action) = advance(phase, StepOutcome::Completed);
    assert_eq!(phase, WorkerPhase::Aborted(Failure::ClassResolution));
    assert_eq!(action, WorkerAction::Finish(Some(Failure::ClassResolution)));
}

#[test]
fn failure_without_exception_stops_at_once() {
    let (phase, action) = advance(WorkerPhase::Encoding, StepOutcome::Failed { pending_exception: false });
    assert_eq!(phase, WorkerPhase::Aborted(Failure::Serialization));
    assert_eq!(action, WorkerAction::Finish(Some(Failure::Serialization)));
    let (_, action) = advance(WorkerPhase::ConstructingProxy, StepOutcome::Failed { pending_exception: false });
    assert_eq!(action, WorkerAction::Finish(Some(Failure::ObjectConstruction)));
}

#[test]
fn class_names() {
    assert_eq!(
        ClassTarget::ListenerBridge.class_name(),
        "org/eclipse/uprotocol/streamer/service/UListenerNativeBridge"
    );
    assert_eq!(
        ClassTarget::NativeBridge.class_name(),
        "org/eclipse/uprotocol/streamer/service/NativeBridge"
    );
}

#[test]
fn sample_message_fields() {
    let id = MessageId { msb: 0x0000_0000_0001_7000, lsb: 0x8010_1010_1010_1a1a };
    let m = sample_message(id);
    assert_eq!(m.topic, sample_topic());
    assert_eq!(m.topic.entity_name, "client.rust");
    assert_eq!(m.topic.entity_id, 1);
    assert_eq!(m.topic.entity_version, 1);
    assert_eq!(m.topic.resource_name, "VeryCoolResource");
    assert_eq!(m.topic.resource_id, 1);
    assert_eq!(m.id, id);
    assert_eq!(m.payload, vec![1, 2, 3, 4]);
    assert_eq!(m.format, PayloadFormat::Raw);
    let _ = DummyListener;
}

#[test]
fn encoded_message_decodes_to_the_same_fields() {
    let id = MessageId { msb: 0x0000_0000_0001_7000, lsb: 0x8010_1010_1010_1a1a };
    let m = OutboundMessage {
        topic: TopicAddress {
            entity_name: "client.rust".to_string(),
            entity_id: 1,
            entity_version: 1,
            resource_name: "VeryCoolResource".to_string(),
            resource_id: 0x8001,
        },
        id,
        payload: vec![1, 2, 3, 4],
        format: PayloadFormat::Raw,
    };
    let bytes = encode_message(&m).unwrap();
    assert!(!bytes.is_empty());
    let decoded = UMessage::parse_from_bytes(&bytes).unwrap();
    let attributes = decoded.attributes.as_ref().unwrap();
    let source = attributes.source.as_ref().unwrap();
    assert_eq!(source.ue_id, 1);
    assert_eq!(source.ue_version_major, 1);
    assert_eq!(source.resource_id, 0x8001);
    let decoded_id = attributes.id.as_ref().unwrap();
    assert_eq!((decoded_id.msb, decoded_id.lsb), (id.msb, id.lsb));
    assert_eq!(decoded.payload.as_ref().unwrap().to_vec(), vec![1, 2, 3, 4]);
    assert_eq!(attributes.payload_format.enum_value(), Ok(UPayloadFormat::UPAYLOAD_FORMAT_RAW));
}

#[test]
fn sample_message_round_trips() {
    let id = MessageId { msb: 0x0000_0000_0001_7000, lsb: 0x8010_1010_1010_1a1a };
    let bytes = encode_sample(id).unwrap();
    assert_eq!(bytes, encode_message(&sample_message(id)).unwrap());
    let decoded = UMessage::parse_from_bytes(&bytes).unwrap();
    let attributes = decoded.attributes.as_ref().unwrap();
    let source = attributes.source.as_ref().unwrap();
    assert_eq!((source.ue_id, source.ue_version_major, source.resource_id), (1, 1, 1));
    let decoded_id = attributes.id.as_ref().unwrap();
    assert_eq!((decoded_id.msb, decoded_id.lsb), (id.msb, id.lsb));
    assert_eq!(decoded.payload.as_ref().unwrap().to_vec(), vec![1, 2, 3, 4]);
    assert_eq!(attributes.payload_format.enum_value(), Ok(UPayloadFormat::UPAYLOAD_FORMAT_RAW));
    assert_eq!(
        attributes.type_.enum_value(),
        Ok(up_rust::UMessageType::UMESSAGE_TYPE_PUBLISH)
    );
    assert_eq!(UMessage::parse_from_bytes(&decoded.write_to_bytes().unwrap()).unwrap(), decoded);
}

#[test]
fn encoding_follows_the_message() {
    let id = MessageId { msb: 0x0000_0000_0001_7000, lsb: 0x8010_1010_1010_1a1a };
    let a = encode_message(&sample_message(id)).unwrap();
    let mut other = sample_message(id);
    other.payload = vec![5];
    other.format = PayloadFormat::Text;
    let b = encode_message(&other).unwrap();
    assert_ne!(a, b);
    assert_eq!(a, encode_message(&sample_message(id)).unwrap());
    let decoded = UMessage::parse_from_bytes(&b).unwrap();
    assert_eq!(decoded.payload.as_ref().unwrap().to_vec(), vec![5]);
    assert_eq!(
        decoded.attributes.as_ref().unwrap().payload_format.enum_value(),
        Ok(UPayloadFormat::UPAYLOAD_FORMAT_TEXT)
    );
    assert_eq!(format_code(PayloadFormat::Raw), 6);
    assert_eq!(format_code(PayloadFormat::Unspecified), 0);
}

#[test]
fn teardown_reports_how_the_worker_ended() {
    assert_eq!(
        teardown_status(WorkerState::Failed(Failure::ClassResolution)),
        "worker failed\nclass resolution failed"
    );
    assert_eq!(teardown_status(WorkerState::Running), "teardown partial\nworker still running");
    let mut bridge = started_bridge();
    conclude_initialize(&mut bridge, Ok(()));
    bridge.worker_finished(Err(Failure::MethodInvocation));
    let report = bridge.teardown().unwrap();
    assert_eq!(teardown_status(report.worker), "worker failed\nmethod invocation failed");
}

#[test]
fn each_step_fails_with_its_kind() {
    let cases = [
        (WorkerPhase::Attaching, Failure::Attachment),
        (WorkerPhase::ResolvingListenerClass, Failure::ClassResolution),
        (WorkerPhase::ConstructingProxy, Failure::ObjectConstruction),
        (WorkerPhase::ResolvingBridgeClass, Failure::ClassResolution),
        (WorkerPhase::Encoding, Failure::Serialization),
        (WorkerPhase::Decoding, Failure::MethodInvocation),
    ];
    for (phase, kind) in cases {
        let (next, action) = advance(phase, StepOutcome::Failed { pending_exception: false });
        assert_eq!(next, WorkerPhase::Aborted(kind));
        assert_eq!(action, WorkerAction::Finish(Some(kind)));
    }
    assert_eq!(Failure::Attachment.describe(), "thread attachment failed");
    assert_eq!(Failure::MethodInvocation.describe(), "method invocation failed");
    assert_eq!(Failure::ObjectConstruction.describe(), "object construction failed");
}
