use signal_orchestrator_judge::{
    ContentHash, EscalationDetail, EscalationNote, EscalationReason, Error, JudgeDiagnostic,
    JudgmentScope, NewTopic, OrchestratorJudgeReply, OrchestratorJudgeRequest,
    OrchestratorJudgeRequestRejection, OrchestratorJudgeRequestRejectionReason,
    PrivateDiagnosticPolicy, PrivateJudgmentScope, RedactedText, TopicAssignment,
    TopicAssignmentPacket, TopicAssignmentRejectionReason, TopicAssignmentResponse,
    TopicAssignmentVerdict, TriagePacket, TriageRejectionReason, TriageResponse, TriageRouting,
    TriageVerdict, Vocabulary,
};

/// A vocabulary of plain strings, standing for the orchestrator's own types.
#[derive(Clone, Debug, PartialEq, Eq)]
struct Plain;

impl Vocabulary for Plain {
    type Mission = String;
    type Topic = (String, String, Option<String>);
    type TopicPath = String;
    type TopicName = String;
    type AgentIdentifier = String;
    type AgentSummary = (String, Vec<String>);
    type Message = (String, String, String);
    type MessageKind = String;
}

fn diagnostic() -> JudgeDiagnostic {
    JudgeDiagnostic::new(
        RedactedText::new("private details redacted").expect("redacted"),
        vec![ContentHash::new("sha256:fixture-content-hash").expect("hash")],
    )
}

fn message() -> (String, String, String) {
    (
        "guidance".to_string(),
        "rebase before landing".to_string(),
        "Fold this in at your next natural turn.".to_string(),
    )
}

fn topic_assignment_packet() -> TopicAssignmentPacket<Plain> {
    TopicAssignmentPacket::new(
        JudgmentScope::public(),
        "Design the orchestrator messaging wire contracts.".to_string(),
        vec![("contracts".to_string(), "Contracts".to_string(), None)],
    )
}

fn triage_packet() -> TriagePacket<Plain> {
    TriagePacket::new(
        JudgmentScope::private_hashes_and_redaction(),
        message(),
        "4zqk".to_string(),
        vec![("contracts".to_string(), "Contracts".to_string(), None)],
        vec![("7mtp".to_string(), vec!["contracts".to_string()])],
    )
}

#[test]
fn private_scope_names_hashes_and_redaction_policy() {
    assert!(matches!(
        JudgmentScope::private_hashes_and_redaction(),
        JudgmentScope::Private(_)
    ));
}

#[test]
fn private_scope_carries_hashes_and_redaction_policy() {
    assert_eq!(
        JudgmentScope::private_hashes_and_redaction(),
        JudgmentScope::Private(PrivateJudgmentScope {
            diagnostic_policy: PrivateDiagnosticPolicy::HashesAndRedaction
        })
    );
    assert_eq!(
        PrivateJudgmentScope::hashes_and_redaction(),
        PrivateJudgmentScope::new(PrivateDiagnosticPolicy::HashesAndRedaction)
    );
    assert_eq!(JudgmentScope::public(), JudgmentScope::Public);
}

#[test]
fn text_types_keep_exactly_what_they_were_given() {
    assert_eq!(ContentHash::new("sha256:abc").unwrap().as_str(), "sha256:abc");
    assert_eq!(RedactedText::new(" routed ").unwrap().as_str(), " routed ");
    assert_eq!(
        EscalationReason::new("no seated owner for this topic").unwrap().as_str(),
        "no seated owner for this topic"
    );
    assert_eq!(
        EscalationDetail::new("coordinator should assign an owner").unwrap().0,
        "coordinator should assign an owner".to_string()
    );
}

#[test]
fn text_types_refuse_blank_text() {
    for blank in ["", " ", "\t\n\r", "\u{3000}\u{00a0}\u{2028}"] {
        assert_eq!(ContentHash::new(blank), Err(Error::EmptyValue));
        assert_eq!(RedactedText::new(blank), Err(Error::EmptyValue));
        assert_eq!(EscalationReason::new(blank), Err(Error::EmptyValue));
        assert_eq!(EscalationDetail::new(blank), Err(Error::EmptyValue));
    }
}

#[test]
fn text_types_accept_text_with_one_visible_character() {
    assert!(ContentHash::new("  x  ").is_ok());
    assert!(RedactedText::new("\u{3000}.").is_ok());
    assert!(EscalationReason::new("\t-").is_ok());
    assert!(EscalationDetail::new("\u{200b}").is_ok());
}

#[test]
fn accepted_text_is_accepted_again() {
    let hash = ContentHash::new(" sha256:x ").unwrap();
    assert_eq!(ContentHash::new(hash.as_str()), Ok(hash.clone()));
}

#[test]
fn empty_value_error_describes_itself() {
    assert_eq!(
        Error::EmptyValue.message(),
        "orchestrator judge contract value is empty"
    );
}

#[test]
fn redacted_diagnostic_carries_no_hash() {
    let text = RedactedText::new("routed").unwrap();
    let diagnostic = JudgeDiagnostic::redacted(text.clone());
    assert_eq!(diagnostic.redacted_text, text);
    assert!(diagnostic.content_hashes.is_empty());
}

#[test]
fn diagnostic_keeps_text_and_hashes() {
    let d = diagnostic();
    assert_eq!(d.redacted_text.as_str(), "private details redacted");
    assert_eq!(d.content_hashes.len(), 1);
    assert_eq!(d.content_hashes[0].as_str(), "sha256:fixture-content-hash");
}

#[test]
fn request_variants_log_under_distinct_numbers() {
    let assign = OrchestratorJudgeRequest::AssignTopic(topic_assignment_packet());
    let triage = OrchestratorJudgeRequest::TriageMessage(triage_packet());
    assert_eq!(assign.log_variant(), 1);
    assert_eq!(triage.log_variant(), 2);
}

#[test]
fn packets_keep_their_parts() {
    let packet = topic_assignment_packet();
    assert_eq!(packet.scope, JudgmentScope::Public);
    assert_eq!(packet.mission, "Design the orchestrator messaging wire contracts.");
    assert_eq!(packet.existing_topics.len(), 1);

    let triage = triage_packet();
    assert!(matches!(triage.scope, JudgmentScope::Private(_)));
    assert_eq!(triage.incoming, message());
    assert_eq!(triage.sender, "4zqk");
    assert_eq!(triage.topic_directory.len(), 1);
    assert_eq!(triage.agent_directory[0].0, "7mtp");
}

#[test]
fn topic_assignment_reply_holds_assign_and_every_reject_reason() {
    let new_topic: NewTopic<Plain> = NewTopic::new(Some("contracts".to_string()), "Wire".to_string());
    assert_eq!(new_topic.parent.as_deref(), Some("contracts"));
    assert_eq!(new_topic.name, "Wire");
    let assignment = TopicAssignment::new(vec!["contracts".to_string()], vec![new_topic.clone()]);
    assert_eq!(assignment.reuse_topics, vec!["contracts".to_string()]);
    assert_eq!(assignment.create_topics, vec![new_topic]);
    let response = TopicAssignmentResponse::new(TopicAssignmentVerdict::Assign(assignment.clone()), diagnostic());
    assert_eq!(response.verdict, TopicAssignmentVerdict::Assign(assignment));
    assert_eq!(response.diagnostic, diagnostic());
    let reply: OrchestratorJudgeReply<Plain> = OrchestratorJudgeReply::TopicAssigned(response);
    assert!(matches!(reply, OrchestratorJudgeReply::TopicAssigned(_)));

    for reason in [
        TopicAssignmentRejectionReason::MissionTooVague,
        TopicAssignmentRejectionReason::MissionEmpty,
    ] {
        let response: TopicAssignmentResponse<Plain> =
            TopicAssignmentResponse::new(TopicAssignmentVerdict::Reject(reason), diagnostic());
        assert_eq!(response.verdict, TopicAssignmentVerdict::Reject(reason));
    }
}

#[test]
fn triage_reply_holds_route_escalate_and_every_reject_reason() {
    let routing: TriageRouting<Plain> =
        TriageRouting::new(vec!["7mtp".to_string()], Some("report".to_string()), Some(message()));
    assert_eq!(routing.recipients, vec!["7mtp".to_string()]);
    assert_eq!(routing.retyped_kind.as_deref(), Some("report"));
    assert_eq!(routing.rewritten_message, Some(message()));

    let as_is: TriageRouting<Plain> = TriageRouting::new(vec!["7mtp".to_string()], None, None);
    assert_eq!(as_is.retyped_kind, None);
    assert_eq!(as_is.rewritten_message, None);
    let routed = TriageResponse::new(TriageVerdict::Route(as_is.clone()), diagnostic());
    assert_eq!(routed.verdict, TriageVerdict::Route(as_is));

    let note = EscalationNote::new(
        EscalationReason::new("no seated owner for this topic").expect("reason"),
        EscalationDetail::new("coordinator should assign an owner").expect("detail"),
    );
    assert_eq!(note.coordinator_reason.as_str(), "no seated owner for this topic");
    assert_eq!(note.detail.as_str(), "coordinator should assign an owner");
    let escalated: TriageResponse<Plain> = TriageResponse::new(TriageVerdict::Escalate(note.clone()), diagnostic());
    assert_eq!(escalated.verdict, TriageVerdict::Escalate(note));
    let reply = OrchestratorJudgeReply::MessageTriaged(escalated);
    assert!(matches!(reply, OrchestratorJudgeReply::MessageTriaged(_)));

    for reason in [
        TriageRejectionReason::NoEligibleRecipient,
        TriageRejectionReason::SenderNotRegistered,
        TriageRejectionReason::MalformedPayload,
    ] {
        let response: TriageResponse<Plain> =
            TriageResponse::new(TriageVerdict::Reject(reason), diagnostic());
        assert_eq!(response.verdict, TriageVerdict::Reject(reason));
    }
}

#[test]
fn request_rejection_holds_every_reason() {
    for reason in [
        OrchestratorJudgeRequestRejectionReason::InvalidRequest,
        OrchestratorJudgeRequestRejectionReason::ConfigurationUnavailable,
        OrchestratorJudgeRequestRejectionReason::ProviderUnavailable,
        OrchestratorJudgeRequestRejectionReason::ProviderRejected,
        OrchestratorJudgeRequestRejectionReason::ResponseFormatFailure,
    ] {
        let rejection = OrchestratorJudgeRequestRejection::new(reason, diagnostic());
        assert_eq!(rejection.reason, reason);
        assert_eq!(rejection.diagnostic, diagnostic());
        let reply: OrchestratorJudgeReply<Plain> = OrchestratorJudgeReply::RequestRejected(rejection);
        assert!(matches!(reply, OrchestratorJudgeReply::RequestRejected(_)));
    }
}
