use vstd::prelude::*;

use crate::diagnostic::JudgeDiagnostic;
use crate::scope::JudgmentScope;
use crate::text::{EscalationDetail, EscalationReason};
use crate::vocabulary::Vocabulary;

verus! {

/// What the judge is given to triage a message addressed to the orchestrator:
/// the scope, the message, its sender, and the topic and agent directories.
#[derive(Clone, Debug, PartialEq, Eq)]
pub struct TriagePacket<V: Vocabulary> {
    pub scope: JudgmentScope,
    pub incoming: V::Message,
    pub sender: V::AgentIdentifier,
    pub topic_directory: Vec<V::Topic>,
    pub agent_directory: Vec<V::AgentSummary>,
}

impl<V: Vocabulary> TriagePacket<V> {
    /// A packet of exactly the given parts.
    pub fn new(
        scope: JudgmentScope,
        incoming: V::Message,
        sender: V::AgentIdentifier,
        topic_directory: Vec<V::Topic>,
        agent_directory: Vec<V::AgentSummary>,
    ) -> (packet: Self)
        ensures
            packet.scope == scope,
            packet.incoming == incoming,
            packet.sender == sender,
            packet.topic_directory == topic_directory,
            packet.agent_directory == agent_directory,
    {
        Self { scope, incoming, sender, topic_directory, agent_directory }
    }
}

/// The judge's answer to a triage request, with its diagnostic.
#[derive(Clone, Debug, PartialEq, Eq)]
pub struct TriageResponse<V: Vocabulary> {
    pub verdict: TriageVerdict<V>,
    pub diagnostic: JudgeDiagnostic,
}

impl<V: Vocabulary> TriageResponse<V> {
    /// A response of exactly the given verdict and diagnostic.
    pub fn new(verdict: TriageVerdict<V>, diagnostic: JudgeDiagnostic) -> (response: Self)
        ensures
            response.verdict == verdict,
            response.diagnostic == diagnostic,
    {
        Self { verdict, diagnostic }
    }
}

/// The judge's triage decision. A message may be routed (possibly retyped or
/// rewritten, to one or more recipients), escalated to the coordinator, or
/// rejected; no verdict spawns an agent or opens a session.
#[derive(Clone, Debug, PartialEq, Eq)]
pub enum TriageVerdict<V: Vocabulary> {
    Route(TriageRouting<V>),
    Escalate(EscalationNote),
    Reject(TriageRejectionReason),
}

/// A routing decision. `retyped_kind` and `rewritten_message` are `None` to
/// route as-is, and `Some` to name the change.
#[derive(Clone, Debug, PartialEq, Eq)]
pub struct TriageRouting<V: Vocabulary> {
    pub recipients: Vec<V::AgentIdentifier>,
    pub retyped_kind: Option<V::MessageKind>,
    pub rewritten_message: Option<V::Message>,
}

impl<V: Vocabulary> TriageRouting<V> {
    /// A routing of exactly the given recipients and changes.
    pub fn new(
        recipients: Vec<V::AgentIdentifier>,
        retyped_kind: Option<V::MessageKind>,
        rewritten_message: Option<V::Message>,
    ) -> (routing: Self)
        ensures
            routing.recipients == recipients,
            routing.retyped_kind == retyped_kind,
            routing.rewritten_message == rewritten_message,
    {
        Self { recipients, retyped_kind, rewritten_message }
    }
}

/// An escalation to the coordinator: why it is escalated, and the detail.
#[derive(Clone, Debug, PartialEq, Eq)]
pub struct EscalationNote {
    pub coordinator_reason: EscalationReason,
    pub detail: EscalationDetail,
}

impl EscalationNote {
    /// A note of exactly the given reason and detail.
    pub fn new(coordinator_reason: EscalationReason, detail: EscalationDetail) -> (note: Self)
        ensures
            note.coordinator_reason == coordinator_reason,
            note.detail == detail,
    {
        Self { coordinator_reason, detail }
    }
}

/// Why the judge refuses to deliver a message.
#[derive(Clone, Copy, Debug, PartialEq, Eq, Structural)]
pub enum TriageRejectionReason {
    NoEligibleRecipient,
    SenderNotRegistered,
    MalformedPayload,
}

} // verus!
