use vstd::prelude::*;

use crate::assignment::{TopicAssignmentPacket, TopicAssignmentResponse};
use crate::diagnostic::OrchestratorJudgeRequestRejection;
use crate::triage::{TriagePacket, TriageResponse};
use crate::vocabulary::Vocabulary;

verus! {

/// A request from the orchestrator to the judge.
#[derive(Clone, Debug, PartialEq, Eq)]
pub enum OrchestratorJudgeRequest<V: Vocabulary> {
    AssignTopic(TopicAssignmentPacket<V>),
    TriageMessage(TriagePacket<V>),
}

/// The number under which a request's variant is logged.
pub open spec fn request_log_variant<V: Vocabulary>(request: OrchestratorJudgeRequest<V>) -> u64 {
    match request {
        OrchestratorJudgeRequest::AssignTopic(_) => 1,
        OrchestratorJudgeRequest::TriageMessage(_) => 2,
    }
}

impl<V: Vocabulary> OrchestratorJudgeRequest<V> {
    /// The number that names this request's variant in logs.
    pub fn log_variant(&self) -> (variant: u64)
        ensures
            variant == request_log_variant(*self),
    {
        match self {
            Self::AssignTopic(_) => 1,
            Self::TriageMessage(_) => 2,
        }
    }
}

/// Requests of different variants are logged under different numbers.
pub proof fn log_variants_tell_requests_apart<V: Vocabulary>(
    first: OrchestratorJudgeRequest<V>,
    second: OrchestratorJudgeRequest<V>,
)
    ensures
        request_log_variant(first) == request_log_variant(second) <==> (first is AssignTopic
            <==> second is AssignTopic),
{
}

/// A reply from the judge: a topic-assignment answer, a triage answer, or a
/// rejection of the request itself.
#[derive(Clone, Debug, PartialEq, Eq)]
pub enum OrchestratorJudgeReply<V: Vocabulary> {
    TopicAssigned(TopicAssignmentResponse<V>),
    MessageTriaged(TriageResponse<V>),
    RequestRejected(OrchestratorJudgeRequestRejection),
}

} // verus!
