//! Typed request and reply contract between the orchestrator and its judge
//! adapter: topic assignment for registering agents and triage of messages
//! addressed to the orchestrator.

pub mod assignment;
pub mod diagnostic;
pub mod error;
pub mod exchange;
pub mod scope;
pub mod text;
pub mod triage;
pub mod vocabulary;

pub use error::Error;
pub use text::{ContentHash, EscalationDetail, EscalationReason, RedactedText};
pub use diagnostic::{JudgeDiagnostic, OrchestratorJudgeRequestRejection, OrchestratorJudgeRequestRejectionReason};
pub use scope::{JudgmentScope, PrivateDiagnosticPolicy, PrivateJudgmentScope};
pub use vocabulary::Vocabulary;
pub use assignment::{NewTopic, TopicAssignment, TopicAssignmentPacket, TopicAssignmentRejectionReason, TopicAssignmentResponse, TopicAssignmentVerdict};
pub use exchange::{OrchestratorJudgeReply, OrchestratorJudgeRequest};
pub use triage::{EscalationNote, TriagePacket, TriageRejectionReason, TriageResponse, TriageRouting, TriageVerdict};
