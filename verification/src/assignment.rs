use vstd::prelude::*;

use crate::diagnostic::JudgeDiagnostic;
use crate::scope::JudgmentScope;
use crate::vocabulary::Vocabulary;

verus! {

/// What the judge is given to seat a registering agent: the scope, the
/// agent's mission and the topics that exist already.
#[derive(Clone, Debug, PartialEq, Eq)]
pub struct TopicAssignmentPacket<V: Vocabulary> {
    pub scope: JudgmentScope,
    pub mission: V::Mission,
    pub existing_topics: Vec<V::Topic>,
}

impl<V: Vocabulary> TopicAssignmentPacket<V> {
    /// A packet of exactly the given parts.
    pub fn new(scope: JudgmentScope, mission: V::Mission, existing_topics: Vec<V::Topic>) -> (packet: Self)
        ensures
            packet.scope == scope,
            packet.mission == mission,
            packet.existing_topics == existing_topics,
    {
        Self { scope, mission, existing_topics }
    }
}

/// The judge's answer to a topic-assignment request, with its diagnostic.
#[derive(Clone, Debug, PartialEq, Eq)]
pub struct TopicAssignmentResponse<V: Vocabulary> {
    pub verdict: TopicAssignmentVerdict<V>,
    pub diagnostic: JudgeDiagnostic,
}

impl<V: Vocabulary> TopicAssignmentResponse<V> {
    /// A response of exactly the given verdict and diagnostic.
    pub fn new(verdict: TopicAssignmentVerdict<V>, diagnostic: JudgeDiagnostic) -> (response: Self)
        ensures
            response.verdict == verdict,
            response.diagnostic == diagnostic,
    {
        Self { verdict, diagnostic }
    }
}

/// Seat the agent, or refuse to for a semantic reason.
#[derive(Clone, Debug, PartialEq, Eq)]
pub enum TopicAssignmentVerdict<V: Vocabulary> {
    Assign(TopicAssignment<V>),
    Reject(TopicAssignmentRejectionReason),
}

/// The judge's seating decision: which existing topics to reuse, and which new
/// topics to create.
#[derive(Clone, Debug, PartialEq, Eq)]
pub struct TopicAssignment<V: Vocabulary> {
    pub reuse_topics: Vec<V::TopicPath>,
    pub create_topics: Vec<NewTopic<V>>,
}

impl<V: Vocabulary> TopicAssignment<V> {
    /// An assignment of exactly the given topics to reuse and to create.
    pub fn new(reuse_topics: Vec<V::TopicPath>, create_topics: Vec<NewTopic<V>>) -> (assignment: Self)
        ensures
            assignment.reuse_topics == reuse_topics,
            assignment.create_topics == create_topics,
    {
        Self { reuse_topics, create_topics }
    }
}

/// A topic the judge asks to create. `parent` is the containing topic path,
/// absent for a root topic.
#[derive(Clone, Debug, PartialEq, Eq)]
pub struct NewTopic<V: Vocabulary> {
    pub parent: Option<V::TopicPath>,
    pub name: V::TopicName,
}

impl<V: Vocabulary> NewTopic<V> {
    /// A new topic named `name` under `parent`, or at the root without one.
    pub fn new(parent: Option<V::TopicPath>, name: V::TopicName) -> (topic: Self)
        ensures
            topic.parent == parent,
            topic.name == name,
    {
        Self { parent, name }
    }
}

/// Why the judge will not seat an agent.
#[derive(Clone, Copy, Debug, PartialEq, Eq, Structural)]
pub enum TopicAssignmentRejectionReason {
    MissionTooVague,
    MissionEmpty,
}

} // verus!
