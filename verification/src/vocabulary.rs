use vstd::prelude::*;

verus! {

/// The topic, agent and message vocabulary that judge requests and replies
/// carry. The contract moves these values through unread; the orchestrator's
/// own crates supply them.
pub trait Vocabulary {
    /// A registering agent's mission.
    type Mission: Clone + core::fmt::Debug + PartialEq + Eq;
    /// A topic of the topic tree: its path, name and parent.
    type Topic: Clone + core::fmt::Debug + PartialEq + Eq;
    /// The path that names a topic.
    type TopicPath: Clone + core::fmt::Debug + PartialEq + Eq;
    /// The display name of a topic.
    type TopicName: Clone + core::fmt::Debug + PartialEq + Eq;
    /// The identifier of a registered agent.
    type AgentIdentifier: Clone + core::fmt::Debug + PartialEq + Eq;
    /// A summary of a registered agent.
    type AgentSummary: Clone + core::fmt::Debug + PartialEq + Eq;
    /// A message addressed through the orchestrator.
    type Message: Clone + core::fmt::Debug + PartialEq + Eq;
    /// The kind of such a message.
    type MessageKind: Clone + core::fmt::Debug + PartialEq + Eq;
}

} // verus!
