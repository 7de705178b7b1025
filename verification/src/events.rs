//! A minimal contract whose one message builds an event with many indexed
//! topics, validated against an explicitly chosen environment descriptor.
//! The emission itself — wire encoding and the host call — is the
//! surrounding runtime's business; this module decides whether the event is
//! admissible and hands it over.

use crate::environment::EncodingViolation;
use crate::environment::EnvironmentDescriptor;
use vstd::prelude::*;

verus! {

/// Number of indexed fields `EventWithTopics` declares, excluding the
/// implicit topic derived from the event's signature.
pub const EVENT_WITH_TOPICS_INDEXED_FIELDS: u32 = 4;

/// An event with four indexed fields: together with the implicit signature
/// topic it carries five topics, more than a default environment admits, but
/// acceptable under one with a raised limit.
#[derive(Clone, Copy, Debug, PartialEq, Eq, Structural)]
pub struct EventWithTopics {
    /// First indexed balance field.
    pub first_topic: u128,
    /// Second indexed balance field.
    pub second_topic: u128,
    /// Third indexed balance field.
    pub third_topic: u128,
    /// Fourth indexed balance field.
    pub fourth_topic: u128,
}

/// The event with every balance field zero.
pub open spec fn event_with_topics_default_spec() -> EventWithTopics {
    EventWithTopics { first_topic: 0, second_topic: 0, third_topic: 0, fourth_topic: 0 }
}

impl Default for EventWithTopics {
    /// Builds the event with every balance field zero.
    fn default() -> (e: Self)
        ensures
            e == event_with_topics_default_spec(),
    {
        EventWithTopics { first_topic: 0, second_topic: 0, third_topic: 0, fourth_topic: 0 }
    }
}

impl EventWithTopics {
    /// Count of indexed fields, excluding the implicit signature topic.
    pub fn indexed_topic_count(&self) -> (n: u32)
        ensures
            n == EVENT_WITH_TOPICS_INDEXED_FIELDS,
    {
        EVENT_WITH_TOPICS_INDEXED_FIELDS
    }
}

/// Whether environment `d` accepts event `e`: its four indexed topics plus
/// the implicit signature topic must stay within the descriptor's limit.
pub fn accepts(d: &EnvironmentDescriptor, e: &EventWithTopics) -> (b: bool)
    ensures
        b == d.spec_accepts_topic_count(EVENT_WITH_TOPICS_INDEXED_FIELDS),
{
    d.accepts_topic_count(e.indexed_topic_count())
}

/// Trivial contract with a single message that emits an event with many
/// topics.
#[derive(Clone, Copy, Debug, PartialEq, Eq, Structural)]
pub struct Topics {
}

impl Topics {
    /// Builds the contract in its initial state.
    pub fn new() -> (t: Topics)
        ensures
            t == (Topics {}),
    {
        Topics {}
    }

    /// Builds the event this contract emits, when the environment accepts
    /// its topic count; hands back the violation otherwise, so that nothing
    /// is emitted. The contract state is untouched either way.
    pub fn trigger(&mut self, env: &EnvironmentDescriptor) -> (r: Result<
        EventWithTopics,
        EncodingViolation,
    >)
        ensures
            *final(self) == *old(self),
            r is Ok <==> env.spec_accepts_topic_count(EVENT_WITH_TOPICS_INDEXED_FIELDS),
            r matches Ok(e) ==> e == event_with_topics_default_spec(),
            r matches Err(v) ==> v.indexed_count == EVENT_WITH_TOPICS_INDEXED_FIELDS && v.limit
                == env.max_event_topics,
    {
        match env.check_topic_count(EVENT_WITH_TOPICS_INDEXED_FIELDS) {
            Ok(()) => Ok(EventWithTopics::default()),
            Err(v) => Err(v),
        }
    }
}

} // verus!
