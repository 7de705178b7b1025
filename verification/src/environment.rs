//! Environment descriptors: the chain-level primitive types and protocol
//! limits a host runtime exposes to contract code.

use vstd::prelude::*;

verus! {

/// Tag for a chain-level primitive type: fixes its width and encoding.
#[derive(Clone, Copy, Debug, PartialEq, Eq, Structural)]
pub enum TypeTag {
    /// 32-byte account identifier.
    AccountId32,
    /// 32-byte hash digest.
    Hash32,
    /// Unsigned 32-bit integer.
    U32,
    /// Unsigned 64-bit integer.
    U64,
    /// Unsigned 128-bit integer.
    U128,
}

/// The event-topic limit of the default environment: how many indexed fields
/// one event may carry, excluding the implicit topic for its signature.
pub const DEFAULT_MAX_EVENT_TOPICS: u32 = 5;

/// An immutable description of a host runtime: the concrete primitive types
/// contract code works with, the event-topic limit, and the chain extension
/// available, if any. Descriptors are plain values: consumers pass the one
/// they selected explicitly, and distinct descriptors may live side by side.
#[derive(Clone, Copy, Debug, PartialEq, Eq)]
pub struct EnvironmentDescriptor {
    /// Type of an account identifier.
    pub account_id: TypeTag,
    /// Type of a balance amount.
    pub balance: TypeTag,
    /// Type of a hash digest.
    pub hash: TypeTag,
    /// Type of a block number.
    pub block_number: TypeTag,
    /// Type of a timestamp.
    pub timestamp: TypeTag,
    /// Maximum number of indexed fields permitted in one emitted event,
    /// excluding the implicit topic derived from the event's signature.
    pub max_event_topics: u32,
    /// Identifier of the chain-extension capability available, if any.
    pub chain_extension: Option<u32>,
}

/// A descriptor could not be derived: its topic limit would be structurally
/// invalid.
#[derive(Clone, Copy, Debug, PartialEq, Eq, Structural)]
pub enum ConfigurationError {
    /// Raising the topic limit would exceed the width of the limit field.
    TopicLimitOverflow,
}

/// An event's topic count exceeds the active descriptor's limit; the emission
/// must be rejected, not silently truncated.
#[derive(Clone, Copy, Debug, PartialEq, Eq)]
pub struct EncodingViolation {
    /// Indexed fields the event declares, excluding the implicit signature topic.
    pub indexed_count: u32,
    /// The limit the descriptor advertises.
    pub limit: u32,
}

/// The default environment: 32-byte accounts and hashes, 128-bit balances,
/// 32-bit block numbers, 64-bit timestamps, the default topic limit, and no
/// chain extension.
pub open spec fn default_environment_spec() -> EnvironmentDescriptor {
    EnvironmentDescriptor {
        account_id: TypeTag::AccountId32,
        balance: TypeTag::U128,
        hash: TypeTag::Hash32,
        block_number: TypeTag::U32,
        timestamp: TypeTag::U64,
        max_event_topics: DEFAULT_MAX_EVENT_TOPICS,
        chain_extension: None,
    }
}

/// Builds the default environment descriptor.
pub fn default_environment() -> (d: EnvironmentDescriptor)
    ensures
        d == default_environment_spec(),
{
    EnvironmentDescriptor {
        account_id: TypeTag::AccountId32,
        balance: TypeTag::U128,
        hash: TypeTag::Hash32,
        block_number: TypeTag::U32,
        timestamp: TypeTag::U64,
        max_event_topics: DEFAULT_MAX_EVENT_TOPICS,
        chain_extension: None,
    }
}

impl EnvironmentDescriptor {
    /// Whether this descriptor accepts an event with `indexed` indexed fields:
    /// together with the implicit signature topic the event carries
    /// `indexed + 1` topics, and that total must stay within the limit.
    pub open spec fn spec_accepts_topic_count(self, indexed: u32) -> bool {
        indexed + 1 <= self.max_event_topics
    }

    /// A descriptor equal to this one in every field but the topic limit,
    /// which is overridden with `limit`.
    pub fn with_max_event_topics(&self, limit: u32) -> (d: EnvironmentDescriptor)
        ensures
            d.max_event_topics == limit,
            d.account_id == self.account_id,
            d.balance == self.balance,
            d.hash == self.hash,
            d.block_number == self.block_number,
            d.timestamp == self.timestamp,
            d.chain_extension == self.chain_extension,
    {
        EnvironmentDescriptor { max_event_topics: limit, ..*self }
    }

    /// Derives a descriptor whose topic limit is raised by `delta`, every
    /// other field kept; fails when the raised limit would not fit.
    pub fn raised_topic_limit(&self, delta: u32) -> (r: Result<
        EnvironmentDescriptor,
        ConfigurationError,
    >)
        ensures
            r is Ok <==> self.max_event_topics + delta <= u32::MAX,
            r matches Ok(d) ==> {
                &&& d.max_event_topics == self.max_event_topics + delta
                &&& d.account_id == self.account_id
                &&& d.balance == self.balance
                &&& d.hash == self.hash
                &&& d.block_number == self.block_number
                &&& d.timestamp == self.timestamp
                &&& d.chain_extension == self.chain_extension
            },
            r matches Err(e) ==> e == ConfigurationError::TopicLimitOverflow,
    {
        match self.max_event_topics.checked_add(delta) {
            Some(limit) => Ok(self.with_max_event_topics(limit)),
            None => Err(ConfigurationError::TopicLimitOverflow),
        }
    }

    /// Whether this descriptor accepts an event with `indexed` indexed fields.
    pub fn accepts_topic_count(&self, indexed: u32) -> (b: bool)
        ensures
            b == self.spec_accepts_topic_count(indexed),
    {
        indexed < self.max_event_topics
    }

    /// Checks an event's indexed-field count against the limit; on rejection
    /// the violation names the offending count and the advertised limit.
    pub fn check_topic_count(&self, indexed: u32) -> (r: Result<(), EncodingViolation>)
        ensures
            r is Ok <==> self.spec_accepts_topic_count(indexed),
            r matches Err(e) ==> e.indexed_count == indexed && e.limit == self.max_event_topics,
    {
        if indexed < self.max_event_topics {
            Ok(())
        } else {
            Err(EncodingViolation { indexed_count: indexed, limit: self.max_event_topics })
        }
    }

    /// Whether a runtime that advertises `runtime_limit` topics per event can
    /// host code built against this descriptor: the descriptor must not claim
    /// more topics than the runtime allows.
    pub fn compatible_with_runtime(&self, runtime_limit: u32) -> (b: bool)
        ensures
            b == (self.max_event_topics <= runtime_limit),
    {
        self.max_event_topics <= runtime_limit
    }
}

/// Selector for the environment that diverges from the default in the
/// event-topic limit alone: it allows one indexed topic more.
#[derive(Clone, Copy, Debug, PartialEq, Eq)]
pub enum EnvironmentWithManyTopics {
    /// The selector carries no state: this is its only value.
    Selector,
}

/// The descriptor `EnvironmentWithManyTopics` stands for: the default
/// environment with its topic limit raised by one.
pub open spec fn many_topics_environment_spec() -> EnvironmentDescriptor {
    EnvironmentDescriptor {
        max_event_topics: (DEFAULT_MAX_EVENT_TOPICS + 1) as u32,
        ..default_environment_spec()
    }
}

impl EnvironmentWithManyTopics {
    /// Builds the descriptor of this environment.
    pub fn descriptor() -> (d: EnvironmentDescriptor)
        ensures
            d == many_topics_environment_spec(),
    {
        let base = default_environment();
        base.with_max_event_topics(DEFAULT_MAX_EVENT_TOPICS + 1)
    }
}

} // verus!
