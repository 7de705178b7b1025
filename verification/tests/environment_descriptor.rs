use env_keys::environment::default_environment;
use env_keys::environment::ConfigurationError;
use env_keys::environment::EncodingViolation;
use env_keys::environment::EnvironmentDescriptor;
use env_keys::environment::EnvironmentWithManyTopics;
use env_keys::environment::TypeTag;
use env_keys::environment::DEFAULT_MAX_EVENT_TOPICS;
use env_keys::events::accepts;
use env_keys::events::EventWithTopics;
use env_keys::events::Topics;

#[test]
fn default_environment_fields() {
    let d = default_environment();
    assert_eq!(d.account_id, TypeTag::AccountId32);
    assert_eq!(d.balance, TypeTag::U128);
    assert_eq!(d.hash, TypeTag::Hash32);
    assert_eq!(d.block_number, TypeTag::U32);
    assert_eq!(d.timestamp, TypeTag::U64);
    assert_eq!(d.max_event_topics, 5);
    assert_eq!(DEFAULT_MAX_EVENT_TOPICS, 5);
    assert_eq!(d.chain_extension, None);
}

#[test]
fn override_keeps_every_other_field() {
    let base = EnvironmentDescriptor { chain_extension: Some(3), ..default_environment() };
    let derived = base.with_max_event_topics(9);
    assert_eq!(derived.max_event_topics, 9);
    assert_eq!(derived.account_id, base.account_id);
    assert_eq!(derived.balance, base.balance);
    assert_eq!(derived.hash, base.hash);
    assert_eq!(derived.block_number, base.block_number);
    assert_eq!(derived.timestamp, base.timestamp);
    assert_eq!(derived.chain_extension, base.chain_extension);
}

#[test]
fn many_topics_descriptor_is_default_raised_by_one() {
    let d = EnvironmentWithManyTopics::descriptor();
    assert_eq!(d.max_event_topics, 6);
    assert_eq!(d, default_environment().with_max_event_topics(6));
    assert_eq!(d, default_environment().raised_topic_limit(1).unwrap());
}

#[test]
fn raising_the_limit_can_overflow() {
    let top = default_environment().with_max_event_topics(u32::MAX);
    assert_eq!(top.raised_topic_limit(1), Err(ConfigurationError::TopicLimitOverflow));
    assert_eq!(top.raised_topic_limit(0).unwrap().max_event_topics, u32::MAX);
}

#[test]
fn topic_limit_enforcement() {
    let d = default_environment();
    assert_eq!(d.max_event_topics, 5);
    assert!(d.accepts_topic_count(4));
    assert!(!d.accepts_topic_count(5));
    assert_eq!(d.check_topic_count(4), Ok(()));
    assert_eq!(d.check_topic_count(5), Err(EncodingViolation { indexed_count: 5, limit: 5 }));
}

#[test]
fn accepts_event_under_raised_limit() {
    let d = default_environment().raised_topic_limit(1).unwrap();
    assert_eq!(d.max_event_topics, 6);
    let e = EventWithTopics::default();
    assert_eq!(e.indexed_topic_count(), 4);
    assert!(accepts(&d, &e));
}

#[test]
fn emits_event_with_many_topics() {
    let mut contract = Topics::new();
    let env = EnvironmentWithManyTopics::descriptor();
    let emitted = contract.trigger(&env);
    assert!(emitted.is_ok());
    assert_eq!(emitted.unwrap(), EventWithTopics::default());
}

#[test]
fn rejects_event_when_limit_is_too_low() {
    let d = default_environment().with_max_event_topics(4);
    let mut contract = Topics::new();
    assert_eq!(contract.trigger(&d), Err(EncodingViolation { indexed_count: 4, limit: 4 }));
}

#[test]
fn incompatible_runtime_is_detected() {
    let d = EnvironmentWithManyTopics::descriptor();
    assert!(!d.compatible_with_runtime(5));
    assert!(d.compatible_with_runtime(6));
    assert!(d.compatible_with_runtime(7));
}
