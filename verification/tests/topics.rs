use monky_utilities::application::{app_messages, AppTopic};
use monky_utilities::ops::{ops_components, ops_logs};
use monky_utilities::source::{source_facebook_events, source_twilio_events};
use monky_utilities::topic::{with_specific_avro_enabled, AbstractTopic, Topic};

#[test]
fn test_topic_names() {
    let topic = app_messages();
    assert_eq!(topic.name(None), "application.communication.messages");
    assert_eq!(topic.config().get("cleanup.policy").unwrap(), "compact");
}

#[test]
fn test_source_topic_names() {
    let fb = source_facebook_events();
    assert_eq!(fb.name(None), "source.facebook.events");

    let twilio = source_twilio_events();
    assert_eq!(twilio.name(None), "source.twilio.events");
}

#[test]
fn namespaced_topic_name() {
    let topic = app_messages();
    assert_eq!(topic.name(None), "application.communication.messages");
    assert_eq!(
        topic.name(Some("acme")),
        "acme.application.communication.messages"
    );
    assert_eq!(topic.name(Some("")), "application.communication.messages");
}

#[test]
fn namespace_prefix_shapes() {
    assert_eq!(AbstractTopic::namespace(None), "");
    assert_eq!(AbstractTopic::namespace(Some("")), "");
    assert_eq!(AbstractTopic::namespace(Some("acme")), "acme.");
}

#[test]
fn app_topics_default_to_compacted_config() {
    let cfg = app_messages().config();
    assert_eq!(cfg.get("cleanup.policy").unwrap(), "compact");
    assert_eq!(cfg.get("segment.bytes").unwrap(), "10485760");
    assert_eq!(cfg.get("min.compaction.lag.ms").unwrap(), "86400000");

    let custom = AppTopic::with_custom_config("messages");
    assert!(custom.config().is_empty());
}

#[test]
fn source_and_ops_configs_are_empty() {
    assert!(source_facebook_events().config().is_empty());
    assert!(ops_components().config().is_empty());
    assert!(ops_logs().config().is_empty());
}

#[test]
fn distinct_triples_distinct_names() {
    let names = [
        app_messages().name(None),
        source_facebook_events().name(None),
        source_twilio_events().name(None),
        ops_components().name(None),
        ops_logs().name(None),
    ];
    for i in 0..names.len() {
        for j in 0..names.len() {
            if i != j {
                assert_ne!(names[i], names[j]);
            }
        }
    }
}

#[test]
fn specific_avro_reader_flag() {
    let fresh = with_specific_avro_enabled(None);
    assert_eq!(fresh.get("specific.avro.reader").unwrap(), "true");

    let base = app_messages().config();
    let merged = with_specific_avro_enabled(Some(&base));
    assert_eq!(merged.get("specific.avro.reader").unwrap(), "true");
    assert_eq!(merged.get("cleanup.policy").unwrap(), "compact");
    assert_eq!(base.get("specific.avro.reader"), None);
}
