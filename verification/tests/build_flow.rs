//! End-to-end drives of the build state machine, with hand-fed broker
//! replies in place of a live broker and registry.

use sink_connector::connector::{
    AvroOcfSinkConnectorBuilder, BrokerOp, KafkaSinkConnectorBuilder, RelationDesc, SinkConnector,
    SinkConnectorBuilder, SinkError,
};
use sink_connector::register::{
    BrokerRequest, BrokerResponse, ConfigEntry, RegisterPhase, TopicRegistration,
    start_registration,
};
use sink_connector::sink_build::{
    build, complete_avro_ocf, AvroOcfSinkBuild, KafkaBuildProgress, KafkaSinkBuild, SinkBuild,
};

fn desc() -> RelationDesc {
    RelationDesc { column_names: vec![String::from("a"), String::from("b")] }
}

fn kafka_builder(
    partition_count: Option<i32>,
    replication_factor: Option<i32>,
    consistency: Option<&str>,
) -> SinkConnectorBuilder {
    SinkConnectorBuilder::Kafka(KafkaSinkConnectorBuilder {
        topic_prefix: String::from("p"),
        topic_suffix: String::from("s"),
        partition_count,
        replication_factor,
        broker_addrs: String::from("localhost:9092"),
        value_schema: String::from("vschema"),
        key_schema: None,
        key_desc_and_indices: None,
        value_desc: desc(),
        consistency_value_schema: consistency.map(String::from),
        fuel: 10000,
        config_options: vec![(String::from("acks"), String::from("all"))],
    })
}

fn kafka_build(builder: SinkConnectorBuilder, id: u64) -> KafkaSinkBuild {
    match build(builder, id) {
        Ok(SinkBuild::Kafka(kb)) => kb,
        _ => panic!("expected a broker-backed build"),
    }
}

fn entry(name: &str, value: Option<&str>) -> ConfigEntry {
    ConfigEntry { name: String::from(name), value: value.map(String::from) }
}

fn step_ok(kb: KafkaSinkBuild, response: BrokerResponse) -> KafkaSinkBuild {
    match kb.step(response) {
        Ok(KafkaBuildProgress::Continue(next)) => next,
        Ok(KafkaBuildProgress::Done(_)) => panic!("build finished early"),
        Err(_) => panic!("step failed"),
    }
}

#[test]
fn explicit_sizes_skip_default_resolution() {
    let kb = kafka_build(kafka_builder(Some(3), Some(2), None), 7);
    match kb.next_request() {
        Some(BrokerRequest::CreateTopic {
            topic,
            partition_count,
            replication_factor,
            timeout_secs,
        }) => {
            assert_eq!(topic, "p-7-s");
            assert_eq!(partition_count, 3);
            assert_eq!(replication_factor, 2);
            assert_eq!(timeout_secs, 5);
        },
        _ => panic!("expected an immediate topic-creation request"),
    }
}

#[test]
fn defaulted_sizes_resolve_from_broker_config() {
    let reg = start_registration(
        String::from("p-7-s"),
        None,
        None,
        String::from("vschema"),
        None,
    );
    assert!(matches!(reg.next_request(), Some(BrokerRequest::FetchMetadata)));
    let reg = reg.step(BrokerResponse::Metadata { broker_ids: vec![4, 9] }).unwrap();
    match reg.next_request() {
        Some(BrokerRequest::DescribeBrokerConfig { broker, timeout_secs }) => {
            assert_eq!(broker, 4);
            assert_eq!(timeout_secs, 5);
        },
        _ => panic!("expected a config query for the first broker"),
    }
    let reg = reg
        .step(BrokerResponse::Configs {
            results: vec![Ok(vec![
                entry("log.retention.hours", Some("168")),
                entry("num.partitions", Some("3")),
                entry("default.replication.factor", Some("2")),
            ])],
        })
        .unwrap();
    match reg.next_request() {
        Some(BrokerRequest::CreateTopic { partition_count, replication_factor, .. }) => {
            assert_eq!(partition_count, 3);
            assert_eq!(replication_factor, 2);
        },
        _ => panic!("expected topic creation with the resolved sizes"),
    }
}

#[test]
fn zero_brokers_fails_resolution() {
    let kb = kafka_build(kafka_builder(None, Some(2), None), 7);
    assert!(matches!(kb.next_request(), Some(BrokerRequest::FetchMetadata)));
    match kb.step(BrokerResponse::Metadata { broker_ids: vec![] }) {
        Err(SinkError::NoBrokersDiscovered { topic }) => assert_eq!(topic, "p-7-s"),
        _ => panic!("expected NoBrokersDiscovered"),
    }
}

#[test]
fn config_result_count_must_be_one() {
    let kb = kafka_build(kafka_builder(None, Some(2), None), 7);
    let kb = step_ok(kb, BrokerResponse::Metadata { broker_ids: vec![0] });
    match kb.step(BrokerResponse::Configs { results: vec![Ok(vec![]), Ok(vec![])] }) {
        Err(SinkError::UnexpectedConfigResultCount { topic, broker, count }) => {
            assert_eq!(topic, "p-7-s");
            assert_eq!(broker, 0);
            assert_eq!(count, 2);
        },
        _ => panic!("expected UnexpectedConfigResultCount"),
    }
}

#[test]
fn unparsable_config_value_fails() {
    let kb = kafka_build(kafka_builder(None, Some(2), None), 7);
    let kb = step_ok(kb, BrokerResponse::Metadata { broker_ids: vec![0] });
    match kb.step(BrokerResponse::Configs {
        results: vec![Ok(vec![entry("num.partitions", Some("abc"))])],
    }) {
        Err(SinkError::UnparsableConfigValue { key, value }) => {
            assert_eq!(key, "num.partitions");
            assert_eq!(value, "abc");
        },
        _ => panic!("expected UnparsableConfigValue"),
    }
}

#[test]
fn missing_default_key_fails() {
    let kb = kafka_build(kafka_builder(None, Some(2), None), 7);
    let kb = step_ok(kb, BrokerResponse::Metadata { broker_ids: vec![0] });
    match kb.step(BrokerResponse::Configs {
        results: vec![Ok(vec![entry("log.retention.hours", Some("168"))])],
    }) {
        Err(SinkError::MissingDefaultConfigKey { key }) => assert_eq!(key, "num.partitions"),
        _ => panic!("expected MissingDefaultConfigKey"),
    }
}

#[test]
fn creation_result_count_must_be_one() {
    let kb = kafka_build(kafka_builder(Some(3), Some(2), None), 7);
    match kb.step(BrokerResponse::TopicsCreated { results: vec![] }) {
        Err(SinkError::TopicCreationResultCountMismatch { topic, count }) => {
            assert_eq!(topic, "p-7-s");
            assert_eq!(count, 0);
        },
        _ => panic!("expected TopicCreationResultCountMismatch"),
    }
}

#[test]
fn rejected_creation_reports_broker_cause() {
    let kb = kafka_build(kafka_builder(Some(3), Some(2), None), 7);
    match kb.step(BrokerResponse::TopicsCreated {
        results: vec![Err(String::from("topic already exists"))],
    }) {
        Err(SinkError::TopicCreationRejected { topic, message }) => {
            assert_eq!(topic, "p-7-s");
            assert_eq!(message, "topic already exists");
        },
        _ => panic!("expected TopicCreationRejected"),
    }
}

#[test]
fn transport_failure_names_the_operation() {
    let kb = kafka_build(kafka_builder(None, Some(2), None), 7);
    match kb.step(BrokerResponse::Failed { message: String::from("timed out") }) {
        Err(SinkError::BrokerRequestFailed { op: BrokerOp::FetchMetadata, topic, message }) => {
            assert_eq!(topic, "p-7-s");
            assert_eq!(message, "timed out");
        },
        _ => panic!("expected BrokerRequestFailed"),
    }
}

#[test]
fn schema_publish_failure_after_creation_leaves_topic_behind() {
    let kb = kafka_build(kafka_builder(Some(3), Some(2), None), 7);
    let kb = step_ok(kb, BrokerResponse::TopicsCreated { results: vec![Ok(())] });
    match kb.next_request() {
        Some(BrokerRequest::PublishSchema { subject, schema }) => {
            assert_eq!(subject, "p-7-s-value");
            assert_eq!(schema, "vschema");
        },
        _ => panic!("expected a value-schema publication"),
    }
    match kb.step(BrokerResponse::Failed { message: String::from("registry unavailable") }) {
        Err(SinkError::SchemaPublishFailure { subject, message }) => {
            assert_eq!(subject, "p-7-s-value");
            assert_eq!(message, "registry unavailable");
        },
        _ => panic!("expected SchemaPublishFailure"),
    }
}

#[test]
fn key_schema_publishes_after_value_schema() {
    let builder = SinkConnectorBuilder::Kafka(KafkaSinkConnectorBuilder {
        topic_prefix: String::from("p"),
        topic_suffix: String::from("s"),
        partition_count: Some(3),
        replication_factor: Some(2),
        broker_addrs: String::from("localhost:9092"),
        value_schema: String::from("vschema"),
        key_schema: Some(String::from("kschema")),
        key_desc_and_indices: Some((RelationDesc { column_names: vec![String::from("k")] }, vec![0])),
        value_desc: desc(),
        consistency_value_schema: None,
        fuel: 10000,
        config_options: vec![],
    });
    let kb = kafka_build(builder, 7);
    let kb = step_ok(kb, BrokerResponse::TopicsCreated { results: vec![Ok(())] });
    let kb = step_ok(kb, BrokerResponse::SchemaPublished { schema_id: 41 });
    match kb.next_request() {
        Some(BrokerRequest::PublishSchema { subject, schema }) => {
            assert_eq!(subject, "p-7-s-key");
            assert_eq!(schema, "kschema");
        },
        _ => panic!("expected a key-schema publication"),
    }
    match kb.step(BrokerResponse::SchemaPublished { schema_id: 43 }) {
        Ok(KafkaBuildProgress::Done(SinkConnector::Kafka(c))) => {
            assert_eq!(c.value_schema_id, 41);
            assert_eq!(c.key_schema_id, Some(43));
            assert_eq!(c.topic, "p-7-s");
            assert!(c.consistency.is_none());
        },
        _ => panic!("expected a finished connector"),
    }
}

#[test]
fn consistency_topic_uses_partition_count_one() {
    // Primary topic resolves to six partitions; the consistency topic must
    // still be created with exactly one.
    let kb = kafka_build(kafka_builder(None, Some(2), Some("cschema")), 7);
    let kb = step_ok(kb, BrokerResponse::Metadata { broker_ids: vec![0] });
    let kb = step_ok(
        kb,
        BrokerResponse::Configs { results: vec![Ok(vec![entry("num.partitions", Some("6"))])] },
    );
    match kb.next_request() {
        Some(BrokerRequest::CreateTopic { topic, partition_count, .. }) => {
            assert_eq!(topic, "p-7-s");
            assert_eq!(partition_count, 6);
        },
        _ => panic!("expected primary topic creation"),
    }
    let kb = step_ok(kb, BrokerResponse::TopicsCreated { results: vec![Ok(())] });
    let kb = step_ok(kb, BrokerResponse::SchemaPublished { schema_id: 51 });
    match kb.next_request() {
        Some(BrokerRequest::CreateTopic {
            topic,
            partition_count,
            replication_factor,
            ..
        }) => {
            assert_eq!(topic, "p-7-s-consistency");
            assert_eq!(partition_count, 1);
            assert_eq!(replication_factor, 2);
        },
        _ => panic!("expected consistency topic creation"),
    }
    let kb = step_ok(kb, BrokerResponse::TopicsCreated { results: vec![Ok(())] });
    match kb.next_request() {
        Some(BrokerRequest::PublishSchema { subject, schema }) => {
            assert_eq!(subject, "p-7-s-consistency-value");
            assert_eq!(schema, "cschema");
        },
        _ => panic!("expected consistency schema publication"),
    }
    match kb.step(BrokerResponse::SchemaPublished { schema_id: 52 }) {
        Ok(KafkaBuildProgress::Done(SinkConnector::Kafka(c))) => {
            assert_eq!(c.value_schema_id, 51);
            assert_eq!(c.key_schema_id, None);
            let cc = c.consistency.expect("consistency connector present");
            assert_eq!(cc.topic, "p-7-s-consistency");
            assert_eq!(cc.schema_id, 52);
        },
        _ => panic!("expected a finished connector"),
    }
}

#[test]
fn consistency_resolves_replication_factor_independently() {
    // The builder left the replication factor defaulted, so the consistency
    // registration repeats resolution even though the primary already did.
    let kb = kafka_build(kafka_builder(Some(6), None, Some("cschema")), 7);
    let kb = step_ok(kb, BrokerResponse::Metadata { broker_ids: vec![0] });
    let kb = step_ok(
        kb,
        BrokerResponse::Configs {
            results: vec![Ok(vec![entry("default.replication.factor", Some("3"))])],
        },
    );
    let kb = step_ok(kb, BrokerResponse::TopicsCreated { results: vec![Ok(())] });
    let kb = step_ok(kb, BrokerResponse::SchemaPublished { schema_id: 60 });
    assert!(matches!(kb.next_request(), Some(BrokerRequest::FetchMetadata)));
    let kb = step_ok(kb, BrokerResponse::Metadata { broker_ids: vec![0] });
    let kb = step_ok(
        kb,
        BrokerResponse::Configs {
            results: vec![Ok(vec![entry("default.replication.factor", Some("1"))])],
        },
    );
    match kb.next_request() {
        Some(BrokerRequest::CreateTopic { topic, partition_count, replication_factor, .. }) => {
            assert_eq!(topic, "p-7-s-consistency");
            assert_eq!(partition_count, 1);
            assert_eq!(replication_factor, 1);
        },
        _ => panic!("expected consistency topic creation"),
    }
}

#[test]
fn explicit_sizes_ignore_config_entries_when_registration_started_directly() {
    // A registration whose sizes are supplied never reaches the config phase;
    // feeding the scan supplied sizes leaves them untouched.
    let reg = start_registration(
        String::from("t"),
        None,
        Some(2),
        String::from("v"),
        None,
    );
    let reg = reg.step(BrokerResponse::Metadata { broker_ids: vec![0] }).unwrap();
    let reg: TopicRegistration = reg
        .step(BrokerResponse::Configs {
            results: vec![Ok(vec![
                entry("num.partitions", Some("6")),
                entry("default.replication.factor", Some("5")),
            ])],
        })
        .unwrap();
    assert!(matches!(reg.phase, RegisterPhase::NeedTopicCreation));
    match reg.next_request() {
        Some(BrokerRequest::CreateTopic { partition_count, replication_factor, .. }) => {
            assert_eq!(partition_count, 6);
            assert_eq!(replication_factor, 2);
        },
        _ => panic!("expected topic creation"),
    }
}

#[test]
fn entry_without_value_is_skipped() {
    let kb = kafka_build(kafka_builder(None, Some(2), None), 7);
    let kb = step_ok(kb, BrokerResponse::Metadata { broker_ids: vec![0] });
    let kb = step_ok(
        kb,
        BrokerResponse::Configs {
            results: vec![Ok(vec![
                entry("num.partitions", None),
                entry("num.partitions", Some("4")),
            ])],
        },
    );
    match kb.next_request() {
        Some(BrokerRequest::CreateTopic { partition_count, .. }) => {
            assert_eq!(partition_count, 4);
        },
        _ => panic!("expected topic creation"),
    }
}

#[test]
fn avro_ocf_build_derives_path_then_claims_it() {
    let builder = SinkConnectorBuilder::AvroOcf(AvroOcfSinkConnectorBuilder {
        path: String::from("/out/data.avro"),
        file_name_suffix: String::from("x"),
        value_desc: desc(),
    });
    let ab: AvroOcfSinkBuild = match build(builder, 3) {
        Ok(SinkBuild::AvroOcf(ab)) => ab,
        _ => panic!("expected a file-backed build"),
    };
    assert_eq!(ab.path, "/out/data-3-x.avro");
    match complete_avro_ocf(ab, Ok(())) {
        Ok(SinkConnector::AvroOcf(c)) => assert_eq!(c.path, "/out/data-3-x.avro"),
        _ => panic!("expected a finished file connector"),
    }
}

#[test]
fn existing_file_fails_the_second_build() {
    let builder = SinkConnectorBuilder::AvroOcf(AvroOcfSinkConnectorBuilder {
        path: String::from("/out/data.avro"),
        file_name_suffix: String::from("x"),
        value_desc: desc(),
    });
    let ab = match build(builder, 3) {
        Ok(SinkBuild::AvroOcf(ab)) => ab,
        _ => panic!("expected a file-backed build"),
    };
    match complete_avro_ocf(ab, Err(String::from("file exists"))) {
        Err(SinkError::SinkFileAlreadyExists { path, message }) => {
            assert_eq!(path, "/out/data-3-x.avro");
            assert_eq!(message, "file exists");
        },
        _ => panic!("expected SinkFileAlreadyExists"),
    }
}

#[test]
fn missing_stem_fails_before_any_filesystem_step() {
    let builder = SinkConnectorBuilder::AvroOcf(AvroOcfSinkConnectorBuilder {
        path: String::from("/out/"),
        file_name_suffix: String::from("x"),
        value_desc: desc(),
    });
    match build(builder, 3) {
        Err(SinkError::PathMissingFileStem { path }) => assert_eq!(path, "/out/"),
        _ => panic!("expected PathMissingFileStem"),
    }
}

#[test]
fn unreadable_config_result_reports_describe_failure() {
    let kb = kafka_build(kafka_builder(None, Some(2), None), 7);
    let kb = step_ok(kb, BrokerResponse::Metadata { broker_ids: vec![0] });
    match kb.step(BrokerResponse::Configs {
        results: vec![Err(String::from("not authorized"))],
    }) {
        Err(SinkError::BrokerRequestFailed { op: BrokerOp::DescribeConfigs, topic, message }) => {
            assert_eq!(topic, "p-7-s");
            assert_eq!(message, "not authorized");
        },
        _ => panic!("expected BrokerRequestFailed for the config query"),
    }
}

#[test]
fn transport_failure_during_creation_names_create_topics() {
    let kb = kafka_build(kafka_builder(Some(3), Some(2), None), 7);
    match kb.step(BrokerResponse::Failed { message: String::from("timed out") }) {
        Err(SinkError::BrokerRequestFailed { op: BrokerOp::CreateTopics, topic, message }) => {
            assert_eq!(topic, "p-7-s");
            assert_eq!(message, "timed out");
        },
        _ => panic!("expected BrokerRequestFailed for topic creation"),
    }
}
