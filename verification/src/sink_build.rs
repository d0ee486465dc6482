//! The connector dispatcher and the two build paths.
//!
//! `build` routes a builder to the path matching its variant. A file-backed
//! build derives its output path immediately and then only waits for the
//! caller to claim that path exclusively on the filesystem
//! (`complete_avro_ocf`). A broker-backed build is a state machine over
//! `TopicRegistration`: first the primary topic, then — when the builder
//! supplied a consistency schema — the single-partition consistency topic,
//! and finally the assembled connector descriptor.

use vstd::prelude::*;
use vstd::string::StringExecFns;

use crate::connector::{
    AvroOcfSinkConnector, AvroOcfSinkConnectorBuilder, KafkaSinkConnector,
    KafkaSinkConnectorBuilder, KafkaSinkConsistencyConnector, RelationDesc, SinkConnector,
    SinkConnectorBuilder, SinkError,
};
use crate::paths::{derive_sink_path, derived_sink_path, has_file_stem};
use crate::register::{
    lemma_scan_keeps_supplied_sizes, reg_err, reg_post_phase, reg_post_sizes,
    reg_request_matches, reg_step_ok, response_expected, start_registration, BrokerRequest,
    BrokerResponse, RegisterPhase, TopicRegistration,
};
use crate::text::{append_dec_u64, dec_digits};

verus! {

/// The derived name of a sink's primary topic: `<prefix>-<id>-<suffix>`.
pub open spec fn sink_topic_name(prefix: Seq<char>, id: nat, suffix: Seq<char>) -> Seq<char> {
    prefix + "-"@ + dec_digits(id) + "-"@ + suffix
}

/// The derived name of a consistency topic: `<primary topic>-consistency`.
pub open spec fn consistency_topic_name(topic: Seq<char>) -> Seq<char> {
    topic + "-consistency"@
}

/// Renders the primary topic name for a sink. Topic naming is deterministic:
/// it depends on nothing but the three arguments.
pub fn derive_topic_name(prefix: &str, id: u64, suffix: &str) -> (r: String)
    ensures
        r@ == sink_topic_name(prefix@, id as nat, suffix@),
{
    let mut out = String::from_str(prefix);
    out = out.concat("-");
    out = append_dec_u64(out, id);
    out = out.concat("-");
    out = out.concat(suffix);
    proof {
        assert(out@ =~= sink_topic_name(prefix@, id as nat, suffix@));
    }
    out
}

/// Which topic a broker-backed build is currently registering.
pub enum KafkaBuildPhase {
    /// Registering the primary topic.
    Primary(TopicRegistration),
    /// Primary done (its schema ids are held here); registering the
    /// consistency topic.
    Consistency {
        key_schema_id: Option<i32>,
        value_schema_id: i32,
        registration: TopicRegistration,
    },
}

/// A broker-backed build in progress: the passthrough fields of the final
/// connector, and the registration under way.
pub struct KafkaSinkBuild {
    pub topic: String,
    pub addrs: String,
    pub key_desc_and_indices: Option<(RelationDesc, Vec<usize>)>,
    pub value_desc: RelationDesc,
    pub fuel: usize,
    pub config_options: Vec<(String, String)>,
    pub consistency_schema: Option<String>,
    pub replication_factor_request: Option<i32>,
    pub phase: KafkaBuildPhase,
}

impl KafkaSinkBuild {
    /// The registration currently driving the build.
    pub open spec fn active_registration(&self) -> TopicRegistration {
        match self.phase {
            KafkaBuildPhase::Primary(reg) => reg,
            KafkaBuildPhase::Consistency { registration, .. } => registration,
        }
    }

    /// The active registration is well formed and unfinished; the primary
    /// registration registers the primary topic, the consistency registration
    /// the consistency topic with partition count pinned to one.
    pub open spec fn wf(&self) -> bool {
        &&& (self.replication_factor_request matches Some(v) ==> v > 0)
        &&& match self.phase {
            KafkaBuildPhase::Primary(reg) => {
                &&& reg.wf()
                &&& !(reg.phase matches RegisterPhase::Complete { .. })
                &&& reg.topic@ == self.topic@
            },
            KafkaBuildPhase::Consistency { registration, .. } => {
                &&& registration.wf()
                &&& !(registration.phase matches RegisterPhase::Complete { .. })
                &&& registration.topic@ == consistency_topic_name(self.topic@)
                &&& registration.partition_count == Some(1i32)
                &&& registration.key_schema is None
                &&& self.consistency_schema is Some
            },
        }
    }
}

/// What one advancing step of a broker-backed build produces.
pub enum KafkaBuildProgress {
    /// More requests remain.
    Continue(KafkaSinkBuild),
    /// The build is finished; here is the connector descriptor.
    Done(SinkConnector),
}

/// The fields of the final connector that a build carries through unchanged.
pub open spec fn kafka_passthrough_preserved(pre: KafkaSinkBuild, next: KafkaSinkBuild) -> bool {
    &&& next.topic == pre.topic
    &&& next.addrs == pre.addrs
    &&& next.key_desc_and_indices == pre.key_desc_and_indices
    &&& next.value_desc == pre.value_desc
    &&& next.fuel == pre.fuel
    &&& next.config_options == pre.config_options
    &&& next.consistency_schema@ == pre.consistency_schema@
    &&& next.replication_factor_request == pre.replication_factor_request
}

/// The connector a finished build assembles from its passthrough fields and
/// the registered schema ids.
pub open spec fn kafka_connector_assembled(
    pre: KafkaSinkBuild,
    key_schema_id: Option<i32>,
    value_schema_id: i32,
    c: KafkaSinkConnector,
) -> bool {
    &&& c.topic == pre.topic
    &&& c.addrs == pre.addrs
    &&& c.key_schema_id == key_schema_id
    &&& c.value_schema_id == value_schema_id
    &&& c.key_desc_and_indices == pre.key_desc_and_indices
    &&& c.value_desc == pre.value_desc
    &&& c.fuel == pre.fuel
    &&& c.config_options == pre.config_options
}

/// The consistency registration a completed primary registration starts:
/// the `-consistency` topic, partition count one whatever the primary
/// resolved, the builder's replication factor request resolved afresh, the
/// consistency schema as value schema, and no key schema.
pub open spec fn consistency_registration_started(
    pre: KafkaSinkBuild,
    reg: TopicRegistration,
) -> bool {
    &&& reg.topic@ == consistency_topic_name(pre.topic@)
    &&& reg.partition_count == Some(1i32)
    &&& reg.replication_factor == pre.replication_factor_request
    &&& (pre.consistency_schema matches Some(cs) && reg.value_schema@ == cs@)
    &&& reg.key_schema is None
    &&& reg.phase == (if pre.replication_factor_request is Some {
        RegisterPhase::NeedTopicCreation
    } else {
        RegisterPhase::NeedMetadata
    })
}

/// What an advancing (`Ok`) step of a broker-backed build must produce, given
/// the active registration's own step outcome.
pub open spec fn kafka_step_progress(
    pre: KafkaSinkBuild,
    response: BrokerResponse,
    p: KafkaBuildProgress,
) -> bool {
    let reg = pre.active_registration();
    let post_phase = reg_post_phase(reg, response);
    let sizes = reg_post_sizes(reg, response);
    match pre.phase {
        KafkaBuildPhase::Primary(_) => match post_phase {
            RegisterPhase::Complete { key_schema_id, value_schema_id } => {
                if pre.consistency_schema is Some {
                    p matches KafkaBuildProgress::Continue(next) && {
                        &&& next.wf()
                        &&& kafka_passthrough_preserved(pre, next)
                        &&& (next.phase matches KafkaBuildPhase::Consistency {
                            key_schema_id: k,
                            value_schema_id: v,
                            registration,
                        } && k == key_schema_id && v == value_schema_id
                            && consistency_registration_started(pre, registration))
                    }
                } else {
                    p matches KafkaBuildProgress::Done(SinkConnector::Kafka(c)) && {
                        &&& kafka_connector_assembled(pre, key_schema_id, value_schema_id, c)
                        &&& c.consistency is None
                    }
                }
            },
            _ => p matches KafkaBuildProgress::Continue(next) && {
                &&& next.wf()
                &&& kafka_passthrough_preserved(pre, next)
                &&& (next.phase matches KafkaBuildPhase::Primary(reg2) && {
                    &&& reg2.topic == reg.topic
                    &&& reg2.value_schema == reg.value_schema
                    &&& reg2.key_schema == reg.key_schema
                    &&& reg2.phase == post_phase
                    &&& (reg2.partition_count, reg2.replication_factor) == sizes
                })
            },
        },
        KafkaBuildPhase::Consistency { key_schema_id, value_schema_id, .. } => match post_phase {
            RegisterPhase::Complete { value_schema_id: consistency_schema_id, .. } => {
                p matches KafkaBuildProgress::Done(SinkConnector::Kafka(c)) && {
                    &&& kafka_connector_assembled(pre, key_schema_id, value_schema_id, c)
                    &&& (c.consistency matches Some(cc) && cc.topic@ == consistency_topic_name(
                        pre.topic@,
                    ) && cc.schema_id == consistency_schema_id)
                }
            },
            _ => p matches KafkaBuildProgress::Continue(next) && {
                &&& next.wf()
                &&& kafka_passthrough_preserved(pre, next)
                &&& (next.phase matches KafkaBuildPhase::Consistency {
                    key_schema_id: k,
                    value_schema_id: v,
                    registration: reg2,
                } && k == key_schema_id && v == value_schema_id && {
                    &&& reg2.topic == reg.topic
                    &&& reg2.value_schema == reg.value_schema
                    &&& reg2.key_schema == reg.key_schema
                    &&& reg2.phase == post_phase
                    &&& (reg2.partition_count, reg2.replication_factor) == sizes
                })
            },
        },
    }
}

impl KafkaSinkBuild {
    /// The external request the build is waiting on. A well-formed build is
    /// never idle: its active registration always wants exactly one request.
    pub fn next_request(&self) -> (r: Option<BrokerRequest>)
        requires
            self.wf(),
        ensures
            reg_request_matches(self.active_registration(), r),
            r is Some,
    {
        match &self.phase {
            KafkaBuildPhase::Primary(reg) => reg.next_request(),
            KafkaBuildPhase::Consistency { registration, .. } => registration.next_request(),
        }
    }

    /// Consumes the reply to the outstanding request: the active registration
    /// steps, a completed primary registration hands over to the consistency
    /// registration (when one is due) or finishes the build, and a completed
    /// consistency registration finishes the build. A failing step reports
    /// the active registration's error and abandons the build; topics already
    /// created stay behind.
    pub fn step(self, response: BrokerResponse) -> (r: Result<KafkaBuildProgress, SinkError>)
        requires
            self.wf(),
            response_expected(self.active_registration().phase, response),
        ensures
            r is Ok <==> reg_step_ok(self.active_registration(), response),
            r matches Ok(p) ==> kafka_step_progress(self, response, p),
            r matches Err(e) ==> reg_err(self.active_registration(), response, e),
    {
        let KafkaSinkBuild {
            topic,
            addrs,
            key_desc_and_indices,
            value_desc,
            fuel,
            config_options,
            consistency_schema,
            replication_factor_request,
            phase,
        } = self;
        match phase {
            KafkaBuildPhase::Primary(reg) => {
                match reg.step(response) {
                    Err(e) => Err(e),
                    Ok(post) => match post.phase {
                        RegisterPhase::Complete { key_schema_id, value_schema_id } => {
                            let consistency_to_publish: Option<String> = match &consistency_schema
                                {
                                Some(cs) => Some(cs.clone()),
                                None => None,
                            };
                            if let Some(schema) = consistency_to_publish {
                                let registration = start_registration(
                                    topic.clone().concat("-consistency"),
                                    Some(1),
                                    replication_factor_request,
                                    schema,
                                    None,
                                );
                                Ok(
                                    KafkaBuildProgress::Continue(
                                        KafkaSinkBuild {
                                            topic,
                                            addrs,
                                            key_desc_and_indices,
                                            value_desc,
                                            fuel,
                                            config_options,
                                            consistency_schema,
                                            replication_factor_request,
                                            phase: KafkaBuildPhase::Consistency {
                                                key_schema_id,
                                                value_schema_id,
                                                registration,
                                            },
                                        },
                                    ),
                                )
                            } else {
                                Ok(
                                    KafkaBuildProgress::Done(
                                        SinkConnector::Kafka(
                                            KafkaSinkConnector {
                                                topic,
                                                addrs,
                                                key_schema_id,
                                                value_schema_id,
                                                key_desc_and_indices,
                                                value_desc,
                                                consistency: None,
                                                fuel,
                                                config_options,
                                            },
                                        ),
                                    ),
                                )
                            }
                        },
                        _ => Ok(
                            KafkaBuildProgress::Continue(
                                KafkaSinkBuild {
                                    topic,
                                    addrs,
                                    key_desc_and_indices,
                                    value_desc,
                                    fuel,
                                    config_options,
                                    consistency_schema,
                                    replication_factor_request,
                                    phase: KafkaBuildPhase::Primary(post),
                                },
                            ),
                        ),
                    },
                }
            },
            KafkaBuildPhase::Consistency { key_schema_id, value_schema_id, registration } => {
                let ghost reg0 = registration;
                let ghost resp = response;
                match registration.step(response) {
                    Err(e) => Err(e),
                    Ok(post) => match post.phase {
                        RegisterPhase::Complete { value_schema_id: consistency_schema_id, .. } => {
                            Ok(
                                KafkaBuildProgress::Done(
                                    SinkConnector::Kafka(
                                        KafkaSinkConnector {
                                            topic,
                                            addrs,
                                            key_schema_id,
                                            value_schema_id,
                                            key_desc_and_indices,
                                            value_desc,
                                            consistency: Some(
                                                KafkaSinkConsistencyConnector {
                                                    topic: post.topic,
                                                    schema_id: consistency_schema_id,
                                                },
                                            ),
                                            fuel,
                                            config_options,
                                        },
                                    ),
                                ),
                            )
                        },
                        _ => {
                            proof {
                                match resp {
                                    BrokerResponse::Configs { results } => {
                                        if results@.len() == 1 {
                                            match results@[0] {
                                                Ok(entries) => lemma_scan_keeps_supplied_sizes(
                                                    reg0.partition_count,
                                                    reg0.replication_factor,
                                                    entries@,
                                                ),
                                                _ => {},
                                            }
                                        }
                                    },
                                    _ => {},
                                }
                            }
                            Ok(
                                KafkaBuildProgress::Continue(
                                    KafkaSinkBuild {
                                        topic,
                                        addrs,
                                        key_desc_and_indices,
                                        value_desc,
                                        fuel,
                                        config_options,
                                        consistency_schema,
                                        replication_factor_request,
                                        phase: KafkaBuildPhase::Consistency {
                                            key_schema_id,
                                            value_schema_id,
                                            registration: post,
                                        },
                                    },
                                ),
                            )
                        },
                    },
                }
            },
        }
    }
}

/// A file-backed build that has derived its output path and now only needs
/// the path claimed on the filesystem.
pub struct AvroOcfSinkBuild {
    pub path: String,
    pub value_desc: RelationDesc,
}

/// Everything a sink build still needs from the outside world after
/// dispatch: broker replies, or one exclusive file creation.
pub enum SinkBuild {
    Kafka(KafkaSinkBuild),
    AvroOcf(AvroOcfSinkBuild),
}

/// Routes a builder to the path matching its variant and performs every
/// decision that needs no external reply: the broker path derives the primary
/// topic name and starts its registration — skipping default resolution
/// exactly when both sizes were supplied — and the file path derives (and
/// only derives) its output path, failing already here when the base path has
/// no file stem.
pub fn build(builder: SinkConnectorBuilder, id: u64) -> (r: Result<SinkBuild, SinkError>)
    requires
        builder.wf(),
    ensures
        match builder {
            SinkConnectorBuilder::Kafka(k) => r matches Ok(SinkBuild::Kafka(kb)) && {
                &&& kb.wf()
                &&& kb.topic@ == sink_topic_name(k.topic_prefix@, id as nat, k.topic_suffix@)
                &&& kb.addrs == k.broker_addrs
                &&& kb.key_desc_and_indices == k.key_desc_and_indices
                &&& kb.value_desc == k.value_desc
                &&& kb.fuel == k.fuel
                &&& kb.config_options == k.config_options
                &&& kb.consistency_schema == k.consistency_value_schema
                &&& kb.replication_factor_request == k.replication_factor
                &&& (kb.phase matches KafkaBuildPhase::Primary(reg) && {
                    &&& reg.partition_count == k.partition_count
                    &&& reg.replication_factor == k.replication_factor
                    &&& reg.value_schema == k.value_schema
                    &&& reg.key_schema == k.key_schema
                    &&& reg.phase == (if k.partition_count is Some && k.replication_factor is Some {
                        RegisterPhase::NeedTopicCreation
                    } else {
                        RegisterPhase::NeedMetadata
                    })
                })
            },
            SinkConnectorBuilder::AvroOcf(a) => {
                if has_file_stem(a.path@) {
                    r matches Ok(SinkBuild::AvroOcf(ab)) && ab.path@ == derived_sink_path(
                        a.path@,
                        id as nat,
                        a.file_name_suffix@,
                    ) && ab.value_desc == a.value_desc
                } else {
                    r matches Err(SinkError::PathMissingFileStem { path }) && path@ == a.path@
                }
            },
        },
{
    match builder {
        SinkConnectorBuilder::Kafka(k) => {
            let KafkaSinkConnectorBuilder {
                topic_prefix,
                topic_suffix,
                partition_count,
                replication_factor,
                broker_addrs,
                value_schema,
                key_schema,
                key_desc_and_indices,
                value_desc,
                consistency_value_schema,
                fuel,
                config_options,
            } = k;
            let topic = derive_topic_name(topic_prefix.as_str(), id, topic_suffix.as_str());
            let registration = start_registration(
                topic.clone(),
                partition_count,
                replication_factor,
                value_schema,
                key_schema,
            );
            Ok(
                SinkBuild::Kafka(
                    KafkaSinkBuild {
                        topic,
                        addrs: broker_addrs,
                        key_desc_and_indices,
                        value_desc,
                        fuel,
                        config_options,
                        consistency_schema: consistency_value_schema,
                        replication_factor_request: replication_factor,
                        phase: KafkaBuildPhase::Primary(registration),
                    },
                ),
            )
        },
        SinkConnectorBuilder::AvroOcf(a) => {
            let AvroOcfSinkConnectorBuilder { path, file_name_suffix, value_desc } = a;
            match derive_sink_path(path.as_str(), id, file_name_suffix.as_str()) {
                Ok(derived) => Ok(SinkBuild::AvroOcf(AvroOcfSinkBuild { path: derived, value_desc })),
                Err(e) => Err(e),
            }
        },
    }
}

/// Finishes a file-backed build from the outcome of the caller's one
/// filesystem step: creating the derived path exclusively, in append mode.
/// Success yields the connector; failure — the path already existed, or the
/// filesystem reported an equivalent error — yields `SinkFileAlreadyExists`
/// for exactly that path, and the sink is not registered.
pub fn complete_avro_ocf(build: AvroOcfSinkBuild, create_result: Result<(), String>) -> (r: Result<
    SinkConnector,
    SinkError,
>)
    ensures
        create_result is Ok ==> (r matches Ok(SinkConnector::AvroOcf(c)) && c.path == build.path
            && c.value_desc == build.value_desc),
        create_result matches Err(m) ==> (r matches Err(
            SinkError::SinkFileAlreadyExists { path, message },
        ) && path == build.path && message == m),
{
    let AvroOcfSinkBuild { path, value_desc } = build;
    match create_result {
        Ok(_) => Ok(SinkConnector::AvroOcf(AvroOcfSinkConnector { path, value_desc })),
        Err(message) => Err(SinkError::SinkFileAlreadyExists { path, message }),
    }
}

} // verus!
