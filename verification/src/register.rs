//! Topic registration: resolving defaulted topic parameters from broker
//! configuration, creating the topic, and publishing its schemas.
//!
//! Registration is a state machine. Each phase names the one broker or
//! registry request that is outstanding (`next_request`); the caller performs
//! that request and hands the reply back to `step`, which either advances the
//! phase or fails with the error the reply forces. The first failure aborts
//! the registration; nothing is retried and nothing already created is
//! removed.

use vstd::pervasive::unreached;
use vstd::prelude::*;
use vstd::string::StrSliceExecFns;
use vstd::string::StringExecFns;

use crate::connector::{BrokerOp, SinkError};
use crate::text::{parse_pos_i32, parse_positive_i32, str_eq};
use crate::BROKER_REQUEST_TIMEOUT_SECS;

verus! {

/// The config key holding the broker's default partition count.
pub open spec fn num_partitions_key() -> Seq<char> {
    "num.partitions"@
}

/// The config key holding the broker's default replication factor.
pub open spec fn replication_factor_key() -> Seq<char> {
    "default.replication.factor"@
}

/// One configuration entry of a described broker.
pub struct ConfigEntry {
    pub name: String,
    pub value: Option<String>,
}

/// The one external request a registration phase is waiting on.
pub enum BrokerRequest {
    /// Fetch cluster metadata (the list of broker node ids).
    FetchMetadata,
    /// Describe the configuration of one broker node.
    DescribeBrokerConfig { broker: i32, timeout_secs: u64 },
    /// Create one topic with fully resolved parameters.
    CreateTopic { topic: String, partition_count: i32, replication_factor: i32, timeout_secs: u64 },
    /// Publish a schema under a registry subject.
    PublishSchema { subject: String, schema: String },
}

/// The reply to a `BrokerRequest`, as plain values.
pub enum BrokerResponse {
    /// Cluster metadata: the discovered broker node ids.
    Metadata { broker_ids: Vec<i32> },
    /// One result set per described resource; each set is the resource's
    /// entries or a per-resource error message.
    Configs { results: Vec<Result<Vec<ConfigEntry>, String>> },
    /// One result per requested topic: created, or rejected with a message.
    TopicsCreated { results: Vec<Result<(), String>> },
    /// The registry-assigned identifier of a published schema.
    SchemaPublished { schema_id: i32 },
    /// The request itself failed or timed out at the transport level.
    Failed { message: String },
}

/// Registration phases, in the order a run passes through them. A run that
/// starts with both sizes supplied begins directly at `NeedTopicCreation`.
#[derive(Clone, Copy)]
pub enum RegisterPhase {
    NeedMetadata,
    NeedConfigs { broker: i32 },
    NeedTopicCreation,
    NeedValueSchema,
    NeedKeySchema { value_schema_id: i32 },
    Complete { key_schema_id: Option<i32>, value_schema_id: i32 },
}

/// Phases are strictly ordered; `step` always increases the rank, so each
/// kind of request — in particular the metadata and config queries of default
/// resolution — is issued at most once per registration.
pub open spec fn phase_rank(p: RegisterPhase) -> nat {
    match p {
        RegisterPhase::NeedMetadata => 0,
        RegisterPhase::NeedConfigs { .. } => 1,
        RegisterPhase::NeedTopicCreation => 2,
        RegisterPhase::NeedValueSchema => 3,
        RegisterPhase::NeedKeySchema { .. } => 4,
        RegisterPhase::Complete { .. } => 5,
    }
}

/// The registration of one topic: its name, its (possibly still defaulted)
/// sizes, its schemas, and the phase reached so far.
pub struct TopicRegistration {
    pub topic: String,
    pub partition_count: Option<i32>,
    pub replication_factor: Option<i32>,
    pub value_schema: String,
    pub key_schema: Option<String>,
    pub phase: RegisterPhase,
}

impl TopicRegistration {
    /// Supplied sizes are strictly positive; once past resolution both are
    /// known; while resolution is pending at least one is missing; a key
    /// schema phase only arises when a key schema exists.
    pub open spec fn wf(&self) -> bool {
        &&& (self.partition_count matches Some(v) ==> v > 0)
        &&& (self.replication_factor matches Some(v) ==> v > 0)
        &&& (phase_rank(self.phase) >= 2 ==> self.partition_count is Some
            && self.replication_factor is Some)
        &&& (phase_rank(self.phase) < 2 ==> !(self.partition_count is Some
            && self.replication_factor is Some))
        &&& (self.phase matches RegisterPhase::NeedKeySchema { .. } ==> self.key_schema is Some)
    }
}

/// Scanning broker config entries in order, filling each still-missing size
/// from the first matching entry that carries a value. `Unparsable` reports
/// the first matching value that does not denote a positive count.
pub enum ScanOutcome {
    Scanned { partition_count: Option<i32>, replication_factor: Option<i32> },
    Unparsable { key: Seq<char>, value: Seq<char> },
}

pub open spec fn scan_config_entries(
    pc: Option<i32>,
    rf: Option<i32>,
    entries: Seq<ConfigEntry>,
) -> ScanOutcome
    decreases entries.len(),
{
    if entries.len() == 0 {
        ScanOutcome::Scanned { partition_count: pc, replication_factor: rf }
    } else {
        let e = entries.first();
        let rest = entries.drop_first();
        if e.name@ == num_partitions_key() && pc is None && e.value is Some {
            match e.value {
                Some(v) => match parse_pos_i32(v@) {
                    Some(n) => scan_config_entries(Some(n), rf, rest),
                    None => ScanOutcome::Unparsable { key: e.name@, value: v@ },
                },
                None => ScanOutcome::Scanned { partition_count: pc, replication_factor: rf },
            }
        } else if e.name@ == replication_factor_key() && rf is None && e.value is Some {
            match e.value {
                Some(v) => match parse_pos_i32(v@) {
                    Some(n) => scan_config_entries(pc, Some(n), rest),
                    None => ScanOutcome::Unparsable { key: e.name@, value: v@ },
                },
                None => ScanOutcome::Scanned { partition_count: pc, replication_factor: rf },
            }
        } else {
            scan_config_entries(pc, rf, rest)
        }
    }
}

/// A size the scan resolves is always strictly positive: supplied sizes are
/// positive by assumption, and a parsed config value is positive by the
/// definition of parsing.
pub proof fn lemma_scan_resolves_positive(
    pc: Option<i32>,
    rf: Option<i32>,
    entries: Seq<ConfigEntry>,
)
    requires
        pc matches Some(v) ==> v > 0,
        rf matches Some(v) ==> v > 0,
    ensures
        scan_config_entries(pc, rf, entries) matches ScanOutcome::Scanned {
            partition_count: p,
            replication_factor: r,
        } ==> (p matches Some(v) ==> v > 0) && (r matches Some(v) ==> v > 0),
    decreases entries.len(),
{
    if entries.len() > 0 {
        let e = entries.first();
        let rest = entries.drop_first();
        if e.name@ == num_partitions_key() && pc is None && e.value is Some {
            match e.value {
                Some(v) => match parse_pos_i32(v@) {
                    Some(n) => lemma_scan_resolves_positive(Some(n), rf, rest),
                    None => {},
                },
                None => {},
            }
        } else if e.name@ == replication_factor_key() && rf is None && e.value is Some {
            match e.value {
                Some(v) => match parse_pos_i32(v@) {
                    Some(n) => lemma_scan_resolves_positive(pc, Some(n), rest),
                    None => {},
                },
                None => {},
            }
        } else {
            lemma_scan_resolves_positive(pc, rf, rest);
        }
    }
}

/// The scan never touches a size that was already supplied: whatever the
/// entries say, a `Some` input comes out unchanged. In particular a
/// consistency topic registration started with partition count one keeps
/// partition count one through default resolution.
pub proof fn lemma_scan_keeps_supplied_sizes(
    pc: Option<i32>,
    rf: Option<i32>,
    entries: Seq<ConfigEntry>,
)
    ensures
        scan_config_entries(pc, rf, entries) matches ScanOutcome::Scanned {
            partition_count: p,
            replication_factor: r,
        } ==> (pc is Some ==> p == pc) && (rf is Some ==> r == rf),
    decreases entries.len(),
{
    if entries.len() > 0 {
        let e = entries.first();
        let rest = entries.drop_first();
        if e.name@ == num_partitions_key() && pc is None && e.value is Some {
            match e.value {
                Some(v) => match parse_pos_i32(v@) {
                    Some(n) => lemma_scan_keeps_supplied_sizes(Some(n), rf, rest),
                    None => {},
                },
                None => {},
            }
        } else if e.name@ == replication_factor_key() && rf is None && e.value is Some {
            match e.value {
                Some(v) => match parse_pos_i32(v@) {
                    Some(n) => lemma_scan_keeps_supplied_sizes(pc, Some(n), rest),
                    None => {},
                },
                None => {},
            }
        } else {
            lemma_scan_keeps_supplied_sizes(pc, rf, rest);
        }
    }
}

/// Fills the still-missing sizes from a broker's config entries, mirroring
/// `scan_config_entries`; fails if a matching value does not denote a
/// positive count, or if a size is still missing after the scan.
pub fn resolve_default_sizes(
    partition_count: Option<i32>,
    replication_factor: Option<i32>,
    entries: &Vec<ConfigEntry>,
) -> (r: Result<(i32, i32), SinkError>)
    requires
        partition_count matches Some(v) ==> v > 0,
        replication_factor matches Some(v) ==> v > 0,
    ensures
        match scan_config_entries(partition_count, replication_factor, entries@) {
            ScanOutcome::Scanned { partition_count: p, replication_factor: f } => match (p, f) {
                (Some(pv), Some(fv)) => r == Ok::<(i32, i32), SinkError>((pv, fv)),
                (None, _) => r matches Err(SinkError::MissingDefaultConfigKey { key })
                    && key@ == num_partitions_key(),
                (Some(_), None) => r matches Err(SinkError::MissingDefaultConfigKey { key })
                    && key@ == replication_factor_key(),
            },
            ScanOutcome::Unparsable { key: k, value: v } => r matches Err(
                SinkError::UnparsableConfigValue { key, value },
            ) && key@ == k && value@ == v,
        },
        r matches Ok((p, f)) ==> p > 0 && f > 0,
{
    let mut pc = partition_count;
    let mut rf = replication_factor;
    let mut i: usize = 0;
    proof {
        assert(entries@.skip(0) =~= entries@);
    }
    while i < entries.len()
        invariant
            0 <= i <= entries@.len(),
            scan_config_entries(partition_count, replication_factor, entries@)
                == scan_config_entries(
                pc,
                rf,
                entries@.skip(i as int),
            ),
        decreases entries@.len() - i,
    {
        proof {
            assert(entries@.skip(i as int).len() > 0);
            assert(entries@.skip(i as int).first() == entries@[i as int]);
            assert(entries@.skip(i as int).drop_first() =~= entries@.skip(i as int + 1));
        }
        let e = &entries[i];
        let is_np = str_eq(e.name.as_str(), "num.partitions");
        let is_rf = str_eq(e.name.as_str(), "default.replication.factor");
        if is_np && pc.is_none() {
            if let Some(v) = &e.value {
                match parse_positive_i32(v.as_str()) {
                    Some(n) => {
                        pc = Some(n);
                    },
                    None => {
                        proof {
                            assert(scan_config_entries(pc, rf, entries@.skip(i as int))
                                == ScanOutcome::Unparsable { key: e.name@, value: v@ });
                        }
                        return Err(
                            SinkError::UnparsableConfigValue {
                                key: e.name.clone(),
                                value: v.clone(),
                            },
                        );
                    },
                }
            }
        } else if is_rf && rf.is_none() {
            if let Some(v) = &e.value {
                match parse_positive_i32(v.as_str()) {
                    Some(n) => {
                        rf = Some(n);
                    },
                    None => {
                        proof {
                            assert(scan_config_entries(pc, rf, entries@.skip(i as int))
                                == ScanOutcome::Unparsable { key: e.name@, value: v@ });
                        }
                        return Err(
                            SinkError::UnparsableConfigValue {
                                key: e.name.clone(),
                                value: v.clone(),
                            },
                        );
                    },
                }
            }
        }
        i += 1;
    }
    proof {
        assert(entries@.skip(entries@.len() as int) =~= Seq::<ConfigEntry>::empty());
        lemma_scan_resolves_positive(partition_count, replication_factor, entries@);
    }
    match (pc, rf) {
        (Some(p), Some(f)) => Ok((p, f)),
        (None, _) => Err(
            SinkError::MissingDefaultConfigKey { key: String::from_str("num.partitions") },
        ),
        (Some(_), None) => Err(
            SinkError::MissingDefaultConfigKey {
                key: String::from_str("default.replication.factor"),
            },
        ),
    }
}

/// The reply kinds a phase can be handed: exactly the reply to the request
/// that `next_request` named, or a transport failure.
pub open spec fn response_expected(phase: RegisterPhase, response: BrokerResponse) -> bool {
    match response {
        BrokerResponse::Failed { .. } => !(phase matches RegisterPhase::Complete { .. }),
        BrokerResponse::Metadata { .. } => phase matches RegisterPhase::NeedMetadata,
        BrokerResponse::Configs { .. } => phase matches RegisterPhase::NeedConfigs { .. },
        BrokerResponse::TopicsCreated { .. } => phase matches RegisterPhase::NeedTopicCreation,
        BrokerResponse::SchemaPublished { .. } => phase matches RegisterPhase::NeedValueSchema
            || phase matches RegisterPhase::NeedKeySchema { .. },
    }
}

/// Whether the reply lets the registration advance (rather than fail).
pub open spec fn reg_step_ok(pre: TopicRegistration, response: BrokerResponse) -> bool {
    match (pre.phase, response) {
        (RegisterPhase::NeedMetadata, BrokerResponse::Metadata { broker_ids }) => broker_ids@.len()
            > 0,
        (RegisterPhase::NeedConfigs { .. }, BrokerResponse::Configs { results }) => results@.len()
            == 1 && match results@[0] {
            Ok(entries) => scan_config_entries(
                pre.partition_count,
                pre.replication_factor,
                entries@,
            ) matches ScanOutcome::Scanned {
                partition_count: Some(_),
                replication_factor: Some(_),
            },
            Err(_) => false,
        },
        (RegisterPhase::NeedTopicCreation, BrokerResponse::TopicsCreated { results }) => results@.len()
            == 1 && results@[0] is Ok,
        (RegisterPhase::NeedValueSchema, BrokerResponse::SchemaPublished { .. }) => true,
        (RegisterPhase::NeedKeySchema { .. }, BrokerResponse::SchemaPublished { .. }) => true,
        _ => false,
    }
}

/// The phase an advancing step reaches.
pub open spec fn reg_post_phase(pre: TopicRegistration, response: BrokerResponse) -> RegisterPhase {
    match (pre.phase, response) {
        (RegisterPhase::NeedMetadata, BrokerResponse::Metadata { broker_ids }) => {
            RegisterPhase::NeedConfigs { broker: broker_ids@[0] }
        },
        (RegisterPhase::NeedConfigs { .. }, BrokerResponse::Configs { .. }) => {
            RegisterPhase::NeedTopicCreation
        },
        (RegisterPhase::NeedTopicCreation, BrokerResponse::TopicsCreated { .. }) => {
            RegisterPhase::NeedValueSchema
        },
        (RegisterPhase::NeedValueSchema, BrokerResponse::SchemaPublished { schema_id }) => {
            if pre.key_schema is Some {
                RegisterPhase::NeedKeySchema { value_schema_id: schema_id }
            } else {
                RegisterPhase::Complete { key_schema_id: None, value_schema_id: schema_id }
            }
        },
        (
            RegisterPhase::NeedKeySchema { value_schema_id },
            BrokerResponse::SchemaPublished { schema_id },
        ) => {
            RegisterPhase::Complete { key_schema_id: Some(schema_id), value_schema_id }
        },
        _ => pre.phase,
    }
}

/// The sizes an advancing step carries forward: unchanged except by the
/// config scan of default resolution.
pub open spec fn reg_post_sizes(pre: TopicRegistration, response: BrokerResponse) -> (
    Option<i32>,
    Option<i32>,
) {
    match (pre.phase, response) {
        (RegisterPhase::NeedConfigs { .. }, BrokerResponse::Configs { results }) => {
            if results@.len() == 1 {
                match results@[0] {
                    Ok(entries) => match scan_config_entries(
                        pre.partition_count,
                        pre.replication_factor,
                        entries@,
                    ) {
                        ScanOutcome::Scanned { partition_count: p, replication_factor: f } => (
                            p,
                            f,
                        ),
                        _ => (pre.partition_count, pre.replication_factor),
                    },
                    _ => (pre.partition_count, pre.replication_factor),
                }
            } else {
                (pre.partition_count, pre.replication_factor)
            }
        },
        _ => (pre.partition_count, pre.replication_factor),
    }
}

/// The exact error a failing step reports, by phase and reply.
pub open spec fn reg_err(
    pre: TopicRegistration,
    response: BrokerResponse,
    e: SinkError,
) -> bool {
    match response {
        BrokerResponse::Failed { message } => match pre.phase {
            RegisterPhase::NeedMetadata => e matches SinkError::BrokerRequestFailed {
                op: BrokerOp::FetchMetadata,
                topic,
                message: m,
            } && topic@ == pre.topic@ && m@ == message@,
            RegisterPhase::NeedConfigs { .. } => e matches SinkError::BrokerRequestFailed {
                op: BrokerOp::DescribeConfigs,
                topic,
                message: m,
            } && topic@ == pre.topic@ && m@ == message@,
            RegisterPhase::NeedTopicCreation => e matches SinkError::BrokerRequestFailed {
                op: BrokerOp::CreateTopics,
                topic,
                message: m,
            } && topic@ == pre.topic@ && m@ == message@,
            RegisterPhase::NeedValueSchema => e matches SinkError::SchemaPublishFailure {
                subject,
                message: m,
            } && subject@ == pre.topic@ + "-value"@ && m@ == message@,
            RegisterPhase::NeedKeySchema { .. } => e matches SinkError::SchemaPublishFailure {
                subject,
                message: m,
            } && subject@ == pre.topic@ + "-key"@ && m@ == message@,
            RegisterPhase::Complete { .. } => false,
        },
        BrokerResponse::Metadata { broker_ids } => broker_ids@.len() == 0 && (e matches
            SinkError::NoBrokersDiscovered { topic } && topic@ == pre.topic@),
        BrokerResponse::Configs { results } => match pre.phase {
            RegisterPhase::NeedConfigs { broker } => {
                if results@.len() != 1 {
                    e matches SinkError::UnexpectedConfigResultCount { topic, broker: b, count }
                        && topic@ == pre.topic@ && b == broker && count == results@.len()
                } else {
                    match results@[0] {
                        Err(msg) => e matches SinkError::BrokerRequestFailed {
                            op: BrokerOp::DescribeConfigs,
                            topic,
                            message: m,
                        } && topic@ == pre.topic@ && m@ == msg@,
                        Ok(entries) => match scan_config_entries(
                            pre.partition_count,
                            pre.replication_factor,
                            entries@,
                        ) {
                            ScanOutcome::Unparsable { key: k, value: v } => e matches
                                SinkError::UnparsableConfigValue { key, value } && key@ == k
                                && value@ == v,
                            ScanOutcome::Scanned {
                                partition_count: p,
                                replication_factor: f,
                            } => {
                                if p is None {
                                    e matches SinkError::MissingDefaultConfigKey { key } && key@
                                        == num_partitions_key()
                                } else if f is None {
                                    e matches SinkError::MissingDefaultConfigKey { key } && key@
                                        == replication_factor_key()
                                } else {
                                    false
                                }
                            },
                        },
                    }
                }
            },
            _ => false,
        },
        BrokerResponse::TopicsCreated { results } => {
            if results@.len() != 1 {
                e matches SinkError::TopicCreationResultCountMismatch { topic, count } && topic@
                    == pre.topic@ && count == results@.len()
            } else {
                match results@[0] {
                    Err(msg) => e matches SinkError::TopicCreationRejected { topic, message }
                        && topic@ == pre.topic@ && message@ == msg@,
                    Ok(_) => false,
                }
            }
        },
        BrokerResponse::SchemaPublished { .. } => false,
    }
}

/// The request a phase is waiting on, as `next_request` must produce it.
pub open spec fn reg_request_matches(reg: TopicRegistration, r: Option<BrokerRequest>) -> bool {
    match reg.phase {
        RegisterPhase::NeedMetadata => r matches Some(BrokerRequest::FetchMetadata),
        RegisterPhase::NeedConfigs { broker } => r matches Some(
            BrokerRequest::DescribeBrokerConfig { broker: b, timeout_secs: t },
        ) && b == broker && t == BROKER_REQUEST_TIMEOUT_SECS,
        RegisterPhase::NeedTopicCreation => r matches Some(
            BrokerRequest::CreateTopic {
                topic: t,
                partition_count: p,
                replication_factor: f,
                timeout_secs: o,
            },
        ) && t@ == reg.topic@ && Some(p) == reg.partition_count && Some(f)
            == reg.replication_factor && o == BROKER_REQUEST_TIMEOUT_SECS,
        RegisterPhase::NeedValueSchema => r matches Some(
            BrokerRequest::PublishSchema { subject, schema },
        ) && subject@ == reg.topic@ + "-value"@ && schema@ == reg.value_schema@,
        RegisterPhase::NeedKeySchema { .. } => r matches Some(
            BrokerRequest::PublishSchema { subject, schema },
        ) && subject@ == reg.topic@ + "-key"@ && (reg.key_schema matches Some(ks) && schema@
            == ks@),
        RegisterPhase::Complete { .. } => r is None,
    }
}

/// A well-formed registration whose sizes were both supplied never asks for
/// cluster metadata or broker config: default resolution is skipped entirely,
/// whatever the broker would have answered.
pub proof fn lemma_supplied_sizes_skip_resolution(
    reg: TopicRegistration,
    r: Option<BrokerRequest>,
)
    requires
        reg.wf(),
        reg.partition_count is Some,
        reg.replication_factor is Some,
        reg_request_matches(reg, r),
    ensures
        !(r matches Some(BrokerRequest::FetchMetadata)),
        !(r matches Some(BrokerRequest::DescribeBrokerConfig { .. })),
{
}

/// Only the one phase reached directly after a metadata reply asks to
/// describe a broker's config; since `step` strictly increases the phase
/// rank, a registration run queries broker config at most once.
pub proof fn lemma_config_query_only_during_resolution(
    reg: TopicRegistration,
    r: Option<BrokerRequest>,
)
    requires
        reg_request_matches(reg, r),
        r matches Some(BrokerRequest::DescribeBrokerConfig { .. }),
    ensures
        phase_rank(reg.phase) == 1,
{
}

/// Starts registering `topic`. When both sizes are supplied the run begins at
/// topic creation and default resolution never happens; otherwise it begins
/// with the metadata query that resolution needs.
pub fn start_registration(
    topic: String,
    partition_count: Option<i32>,
    replication_factor: Option<i32>,
    value_schema: String,
    key_schema: Option<String>,
) -> (r: TopicRegistration)
    requires
        partition_count matches Some(v) ==> v > 0,
        replication_factor matches Some(v) ==> v > 0,
    ensures
        r.wf(),
        r.topic == topic,
        r.partition_count == partition_count,
        r.replication_factor == replication_factor,
        r.value_schema == value_schema,
        r.key_schema == key_schema,
        r.phase == (if partition_count is Some && replication_factor is Some {
            RegisterPhase::NeedTopicCreation
        } else {
            RegisterPhase::NeedMetadata
        }),
{
    let phase = if partition_count.is_some() && replication_factor.is_some() {
        RegisterPhase::NeedTopicCreation
    } else {
        RegisterPhase::NeedMetadata
    };
    TopicRegistration { topic, partition_count, replication_factor, value_schema, key_schema, phase }
}

impl TopicRegistration {
    /// The external request this registration is waiting on; `None` once it
    /// is complete.
    pub fn next_request(&self) -> (r: Option<BrokerRequest>)
        requires
            self.wf(),
        ensures
            reg_request_matches(*self, r),
    {
        match &self.phase {
            RegisterPhase::NeedMetadata => Some(BrokerRequest::FetchMetadata),
            RegisterPhase::NeedConfigs { broker } => Some(
                BrokerRequest::DescribeBrokerConfig {
                    broker: *broker,
                    timeout_secs: BROKER_REQUEST_TIMEOUT_SECS,
                },
            ),
            RegisterPhase::NeedTopicCreation => {
                let partition_count = match self.partition_count {
                    Some(v) => v,
                    None => unreached(),
                };
                let replication_factor = match self.replication_factor {
                    Some(v) => v,
                    None => unreached(),
                };
                Some(
                    BrokerRequest::CreateTopic {
                        topic: self.topic.clone(),
                        partition_count,
                        replication_factor,
                        timeout_secs: BROKER_REQUEST_TIMEOUT_SECS,
                    },
                )
            },
            RegisterPhase::NeedValueSchema => Some(
                BrokerRequest::PublishSchema {
                    subject: self.topic.clone().concat("-value"),
                    schema: self.value_schema.clone(),
                },
            ),
            RegisterPhase::NeedKeySchema { .. } => {
                let schema = match &self.key_schema {
                    Some(ks) => ks.clone(),
                    None => unreached(),
                };
                Some(
                    BrokerRequest::PublishSchema {
                        subject: self.topic.clone().concat("-key"),
                        schema,
                    },
                )
            },
            RegisterPhase::Complete { .. } => None,
        }
    }

    /// Consumes the reply to the outstanding request. Advances the phase
    /// exactly when `reg_step_ok` allows, and otherwise fails with the error
    /// `reg_err` forces; the phase rank strictly increases, so no request is
    /// ever repeated.
    pub fn step(self, response: BrokerResponse) -> (r: Result<TopicRegistration, SinkError>)
        requires
            self.wf(),
            !(self.phase matches RegisterPhase::Complete { .. }),
            response_expected(self.phase, response),
        ensures
            r is Ok <==> reg_step_ok(self, response),
            r matches Ok(post) ==> {
                &&& post.wf()
                &&& post.topic == self.topic
                &&& post.value_schema == self.value_schema
                &&& post.key_schema == self.key_schema
                &&& post.phase == reg_post_phase(self, response)
                &&& (post.partition_count, post.replication_factor) == reg_post_sizes(
                    self,
                    response,
                )
                &&& phase_rank(post.phase) > phase_rank(self.phase)
            },
            r matches Err(e) ==> reg_err(self, response, e),
    {
        let TopicRegistration {
            topic,
            partition_count,
            replication_factor,
            value_schema,
            key_schema,
            phase,
        } = self;
        match response {
            BrokerResponse::Failed { message } => match phase {
                RegisterPhase::NeedMetadata => Err(
                    SinkError::BrokerRequestFailed { op: BrokerOp::FetchMetadata, topic, message },
                ),
                RegisterPhase::NeedConfigs { .. } => Err(
                    SinkError::BrokerRequestFailed { op: BrokerOp::DescribeConfigs, topic, message },
                ),
                RegisterPhase::NeedTopicCreation => Err(
                    SinkError::BrokerRequestFailed { op: BrokerOp::CreateTopics, topic, message },
                ),
                RegisterPhase::NeedValueSchema => Err(
                    SinkError::SchemaPublishFailure {
                        subject: topic.concat("-value"),
                        message,
                    },
                ),
                RegisterPhase::NeedKeySchema { .. } => Err(
                    SinkError::SchemaPublishFailure {
                        subject: topic.concat("-key"),
                        message,
                    },
                ),
                RegisterPhase::Complete { .. } => unreached(),
            },
            BrokerResponse::Metadata { broker_ids } => {
                if broker_ids.len() == 0 {
                    Err(SinkError::NoBrokersDiscovered { topic })
                } else {
                    let broker = broker_ids[0];
                    Ok(
                        TopicRegistration {
                            topic,
                            partition_count,
                            replication_factor,
                            value_schema,
                            key_schema,
                            phase: RegisterPhase::NeedConfigs { broker },
                        },
                    )
                }
            },
            BrokerResponse::Configs { mut results } => {
                let broker = match phase {
                    RegisterPhase::NeedConfigs { broker } => broker,
                    _ => unreached(),
                };
                if results.len() != 1 {
                    let count = results.len();
                    Err(SinkError::UnexpectedConfigResultCount { topic, broker, count })
                } else {
                    match results.remove(0) {
                        Err(message) => Err(
                            SinkError::BrokerRequestFailed {
                                op: BrokerOp::DescribeConfigs,
                                topic,
                                message,
                            },
                        ),
                        Ok(entries) => {
                            match resolve_default_sizes(
                                partition_count,
                                replication_factor,
                                &entries,
                            ) {
                                Err(e) => Err(e),
                                Ok((p, f)) => Ok(
                                    TopicRegistration {
                                        topic,
                                        partition_count: Some(p),
                                        replication_factor: Some(f),
                                        value_schema,
                                        key_schema,
                                        phase: RegisterPhase::NeedTopicCreation,
                                    },
                                ),
                            }
                        },
                    }
                }
            },
            BrokerResponse::TopicsCreated { mut results } => {
                if results.len() != 1 {
                    let count = results.len();
                    Err(SinkError::TopicCreationResultCountMismatch { topic, count })
                } else {
                    match results.remove(0) {
                        Err(message) => Err(SinkError::TopicCreationRejected { topic, message }),
                        Ok(_) => Ok(
                            TopicRegistration {
                                topic,
                                partition_count,
                                replication_factor,
                                value_schema,
                                key_schema,
                                phase: RegisterPhase::NeedValueSchema,
                            },
                        ),
                    }
                }
            },
            BrokerResponse::SchemaPublished { schema_id } => match phase {
                RegisterPhase::NeedValueSchema => {
                    let phase = if key_schema.is_some() {
                        RegisterPhase::NeedKeySchema { value_schema_id: schema_id }
                    } else {
                        RegisterPhase::Complete { key_schema_id: None, value_schema_id: schema_id }
                    };
                    Ok(
                        TopicRegistration {
                            topic,
                            partition_count,
                            replication_factor,
                            value_schema,
                            key_schema,
                            phase,
                        },
                    )
                },
                RegisterPhase::NeedKeySchema { value_schema_id } => Ok(
                    TopicRegistration {
                        topic,
                        partition_count,
                        replication_factor,
                        value_schema,
                        key_schema,
                        phase: RegisterPhase::Complete {
                            key_schema_id: Some(schema_id),
                            value_schema_id,
                        },
                    },
                ),
                _ => unreached(),
            },
        }
    }
}

} // verus!
