//! The sink data model: builder descriptions consumed by the dispatcher,
//! connector descriptors produced by a finished build, and the error taxonomy.

use vstd::prelude::*;

verus! {

/// A description of the records a sink writes: the names of the value's
/// columns. The build carries it through unchanged.
pub struct RelationDesc {
    pub column_names: Vec<String>,
}

/// Input description of a broker-backed sink. A partition count or
/// replication factor of `None` defers to the broker's default; a supplied
/// value must be strictly positive.
pub struct KafkaSinkConnectorBuilder {
    pub topic_prefix: String,
    pub topic_suffix: String,
    pub partition_count: Option<i32>,
    pub replication_factor: Option<i32>,
    pub broker_addrs: String,
    pub value_schema: String,
    pub key_schema: Option<String>,
    pub key_desc_and_indices: Option<(RelationDesc, Vec<usize>)>,
    pub value_desc: RelationDesc,
    pub consistency_value_schema: Option<String>,
    pub fuel: usize,
    pub config_options: Vec<(String, String)>,
}

impl KafkaSinkConnectorBuilder {
    /// Supplied topic parameters are strictly positive; `None` stands for
    /// "use the broker's default", so a sentinel value never appears.
    pub open spec fn wf(&self) -> bool {
        &&& (self.partition_count matches Some(v) ==> v > 0)
        &&& (self.replication_factor matches Some(v) ==> v > 0)
    }
}

/// Input description of a file-backed sink.
pub struct AvroOcfSinkConnectorBuilder {
    pub path: String,
    pub file_name_suffix: String,
    pub value_desc: RelationDesc,
}

/// The abstract sink description handed to the dispatcher: exactly one of the
/// two destination kinds.
pub enum SinkConnectorBuilder {
    Kafka(KafkaSinkConnectorBuilder),
    AvroOcf(AvroOcfSinkConnectorBuilder),
}

impl SinkConnectorBuilder {
    pub open spec fn wf(&self) -> bool {
        match self {
            SinkConnectorBuilder::Kafka(k) => k.wf(),
            SinkConnectorBuilder::AvroOcf(_) => true,
        }
    }
}

/// The secondary single-partition topic carrying consistency metadata,
/// present only when the builder requested it.
pub struct KafkaSinkConsistencyConnector {
    pub topic: String,
    pub schema_id: i32,
}

/// A fully provisioned broker-backed destination.
pub struct KafkaSinkConnector {
    pub topic: String,
    pub addrs: String,
    pub key_schema_id: Option<i32>,
    pub value_schema_id: i32,
    pub key_desc_and_indices: Option<(RelationDesc, Vec<usize>)>,
    pub value_desc: RelationDesc,
    pub consistency: Option<KafkaSinkConsistencyConnector>,
    pub fuel: usize,
    pub config_options: Vec<(String, String)>,
}

/// A fully provisioned file-backed destination.
pub struct AvroOcfSinkConnector {
    pub path: String,
    pub value_desc: RelationDesc,
}

/// The connector descriptor a successful build returns.
pub enum SinkConnector {
    Kafka(KafkaSinkConnector),
    AvroOcf(AvroOcfSinkConnector),
}

/// Which broker request failed at the transport level (an error or timeout of
/// the call itself, as opposed to a well-formed but unacceptable reply).
#[derive(Debug)]
pub enum BrokerOp {
    FetchMetadata,
    DescribeConfigs,
    CreateTopics,
}

/// Everything that can make a build fail. Each variant names the operation's
/// target so the caller can diagnose which step and which topic or path
/// failed; no step is retried.
#[derive(Debug)]
pub enum SinkError {
    /// Default resolution found an empty broker list in the cluster metadata.
    NoBrokersDiscovered { topic: String },
    /// The broker config query returned `count` result sets instead of one.
    UnexpectedConfigResultCount { topic: String, broker: i32, count: usize },
    /// A default-size config entry's value does not denote a strictly
    /// positive count.
    UnparsableConfigValue { key: String, value: String },
    /// A default was requested but the broker config lacks the expected key.
    MissingDefaultConfigKey { key: String },
    /// Topic creation returned `count` results instead of exactly one.
    TopicCreationResultCountMismatch { topic: String, count: usize },
    /// The broker reported an error for the requested topic (for example,
    /// the topic already exists).
    TopicCreationRejected { topic: String, message: String },
    /// The schema registry rejected or failed the publication of a subject.
    SchemaPublishFailure { subject: String, message: String },
    /// The file sink's base path has no final file-name component to derive
    /// an output name from.
    PathMissingFileStem { path: String },
    /// The derived output path could not be claimed exclusively; it already
    /// exists, or the filesystem reported an equivalent creation error.
    SinkFileAlreadyExists { path: String, message: String },
    /// A broker request failed or timed out at the transport level.
    BrokerRequestFailed { op: BrokerOp, topic: String, message: String },
}

} // verus!
