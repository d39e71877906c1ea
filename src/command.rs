//! The tagged command protocol spoken with the engine.
use vstd::prelude::*;

use crate::request::BatchEntry;
use crate::value::{Value, VersionedValue};

verus! {

/// The tag of each command this layer submits to the engine's executor.
#[derive(Clone, Copy, Debug, PartialEq, Eq, Structural)]
pub enum CommandKind {
    KvPut,
    KvDelete,
    StateSet,
    StateInit,
    StateCas,
    EventAppend,
    JsonSet,
    JsonDelete,
    VectorUpsert,
    VectorDelete,
    VectorBatchUpsert,
    KvGet,
    KvList,
    StateGet,
    StateDelete,
    StateList,
    EventGet,
    EventGetByType,
    JsonGet,
    JsonList,
    VectorGet,
    VectorSearch,
    SpaceCreate,
    SpaceExists,
    Search,
    RetentionApply,
    TimeRange,
    TxnBegin,
    TxnCommit,
    TxnRollback,
    TxnInfo,
    TxnIsActive,
}

impl CommandKind {
    pub open spec fn name_text(&self) -> Seq<char> {
        match self {
            CommandKind::KvPut => "KvPut"@,
            CommandKind::KvDelete => "KvDelete"@,
            CommandKind::StateSet => "StateSet"@,
            CommandKind::StateInit => "StateInit"@,
            CommandKind::StateCas => "StateCas"@,
            CommandKind::EventAppend => "EventAppend"@,
            CommandKind::JsonSet => "JsonSet"@,
            CommandKind::JsonDelete => "JsonDelete"@,
            CommandKind::VectorUpsert => "VectorUpsert"@,
            CommandKind::VectorDelete => "VectorDelete"@,
            CommandKind::VectorBatchUpsert => "VectorBatchUpsert"@,
            CommandKind::KvGet => "KvGet"@,
            CommandKind::KvList => "KvList"@,
            CommandKind::StateGet => "StateGet"@,
            CommandKind::StateDelete => "StateDelete"@,
            CommandKind::StateList => "StateList"@,
            CommandKind::EventGet => "EventGet"@,
            CommandKind::EventGetByType => "EventGetByType"@,
            CommandKind::JsonGet => "JsonGet"@,
            CommandKind::JsonList => "JsonList"@,
            CommandKind::VectorGet => "VectorGet"@,
            CommandKind::VectorSearch => "VectorSearch"@,
            CommandKind::SpaceCreate => "SpaceCreate"@,
            CommandKind::SpaceExists => "SpaceExists"@,
            CommandKind::Search => "Search"@,
            CommandKind::RetentionApply => "RetentionApply"@,
            CommandKind::TimeRange => "TimeRange"@,
            CommandKind::TxnBegin => "TxnBegin"@,
            CommandKind::TxnCommit => "TxnCommit"@,
            CommandKind::TxnRollback => "TxnRollback"@,
            CommandKind::TxnInfo => "TxnInfo"@,
            CommandKind::TxnIsActive => "TxnIsActive"@,
        }
    }

    /// The command's name as it appears in messages.
    pub fn name(&self) -> (r: &'static str)
        ensures
            r@ == self.name_text(),
    {
        match self {
            CommandKind::KvPut => "KvPut",
            CommandKind::KvDelete => "KvDelete",
            CommandKind::StateSet => "StateSet",
            CommandKind::StateInit => "StateInit",
            CommandKind::StateCas => "StateCas",
            CommandKind::EventAppend => "EventAppend",
            CommandKind::JsonSet => "JsonSet",
            CommandKind::JsonDelete => "JsonDelete",
            CommandKind::VectorUpsert => "VectorUpsert",
            CommandKind::VectorDelete => "VectorDelete",
            CommandKind::VectorBatchUpsert => "VectorBatchUpsert",
            CommandKind::KvGet => "KvGet",
            CommandKind::KvList => "KvList",
            CommandKind::StateGet => "StateGet",
            CommandKind::StateDelete => "StateDelete",
            CommandKind::StateList => "StateList",
            CommandKind::EventGet => "EventGet",
            CommandKind::EventGetByType => "EventGetByType",
            CommandKind::JsonGet => "JsonGet",
            CommandKind::JsonList => "JsonList",
            CommandKind::VectorGet => "VectorGet",
            CommandKind::VectorSearch => "VectorSearch",
            CommandKind::SpaceCreate => "SpaceCreate",
            CommandKind::SpaceExists => "SpaceExists",
            CommandKind::Search => "Search",
            CommandKind::RetentionApply => "RetentionApply",
            CommandKind::TimeRange => "TimeRange",
            CommandKind::TxnBegin => "TxnBegin",
            CommandKind::TxnCommit => "TxnCommit",
            CommandKind::TxnRollback => "TxnRollback",
            CommandKind::TxnInfo => "TxnInfo",
            CommandKind::TxnIsActive => "TxnIsActive",
        }
    }
}

/// A distance metric for vector search.
#[derive(Clone, Copy, Debug, PartialEq, Eq, Structural)]
pub enum DistanceMetric {
    Cosine,
    Euclidean,
    DotProduct,
}

/// A comparison a metadata filter applies.
#[derive(Clone, Copy, Debug, PartialEq, Eq, Structural)]
pub enum FilterOp {
    Eq,
    Ne,
    Gt,
    Gte,
    Lt,
    Lte,
    In,
    Contains,
}

/// How conflicting keys are resolved when branches merge.
#[derive(Clone, Copy, Debug, PartialEq, Eq, Structural)]
pub enum MergeStrategy {
    LastWriterWins,
    Strict,
}

/// A condition on a metadata field of a vector.
#[derive(Debug)]
pub struct MetadataFilter {
    pub field: String,
    pub op: FilterOp,
    pub value: Value,
}

/// A request to the engine's command executor. A branch or space left
/// `None` is chosen by the engine.
#[derive(Debug)]
pub enum Command {
    KvPut { branch: Option<String>, space: Option<String>, key: String, value: Value },
    KvDelete { branch: Option<String>, space: Option<String>, key: String },
    StateSet { branch: Option<String>, space: Option<String>, cell: String, value: Value },
    StateInit { branch: Option<String>, space: Option<String>, cell: String, value: Value },
    StateCas {
        branch: Option<String>,
        space: Option<String>,
        cell: String,
        expected_version: Option<u64>,
        value: Value,
    },
    EventAppend {
        branch: Option<String>,
        space: Option<String>,
        event_type: String,
        payload: Value,
    },
    JsonSet {
        branch: Option<String>,
        space: Option<String>,
        key: String,
        path: String,
        value: Value,
    },
    JsonDelete { branch: Option<String>, space: Option<String>, key: String, path: String },
    /// The vector holds binary64 bit patterns; the engine receives them as binary32.
    VectorUpsert {
        branch: Option<String>,
        space: Option<String>,
        collection: String,
        key: String,
        vector: Vec<u64>,
        metadata: Option<Value>,
    },
    VectorDelete {
        branch: Option<String>,
        space: Option<String>,
        collection: String,
        key: String,
    },
    VectorBatchUpsert {
        branch: Option<String>,
        space: Option<String>,
        collection: String,
        entries: Vec<BatchEntry>,
    },
    KvGet { branch: Option<String>, space: Option<String>, key: String, as_of: Option<u64> },
    KvList {
        branch: Option<String>,
        space: Option<String>,
        prefix: Option<String>,
        cursor: Option<String>,
        limit: Option<u64>,
        as_of: Option<u64>,
    },
    StateGet { branch: Option<String>, space: Option<String>, cell: String, as_of: Option<u64> },
    StateDelete { branch: Option<String>, space: Option<String>, cell: String },
    StateList {
        branch: Option<String>,
        space: Option<String>,
        prefix: Option<String>,
        as_of: Option<u64>,
    },
    EventGet { branch: Option<String>, space: Option<String>, sequence: u64, as_of: Option<u64> },
    EventGetByType {
        branch: Option<String>,
        space: Option<String>,
        event_type: String,
        limit: Option<u64>,
        after_sequence: Option<u64>,
        as_of: Option<u64>,
    },
    JsonGet {
        branch: Option<String>,
        space: Option<String>,
        key: String,
        path: String,
        as_of: Option<u64>,
    },
    JsonList {
        branch: Option<String>,
        space: Option<String>,
        prefix: Option<String>,
        cursor: Option<String>,
        limit: u64,
        as_of: Option<u64>,
    },
    VectorGet {
        branch: Option<String>,
        space: Option<String>,
        collection: String,
        key: String,
        as_of: Option<u64>,
    },
    /// The query holds binary64 bit patterns; the engine receives them as binary32.
    VectorSearch {
        branch: Option<String>,
        space: Option<String>,
        collection: String,
        query: Vec<u64>,
        k: u64,
        filter: Option<Vec<MetadataFilter>>,
        metric: Option<DistanceMetric>,
        as_of: Option<u64>,
    },
    SpaceCreate { branch: Option<String>, space: String },
    SpaceExists { branch: Option<String>, space: String },
    Search {
        branch: Option<String>,
        space: Option<String>,
        query: String,
        k: Option<u64>,
        primitives: Option<Vec<String>>,
    },
    RetentionApply { branch: Option<String> },
    TimeRange { branch: Option<String> },
    TxnBegin { branch: Option<String>, read_only: bool },
    TxnCommit,
    TxnRollback,
    TxnInfo,
    TxnIsActive,
}

impl Command {
    pub open spec fn spec_kind(&self) -> CommandKind {
        match self {
            Command::KvPut { .. } => CommandKind::KvPut,
            Command::KvDelete { .. } => CommandKind::KvDelete,
            Command::StateSet { .. } => CommandKind::StateSet,
            Command::StateInit { .. } => CommandKind::StateInit,
            Command::StateCas { .. } => CommandKind::StateCas,
            Command::EventAppend { .. } => CommandKind::EventAppend,
            Command::JsonSet { .. } => CommandKind::JsonSet,
            Command::JsonDelete { .. } => CommandKind::JsonDelete,
            Command::VectorUpsert { .. } => CommandKind::VectorUpsert,
            Command::VectorDelete { .. } => CommandKind::VectorDelete,
            Command::VectorBatchUpsert { .. } => CommandKind::VectorBatchUpsert,
            Command::KvGet { .. } => CommandKind::KvGet,
            Command::KvList { .. } => CommandKind::KvList,
            Command::StateGet { .. } => CommandKind::StateGet,
            Command::StateDelete { .. } => CommandKind::StateDelete,
            Command::StateList { .. } => CommandKind::StateList,
            Command::EventGet { .. } => CommandKind::EventGet,
            Command::EventGetByType { .. } => CommandKind::EventGetByType,
            Command::JsonGet { .. } => CommandKind::JsonGet,
            Command::JsonList { .. } => CommandKind::JsonList,
            Command::VectorGet { .. } => CommandKind::VectorGet,
            Command::VectorSearch { .. } => CommandKind::VectorSearch,
            Command::SpaceCreate { .. } => CommandKind::SpaceCreate,
            Command::SpaceExists { .. } => CommandKind::SpaceExists,
            Command::Search { .. } => CommandKind::Search,
            Command::RetentionApply { .. } => CommandKind::RetentionApply,
            Command::TimeRange { .. } => CommandKind::TimeRange,
            Command::TxnBegin { .. } => CommandKind::TxnBegin,
            Command::TxnCommit => CommandKind::TxnCommit,
            Command::TxnRollback => CommandKind::TxnRollback,
            Command::TxnInfo => CommandKind::TxnInfo,
            Command::TxnIsActive => CommandKind::TxnIsActive,
        }
    }

    /// The tag of this command.
    pub fn kind(&self) -> (r: CommandKind)
        ensures
            r == self.spec_kind(),
    {
        match self {
            Command::KvPut { .. } => CommandKind::KvPut,
            Command::KvDelete { .. } => CommandKind::KvDelete,
            Command::StateSet { .. } => CommandKind::StateSet,
            Command::StateInit { .. } => CommandKind::StateInit,
            Command::StateCas { .. } => CommandKind::StateCas,
            Command::EventAppend { .. } => CommandKind::EventAppend,
            Command::JsonSet { .. } => CommandKind::JsonSet,
            Command::JsonDelete { .. } => CommandKind::JsonDelete,
            Command::VectorUpsert { .. } => CommandKind::VectorUpsert,
            Command::VectorDelete { .. } => CommandKind::VectorDelete,
            Command::VectorBatchUpsert { .. } => CommandKind::VectorBatchUpsert,
            Command::KvGet { .. } => CommandKind::KvGet,
            Command::KvList { .. } => CommandKind::KvList,
            Command::StateGet { .. } => CommandKind::StateGet,
            Command::StateDelete { .. } => CommandKind::StateDelete,
            Command::StateList { .. } => CommandKind::StateList,
            Command::EventGet { .. } => CommandKind::EventGet,
            Command::EventGetByType { .. } => CommandKind::EventGetByType,
            Command::JsonGet { .. } => CommandKind::JsonGet,
            Command::JsonList { .. } => CommandKind::JsonList,
            Command::VectorGet { .. } => CommandKind::VectorGet,
            Command::VectorSearch { .. } => CommandKind::VectorSearch,
            Command::SpaceCreate { .. } => CommandKind::SpaceCreate,
            Command::SpaceExists { .. } => CommandKind::SpaceExists,
            Command::Search { .. } => CommandKind::Search,
            Command::RetentionApply { .. } => CommandKind::RetentionApply,
            Command::TimeRange { .. } => CommandKind::TimeRange,
            Command::TxnBegin { .. } => CommandKind::TxnBegin,
            Command::TxnCommit => CommandKind::TxnCommit,
            Command::TxnRollback => CommandKind::TxnRollback,
            Command::TxnInfo => CommandKind::TxnInfo,
            Command::TxnIsActive => CommandKind::TxnIsActive,
        }
    }
}

/// A stored vector as the engine returns it.
#[derive(Debug)]
pub struct VectorEntry {
    pub key: String,
    /// binary32 bit patterns.
    pub embedding: Vec<u32>,
    pub metadata: Option<Value>,
    pub version: u64,
    pub timestamp: u64,
}

/// One result of a vector search.
#[derive(Debug)]
pub struct VectorMatch {
    pub key: String,
    /// A binary32 bit pattern.
    pub score: u32,
    pub metadata: Option<Value>,
}

/// One result of a search across primitives.
#[derive(Debug)]
pub struct SearchHit {
    pub entity: String,
    pub primitive: String,
    /// A binary32 bit pattern.
    pub score: u32,
    pub rank: u32,
    pub snippet: Option<String>,
}

/// The state of an in-flight transaction as the engine reports it.
#[derive(Debug)]
pub struct TxnInfo {
    pub id: String,
    /// The status name, in lower case.
    pub status: String,
    pub started_at: u64,
}

/// A tagged response of the engine's command executor.
#[derive(Debug)]
pub enum Output {
    Unit,
    Version(u64),
    MaybeVersion(Option<u64>),
    Versions(Vec<u64>),
    Bool(bool),
    Keys(Vec<String>),
    Maybe(Option<Value>),
    MaybeVersioned(Option<VersionedValue>),
    VersionedValues(Vec<VersionedValue>),
    JsonListResult { keys: Vec<String>, cursor: Option<String> },
    VectorData(Option<VectorEntry>),
    VectorMatches(Vec<VectorMatch>),
    SearchResults(Vec<SearchHit>),
    TimeRange { oldest_ts: Option<u64>, latest_ts: Option<u64> },
    TxnCommitted { version: u64 },
    TxnInfo(Option<TxnInfo>),
    /// An output of a kind no command of this layer expects.
    Other,
}

} // verus!
