//! Reading the engine's tagged outputs back into host values. An output
//! whose tag does not answer the command sent is an internal-consistency
//! failure and is reported, never coerced.
use vstd::prelude::*;

use crate::codec::{decode, decode_model, versioned_model, versioned_to_host};
use crate::command::{CommandKind, Output, SearchHit, VectorEntry, VectorMatch};
use crate::error::BindingError;
use crate::value::{host_model, HostModel, HostValue, VersionedValue};

verus! {

/// The host array of a sequence of texts.
pub open spec fn texts_model(ks: Seq<String>) -> HostModel {
    HostModel::Array(Seq::new(ks.len(), |i: int| HostModel::Str(ks[i]@)))
}

/// Shows a list of texts to the host.
pub fn texts_to_host(keys: Vec<String>) -> (r: HostValue)
    ensures
        r@ == texts_model(keys@),
{
    let ghost ks = keys@;
    let mut out: Vec<HostValue> = Vec::new();
    let mut i: usize = 0;
    while i < keys.len()
        invariant
            i <= keys@.len(),
            keys@ == ks,
            out@.len() == i,
            forall|j: int| 0 <= j < i ==> (#[trigger] out@[j])@ == HostModel::Str(ks[j]@),
        decreases keys@.len() - i,
    {
        let s = keys[i].clone();
        let h = HostValue::Str(s);
        assert(h@ == HostModel::Str(ks[i as int]@));
        out.push(h);
        i = i + 1;
    }
    let r = HostValue::Array(out);
    assert(r@ == texts_model(ks)) by {
        let rs = match r@ {
            HostModel::Array(s) => s,
            _ => Seq::empty(),
        };
        let ms = match texts_model(ks) {
            HostModel::Array(s) => s,
            _ => Seq::empty(),
        };
        assert(rs =~= ms);
    }
    r
}

/// The host array of a sequence of versioned values.
pub open spec fn history_model(vs: Seq<VersionedValue>) -> HostModel {
    HostModel::Array(
        Seq::new(
            vs.len(),
            |i: int| versioned_model(vs[i].value@, vs[i].version, vs[i].timestamp),
        ),
    )
}

/// Shows a list of versioned values to the host, in order.
pub fn history_to_host(versions: &Vec<VersionedValue>) -> (r: HostValue)
    ensures
        r@ == history_model(versions@),
{
    let mut out: Vec<HostValue> = Vec::new();
    let mut i: usize = 0;
    while i < versions.len()
        invariant
            i <= versions@.len(),
            out@.len() == i,
            forall|j: int|
                0 <= j < i ==> (#[trigger] out@[j])@ == versioned_model(
                    versions@[j].value@,
                    versions@[j].version,
                    versions@[j].timestamp,
                ),
        decreases versions@.len() - i,
    {
        out.push(versioned_to_host(&versions[i]));
        i = i + 1;
    }
    let r = HostValue::Array(out);
    assert(r@ == history_model(versions@)) by {
        let rs = match r@ {
            HostModel::Array(s) => s,
            _ => Seq::empty(),
        };
        let ms = match history_model(versions@) {
            HostModel::Array(s) => s,
            _ => Seq::empty(),
        };
        assert(rs =~= ms);
    }
    r
}

/// The version history of a key, cell or document: null when it has none.
pub fn maybe_history_to_host(versions: Option<Vec<VersionedValue>>) -> (r: HostValue)
    ensures
        versions matches Some(vs) ==> r@ == history_model(vs@),
        versions is None ==> r@ == HostModel::Null,
{
    match versions {
        Some(vs) => history_to_host(&vs),
        None => HostValue::Null,
    }
}

/// The latest version of a key, cell or document: the first of its
/// history, or null when it has none.
pub fn latest_to_host(versions: Option<Vec<VersionedValue>>) -> (r: HostValue)
    ensures
        versions matches Some(vs) ==> (vs@.len() > 0 ==> r@ == versioned_model(
            vs@[0].value@,
            vs@[0].version,
            vs@[0].timestamp,
        )),
        versions matches Some(vs) ==> (vs@.len() == 0 ==> r@ == HostModel::Null),
        versions is None ==> r@ == HostModel::Null,
{
    match versions {
        Some(vs) => {
            if vs.len() > 0 {
                versioned_to_host(&vs[0])
            } else {
                HostValue::Null
            }
        },
        None => HostValue::Null,
    }
}

/// Reads the answer to a point read (`KvGet`, `StateGet`, `JsonGet`): the
/// decoded value, or null when there is none.
pub fn read_value(kind: CommandKind, out: Output) -> (r: Result<HostValue, BindingError>)
    ensures
        out matches Output::MaybeVersioned(Some(vv)) ==> (r matches Ok(h) && h@ == decode_model(
            vv.value@,
        )),
        out matches Output::Maybe(Some(v)) ==> (r matches Ok(h) && h@ == decode_model(v@)),
        out matches Output::MaybeVersioned(None) ==> (r matches Ok(h) && h@ == HostModel::Null),
        out matches Output::Maybe(None) ==> (r matches Ok(h) && h@ == HostModel::Null),
        !(out is MaybeVersioned || out is Maybe) ==> r == Err::<HostValue, BindingError>(
            BindingError::UnexpectedOutput(kind),
        ),
{
    match out {
        Output::MaybeVersioned(Some(vv)) => Ok(decode(&vv.value)),
        Output::MaybeVersioned(None) => Ok(HostValue::Null),
        Output::Maybe(Some(v)) => Ok(decode(&v)),
        Output::Maybe(None) => Ok(HostValue::Null),
        _ => Err(BindingError::UnexpectedOutput(kind)),
    }
}

/// Reads the answer to an event read: the versioned event, or the bare
/// value under `value`, or null.
pub fn read_event(out: Output) -> (r: Result<HostValue, BindingError>)
    ensures
        out matches Output::MaybeVersioned(Some(vv)) ==> (r matches Ok(h) && h@
            == versioned_model(vv.value@, vv.version, vv.timestamp)),
        out matches Output::Maybe(Some(v)) ==> (r matches Ok(h) && h@ == HostModel::Object(
            seq![("value"@, decode_model(v@))],
        )),
        out matches Output::MaybeVersioned(None) ==> (r matches Ok(h) && h@ == HostModel::Null),
        out matches Output::Maybe(None) ==> (r matches Ok(h) && h@ == HostModel::Null),
        !(out is MaybeVersioned || out is Maybe) ==> r == Err::<HostValue, BindingError>(
            BindingError::UnexpectedOutput(CommandKind::EventGet),
        ),
{
    match out {
        Output::MaybeVersioned(Some(vv)) => Ok(versioned_to_host(&vv)),
        Output::MaybeVersioned(None) => Ok(HostValue::Null),
        Output::Maybe(Some(v)) => {
            let d = decode(&v);
            let ghost dm = d@;
            let mut fields: Vec<(String, HostValue)> = Vec::new();
            fields.push((String::from_str("value"), d));
            let h = HostValue::Object(fields);
            assert(h@ == HostModel::Object(seq![("value"@, decode_model(v@))])) by {
                let hs = match h@ {
                    HostModel::Object(s) => s,
                    _ => Seq::empty(),
                };
                assert(hs =~= seq![("value"@, decode_model(v@))]);
            }
            Ok(h)
        },
        Output::Maybe(None) => Ok(HostValue::Null),
        _ => Err(BindingError::UnexpectedOutput(CommandKind::EventGet)),
    }
}

/// Reads a list of keys or names.
pub fn read_keys(kind: CommandKind, out: Output) -> (r: Result<Vec<String>, BindingError>)
    ensures
        out matches Output::Keys(ks) ==> r == Ok::<Vec<String>, BindingError>(ks),
        !(out is Keys) ==> r == Err::<Vec<String>, BindingError>(
            BindingError::UnexpectedOutput(kind),
        ),
{
    match out {
        Output::Keys(ks) => Ok(ks),
        _ => Err(BindingError::UnexpectedOutput(kind)),
    }
}

/// Reads a page of keys as `{keys}`.
pub fn read_key_page(out: Output) -> (r: Result<HostValue, BindingError>)
    ensures
        out matches Output::Keys(ks) ==> (r matches Ok(h) && h@ == HostModel::Object(
            seq![("keys"@, texts_model(ks@))],
        )),
        !(out is Keys) ==> r == Err::<HostValue, BindingError>(
            BindingError::UnexpectedOutput(CommandKind::KvList),
        ),
{
    match out {
        Output::Keys(ks) => {
            let ghost km = ks@;
            let arr = texts_to_host(ks);
            let mut fields: Vec<(String, HostValue)> = Vec::new();
            fields.push((String::from_str("keys"), arr));
            let h = HostValue::Object(fields);
            assert(h@ == HostModel::Object(seq![("keys"@, texts_model(km))])) by {
                let hs = match h@ {
                    HostModel::Object(s) => s,
                    _ => Seq::empty(),
                };
                assert(hs =~= seq![("keys"@, texts_model(km))]);
            }
            Ok(h)
        },
        _ => Err(BindingError::UnexpectedOutput(CommandKind::KvList)),
    }
}

/// Reads a list of events.
pub fn read_events(out: Output) -> (r: Result<HostValue, BindingError>)
    ensures
        out matches Output::VersionedValues(vs) ==> (r matches Ok(h) && h@ == history_model(
            vs@,
        )),
        !(out is VersionedValues) ==> r == Err::<HostValue, BindingError>(
            BindingError::UnexpectedOutput(CommandKind::EventGetByType),
        ),
{
    match out {
        Output::VersionedValues(vs) => Ok(history_to_host(&vs)),
        _ => Err(BindingError::UnexpectedOutput(CommandKind::EventGetByType)),
    }
}

/// The host object of a page of JSON document keys.
pub open spec fn json_page_model(ks: Seq<String>, cursor: Option<String>) -> HostModel {
    HostModel::Object(
        seq![
            ("keys"@, texts_model(ks)),
            (
                "cursor"@,
                match cursor {
                    Some(c) => HostModel::Str(c@),
                    None => HostModel::Null,
                },
            ),
        ],
    )
}

fn json_page(keys: Vec<String>, cursor: Option<String>) -> (r: HostValue)
    ensures
        r@ == json_page_model(keys@, cursor),
{
    let ghost km = keys@;
    let ghost cm = cursor;
    let arr = texts_to_host(keys);
    let c = match cursor {
        Some(s) => HostValue::Str(s),
        None => HostValue::Null,
    };
    let ghost ch = c@;
    let mut fields: Vec<(String, HostValue)> = Vec::new();
    fields.push((String::from_str("keys"), arr));
    fields.push((String::from_str("cursor"), c));
    let h = HostValue::Object(fields);
    assert(h@ == json_page_model(km, cm)) by {
        let hs = match h@ {
            HostModel::Object(s) => s,
            _ => Seq::empty(),
        };
        let ms = match json_page_model(km, cm) {
            HostModel::Object(s) => s,
            _ => Seq::empty(),
        };
        assert(hs =~= ms);
    }
    h
}

/// Reads a page of JSON document keys as `{keys, cursor}`.
pub fn read_json_page(out: Output) -> (r: Result<HostValue, BindingError>)
    ensures
        out matches Output::JsonListResult { keys, cursor } ==> (r matches Ok(h) && h@
            == json_page_model(keys@, cursor)),
        out matches Output::Keys(ks) ==> (r matches Ok(h) && h@ == json_page_model(ks@, None)),
        !(out is JsonListResult || out is Keys) ==> r == Err::<HostValue, BindingError>(
            BindingError::UnexpectedOutput(CommandKind::JsonList),
        ),
{
    match out {
        Output::JsonListResult { keys, cursor } => Ok(json_page(keys, cursor)),
        Output::Keys(ks) => Ok(json_page(ks, None)),
        _ => Err(BindingError::UnexpectedOutput(CommandKind::JsonList)),
    }
}

/// Reads a yes-or-no answer.
pub fn read_bool(kind: CommandKind, out: Output) -> (r: Result<bool, BindingError>)
    ensures
        out matches Output::Bool(b) ==> r == Ok::<bool, BindingError>(b),
        !(out is Bool) ==> r == Err::<bool, BindingError>(BindingError::UnexpectedOutput(kind)),
{
    match out {
        Output::Bool(b) => Ok(b),
        _ => Err(BindingError::UnexpectedOutput(kind)),
    }
}

/// Reads an answer that carries nothing.
pub fn read_unit(kind: CommandKind, out: Output) -> (r: Result<(), BindingError>)
    ensures
        out is Unit ==> r is Ok,
        !(out is Unit) ==> r == Err::<(), BindingError>(BindingError::UnexpectedOutput(kind)),
{
    match out {
        Output::Unit => Ok(()),
        _ => Err(BindingError::UnexpectedOutput(kind)),
    }
}

/// The host form of a timestamp that may be absent.
pub open spec fn stamp_model(t: Option<u64>) -> HostModel {
    match t {
        Some(x) => HostModel::Int(x as i64),
        None => HostModel::Null,
    }
}

fn stamp(t: Option<u64>) -> (r: HostValue)
    ensures
        r@ == stamp_model(t),
{
    match t {
        Some(x) => HostValue::Int(x as i64),
        None => HostValue::Null,
    }
}

/// Reads the time range of a branch as `{oldestTs, latestTs}`.
pub fn read_time_range(out: Output) -> (r: Result<HostValue, BindingError>)
    ensures
        out matches Output::TimeRange { oldest_ts, latest_ts } ==> (r matches Ok(h) && h@
            == HostModel::Object(
            seq![("oldestTs"@, stamp_model(oldest_ts)), ("latestTs"@, stamp_model(latest_ts))],
        )),
        !(out is TimeRange) ==> r == Err::<HostValue, BindingError>(
            BindingError::UnexpectedOutput(CommandKind::TimeRange),
        ),
{
    match out {
        Output::TimeRange { oldest_ts, latest_ts } => {
            let o = stamp(oldest_ts);
            let l = stamp(latest_ts);
            let mut fields: Vec<(String, HostValue)> = Vec::new();
            fields.push((String::from_str("oldestTs"), o));
            fields.push((String::from_str("latestTs"), l));
            let h = HostValue::Object(fields);
            assert(h@ == HostModel::Object(
                seq![("oldestTs"@, stamp_model(oldest_ts)), ("latestTs"@, stamp_model(latest_ts))],
            )) by {
                let hs = match h@ {
                    HostModel::Object(s) => s,
                    _ => Seq::empty(),
                };
                assert(hs =~= seq![
                    ("oldestTs"@, stamp_model(oldest_ts)),
                    ("latestTs"@, stamp_model(latest_ts)),
                ]);
            }
            Ok(h)
        },
        _ => Err(BindingError::UnexpectedOutput(CommandKind::TimeRange)),
    }
}

/// Reads the answer to a vector read.
pub fn read_vector(out: Output) -> (r: Result<Option<VectorEntry>, BindingError>)
    ensures
        out matches Output::VectorData(d) ==> r == Ok::<Option<VectorEntry>, BindingError>(d),
        !(out is VectorData) ==> r == Err::<Option<VectorEntry>, BindingError>(
            BindingError::UnexpectedOutput(CommandKind::VectorGet),
        ),
{
    match out {
        Output::VectorData(d) => Ok(d),
        _ => Err(BindingError::UnexpectedOutput(CommandKind::VectorGet)),
    }
}

/// Reads the answer to a vector search.
pub fn read_matches(out: Output) -> (r: Result<Vec<VectorMatch>, BindingError>)
    ensures
        out matches Output::VectorMatches(ms) ==> r == Ok::<Vec<VectorMatch>, BindingError>(ms),
        !(out is VectorMatches) ==> r == Err::<Vec<VectorMatch>, BindingError>(
            BindingError::UnexpectedOutput(CommandKind::VectorSearch),
        ),
{
    match out {
        Output::VectorMatches(ms) => Ok(ms),
        _ => Err(BindingError::UnexpectedOutput(CommandKind::VectorSearch)),
    }
}

/// Reads the answer to a search across primitives.
pub fn read_hits(out: Output) -> (r: Result<Vec<SearchHit>, BindingError>)
    ensures
        out matches Output::SearchResults(hs) ==> r == Ok::<Vec<SearchHit>, BindingError>(hs),
        !(out is SearchResults) ==> r == Err::<Vec<SearchHit>, BindingError>(
            BindingError::UnexpectedOutput(CommandKind::Search),
        ),
{
    match out {
        Output::SearchResults(hs) => Ok(hs),
        _ => Err(BindingError::UnexpectedOutput(CommandKind::Search)),
    }
}

/// Reads the version a write produced, as the host's signed integer.
pub fn read_version(kind: CommandKind, out: Output) -> (r: Result<i64, BindingError>)
    ensures
        out matches Output::Version(v) ==> r == Ok::<i64, BindingError>(v as i64),
        !(out is Version) ==> r == Err::<i64, BindingError>(BindingError::UnexpectedOutput(kind)),
{
    match out {
        Output::Version(v) => Ok(v as i64),
        _ => Err(BindingError::UnexpectedOutput(kind)),
    }
}

/// Reads the version a compare-and-swap produced, if it took place.
pub fn read_maybe_version(out: Output) -> (r: Result<Option<i64>, BindingError>)
    ensures
        out matches Output::MaybeVersion(Some(v)) ==> r == Ok::<Option<i64>, BindingError>(
            Some(v as i64),
        ),
        out matches Output::MaybeVersion(None) ==> r == Ok::<Option<i64>, BindingError>(None),
        !(out is MaybeVersion) ==> r == Err::<Option<i64>, BindingError>(
            BindingError::UnexpectedOutput(CommandKind::StateCas),
        ),
{
    match out {
        Output::MaybeVersion(Some(v)) => Ok(Some(v as i64)),
        Output::MaybeVersion(None) => Ok(None),
        _ => Err(BindingError::UnexpectedOutput(CommandKind::StateCas)),
    }
}

/// Reads the versions a batch write produced, in order.
pub fn read_versions(out: Output) -> (r: Result<Vec<i64>, BindingError>)
    ensures
        out matches Output::Versions(vs) ==> (r matches Ok(xs) && xs@.len() == vs@.len()
            && forall|i: int| 0 <= i < vs@.len() ==> #[trigger] xs@[i] == vs@[i] as i64),
        !(out is Versions) ==> r == Err::<Vec<i64>, BindingError>(
            BindingError::UnexpectedOutput(CommandKind::VectorBatchUpsert),
        ),
{
    match out {
        Output::Versions(vs) => {
            let mut xs: Vec<i64> = Vec::new();
            let mut i: usize = 0;
            while i < vs.len()
                invariant
                    i <= vs@.len(),
                    xs@.len() == i,
                    forall|j: int| 0 <= j < i ==> #[trigger] xs@[j] == vs@[j] as i64,
                decreases vs@.len() - i,
            {
                xs.push(vs[i] as i64);
                i = i + 1;
            }
            Ok(xs)
        },
        _ => Err(BindingError::UnexpectedOutput(CommandKind::VectorBatchUpsert)),
    }
}

} // verus!
