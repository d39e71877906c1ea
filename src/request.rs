//! Turning host arguments into engine commands: names and tokens, filters,
//! batch entries, and the defaulting of branch and space.
use vstd::prelude::*;

use crate::codec::{depth_ok, encode, encode_model, is_finite_bits, validate_vector};
use crate::command::{Command, DistanceMetric, FilterOp, MergeStrategy, MetadataFilter};
use crate::error::{BindingError, Category, InputError};
use crate::value::{HostModel, HostValue, Value, ValueModel};

verus! {

/// Whether `s` holds the text `lit`.
pub fn text_is(s: &String, lit: &str) -> (r: bool)
    ensures
        r == (s@ == lit@),
{
    let t = String::from_str(lit);
    *s == t
}

/// The distance metric a name denotes.
pub open spec fn metric_of(name: Seq<char>) -> Option<DistanceMetric> {
    if name == "cosine"@ {
        Some(DistanceMetric::Cosine)
    } else if name == "euclidean"@ {
        Some(DistanceMetric::Euclidean)
    } else if name == "dot_product"@ || name == "dotproduct"@ {
        Some(DistanceMetric::DotProduct)
    } else {
        None
    }
}

/// Reads a distance metric name.
pub fn parse_metric(name: &String) -> (r: Result<DistanceMetric, BindingError>)
    ensures
        metric_of(name@) matches Some(m) ==> r == Ok::<DistanceMetric, BindingError>(m),
        metric_of(name@) is None ==> (r matches Err(
            BindingError::Invalid(InputError::InvalidMetric(n)),
        ) && n@ == name@),
{
    if text_is(name, "cosine") {
        Ok(DistanceMetric::Cosine)
    } else if text_is(name, "euclidean") {
        Ok(DistanceMetric::Euclidean)
    } else if text_is(name, "dot_product") || text_is(name, "dotproduct") {
        Ok(DistanceMetric::DotProduct)
    } else {
        Err(BindingError::Invalid(InputError::InvalidMetric(name.clone())))
    }
}

/// The metric of a new collection: cosine unless another is named.
pub fn collection_metric(name: &Option<String>) -> (r: Result<DistanceMetric, BindingError>)
    ensures
        name is None ==> r == Ok::<DistanceMetric, BindingError>(DistanceMetric::Cosine),
        name matches Some(n) ==> (metric_of(n@) matches Some(m) ==> r == Ok::<
            DistanceMetric,
            BindingError,
        >(m)),
        name matches Some(n) ==> (metric_of(n@) is None ==> r == Err::<
            DistanceMetric,
            BindingError,
        >(BindingError::Invalid(InputError::UnknownMetric))),
{
    match name {
        None => Ok(DistanceMetric::Cosine),
        Some(n) => match parse_metric(n) {
            Ok(m) => Ok(m),
            Err(_) => Err(BindingError::Invalid(InputError::UnknownMetric)),
        },
    }
}

/// The metric override of a search: none unless one is named.
pub fn search_metric(name: &Option<String>) -> (r: Result<Option<DistanceMetric>, BindingError>)
    ensures
        name is None ==> r == Ok::<Option<DistanceMetric>, BindingError>(None),
        name matches Some(n) ==> (metric_of(n@) matches Some(m) ==> r == Ok::<
            Option<DistanceMetric>,
            BindingError,
        >(Some(m))),
        name matches Some(n) ==> (metric_of(n@) is None ==> (r matches Err(
            BindingError::Invalid(InputError::InvalidMetric(x)),
        ) && x@ == n@)),
{
    match name {
        None => Ok(None),
        Some(n) => match parse_metric(n) {
            Ok(m) => Ok(Some(m)),
            Err(e) => Err(e),
        },
    }
}

/// The merge strategy a name denotes.
pub open spec fn merge_strategy_of(name: Seq<char>) -> Option<MergeStrategy> {
    if name == "last_writer_wins"@ {
        Some(MergeStrategy::LastWriterWins)
    } else if name == "strict"@ {
        Some(MergeStrategy::Strict)
    } else {
        None
    }
}

/// Reads a merge strategy: last-writer-wins unless another is named.
pub fn parse_merge_strategy(name: &Option<String>) -> (r: Result<MergeStrategy, BindingError>)
    ensures
        name is None ==> r == Ok::<MergeStrategy, BindingError>(MergeStrategy::LastWriterWins),
        name matches Some(n) ==> (merge_strategy_of(n@) matches Some(m) ==> r == Ok::<
            MergeStrategy,
            BindingError,
        >(m)),
        name matches Some(n) ==> (merge_strategy_of(n@) is None ==> r == Err::<
            MergeStrategy,
            BindingError,
        >(BindingError::Invalid(InputError::InvalidMergeStrategy))),
{
    match name {
        None => Ok(MergeStrategy::LastWriterWins),
        Some(n) => {
            if text_is(n, "last_writer_wins") {
                Ok(MergeStrategy::LastWriterWins)
            } else if text_is(n, "strict") {
                Ok(MergeStrategy::Strict)
            } else {
                Err(BindingError::Invalid(InputError::InvalidMergeStrategy))
            }
        },
    }
}

/// The filter operator a token denotes.
pub open spec fn filter_op_of(token: Seq<char>) -> Option<FilterOp> {
    if token == "eq"@ {
        Some(FilterOp::Eq)
    } else if token == "ne"@ {
        Some(FilterOp::Ne)
    } else if token == "gt"@ {
        Some(FilterOp::Gt)
    } else if token == "gte"@ {
        Some(FilterOp::Gte)
    } else if token == "lt"@ {
        Some(FilterOp::Lt)
    } else if token == "lte"@ {
        Some(FilterOp::Lte)
    } else if token == "in"@ {
        Some(FilterOp::In)
    } else if token == "contains"@ {
        Some(FilterOp::Contains)
    } else {
        None
    }
}

/// Reads a filter operator token.
pub fn parse_filter_op(token: &String) -> (r: Option<FilterOp>)
    ensures
        r == filter_op_of(token@),
{
    if text_is(token, "eq") {
        Some(FilterOp::Eq)
    } else if text_is(token, "ne") {
        Some(FilterOp::Ne)
    } else if text_is(token, "gt") {
        Some(FilterOp::Gt)
    } else if text_is(token, "gte") {
        Some(FilterOp::Gte)
    } else if text_is(token, "lt") {
        Some(FilterOp::Lt)
    } else if text_is(token, "lte") {
        Some(FilterOp::Lte)
    } else if text_is(token, "in") {
        Some(FilterOp::In)
    } else if text_is(token, "contains") {
        Some(FilterOp::Contains)
    } else {
        None
    }
}

/// The value of the first of the first `n` fields whose key is `key`.
pub open spec fn lookup_in(fields: Seq<(Seq<char>, HostModel)>, key: Seq<char>, n: int) -> Option<
    HostModel,
>
    decreases n,
{
    if n <= 0 || n > fields.len() {
        None
    } else {
        match lookup_in(fields, key, n - 1) {
            Some(v) => Some(v),
            None => if fields[n - 1].0 == key {
                Some(fields[n - 1].1)
            } else {
                None
            },
        }
    }
}

/// The value of the field `key` of an object's fields.
pub open spec fn lookup(fields: Seq<(Seq<char>, HostModel)>, key: Seq<char>) -> Option<HostModel> {
    lookup_in(fields, key, fields.len() as int)
}

proof fn lemma_lookup_found(fields: Seq<(Seq<char>, HostModel)>, key: Seq<char>, i: int, n: int)
    requires
        0 <= i < n <= fields.len(),
        lookup_in(fields, key, i) is None,
        fields[i].0 == key,
    ensures
        lookup_in(fields, key, n) == Some(fields[i].1),
    decreases n,
{
    if n > i + 1 {
        lemma_lookup_found(fields, key, i, n - 1);
    }
}

/// The field `key` of an object given by its fields.
pub fn get_field<'a>(fields: &'a Vec<(String, HostValue)>, key: &str) -> (r: Option<
    &'a HostValue,
>)
    ensures
        ({
            let m = HostValue::Object(*fields)@;
            m matches HostModel::Object(fs) && match r {
                Some(v) => lookup(fs, key@) == Some(v@),
                None => lookup(fs, key@) is None,
            }
        }),
{
    let ghost fs = match HostValue::Object(*fields)@ {
        HostModel::Object(s) => s,
        _ => Seq::empty(),
    };
    assert(HostValue::Object(*fields)@ == HostModel::Object(fs));
    assert(fs.len() == fields@.len());
    assert(forall|j: int|
        0 <= j < fields@.len() ==> #[trigger] fs[j] == (fields@[j].0@, fields@[j].1@));
    let k = String::from_str(key);
    let mut i: usize = 0;
    while i < fields.len()
        invariant
            i <= fields@.len(),
            fs.len() == fields@.len(),
            k@ == key@,
            HostValue::Object(*fields)@ == HostModel::Object(fs),
            forall|j: int| 0 <= j < fields@.len() ==> #[trigger] fs[j] == (fields@[j].0@, fields@[j].1@),
            lookup_in(fs, key@, i as int) is None,
        decreases fields@.len() - i,
    {
        if fields[i].0 == k {
            proof {
                lemma_lookup_found(fs, key@, i as int, fs.len() as int);
            }
            return Some(&fields[i].1);
        }
        assert(lookup_in(fs, key@, i + 1) is None);
        i = i + 1;
    }
    None
}

/// Why a filter description is rejected.
pub enum FilterFault {
    NotObject,
    MissingField,
    MissingOp,
    UnknownOp(Seq<char>),
    MissingValue,
    TooDeep,
}

/// A metadata filter, in the model.
pub struct FilterModel {
    pub field: Seq<char>,
    pub op: FilterOp,
    pub value: ValueModel,
}

/// What a filter description (`{field, op, value}`) reads as.
pub open spec fn filter_model(item: HostModel) -> Result<FilterModel, FilterFault> {
    match item {
        HostModel::Object(fs) => match lookup(fs, "field"@) {
            Some(HostModel::Str(field)) => match lookup(fs, "op"@) {
                Some(HostModel::Str(op)) => match filter_op_of(op) {
                    Some(o) => match lookup(fs, "value"@) {
                        Some(v) => if depth_ok(v, 0) {
                            Ok(FilterModel { field, op: o, value: encode_model(v) })
                        } else {
                            Err(FilterFault::TooDeep)
                        },
                        None => Err(FilterFault::MissingValue),
                    },
                    None => Err(FilterFault::UnknownOp(op)),
                },
                _ => Err(FilterFault::MissingOp),
            },
            _ => Err(FilterFault::MissingField),
        },
        _ => Err(FilterFault::NotObject),
    }
}

/// Whether `e` is the error that reports `f`.
pub open spec fn reports(f: FilterFault, e: BindingError) -> bool {
    match f {
        FilterFault::NotObject => e == BindingError::Invalid(InputError::FilterNotObject),
        FilterFault::MissingField => e == BindingError::Invalid(InputError::FilterMissingField),
        FilterFault::MissingOp => e == BindingError::Invalid(InputError::FilterMissingOp),
        FilterFault::UnknownOp(op) => e matches BindingError::Invalid(
            InputError::InvalidFilterOp(t),
        ) && t@ == op,
        FilterFault::MissingValue => e == BindingError::Invalid(InputError::FilterMissingValue),
        FilterFault::TooDeep => e == BindingError::Invalid(InputError::DepthExceeded),
    }
}

/// Whether an engine filter is the one a model describes.
pub open spec fn filter_is(f: MetadataFilter, m: FilterModel) -> bool {
    f.field@ == m.field && f.op == m.op && f.value@ == m.value
}

/// Reads one filter description.
pub fn parse_filter(item: &HostValue) -> (r: Result<MetadataFilter, BindingError>)
    ensures
        filter_model(item@) matches Ok(m) ==> (r matches Ok(f) && filter_is(f, m)),
        filter_model(item@) matches Err(fault) ==> (r matches Err(e) && reports(fault, e)),
{
    match item {
        HostValue::Object(fields) => {
            assert(item@ == HostValue::Object(*fields)@);
            let field = match get_field(fields, "field") {
                Some(HostValue::Str(s)) => s.clone(),
                _ => {
                    return Err(BindingError::Invalid(InputError::FilterMissingField));
                },
            };
            let op_text = match get_field(fields, "op") {
                Some(HostValue::Str(s)) => s,
                _ => {
                    return Err(BindingError::Invalid(InputError::FilterMissingOp));
                },
            };
            let op = match parse_filter_op(op_text) {
                Some(o) => o,
                None => {
                    return Err(BindingError::Invalid(InputError::InvalidFilterOp(op_text.clone())));
                },
            };
            let raw = match get_field(fields, "value") {
                Some(v) => v,
                None => {
                    return Err(BindingError::Invalid(InputError::FilterMissingValue));
                },
            };
            let value = match encode(raw, 0) {
                Ok(v) => v,
                Err(e) => {
                    return Err(e);
                },
            };
            Ok(MetadataFilter { field, op, value })
        },
        _ => Err(BindingError::Invalid(InputError::FilterNotObject)),
    }
}

/// The models of a sequence of host values.
pub open spec fn models(items: Seq<HostValue>) -> Seq<HostModel> {
    items.map_values(|h: HostValue| h@)
}

/// Whether every filter description of `items` reads as a filter.
pub open spec fn filters_ok(items: Seq<HostModel>) -> bool {
    forall|i: int| 0 <= i < items.len() ==> (#[trigger] filter_model(items[i])) is Ok
}

/// Reads filter descriptions in order, stopping at the first that is rejected.
pub fn parse_filters(items: &Vec<HostValue>) -> (r: Result<Vec<MetadataFilter>, BindingError>)
    ensures
        r is Ok <==> filters_ok(models(items@)),
        r matches Ok(fs) ==> fs@.len() == items@.len() && forall|i: int|
            0 <= i < items@.len() ==> filter_is(
                #[trigger] fs@[i],
                filter_model(items@[i]@)->Ok_0,
            ),
        r matches Err(e) ==> exists|i: int|
            0 <= i < items@.len() && #[trigger] filter_model(items@[i]@) is Err && reports(
                filter_model(items@[i]@)->Err_0,
                e,
            ) && forall|j: int| 0 <= j < i ==> (#[trigger] filter_model(items@[j]@)) is Ok,
{
    let mut out: Vec<MetadataFilter> = Vec::new();
    let mut i: usize = 0;
    while i < items.len()
        invariant
            i <= items@.len(),
            out@.len() == i,
            forall|j: int| 0 <= j < i ==> (#[trigger] filter_model(items@[j]@)) is Ok,
            forall|j: int|
                0 <= j < i ==> filter_is(#[trigger] out@[j], filter_model(items@[j]@)->Ok_0),
        decreases items@.len() - i,
    {
        match parse_filter(&items[i]) {
            Ok(f) => {
                out.push(f);
            },
            Err(e) => {
                assert(filter_model(items@[i as int]@) is Err);
                assert(models(items@)[i as int] == items@[i as int]@);
                return Err(e);
            },
        }
        i = i + 1;
    }
    assert forall|j: int| 0 <= j < models(items@).len() implies (#[trigger] filter_model(
        models(items@)[j],
    )) is Ok by {
        assert(models(items@)[j] == items@[j]@);
    }
    Ok(out)
}

/// A filtered vector search, checked and ready to be addressed.
#[derive(Debug)]
pub struct VectorSearchRequest {
    pub collection: String,
    /// binary64 bit patterns, all finite.
    pub query: Vec<u64>,
    pub k: u64,
    pub metric: Option<DistanceMetric>,
    pub filter: Option<Vec<MetadataFilter>>,
    pub as_of: Option<u64>,
}

/// Whether a timestamp given by the host reads as the engine's.
pub open spec fn as_of_is(host: Option<i64>, engine: Option<u64>) -> bool {
    match host {
        Some(t) => engine == Some(t as u64),
        None => engine is None,
    }
}

/// The engine's reading of a timestamp the host gives.
pub fn engine_as_of(as_of: Option<i64>) -> (r: Option<u64>)
    ensures
        as_of_is(as_of, r),
{
    match as_of {
        Some(t) => Some(t as u64),
        None => None,
    }
}

/// Whether every element of a vector of bit patterns is finite.
pub open spec fn all_finite(v: Seq<u64>) -> bool {
    forall|i: int| 0 <= i < v.len() ==> is_finite_bits(#[trigger] v[i])
}

/// Whether a filtered vector search with these arguments passes every check.
pub open spec fn search_request_ok(
    query: Seq<u64>,
    metric: Option<Seq<char>>,
    filter: Option<Seq<HostModel>>,
) -> bool {
    &&& all_finite(query)
    &&& (metric matches Some(m) ==> metric_of(m) is Some)
    &&& (filter matches Some(items) ==> filters_ok(items))
}

/// Checks and reads the arguments of a filtered vector search: the query
/// must be finite, a named metric known, and every filter well formed.
/// Nothing is sent to the engine unless all of these hold.
pub fn prepare_vector_search(
    collection: String,
    query: Vec<u64>,
    k: u32,
    metric: Option<String>,
    filter: Option<Vec<HostValue>>,
    as_of: Option<i64>,
) -> (r: Result<VectorSearchRequest, BindingError>)
    ensures
        r is Ok <==> search_request_ok(
            query@,
            match metric {
                Some(m) => Some(m@),
                None => None,
            },
            match filter {
                Some(items) => Some(models(items@)),
                None => None,
            },
        ),
        r matches Err(e) ==> e.spec_category() == Some(Category::Validation),
        !all_finite(query@) ==> (r matches Err(BindingError::Invalid(
            InputError::NonFiniteElement(i),
        )) && i < query@.len() && !is_finite_bits(query@[i as int]) && forall|j: int|
            0 <= j < i ==> is_finite_bits(#[trigger] query@[j])),
        all_finite(query@) ==> (metric matches Some(m) ==> (metric_of(m@) is None ==> (
        r matches Err(BindingError::Invalid(InputError::InvalidMetric(x))) && x@ == m@))),
        all_finite(query@) && (metric matches Some(m) ==> metric_of(m@) is Some) ==> (
        filter matches Some(items) ==> (!filters_ok(models(items@)) ==> (r matches Err(e)
            && exists|i: int|
            0 <= i < items@.len() && #[trigger] filter_model(items@[i]@) is Err && reports(
                filter_model(items@[i]@)->Err_0,
                e,
            ) && forall|j: int| 0 <= j < i ==> (#[trigger] filter_model(items@[j]@)) is Ok))),
        r matches Ok(req) ==> {
            &&& req.collection == collection
            &&& req.query == query
            &&& req.k == k as u64
            &&& as_of_is(as_of, req.as_of)
            &&& (metric is None ==> req.metric is None)
            &&& (metric matches Some(m) ==> req.metric == metric_of(m@))
            &&& (filter is None ==> req.filter is None)
            &&& (filter matches Some(items) ==> (req.filter matches Some(fs) && fs@.len()
                == items@.len() && forall|i: int|
                0 <= i < items@.len() ==> filter_is(
                    #[trigger] fs@[i],
                    filter_model(items@[i]@)->Ok_0,
                )))
        },
{
    match validate_vector(query.as_slice()) {
        Ok(()) => {},
        Err(e) => {
            return Err(e);
        },
    }
    let metric_choice = match search_metric(&metric) {
        Ok(m) => m,
        Err(e) => {
            return Err(e);
        },
    };
    let filters = match filter {
        Some(items) => match parse_filters(&items) {
            Ok(fs) => Some(fs),
            Err(e) => {
                proof {
                    let i = choose|i: int|
                        0 <= i < items@.len() && #[trigger] filter_model(items@[i]@) is Err
                            && reports(filter_model(items@[i]@)->Err_0, e);
                    lemma_reports_validation(filter_model(items@[i]@)->Err_0, e);
                }
                return Err(e);
            },
        },
        None => None,
    };
    Ok(
        VectorSearchRequest {
            collection,
            query,
            k: k as u64,
            metric: metric_choice,
            filter: filters,
            as_of: engine_as_of(as_of),
        },
    )
}

/// Every rejected filter is reported as a validation failure.
pub proof fn lemma_reports_validation(f: FilterFault, e: BindingError)
    requires
        reports(f, e),
    ensures
        e.spec_category() == Some(Category::Validation),
{
}

/// A filtered vector search one of whose filters names an operator that is
/// not known fails its checks, so no command for it reaches the engine; the
/// failure is a validation failure.
pub proof fn lemma_unknown_filter_op_rejected(
    query: Seq<u64>,
    metric: Option<Seq<char>>,
    items: Seq<HostModel>,
    i: int,
    fields: Seq<(Seq<char>, HostModel)>,
    field: Seq<char>,
    op: Seq<char>,
)
    requires
        0 <= i < items.len(),
        items[i] == HostModel::Object(fields),
        lookup(fields, "field"@) == Some(HostModel::Str(field)),
        lookup(fields, "op"@) == Some(HostModel::Str(op)),
        filter_op_of(op) is None,
    ensures
        !search_request_ok(query, metric, Some(items)),
        filter_model(items[i]) == Err::<FilterModel, FilterFault>(FilterFault::UnknownOp(op)),
        forall|e: BindingError|
            reports(FilterFault::UnknownOp(op), e) ==> e.spec_category() == Some(
                Category::Validation,
            ),
{
    assert(filter_model(items[i]) is Err);
}

/// An element of a vector as the host gave it.
#[derive(Clone, Copy, Debug, PartialEq, Eq, Structural)]
pub enum Element {
    Int(i64),
    UInt(u64),
    /// A binary64 bit pattern.
    Float(u64),
}

/// The element a host value gives, if it is a number.
pub open spec fn element_of(h: HostModel) -> Option<Element> {
    match h {
        HostModel::Int(i) => Some(Element::Int(i)),
        HostModel::UInt(u) => Some(Element::UInt(u)),
        HostModel::Float(f) => Some(Element::Float(f)),
        _ => None,
    }
}

/// Whether an element is a finite number.
pub open spec fn element_finite(e: Element) -> bool {
    e matches Element::Float(f) ==> is_finite_bits(f)
}

/// One entry of a batch vector upsert, checked.
#[derive(Debug)]
pub struct BatchEntry {
    pub key: String,
    pub vector: Vec<Element>,
    pub metadata: Option<Value>,
}

/// Why a batch entry description is rejected.
pub enum EntryFault {
    NotObject,
    MissingKey,
    MissingVector,
    NotNumber,
    /// Some element is not finite; the items of the vector are given.
    NonFinite(Seq<HostModel>),
    TooDeep,
}

/// A batch entry, in the model.
pub struct EntryModel {
    pub key: Seq<char>,
    pub vector: Seq<Element>,
    pub metadata: Option<ValueModel>,
}

/// What a batch entry description (`{key, vector, metadata?}`) reads as.
pub open spec fn entry_model(item: HostModel) -> Result<EntryModel, EntryFault> {
    match item {
        HostModel::Object(fs) => match lookup(fs, "key"@) {
            Some(HostModel::Str(key)) => match lookup(fs, "vector"@) {
                Some(HostModel::Array(xs)) => {
                    if !(forall|i: int| 0 <= i < xs.len() ==> (#[trigger] element_of(xs[i])) is Some) {
                        Err(EntryFault::NotNumber)
                    } else if !(forall|i: int|
                        0 <= i < xs.len() ==> element_finite(#[trigger] element_of(xs[i])->0)) {
                        Err(EntryFault::NonFinite(xs))
                    } else {
                        let vector = Seq::new(xs.len(), |i: int| element_of(xs[i])->0);
                        match lookup(fs, "metadata"@) {
                            Some(m) => if depth_ok(m, 0) {
                                Ok(EntryModel { key, vector, metadata: Some(encode_model(m)) })
                            } else {
                                Err(EntryFault::TooDeep)
                            },
                            None => Ok(EntryModel { key, vector, metadata: None }),
                        }
                    }
                },
                _ => Err(EntryFault::MissingVector),
            },
            _ => Err(EntryFault::MissingKey),
        },
        _ => Err(EntryFault::NotObject),
    }
}

/// Whether `e` is the error that reports `f`.
pub open spec fn reports_entry(f: EntryFault, e: BindingError) -> bool {
    match f {
        EntryFault::NotObject => e == BindingError::Invalid(InputError::EntryNotObject),
        EntryFault::MissingKey => e == BindingError::Invalid(InputError::EntryMissingKey),
        EntryFault::MissingVector => e == BindingError::Invalid(InputError::EntryMissingVector),
        EntryFault::NotNumber => e == BindingError::Invalid(InputError::ElementNotNumber),
        EntryFault::NonFinite(xs) => e matches BindingError::Invalid(
            InputError::NonFiniteElement(i),
        ) && i < xs.len() && !element_finite(element_of(xs[i as int])->0) && forall|j: int|
            0 <= j < i ==> element_finite(#[trigger] element_of(xs[j])->0),
        EntryFault::TooDeep => e == BindingError::Invalid(InputError::DepthExceeded),
    }
}

/// Whether a checked entry is the one a model describes.
pub open spec fn entry_is(b: BatchEntry, m: EntryModel) -> bool {
    &&& b.key@ == m.key
    &&& b.vector@ == m.vector
    &&& match m.metadata {
        Some(v) => b.metadata matches Some(x) && x@ == v,
        None => b.metadata is None,
    }
}

fn read_elements(xs: &Vec<HostValue>) -> (r: Result<Vec<Element>, BindingError>)
    ensures
        ({
            let ms = models(xs@);
            &&& (r is Ok <==> forall|i: int|
                0 <= i < ms.len() ==> (#[trigger] element_of(ms[i])) is Some)
            &&& (r matches Ok(v) ==> v@ == Seq::new(ms.len(), |i: int| element_of(ms[i])->0))
            &&& (r matches Err(e) ==> e == BindingError::Invalid(InputError::ElementNotNumber))
        }),
{
    let ghost ms = models(xs@);
    let mut out: Vec<Element> = Vec::new();
    let mut i: usize = 0;
    while i < xs.len()
        invariant
            i <= xs@.len(),
            ms == models(xs@),
            out@.len() == i,
            forall|j: int| 0 <= j < i ==> (#[trigger] element_of(ms[j])) is Some,
            forall|j: int| 0 <= j < i ==> #[trigger] out@[j] == element_of(ms[j])->0,
        decreases xs@.len() - i,
    {
        assert(ms[i as int] == xs@[i as int]@);
        let e = match &xs[i] {
            HostValue::Int(n) => Element::Int(*n),
            HostValue::UInt(n) => Element::UInt(*n),
            HostValue::Float(f) => Element::Float(*f),
            _ => {
                assert(element_of(ms[i as int]) is None);
                return Err(BindingError::Invalid(InputError::ElementNotNumber));
            },
        };
        out.push(e);
        i = i + 1;
    }
    assert(out@ =~= Seq::new(ms.len(), |i: int| element_of(ms[i])->0));
    Ok(out)
}

fn check_elements(v: &Vec<Element>) -> (r: Result<(), BindingError>)
    ensures
        r is Ok <==> forall|i: int| 0 <= i < v@.len() ==> element_finite(#[trigger] v@[i]),
        r matches Err(e) ==> e matches BindingError::Invalid(InputError::NonFiniteElement(i)) && i
            < v@.len() && !element_finite(v@[i as int]) && forall|j: int|
            0 <= j < i ==> element_finite(#[trigger] v@[j]),
{
    let mut i: usize = 0;
    while i < v.len()
        invariant
            i <= v@.len(),
            forall|j: int| 0 <= j < i ==> element_finite(#[trigger] v@[j]),
        decreases v@.len() - i,
    {
        match v[i] {
            Element::Float(f) => {
                if !crate::codec::is_finite(f) {
                    return Err(BindingError::Invalid(InputError::NonFiniteElement(i)));
                }
            },
            _ => {},
        }
        i = i + 1;
    }
    Ok(())
}

/// Reads one batch entry description.
pub fn parse_entry(item: &HostValue) -> (r: Result<BatchEntry, BindingError>)
    ensures
        entry_model(item@) matches Ok(m) ==> (r matches Ok(b) && entry_is(b, m)),
        entry_model(item@) matches Err(fault) ==> (r matches Err(e) && reports_entry(fault, e)),
{
    match item {
        HostValue::Object(fields) => {
            assert(item@ == HostValue::Object(*fields)@);
            let key = match get_field(fields, "key") {
                Some(HostValue::Str(s)) => s.clone(),
                _ => {
                    return Err(BindingError::Invalid(InputError::EntryMissingKey));
                },
            };
            let xs = match get_field(fields, "vector") {
                Some(HostValue::Array(xs)) => xs,
                _ => {
                    return Err(BindingError::Invalid(InputError::EntryMissingVector));
                },
            };
            let ghost ms = models(xs@);
            assert(HostValue::Array(*xs)@ == HostModel::Array(ms)) by {
                let hs = match HostValue::Array(*xs)@ {
                    HostModel::Array(s) => s,
                    _ => Seq::empty(),
                };
                assert(hs =~= ms);
            }
            let vector = match read_elements(xs) {
                Ok(v) => v,
                Err(e) => {
                    return Err(e);
                },
            };
            assert(forall|k: int|
                0 <= k < ms.len() ==> #[trigger] vector@[k] == element_of(ms[k])->0);
            match check_elements(&vector) {
                Ok(()) => {},
                Err(e) => {
                    proof {
                        let i = match e {
                            BindingError::Invalid(InputError::NonFiniteElement(i)) => i as int,
                            _ => 0,
                        };
                        assert(!element_finite(element_of(ms[i])->0));
                        assert forall|j: int| 0 <= j < i implies element_finite(
                            #[trigger] element_of(ms[j])->0,
                        ) by {
                            assert(vector@[j] == element_of(ms[j])->0);
                        }
                    }
                    return Err(e);
                },
            }
            assert forall|k: int| 0 <= k < ms.len() implies element_finite(
                #[trigger] element_of(ms[k])->0,
            ) by {
                assert(vector@[k] == element_of(ms[k])->0);
            }
            let metadata = match get_field(fields, "metadata") {
                Some(m) => match encode(m, 0) {
                    Ok(v) => Some(v),
                    Err(e) => {
                        return Err(e);
                    },
                },
                None => None,
            };
            Ok(BatchEntry { key, vector, metadata })
        },
        _ => Err(BindingError::Invalid(InputError::EntryNotObject)),
    }
}

/// Whether every entry description of `items` reads as an entry.
pub open spec fn entries_ok(items: Seq<HostModel>) -> bool {
    forall|i: int| 0 <= i < items.len() ==> (#[trigger] entry_model(items[i])) is Ok
}

/// Reads the entries of a batch vector upsert in order, stopping at the
/// first that is rejected. All of it happens before the engine is called.
pub fn parse_batch(items: &Vec<HostValue>) -> (r: Result<Vec<BatchEntry>, BindingError>)
    ensures
        r is Ok <==> entries_ok(models(items@)),
        r matches Ok(bs) ==> bs@.len() == items@.len() && forall|i: int|
            0 <= i < items@.len() ==> entry_is(#[trigger] bs@[i], entry_model(items@[i]@)->Ok_0),
        r matches Err(e) ==> exists|i: int|
            0 <= i < items@.len() && #[trigger] entry_model(items@[i]@) is Err && reports_entry(
                entry_model(items@[i]@)->Err_0,
                e,
            ) && forall|j: int| 0 <= j < i ==> (#[trigger] entry_model(items@[j]@)) is Ok,
{
    let mut out: Vec<BatchEntry> = Vec::new();
    let mut i: usize = 0;
    while i < items.len()
        invariant
            i <= items@.len(),
            out@.len() == i,
            forall|j: int| 0 <= j < i ==> (#[trigger] entry_model(items@[j]@)) is Ok,
            forall|j: int|
                0 <= j < i ==> entry_is(#[trigger] out@[j], entry_model(items@[j]@)->Ok_0),
        decreases items@.len() - i,
    {
        match parse_entry(&items[i]) {
            Ok(b) => {
                out.push(b);
            },
            Err(e) => {
                assert(entry_model(items@[i as int]@) is Err);
                assert(models(items@)[i as int] == items@[i as int]@);
                return Err(e);
            },
        }
        i = i + 1;
    }
    assert forall|j: int| 0 <= j < models(items@).len() implies (#[trigger] entry_model(
        models(items@)[j],
    )) is Ok by {
        assert(models(items@)[j] == items@[j]@);
    }
    Ok(out)
}

/// The handle's current branch and space: the default context of every
/// command that does not name its own.
#[derive(Clone, Debug)]
pub struct Context {
    pub branch: String,
    pub space: String,
}

/// Whether a command's branch and space are the context's.
pub open spec fn scoped(ctx: Context, branch: Option<String>, space: Option<String>) -> bool {
    &&& branch matches Some(b) && b@ == ctx.branch@
    &&& space matches Some(s) && s@ == ctx.space@
}

/// Whether a limit given by the host reads as the engine's.
pub open spec fn limit_is(host: Option<u32>, engine: Option<u64>) -> bool {
    match host {
        Some(l) => engine == Some(l as u64),
        None => engine is None,
    }
}

fn engine_limit(limit: Option<u32>) -> (r: Option<u64>)
    ensures
        limit_is(limit, r),
{
    match limit {
        Some(l) => Some(l as u64),
        None => None,
    }
}

impl Context {
    fn scope(&self) -> (r: (Option<String>, Option<String>))
        ensures
            scoped(*self, r.0, r.1),
    {
        (Some(self.branch.clone()), Some(self.space.clone()))
    }

    /// Reads a key, as of a time if one is given.
    pub fn kv_get(&self, key: String, as_of: Option<i64>) -> (r: Command)
        ensures
            r matches Command::KvGet { branch, space, key: k, as_of: a } && scoped(
                *self,
                branch,
                space,
            ) && k == key && as_of_is(as_of, a),
    {
        let (branch, space) = self.scope();
        Command::KvGet { branch, space, key, as_of: engine_as_of(as_of) }
    }

    /// Lists keys, with an optional prefix and limit.
    pub fn kv_list(&self, prefix: Option<String>, limit: Option<u32>, as_of: Option<i64>) -> (r:
        Command)
        ensures
            r matches Command::KvList { branch, space, prefix: p, cursor, limit: l, as_of: a }
                && scoped(*self, branch, space) && p == prefix && cursor is None && limit_is(
                limit,
                l,
            ) && as_of_is(as_of, a),
    {
        let (branch, space) = self.scope();
        Command::KvList {
            branch,
            space,
            prefix,
            cursor: None,
            limit: engine_limit(limit),
            as_of: engine_as_of(as_of),
        }
    }

    /// Reads a state cell.
    pub fn state_get(&self, cell: String, as_of: Option<i64>) -> (r: Command)
        ensures
            r matches Command::StateGet { branch, space, cell: c, as_of: a } && scoped(
                *self,
                branch,
                space,
            ) && c == cell && as_of_is(as_of, a),
    {
        let (branch, space) = self.scope();
        Command::StateGet { branch, space, cell, as_of: engine_as_of(as_of) }
    }

    /// Lists state cells.
    pub fn state_list(&self, prefix: Option<String>, as_of: Option<i64>) -> (r: Command)
        ensures
            r matches Command::StateList { branch, space, prefix: p, as_of: a } && scoped(
                *self,
                branch,
                space,
            ) && p == prefix && as_of_is(as_of, a),
    {
        let (branch, space) = self.scope();
        Command::StateList { branch, space, prefix, as_of: engine_as_of(as_of) }
    }

    /// Reads an event by its sequence number.
    pub fn event_get(&self, sequence: i64, as_of: Option<i64>) -> (r: Command)
        ensures
            r matches Command::EventGet { branch, space, sequence: n, as_of: a } && scoped(
                *self,
                branch,
                space,
            ) && n == sequence as u64 && as_of_is(as_of, a),
    {
        let (branch, space) = self.scope();
        Command::EventGet { branch, space, sequence: sequence as u64, as_of: engine_as_of(as_of) }
    }

    /// Lists events of a type, optionally a page of them after a sequence number.
    pub fn events_by_type(
        &self,
        event_type: String,
        limit: Option<u32>,
        after: Option<i64>,
        as_of: Option<i64>,
    ) -> (r: Command)
        ensures
            r matches Command::EventGetByType {
                branch,
                space,
                event_type: t,
                limit: l,
                after_sequence: n,
                as_of: a,
            } && scoped(*self, branch, space) && t == event_type && limit_is(limit, l) && as_of_is(
                after,
                n,
            ) && as_of_is(as_of, a),
    {
        let (branch, space) = self.scope();
        Command::EventGetByType {
            branch,
            space,
            event_type,
            limit: engine_limit(limit),
            after_sequence: engine_as_of(after),
            as_of: engine_as_of(as_of),
        }
    }

    /// Reads a path of a JSON document.
    pub fn json_get(&self, key: String, path: String, as_of: Option<i64>) -> (r: Command)
        ensures
            r matches Command::JsonGet { branch, space, key: k, path: p, as_of: a } && scoped(
                *self,
                branch,
                space,
            ) && k == key && p == path && as_of_is(as_of, a),
    {
        let (branch, space) = self.scope();
        Command::JsonGet { branch, space, key, path, as_of: engine_as_of(as_of) }
    }

    /// Lists JSON document keys, a page at a time.
    pub fn json_list(
        &self,
        limit: u32,
        prefix: Option<String>,
        cursor: Option<String>,
        as_of: Option<i64>,
    ) -> (r: Command)
        ensures
            r matches Command::JsonList { branch, space, prefix: p, cursor: c, limit: l, as_of: a }
                && scoped(*self, branch, space) && p == prefix && c == cursor && l == limit as u64
                && as_of_is(as_of, a),
    {
        let (branch, space) = self.scope();
        Command::JsonList {
            branch,
            space,
            prefix,
            cursor,
            limit: limit as u64,
            as_of: engine_as_of(as_of),
        }
    }

    /// Reads a vector of a collection.
    pub fn vector_get(&self, collection: String, key: String, as_of: Option<i64>) -> (r: Command)
        ensures
            r matches Command::VectorGet { branch, space, collection: c, key: k, as_of: a }
                && scoped(*self, branch, space) && c == collection && k == key && as_of_is(
                as_of,
                a,
            ),
    {
        let (branch, space) = self.scope();
        Command::VectorGet { branch, space, collection, key, as_of: engine_as_of(as_of) }
    }

    /// Addresses a checked vector search.
    pub fn vector_search(&self, req: VectorSearchRequest) -> (r: Command)
        ensures
            r matches Command::VectorSearch {
                branch,
                space,
                collection,
                query,
                k,
                filter,
                metric,
                as_of,
            } && scoped(*self, branch, space) && collection == req.collection && query
                == req.query && k == req.k && filter == req.filter && metric == req.metric && as_of
                == req.as_of,
    {
        let (branch, space) = self.scope();
        Command::VectorSearch {
            branch,
            space,
            collection: req.collection,
            query: req.query,
            k: req.k,
            filter: req.filter,
            metric: req.metric,
            as_of: req.as_of,
        }
    }

    /// Writes a key.
    pub fn kv_put(&self, key: String, value: Value) -> (r: Command)
        ensures
            r matches Command::KvPut { branch, space, key: key_, value: value_ } && scoped(*self, branch, space) && key_ == key && value_ == value,
    {
        let (branch, space) = self.scope();
        Command::KvPut { branch, space, key: key, value: value }
    }

    /// Deletes a key.
    pub fn kv_delete(&self, key: String) -> (r: Command)
        ensures
            r matches Command::KvDelete { branch, space, key: key_ } && scoped(*self, branch, space) && key_ == key,
    {
        let (branch, space) = self.scope();
        Command::KvDelete { branch, space, key: key }
    }

    /// Writes a state cell.
    pub fn state_set(&self, cell: String, value: Value) -> (r: Command)
        ensures
            r matches Command::StateSet { branch, space, cell: cell_, value: value_ } && scoped(*self, branch, space) && cell_ == cell && value_ == value,
    {
        let (branch, space) = self.scope();
        Command::StateSet { branch, space, cell: cell, value: value }
    }

    /// Initialises a state cell that does not exist yet.
    pub fn state_init(&self, cell: String, value: Value) -> (r: Command)
        ensures
            r matches Command::StateInit { branch, space, cell: cell_, value: value_ } && scoped(*self, branch, space) && cell_ == cell && value_ == value,
    {
        let (branch, space) = self.scope();
        Command::StateInit { branch, space, cell: cell, value: value }
    }

    /// Replaces a state cell if its version is the one expected.
    pub fn state_cas(&self, cell: String, expected_version: Option<i64>, value: Value) -> (r: Command)
        ensures
            r matches Command::StateCas { branch, space, cell: cell_, expected_version: expected_version_, value: value_ } && scoped(*self, branch, space) && cell_ == cell && as_of_is(expected_version, expected_version_) && value_ == value,
    {
        let (branch, space) = self.scope();
        Command::StateCas { branch, space, cell: cell, expected_version: engine_as_of(expected_version), value: value }
    }

    /// Appends an event.
    pub fn event_append(&self, event_type: String, payload: Value) -> (r: Command)
        ensures
            r matches Command::EventAppend { branch, space, event_type: event_type_, payload: payload_ } && scoped(*self, branch, space) && event_type_ == event_type && payload_ == payload,
    {
        let (branch, space) = self.scope();
        Command::EventAppend { branch, space, event_type: event_type, payload: payload }
    }

    /// Writes a path of a JSON document.
    pub fn json_set(&self, key: String, path: String, value: Value) -> (r: Command)
        ensures
            r matches Command::JsonSet { branch, space, key: key_, path: path_, value: value_ } && scoped(*self, branch, space) && key_ == key && path_ == path && value_ == value,
    {
        let (branch, space) = self.scope();
        Command::JsonSet { branch, space, key: key, path: path, value: value }
    }

    /// Deletes a path of a JSON document.
    pub fn json_delete(&self, key: String, path: String) -> (r: Command)
        ensures
            r matches Command::JsonDelete { branch, space, key: key_, path: path_ } && scoped(*self, branch, space) && key_ == key && path_ == path,
    {
        let (branch, space) = self.scope();
        Command::JsonDelete { branch, space, key: key, path: path }
    }

    /// Writes a vector, whose elements are checked binary64 bit patterns.
    pub fn vector_upsert(&self, collection: String, key: String, vector: Vec<u64>, metadata: Option<Value>) -> (r: Command)
        ensures
            r matches Command::VectorUpsert { branch, space, collection: collection_, key: key_, vector: vector_, metadata: metadata_ } && scoped(*self, branch, space) && collection_ == collection && key_ == key && vector_ == vector && metadata_ == metadata,
    {
        let (branch, space) = self.scope();
        Command::VectorUpsert { branch, space, collection: collection, key: key, vector: vector, metadata: metadata }
    }

    /// Deletes a vector.
    pub fn vector_delete(&self, collection: String, key: String) -> (r: Command)
        ensures
            r matches Command::VectorDelete { branch, space, collection: collection_, key: key_ } && scoped(*self, branch, space) && collection_ == collection && key_ == key,
    {
        let (branch, space) = self.scope();
        Command::VectorDelete { branch, space, collection: collection, key: key }
    }

    /// Writes checked batch entries.
    pub fn vector_batch_upsert(&self, collection: String, entries: Vec<BatchEntry>) -> (r: Command)
        ensures
            r matches Command::VectorBatchUpsert { branch, space, collection: collection_, entries: entries_ } && scoped(*self, branch, space) && collection_ == collection && entries_ == entries,
    {
        let (branch, space) = self.scope();
        Command::VectorBatchUpsert { branch, space, collection: collection, entries: entries }
    }

    /// Deletes a state cell.
    pub fn state_delete(&self, cell: String) -> (r: Command)
        ensures
            r matches Command::StateDelete { branch, space, cell: cell_ } && scoped(*self, branch, space) && cell_ == cell,
    {
        let (branch, space) = self.scope();
        Command::StateDelete { branch, space, cell: cell }
    }

    /// Searches across primitives.
    pub fn search(&self, query: String, k: Option<u32>, primitives: Option<Vec<String>>) -> (r: Command)
        ensures
            r matches Command::Search { branch, space, query: query_, k: k_, primitives: primitives_ } && scoped(*self, branch, space) && query_ == query && limit_is(k, k_) && primitives_ == primitives,
    {
        let (branch, space) = self.scope();
        Command::Search { branch, space, query: query, k: engine_limit(k), primitives: primitives }
    }

    /// Creates a space in the current branch.
    pub fn space_create(&self, space: String) -> (r: Command)
        ensures
            r matches Command::SpaceCreate { branch, space: s } && branch matches Some(b) && b@
                == self.branch@ && s == space,
    {
        Command::SpaceCreate { branch: Some(self.branch.clone()), space }
    }

    /// Asks whether a space exists in the current branch.
    pub fn space_exists(&self, space: String) -> (r: Command)
        ensures
            r matches Command::SpaceExists { branch, space: s } && branch matches Some(b) && b@
                == self.branch@ && s == space,
    {
        Command::SpaceExists { branch: Some(self.branch.clone()), space }
    }

    /// Applies the retention policy of the current branch.
    pub fn retention_apply(&self) -> (r: Command)
        ensures
            r matches Command::RetentionApply { branch } && branch matches Some(b) && b@
                == self.branch@,
    {
        Command::RetentionApply { branch: Some(self.branch.clone()) }
    }

    /// Asks for the time range of the current branch.
    pub fn time_range(&self) -> (r: Command)
        ensures
            r matches Command::TimeRange { branch } && branch matches Some(b) && b@
                == self.branch@,
    {
        Command::TimeRange { branch: Some(self.branch.clone()) }
    }
}

} // verus!
