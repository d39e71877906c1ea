//! Classification of engine failures and rendering of the text a caller sees.
use vstd::prelude::*;

use crate::command::CommandKind;

verus! {

/// The externally visible categories of an engine failure.
#[derive(Clone, Copy, Debug, PartialEq, Eq, Structural)]
pub enum Category {
    NotFound,
    Validation,
    Conflict,
    State,
    Constraint,
    AccessDenied,
    Io,
}

/// Every kind of failure the engine reports.
#[derive(Clone, Copy, Debug, PartialEq, Eq, Structural)]
pub enum EngineErrorKind {
    KeyNotFound,
    BranchNotFound,
    CollectionNotFound,
    StreamNotFound,
    CellNotFound,
    DocumentNotFound,
    InvalidKey,
    InvalidPath,
    InvalidInput,
    WrongType,
    VersionConflict,
    TransitionFailed,
    Conflict,
    TransactionConflict,
    BranchClosed,
    BranchExists,
    CollectionExists,
    TransactionNotActive,
    TransactionAlreadyActive,
    DimensionMismatch,
    ConstraintViolation,
    HistoryTrimmed,
    HistoryUnavailable,
    Overflow,
    AccessDenied,
    Io,
    Serialization,
    Internal,
    NotImplemented,
}

/// The category of each engine failure kind: a total table with no fallback.
pub open spec fn category_of(kind: EngineErrorKind) -> Category {
    match kind {
        EngineErrorKind::KeyNotFound
        | EngineErrorKind::BranchNotFound
        | EngineErrorKind::CollectionNotFound
        | EngineErrorKind::StreamNotFound
        | EngineErrorKind::CellNotFound
        | EngineErrorKind::DocumentNotFound => Category::NotFound,
        EngineErrorKind::InvalidKey
        | EngineErrorKind::InvalidPath
        | EngineErrorKind::InvalidInput
        | EngineErrorKind::WrongType => Category::Validation,
        EngineErrorKind::VersionConflict
        | EngineErrorKind::TransitionFailed
        | EngineErrorKind::Conflict
        | EngineErrorKind::TransactionConflict => Category::Conflict,
        EngineErrorKind::BranchClosed
        | EngineErrorKind::BranchExists
        | EngineErrorKind::CollectionExists
        | EngineErrorKind::TransactionNotActive
        | EngineErrorKind::TransactionAlreadyActive => Category::State,
        EngineErrorKind::DimensionMismatch
        | EngineErrorKind::ConstraintViolation
        | EngineErrorKind::HistoryTrimmed
        | EngineErrorKind::HistoryUnavailable
        | EngineErrorKind::Overflow => Category::Constraint,
        EngineErrorKind::AccessDenied => Category::AccessDenied,
        EngineErrorKind::Io
        | EngineErrorKind::Serialization
        | EngineErrorKind::Internal
        | EngineErrorKind::NotImplemented => Category::Io,
    }
}

/// Maps an engine failure kind to its category.
pub fn classify(kind: EngineErrorKind) -> (c: Category)
    ensures
        c == category_of(kind),
{
    match kind {
        EngineErrorKind::KeyNotFound
        | EngineErrorKind::BranchNotFound
        | EngineErrorKind::CollectionNotFound
        | EngineErrorKind::StreamNotFound
        | EngineErrorKind::CellNotFound
        | EngineErrorKind::DocumentNotFound => Category::NotFound,
        EngineErrorKind::InvalidKey
        | EngineErrorKind::InvalidPath
        | EngineErrorKind::InvalidInput
        | EngineErrorKind::WrongType => Category::Validation,
        EngineErrorKind::VersionConflict
        | EngineErrorKind::TransitionFailed
        | EngineErrorKind::Conflict
        | EngineErrorKind::TransactionConflict => Category::Conflict,
        EngineErrorKind::BranchClosed
        | EngineErrorKind::BranchExists
        | EngineErrorKind::CollectionExists
        | EngineErrorKind::TransactionNotActive
        | EngineErrorKind::TransactionAlreadyActive => Category::State,
        EngineErrorKind::DimensionMismatch
        | EngineErrorKind::ConstraintViolation
        | EngineErrorKind::HistoryTrimmed
        | EngineErrorKind::HistoryUnavailable
        | EngineErrorKind::Overflow => Category::Constraint,
        EngineErrorKind::AccessDenied => Category::AccessDenied,
        EngineErrorKind::Io
        | EngineErrorKind::Serialization
        | EngineErrorKind::Internal
        | EngineErrorKind::NotImplemented => Category::Io,
    }
}

/// The bracketed tag that prefixes the text of a failure of a category.
pub open spec fn tag_text(c: Category) -> Seq<char> {
    match c {
        Category::NotFound => "[NOT_FOUND]"@,
        Category::Validation => "[VALIDATION]"@,
        Category::Conflict => "[CONFLICT]"@,
        Category::State => "[STATE]"@,
        Category::Constraint => "[CONSTRAINT]"@,
        Category::AccessDenied => "[ACCESS_DENIED]"@,
        Category::Io => "[IO]"@,
    }
}

impl Category {
    pub fn tag(&self) -> (r: &'static str)
        ensures
            r@ == tag_text(*self),
    {
        match self {
            Category::NotFound => "[NOT_FOUND]",
            Category::Validation => "[VALIDATION]",
            Category::Conflict => "[CONFLICT]",
            Category::State => "[STATE]",
            Category::Constraint => "[CONSTRAINT]",
            Category::AccessDenied => "[ACCESS_DENIED]",
            Category::Io => "[IO]",
        }
    }
}

/// The character of a decimal digit.
pub open spec fn digit_char(d: int) -> char {
    "0123456789"@[d]
}

/// The decimal notation of a natural number, most significant digit first.
pub open spec fn decimal(n: nat) -> Seq<char>
    decreases n,
{
    if n < 10 {
        seq![digit_char(n as int)]
    } else {
        decimal(n / 10).push(digit_char((n % 10) as int))
    }
}

/// Appends the decimal notation of `n` to `s`.
pub fn push_decimal(s: &mut String, n: usize)
    ensures
        final(s)@ == old(s)@ + decimal(n as nat),
    decreases n,
{
    if n >= 10 {
        push_decimal(s, n / 10);
    }
    let d: usize = n % 10;
    let digits = "0123456789";
    proof {
        reveal_strlit("0123456789");
    }
    let piece = digits.substring_ascii(d, d + 1);
    assert(piece@ =~= seq![digit_char(d as int)]);
    s.append(piece);
    proof {
        if n >= 10 {
            assert(old(s)@ + decimal(n as nat) =~= old(s)@ + decimal((n / 10) as nat) + seq![
                digit_char(d as int),
            ]);
        } else {
            assert(old(s)@ + decimal(n as nat) =~= old(s)@ + seq![digit_char(d as int)]);
        }
    }
}

/// A failure the engine reported: its kind and the engine's own text.
#[derive(Clone, Debug)]
pub struct EngineError {
    pub kind: EngineErrorKind,
    pub message: String,
}

/// Input this layer rejects before any engine call.
#[derive(Clone, Debug)]
pub enum InputError {
    /// A value nests deeper than the codec accepts.
    DepthExceeded,
    /// The element at this index of a vector is NaN or infinite.
    NonFiniteElement(usize),
    /// A distance metric name that is not known, for a new collection.
    UnknownMetric,
    /// A distance metric name that is not known, for a search.
    InvalidMetric(String),
    /// A merge strategy name that is not known.
    InvalidMergeStrategy,
    FilterNotObject,
    FilterMissingField,
    FilterMissingOp,
    /// A filter operator token that is not known.
    InvalidFilterOp(String),
    FilterMissingValue,
    EntryNotObject,
    EntryMissingKey,
    EntryMissingVector,
    ElementNotNumber,
}

/// Everything a call through this layer can fail with.
#[derive(Clone, Debug)]
pub enum BindingError {
    /// A failure classified from the engine's own report.
    Engine(EngineError),
    /// Input rejected before it reached the engine.
    Invalid(InputError),
    /// A transaction call with no session to route it to.
    NoTransaction,
    /// A shared resource's lock was found poisoned.
    LockPoisoned,
    /// The engine answered a command with an output of another kind.
    UnexpectedOutput(CommandKind),
    /// The worker that ran the call did not complete normally.
    Dispatch(String),
}

pub open spec fn input_text(e: InputError) -> Seq<char> {
    match e {
        InputError::DepthExceeded => "[VALIDATION] JSON nesting depth exceeds maximum of 64"@,
        InputError::NonFiniteElement(i) => "[VALIDATION] Vector element at index "@ + decimal(
            i as nat,
        ) + " is not a finite number"@,
        InputError::UnknownMetric => "[VALIDATION] Invalid metric"@,
        InputError::InvalidMetric(m) => "[VALIDATION] Invalid metric: "@ + m@,
        InputError::InvalidMergeStrategy => "[VALIDATION] Invalid merge strategy"@,
        InputError::FilterNotObject => "[VALIDATION] Filter must be an object"@,
        InputError::FilterMissingField => "[VALIDATION] Filter missing 'field'"@,
        InputError::FilterMissingOp => "[VALIDATION] Filter missing 'op'"@,
        InputError::InvalidFilterOp(op) => "[VALIDATION] Invalid filter op: "@ + op@,
        InputError::FilterMissingValue => "[VALIDATION] Filter missing 'value'"@,
        InputError::EntryNotObject => "[VALIDATION] Expected object"@,
        InputError::EntryMissingKey => "[VALIDATION] Missing 'key'"@,
        InputError::EntryMissingVector => "[VALIDATION] Missing 'vector'"@,
        InputError::ElementNotNumber => "[VALIDATION] Vector element is not a number"@,
    }
}

impl BindingError {
    /// The category of a classified failure; wrapper-local failures have none.
    pub open spec fn spec_category(&self) -> Option<Category> {
        match self {
            BindingError::Engine(e) => Some(category_of(e.kind)),
            BindingError::Invalid(_) => Some(Category::Validation),
            BindingError::NoTransaction => Some(Category::State),
            _ => None,
        }
    }

    /// The text a caller sees for this failure.
    pub open spec fn text(&self) -> Seq<char> {
        match self {
            BindingError::Engine(e) => tag_text(category_of(e.kind)) + " "@ + e.message@,
            BindingError::Invalid(i) => input_text(*i),
            BindingError::NoTransaction => "[STATE] No transaction active"@,
            BindingError::LockPoisoned => "Lock poisoned"@,
            BindingError::UnexpectedOutput(k) => "Unexpected output for "@ + k.name_text(),
            BindingError::Dispatch(m) => m@,
        }
    }

    pub fn category(&self) -> (r: Option<Category>)
        ensures
            r == self.spec_category(),
    {
        match self {
            BindingError::Engine(e) => Some(classify(e.kind)),
            BindingError::Invalid(_) => Some(Category::Validation),
            BindingError::NoTransaction => Some(Category::State),
            _ => None,
        }
    }

    pub fn message(&self) -> (r: String)
        ensures
            r@ == self.text(),
    {
        match self {
            BindingError::Engine(e) => {
                let mut s = String::from_str(classify(e.kind).tag());
                s.append(" ");
                s.append(e.message.as_str());
                s
            },
            BindingError::Invalid(i) => input_message(i),
            BindingError::NoTransaction => String::from_str("[STATE] No transaction active"),
            BindingError::LockPoisoned => String::from_str("Lock poisoned"),
            BindingError::UnexpectedOutput(k) => {
                let mut s = String::from_str("Unexpected output for ");
                s.append(k.name());
                s
            },
            BindingError::Dispatch(m) => m.clone(),
        }
    }
}

fn input_message(e: &InputError) -> (r: String)
    ensures
        r@ == input_text(*e),
{
    match e {
        InputError::DepthExceeded => String::from_str(
            "[VALIDATION] JSON nesting depth exceeds maximum of 64",
        ),
        InputError::NonFiniteElement(i) => {
            let mut s = String::from_str("[VALIDATION] Vector element at index ");
            push_decimal(&mut s, *i);
            s.append(" is not a finite number");
            s
        },
        InputError::UnknownMetric => String::from_str("[VALIDATION] Invalid metric"),
        InputError::InvalidMetric(m) => {
            let mut s = String::from_str("[VALIDATION] Invalid metric: ");
            s.append(m.as_str());
            s
        },
        InputError::InvalidMergeStrategy => String::from_str("[VALIDATION] Invalid merge strategy"),
        InputError::FilterNotObject => String::from_str("[VALIDATION] Filter must be an object"),
        InputError::FilterMissingField => String::from_str("[VALIDATION] Filter missing 'field'"),
        InputError::FilterMissingOp => String::from_str("[VALIDATION] Filter missing 'op'"),
        InputError::InvalidFilterOp(op) => {
            let mut s = String::from_str("[VALIDATION] Invalid filter op: ");
            s.append(op.as_str());
            s
        },
        InputError::FilterMissingValue => String::from_str("[VALIDATION] Filter missing 'value'"),
        InputError::EntryNotObject => String::from_str("[VALIDATION] Expected object"),
        InputError::EntryMissingKey => String::from_str("[VALIDATION] Missing 'key'"),
        InputError::EntryMissingVector => String::from_str("[VALIDATION] Missing 'vector'"),
        InputError::ElementNotNumber => String::from_str(
            "[VALIDATION] Vector element is not a number",
        ),
    }
}

} // verus!
