use strata_node::command::CommandKind;
use strata_node::error::{
    classify, push_decimal, BindingError, Category, EngineError, EngineErrorKind, InputError,
};

#[test]
fn every_kind_has_its_category() {
    let table = [
        (EngineErrorKind::KeyNotFound, Category::NotFound),
        (EngineErrorKind::DocumentNotFound, Category::NotFound),
        (EngineErrorKind::InvalidKey, Category::Validation),
        (EngineErrorKind::WrongType, Category::Validation),
        (EngineErrorKind::VersionConflict, Category::Conflict),
        (EngineErrorKind::TransactionConflict, Category::Conflict),
        (EngineErrorKind::BranchExists, Category::State),
        (EngineErrorKind::TransactionAlreadyActive, Category::State),
        (EngineErrorKind::TransactionNotActive, Category::State),
        (EngineErrorKind::DimensionMismatch, Category::Constraint),
        (EngineErrorKind::Overflow, Category::Constraint),
        (EngineErrorKind::AccessDenied, Category::AccessDenied),
        (EngineErrorKind::Io, Category::Io),
        (EngineErrorKind::NotImplemented, Category::Io),
        (EngineErrorKind::Internal, Category::Io),
    ];
    for (kind, cat) in table {
        assert_eq!(classify(kind), cat, "{:?}", kind);
    }
}

#[test]
fn engine_error_text_is_tag_then_message() {
    let e = BindingError::Engine(EngineError {
        kind: EngineErrorKind::KeyNotFound,
        message: "key not found: user:1".to_string(),
    });
    assert_eq!(e.category(), Some(Category::NotFound));
    assert_eq!(e.message(), "[NOT_FOUND] key not found: user:1");
    let e = BindingError::Engine(EngineError {
        kind: EngineErrorKind::AccessDenied,
        message: "read only".to_string(),
    });
    assert_eq!(e.message(), "[ACCESS_DENIED] read only");
}

#[test]
fn wrapper_errors_carry_no_category() {
    assert_eq!(BindingError::LockPoisoned.category(), None);
    assert_eq!(BindingError::LockPoisoned.message(), "Lock poisoned");
    let d = BindingError::Dispatch("task panicked".to_string());
    assert_eq!(d.category(), None);
    assert_eq!(d.message(), "task panicked");
    let u = BindingError::UnexpectedOutput(CommandKind::KvGet);
    assert_eq!(u.category(), None);
    assert_eq!(u.message(), "Unexpected output for KvGet");
}

#[test]
fn no_transaction_is_state() {
    assert_eq!(BindingError::NoTransaction.category(), Some(Category::State));
    assert_eq!(BindingError::NoTransaction.message(), "[STATE] No transaction active");
}

#[test]
fn input_error_texts() {
    let cases = [
        (InputError::InvalidMetric("manhattan".to_string()), "[VALIDATION] Invalid metric: manhattan"),
        (InputError::InvalidMergeStrategy, "[VALIDATION] Invalid merge strategy"),
        (InputError::FilterNotObject, "[VALIDATION] Filter must be an object"),
        (InputError::FilterMissingField, "[VALIDATION] Filter missing 'field'"),
        (InputError::FilterMissingOp, "[VALIDATION] Filter missing 'op'"),
        (InputError::InvalidFilterOp("between".to_string()), "[VALIDATION] Invalid filter op: between"),
        (InputError::FilterMissingValue, "[VALIDATION] Filter missing 'value'"),
        (InputError::EntryNotObject, "[VALIDATION] Expected object"),
        (InputError::EntryMissingKey, "[VALIDATION] Missing 'key'"),
        (InputError::EntryMissingVector, "[VALIDATION] Missing 'vector'"),
        (InputError::ElementNotNumber, "[VALIDATION] Vector element is not a number"),
        (InputError::NonFiniteElement(1234), "[VALIDATION] Vector element at index 1234 is not a finite number"),
    ];
    for (e, text) in cases {
        let b = BindingError::Invalid(e);
        assert_eq!(b.category(), Some(Category::Validation));
        assert_eq!(b.message(), text);
    }
}

#[test]
fn decimal_notation() {
    let mut s = String::from("n=");
    push_decimal(&mut s, 0);
    assert_eq!(s, "n=0");
    let mut s = String::new();
    push_decimal(&mut s, 90210);
    assert_eq!(s, "90210");
    let mut s = String::new();
    push_decimal(&mut s, usize::MAX);
    assert_eq!(s, usize::MAX.to_string());
}

#[test]
fn category_tags() {
    assert_eq!(Category::Conflict.tag(), "[CONFLICT]");
    assert_eq!(Category::Constraint.tag(), "[CONSTRAINT]");
    assert_eq!(Category::Io.tag(), "[IO]");
}
