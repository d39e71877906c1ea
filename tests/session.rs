use strata_node::command::{Command, Output, TxnInfo};
use strata_node::error::{BindingError, Category, EngineError, EngineErrorKind};
use strata_node::session::{Receiver, TxnSessions};
use strata_node::value::HostValue;

#[test]
fn commit_without_begin_is_state() {
    let s = TxnSessions::new();
    let e = s.commit().unwrap_err();
    assert!(matches!(e, BindingError::NoTransaction));
    assert_eq!(e.category(), Some(Category::State));
}

#[test]
fn rollback_without_begin_is_state() {
    let s = TxnSessions::new();
    let e = s.rollback().unwrap_err();
    assert_eq!(e.category(), Some(Category::State));
    assert_eq!(e.message(), "[STATE] No transaction active");
}

#[test]
fn first_begin_creates_the_session() {
    let mut s = TxnSessions::new();
    let plan = s.begin(Some(true));
    assert!(plan.create_session);
    assert!(matches!(plan.command, Command::TxnBegin { branch: None, read_only: true }));
    s.session_created();
    assert!(s.session_exists());
    assert!(s.begun(Ok(Output::Unit)).is_ok());
}

#[test]
fn second_begin_is_forwarded_and_engine_decides() {
    let mut s = TxnSessions::new();
    let first = s.begin(None);
    assert!(first.create_session);
    assert!(matches!(first.command, Command::TxnBegin { read_only: false, .. }));
    s.session_created();
    s.begun(Ok(Output::Unit)).unwrap();
    let second = s.begin(None);
    assert!(!second.create_session);
    let e = s
        .begun(Err(EngineError {
            kind: EngineErrorKind::TransactionAlreadyActive,
            message: "transaction already active".to_string(),
        }))
        .unwrap_err();
    assert_eq!(e.category(), Some(Category::State));
    assert_eq!(e.message(), "[STATE] transaction already active");
}

#[test]
fn commit_returns_version_and_discards_session() {
    let mut s = TxnSessions::new();
    s.session_created();
    assert!(matches!(s.commit().unwrap(), Command::TxnCommit));
    assert_eq!(s.committed(Ok(Output::TxnCommitted { version: 9 })).unwrap(), 9);
    assert!(!s.session_exists());
    assert!(s.commit().is_err());
}

#[test]
fn failed_commit_keeps_session() {
    let mut s = TxnSessions::new();
    s.session_created();
    let e = s
        .committed(Err(EngineError {
            kind: EngineErrorKind::TransactionConflict,
            message: "conflict on k".to_string(),
        }))
        .unwrap_err();
    assert_eq!(e.category(), Some(Category::Conflict));
    assert!(s.session_exists());
    let u = s.committed(Ok(Output::Unit)).unwrap_err();
    assert_eq!(u.message(), "Unexpected output for TxnCommit");
    assert!(s.session_exists());
}

#[test]
fn rollback_discards_session() {
    let mut s = TxnSessions::new();
    s.session_created();
    assert!(matches!(s.rollback().unwrap(), Command::TxnRollback));
    s.rolled_back(Ok(Output::Unit)).unwrap();
    assert!(!s.session_exists());
}

#[test]
fn observers_without_session_do_not_fail() {
    let s = TxnSessions::new();
    assert!(s.info().is_none());
    assert!(s.is_active().is_none());
}

#[test]
fn observers_with_session() {
    let mut s = TxnSessions::new();
    s.session_created();
    assert!(matches!(s.info(), Some(Command::TxnInfo)));
    assert!(matches!(s.is_active(), Some(Command::TxnIsActive)));
    assert!(s.active_reply(Ok(Output::Bool(true))).unwrap());
    assert!(s.active_reply(Ok(Output::Unit)).is_err());
    let h = s
        .info_reply(Ok(Output::TxnInfo(Some(TxnInfo {
            id: "t1".to_string(),
            status: "active".to_string(),
            started_at: 12,
        }))))
        .unwrap();
    match h {
        HostValue::Object(fields) => {
            assert_eq!(fields.len(), 3);
            assert_eq!(fields[0].0, "id");
            assert!(matches!(&fields[0].1, HostValue::Str(x) if x == "t1"));
            assert_eq!(fields[1].0, "status");
            assert!(matches!(&fields[1].1, HostValue::Str(x) if x == "active"));
            assert_eq!(fields[2].0, "startedAt");
            assert!(matches!(fields[2].1, HostValue::UInt(12)));
        }
        other => panic!("unexpected {:?}", other),
    }
    assert!(matches!(s.info_reply(Ok(Output::TxnInfo(None))).unwrap(), HostValue::Null));
}

#[test]
fn close_discards_session() {
    let mut s = TxnSessions::new();
    s.session_created();
    assert_eq!(s.route(), Receiver::Session);
    s.close();
    assert!(!s.session_exists());
    assert_eq!(s.route(), Receiver::Handle);
    assert!(s.commit().is_err());
}
