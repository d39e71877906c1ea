//! The transaction session: at most one per handle, created lazily on the
//! first `begin` and discarded once its transaction commits or rolls back.
//!
//! Each call is split in two: a plan, which says what to send and to whom,
//! and a completion, which takes the engine's outcome and says what the
//! caller gets and what the session slot becomes.
use vstd::prelude::*;

use crate::command::{Command, CommandKind, Output, TxnInfo};
use crate::error::{category_of, BindingError, Category, EngineError, EngineErrorKind};
use crate::value::{HostModel, HostValue};

verus! {

/// Where a data command is sent.
#[derive(Clone, Copy, Debug, PartialEq, Eq, Structural)]
pub enum Receiver {
    /// Straight to the shared engine handle.
    Handle,
    /// Through the session, so that it joins the active transaction.
    Session,
}

/// What a `begin` does: create the session first or not, then send `command` to it.
#[derive(Debug)]
pub struct BeginPlan {
    pub create_session: bool,
    pub command: Command,
}

/// The session slot of one handle.
#[derive(Debug)]
pub struct TxnSessions {
    present: bool,
}

/// Whether a `begin` has to create the session before sending to it.
pub open spec fn begin_creates(present: bool) -> bool {
    !present
}

/// What the caller of `begin` gets for the engine's outcome.
pub open spec fn begin_result(outcome: Result<Output, EngineError>) -> Result<(), BindingError> {
    match outcome {
        Ok(_) => Ok(()),
        Err(e) => Err(BindingError::Engine(e)),
    }
}

/// Whether a session remains after a commit or rollback with the given outcome.
pub open spec fn present_after_end(present: bool, ended: bool) -> bool {
    present && !ended
}

/// The host object that shows an in-flight transaction.
pub open spec fn txn_info_model(i: TxnInfo) -> HostModel {
    HostModel::Object(
        seq![
            ("id"@, HostModel::Str(i.id@)),
            ("status"@, HostModel::Str(i.status@)),
            ("startedAt"@, HostModel::UInt(i.started_at)),
        ],
    )
}

impl TxnSessions {
    /// Whether a session object exists.
    pub closed spec fn has_session(&self) -> bool {
        self.present
    }

    /// A slot with no session.
    pub fn new() -> (r: TxnSessions)
        ensures
            !r.has_session(),
    {
        TxnSessions { present: false }
    }

    /// Whether a session object exists.
    pub fn session_exists(&self) -> (r: bool)
        ensures
            r == self.has_session(),
    {
        self.present
    }

    /// Where a data command goes: through the session while one exists.
    pub fn route(&self) -> (r: Receiver)
        ensures
            r == Receiver::Session <==> self.has_session(),
    {
        if self.present {
            Receiver::Session
        } else {
            Receiver::Handle
        }
    }

    /// Plans a `begin`. A second `begin` is forwarded to the existing session;
    /// rejecting it is the engine's business.
    pub fn begin(&self, read_only: Option<bool>) -> (p: BeginPlan)
        ensures
            p.create_session == begin_creates(self.has_session()),
            p.command matches Command::TxnBegin { branch, read_only: ro } && branch is None && ro
                == (read_only == Some(true)),
    {
        let ro = match read_only {
            Some(b) => b,
            None => false,
        };
        BeginPlan {
            create_session: !self.present,
            command: Command::TxnBegin { branch: None, read_only: ro },
        }
    }

    /// Records that the session object was created from the live engine.
    pub fn session_created(&mut self)
        ensures
            final(self).has_session(),
    {
        self.present = true;
    }

    /// Completes a `begin` with the engine's outcome.
    pub fn begun(&self, outcome: Result<Output, EngineError>) -> (r: Result<(), BindingError>)
        ensures
            r == begin_result(outcome),
    {
        match outcome {
            Ok(_) => Ok(()),
            Err(e) => Err(BindingError::Engine(e)),
        }
    }

    /// Plans a `commit`: there must be a session to send it to.
    pub fn commit(&self) -> (r: Result<Command, BindingError>)
        ensures
            self.has_session() ==> r matches Ok(Command::TxnCommit),
            !self.has_session() ==> r matches Err(BindingError::NoTransaction),
    {
        if self.present {
            Ok(Command::TxnCommit)
        } else {
            Err(BindingError::NoTransaction)
        }
    }

    /// Completes a `commit`. On success the session is discarded and the
    /// commit version returned; otherwise the session stays.
    pub fn committed(&mut self, outcome: Result<Output, EngineError>) -> (r: Result<
        i64,
        BindingError,
    >)
        ensures
            outcome matches Ok(Output::TxnCommitted { version }) ==> r == Ok::<
                i64,
                BindingError,
            >(version as i64),
            outcome matches Ok(o) ==> !(o is TxnCommitted) ==> r == Err::<i64, BindingError>(
                BindingError::UnexpectedOutput(CommandKind::TxnCommit),
            ),
            outcome matches Err(e) ==> r == Err::<i64, BindingError>(BindingError::Engine(e)),
            final(self).has_session() == present_after_end(old(self).has_session(), r is Ok),
    {
        match outcome {
            Ok(Output::TxnCommitted { version }) => {
                self.present = false;
                Ok(version as i64)
            },
            Ok(_) => Err(BindingError::UnexpectedOutput(CommandKind::TxnCommit)),
            Err(e) => Err(BindingError::Engine(e)),
        }
    }

    /// Plans a `rollback`: there must be a session to send it to.
    pub fn rollback(&self) -> (r: Result<Command, BindingError>)
        ensures
            self.has_session() ==> r matches Ok(Command::TxnRollback),
            !self.has_session() ==> r matches Err(BindingError::NoTransaction),
    {
        if self.present {
            Ok(Command::TxnRollback)
        } else {
            Err(BindingError::NoTransaction)
        }
    }

    /// Completes a `rollback`. On success the session is discarded.
    pub fn rolled_back(&mut self, outcome: Result<Output, EngineError>) -> (r: Result<
        (),
        BindingError,
    >)
        ensures
            outcome is Ok ==> r is Ok,
            outcome matches Err(e) ==> r == Err::<(), BindingError>(BindingError::Engine(e)),
            final(self).has_session() == present_after_end(old(self).has_session(), r is Ok),
    {
        match outcome {
            Ok(_) => {
                self.present = false;
                Ok(())
            },
            Err(e) => Err(BindingError::Engine(e)),
        }
    }

    /// Plans a transaction-info query; with no session there is nothing to
    /// ask and the answer is null.
    pub fn info(&self) -> (r: Option<Command>)
        ensures
            self.has_session() ==> r matches Some(Command::TxnInfo),
            !self.has_session() ==> r is None,
    {
        if self.present {
            Some(Command::TxnInfo)
        } else {
            None
        }
    }

    /// Completes a transaction-info query.
    pub fn info_reply(&self, outcome: Result<Output, EngineError>) -> (r: Result<
        HostValue,
        BindingError,
    >)
        ensures
            outcome matches Ok(Output::TxnInfo(Some(i))) ==> r matches Ok(h) && h@
                == txn_info_model(i),
            outcome matches Ok(Output::TxnInfo(None)) ==> r matches Ok(h) && h@ == HostModel::Null,
            outcome matches Ok(o) ==> !(o is TxnInfo) ==> r == Err::<HostValue, BindingError>(
                BindingError::UnexpectedOutput(CommandKind::TxnInfo),
            ),
            outcome matches Err(e) ==> r == Err::<HostValue, BindingError>(
                BindingError::Engine(e),
            ),
    {
        match outcome {
            Ok(Output::TxnInfo(Some(i))) => {
                let ghost gi = i;
                let mut fields: Vec<(String, HostValue)> = Vec::new();
                fields.push((String::from_str("id"), HostValue::Str(i.id)));
                fields.push((String::from_str("status"), HostValue::Str(i.status)));
                fields.push((String::from_str("startedAt"), HostValue::UInt(i.started_at)));
                let h = HostValue::Object(fields);
                assert(h@ == txn_info_model(gi)) by {
                    let hs = match h@ {
                        HostModel::Object(s) => s,
                        _ => Seq::empty(),
                    };
                    let ms = match txn_info_model(gi) {
                        HostModel::Object(s) => s,
                        _ => Seq::empty(),
                    };
                    assert(crate::value::host_model(HostValue::Str(gi.id)) == HostModel::Str(
                        gi.id@,
                    ));
                    assert(crate::value::host_model(HostValue::Str(gi.status)) == HostModel::Str(
                        gi.status@,
                    ));
                    assert(crate::value::host_model(HostValue::UInt(gi.started_at))
                        == HostModel::UInt(gi.started_at));
                    assert(hs =~= ms);
                }
                Ok(h)
            },
            Ok(Output::TxnInfo(None)) => Ok(HostValue::Null),
            Ok(_) => Err(BindingError::UnexpectedOutput(CommandKind::TxnInfo)),
            Err(e) => Err(BindingError::Engine(e)),
        }
    }

    /// Plans an is-active query; with no session the answer is `false`.
    pub fn is_active(&self) -> (r: Option<Command>)
        ensures
            self.has_session() ==> r matches Some(Command::TxnIsActive),
            !self.has_session() ==> r is None,
    {
        if self.present {
            Some(Command::TxnIsActive)
        } else {
            None
        }
    }

    /// Completes an is-active query.
    pub fn active_reply(&self, outcome: Result<Output, EngineError>) -> (r: Result<
        bool,
        BindingError,
    >)
        ensures
            outcome matches Ok(Output::Bool(b)) ==> r == Ok::<bool, BindingError>(b),
            outcome matches Ok(o) ==> !(o is Bool) ==> r == Err::<bool, BindingError>(
                BindingError::UnexpectedOutput(CommandKind::TxnIsActive),
            ),
            outcome matches Err(e) ==> r == Err::<bool, BindingError>(BindingError::Engine(e)),
    {
        match outcome {
            Ok(Output::Bool(b)) => Ok(b),
            Ok(_) => Err(BindingError::UnexpectedOutput(CommandKind::TxnIsActive)),
            Err(e) => Err(BindingError::Engine(e)),
        }
    }

    /// Discards the session, as closing the handle does.
    pub fn close(&mut self)
        ensures
            !final(self).has_session(),
    {
        self.present = false;
    }
}

/// A commit or rollback with no session to send it to fails, and the
/// failure is of the STATE category.
pub proof fn lemma_end_without_session_is_state()
    ensures
        BindingError::NoTransaction.spec_category() == Some(Category::State),
{
}

/// Once a `begin` has gone through a session, a second `begin` creates no
/// session of its own: it is forwarded to the existing one, and the
/// engine's answer reaches the caller under the engine's own
/// classification, which is STATE for a transaction already active.
pub proof fn lemma_second_begin_goes_to_engine(s: TxnSessions, e: EngineError)
    requires
        s.has_session(),
    ensures
        !begin_creates(s.has_session()),
        begin_result(Err(e)) == Err::<(), BindingError>(BindingError::Engine(e)),
        BindingError::Engine(e).spec_category() == Some(category_of(e.kind)),
        category_of(EngineErrorKind::TransactionAlreadyActive) == Category::State,
{
}

} // verus!
