//! Session coordinator: the immutable identity of a conversation and the
//! setup decision of one chat invocation — an established call yields a
//! fresh output iterator, a rejected call reports the service error at
//! once and constructs no iterator.

use vstd::prelude::*;

use crate::bridge::BridgeState;
use crate::output::{OutputBridge, ReceiveError};

verus! {

/// The remote call failed to establish or was rejected by the service,
/// with the service's message.
#[derive(Debug, PartialEq, Eq)]
pub struct ServiceError {
    pub message: String,
}

impl Clone for ServiceError {
    fn clone(&self) -> (r: Self)
        ensures
            r == self,
    {
        ServiceError { message: self.message.clone() }
    }
}

/// How the service collaborator answered the call setup: the call stands
/// and its receiver is ready, or the call was rejected.
#[derive(Debug, PartialEq, Eq)]
pub enum CallOutcome {
    Established,
    Rejected(ServiceError),
}

/// The conversation-scoped identity: captured once at preparation time
/// and immutable for the lifetime of a chat invocation. The service
/// handle itself stays with the transport driver.
#[derive(Debug, PartialEq, Eq)]
pub struct Session {
    pub application_id: String,
    pub user_id: Option<String>,
}

impl Session {
    /// Captures the identity one or more sequential chat invocations run
    /// under.
    pub fn prepare_chat(application_id: String, user_id: Option<String>) -> (s: Session)
        ensures
            s.application_id == application_id,
            s.user_id == user_id,
    {
        Session { application_id, user_id }
    }

    /// Completes one chat invocation's setup. An established call is
    /// wrapped in a fresh output iterator, returned before any output
    /// event has necessarily arrived; a rejected call fails fast with the
    /// service error, and no iterator is ever constructed.
    pub fn open_chat(&self, outcome: CallOutcome) -> (r: Result<OutputBridge, ServiceError>)
        ensures
            outcome is Established ==> (r matches Ok(b) && b@ == BridgeState::<
                ReceiveError,
            >::Idle),
            outcome matches CallOutcome::Rejected(e) ==> r == Err::<OutputBridge, ServiceError>(
                e,
            ),
    {
        match outcome {
            CallOutcome::Established => Ok(OutputBridge::new()),
            CallOutcome::Rejected(e) => Err(e),
        }
    }
}

} // verus!
