//! The command dispatcher: resolves the current session, refuses when none is
//! set, and otherwise routes the command to the synchronous path or to a
//! detached background task according to its class. The bridge only decides;
//! the host performs the collaborator call the decision names.

use vstd::prelude::*;
use crate::commands::{is_fire_and_forget, spec_is_fire_and_forget, spec_tokens, tokenize_argument};
use crate::error::{render_error, lemma_not_initialized_text, ok_reply, BridgeError};
use crate::store::{SessionHandle, SessionStore};
use vstd::string::StringExecFns;

verus! {

/// How a command request is routed, before any collaborator work happens.
pub enum DecisionKind {
    RejectNotInitialized,
    Detached,
    Synchronous,
}

/// The routing rule: no session means refusal; with a session, the
/// fire-and-forget class detaches and everything else runs synchronously.
pub open spec fn spec_decision(slot: Option<SessionHandle>, cmd: Seq<char>) -> DecisionKind {
    if slot is None {
        DecisionKind::RejectNotInitialized
    } else if spec_is_fire_and_forget(cmd) {
        DecisionKind::Detached
    } else {
        DecisionKind::Synchronous
    }
}

/// The dispatcher's decision on one command request. `Detach` and `Run` carry
/// a copy of the session handle together with the command and its token list:
/// a `Detach` is handed to a background task whose result nobody waits for,
/// while a `Run` is executed on the calling thread and its result returned
/// verbatim.
pub enum Dispatch {
    NotInitialized,
    Detach { handle: SessionHandle, command: String, arguments: Vec<String> },
    Run { handle: SessionHandle, command: String, arguments: Vec<String> },
}

/// Resolves the current session and routes one command request.
pub fn dispatch(store: &SessionStore, cmd: &str, args_list: &str) -> (d: Dispatch)
    ensures
        (match d {
            Dispatch::NotInitialized => spec_decision(store.slot, cmd@) is RejectNotInitialized,
            Dispatch::Detach { handle, command, arguments } =>
                spec_decision(store.slot, cmd@) is Detached
                && store.slot == Some(handle)
                && command@ == cmd@
                && arguments.deep_view() == spec_tokens(args_list@),
            Dispatch::Run { handle, command, arguments } =>
                spec_decision(store.slot, cmd@) is Synchronous
                && store.slot == Some(handle)
                && command@ == cmd@
                && arguments.deep_view() == spec_tokens(args_list@),
        }),
{
    match store.get() {
        None => Dispatch::NotInitialized,
        Some(handle) => {
            let command = cmd.to_owned();
            let arguments = tokenize_argument(args_list);
            if is_fire_and_forget(cmd) {
                Dispatch::Detach { handle, command, arguments }
            } else {
                Dispatch::Run { handle, command, arguments }
            }
        },
    }
}

/// The reply the caller sees before any collaborator work: the refusal text
/// for an unresolved session, the `"OK"` acknowledgement for a detached
/// command, and nothing for a synchronous one, whose caller must wait for the
/// executor's result.
pub fn immediate_reply(d: &Dispatch) -> (r: Option<String>)
    ensures
        (match d {
            Dispatch::NotInitialized => r matches Some(msg)
                && msg@ == "Error: Light Client is not initialized"@,
            Dispatch::Detach { .. } => r matches Some(msg) && msg@ == "OK"@,
            Dispatch::Run { .. } => r is None,
        }),
{
    match d {
        Dispatch::NotInitialized => {
            proof {
                lemma_not_initialized_text();
            }
            Some(render_error(&BridgeError::NotInitialized))
        },
        Dispatch::Detach { .. } => Some(ok_reply()),
        Dispatch::Run { .. } => None,
    }
}

/// A synchronous command's reply: the collaborator executor's result string,
/// propagated verbatim.
pub fn synchronous_reply(executor_result: String) -> (r: String)
    ensures
        r@ == executor_result@,
{
    executor_result
}

} // verus!
