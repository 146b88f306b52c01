//! The bridge's failure channel. Internally a failure is tagged with where it
//! arose; at the call surface every failure is flattened to one textual
//! channel with a literal `"Error: "` prefix, and the caller pattern-matches
//! on that prefix instead of receiving a structured error.

use vstd::prelude::*;
use vstd::string::StringExecFns;

verus! {

/// Where a failure arose. `NotInitialized` is the one failure the dispatcher
/// itself raises; the four carrying variants wrap a message reported by the
/// collaborator at the corresponding lifecycle step.
pub enum BridgeError {
    NotInitialized,
    Configuration { message: String },
    Construction { message: String },
    Disk { message: String },
    Collaborator { message: String },
}

impl BridgeError {
    /// The text that follows the `"Error: "` prefix when this failure is
    /// rendered.
    pub open spec fn spec_message(&self) -> Seq<char> {
        match self {
            BridgeError::NotInitialized => "Light Client is not initialized"@,
            BridgeError::Configuration { message } => message@,
            BridgeError::Construction { message } => message@,
            BridgeError::Disk { message } => message@,
            BridgeError::Collaborator { message } => message@,
        }
    }
}

/// Flattens a failure to the textual channel: the `"Error: "` marker followed
/// by the failure's message.
pub fn render_error(e: &BridgeError) -> (r: String)
    ensures
        r@ == "Error: "@ + e.spec_message(),
{
    let mut r = String::from_str("Error: ");
    match e {
        BridgeError::NotInitialized => r.append("Light Client is not initialized"),
        BridgeError::Configuration { message } => r.append(message.as_str()),
        BridgeError::Construction { message } => r.append(message.as_str()),
        BridgeError::Disk { message } => r.append(message.as_str()),
        BridgeError::Collaborator { message } => r.append(message.as_str()),
    }
    r
}

/// The dispatcher's refusal, written out in one piece, is the `"Error: "`
/// marker followed by the not-initialized message.
pub proof fn lemma_not_initialized_text()
    ensures
        "Error: "@ + "Light Client is not initialized"@ =~= "Error: Light Client is not initialized"@,
{
    reveal_strlit("Error: ");
    reveal_strlit("Light Client is not initialized");
    reveal_strlit("Error: Light Client is not initialized");
}

/// The success sentinel of the acknowledgement-only operations.
pub fn ok_reply() -> (r: String)
    ensures
        r@ == "OK"@,
{
    String::from_str("OK")
}

} // verus!
