//! The static command classification and the argument rule of the call
//! surface: command names are split into the fire-and-forget class and the
//! synchronous class, and a raw argument string is either empty (zero
//! arguments) or one single token.

use vstd::prelude::*;
use vstd::string::StringExecFns;

verus! {

/// The fire-and-forget class, by command name alone: chain sync, rescan and
/// bulk import run detached; every other command runs synchronously.
pub open spec fn spec_is_fire_and_forget(cmd: Seq<char>) -> bool {
    cmd == "sync"@ || cmd == "rescan"@ || cmd == "import"@
}

/// The argument rule: an empty argument string means zero arguments; a
/// non-empty one is a single token, never split further.
pub open spec fn spec_tokens(arg: Seq<char>) -> Seq<Seq<char>> {
    if arg.len() == 0 {
        Seq::empty()
    } else {
        seq![arg]
    }
}

/// Character-wise equality of two string slices.
fn str_equal(a: &str, b: &str) -> (r: bool)
    ensures
        r == (a@ == b@),
{
    let owned_a: String = a.to_owned();
    let owned_b: String = b.to_owned();
    owned_a == owned_b
}

/// Decides the class of a command name.
pub fn is_fire_and_forget(cmd: &str) -> (r: bool)
    ensures
        r == spec_is_fire_and_forget(cmd@),
{
    str_equal(cmd, "sync") || str_equal(cmd, "rescan") || str_equal(cmd, "import")
}

/// Turns the raw argument string into the token list handed to the
/// collaborator's executor.
pub fn tokenize_argument(args_list: &str) -> (tokens: Vec<String>)
    ensures
        tokens.deep_view() == spec_tokens(args_list@),
{
    let mut tokens: Vec<String> = Vec::new();
    if !args_list.is_empty() {
        tokens.push(args_list.to_owned());
    }
    proof {
        assert(tokens.deep_view() =~~= spec_tokens(args_list@));
    }
    tokens
}

} // verus!
