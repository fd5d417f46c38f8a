//! The fixed command registry: which trimmed line selects which server-side
//! action.

use vstd::prelude::*;
use crate::text::str_eq;

verus! {

/// A server-side action a recognized command token resolves to.
#[derive(Clone, Copy, Debug, PartialEq, Eq)]
pub enum Action {
    /// Run the directory-listing operation and send back its captured output.
    ListDirectory,
    /// Acknowledge locally; nothing is written to the peer.
    Acknowledge,
    /// Write the farewell line and close the connection.
    Terminate,
}

/// The token that selects the directory listing.
pub open spec fn foo_chars() -> Seq<char> {
    seq!['f', 'o', 'o']
}

/// The token that is acknowledged silently.
pub open spec fn bar_chars() -> Seq<char> {
    seq!['b', 'a', 'r']
}

/// The token that ends the session.
pub open spec fn exit_chars() -> Seq<char> {
    seq!['e', 'x', 'i', 't']
}

/// The action registered for a trimmed token: an exact, case-sensitive match,
/// or none for every other token.
pub open spec fn resolve_spec(token: Seq<char>) -> Option<Action> {
    if token == foo_chars() {
        Some(Action::ListDirectory)
    } else if token == bar_chars() {
        Some(Action::Acknowledge)
    } else if token == exit_chars() {
        Some(Action::Terminate)
    } else {
        None
    }
}

/// Look a trimmed token up in the registry.
pub fn resolve(token: &str) -> (r: Option<Action>)
    ensures
        r == resolve_spec(token@),
{
    proof {
        reveal_strlit("foo");
        reveal_strlit("bar");
        reveal_strlit("exit");
        assert("foo"@ =~= foo_chars());
        assert("bar"@ =~= bar_chars());
        assert("exit"@ =~= exit_chars());
    }
    if str_eq(token, "foo") {
        Some(Action::ListDirectory)
    } else if str_eq(token, "bar") {
        Some(Action::Acknowledge)
    } else if str_eq(token, "exit") {
        Some(Action::Terminate)
    } else {
        None
    }
}

} // verus!
