//! Application-owned execution that a host plugs into the machine.
//!
//! An application implements the runtime in its own crate; the machine never
//! imports it. A runtime is consensus code: what it does depends on its
//! arguments alone, and it authorizes the complete application statement and
//! parent root itself.

use vstd::prelude::*;

use crate::endorsement::Submission;
use crate::id::Id;
use crate::json::{tree, Json, Tree};
use crate::outcome::{meets, refuse, refused, verdict, Outcome};
use crate::state::{Ledger, State};

pub use crate::endorsement::authorize;
pub use crate::json::require_keys;

verus! {

/// An application's part in the machine.
pub trait ApplicationRuntime: Send + Sync {
    /// Why stored application state is not the runtime's.
    spec fn state_refusal(&self, ledger: Ledger) -> Option<Seq<char>>;

    /// What a transaction of the application does.
    spec fn outcome(
        &self,
        ledger: Ledger,
        params: Tree,
        submission: Submission,
        timestamp: u64,
    ) -> Outcome;

    /// Checks all application state on load and before and after execution.
    /// Namespaces that the host does not implement are refused.
    fn validate_state(&self, state: &State) -> (r: Result<(), String>)
        ensures
            verdict(r, self.state_refusal(state@)),
    ;

    /// Carries out a transaction on a candidate state. The machine keeps the
    /// candidate only after all validation succeeds; an error discards it.
    fn execute(
        &self,
        state: &mut State,
        params: &Json,
        submission: &Submission,
        timestamp: u64,
    ) -> (r: Result<Id, String>)
        ensures
            meets(
                r,
                final(state)@,
                self.outcome(old(state)@, tree(*params), *submission, timestamp),
            ),
    ;
}

/// The machine without applications.
pub struct NoApplications;

impl Default for NoApplications {
    fn default() -> (r: NoApplications)
        ensures
            r == NoApplications,
    {
        NoApplications
    }
}

impl ApplicationRuntime for NoApplications {
    open spec fn state_refusal(&self, ledger: Ledger) -> Option<Seq<char>> {
        if exists|key: Id| #[trigger] ledger.application_states.contains_key(key) {
            Some("this VM has no runtime for the stored application state"@)
        } else {
            None
        }
    }

    open spec fn outcome(
        &self,
        ledger: Ledger,
        params: Tree,
        submission: Submission,
        timestamp: u64,
    ) -> Outcome {
        refused(ledger, "this VM has no application runtime"@)
    }

    fn validate_state(&self, state: &State) -> (r: Result<(), String>) {
        let empty = state.application_states.is_empty();
        assert(state@.application_states == state.application_states@);
        if empty {
            Ok(())
        } else {
            refuse("this VM has no runtime for the stored application state")
        }
    }

    fn execute(
        &self,
        state: &mut State,
        params: &Json,
        submission: &Submission,
        timestamp: u64,
    ) -> (r: Result<Id, String>) {
        refuse("this VM has no application runtime")
    }
}

} // verus!
