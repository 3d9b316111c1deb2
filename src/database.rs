//! Bringing the datastore up: create its file when missing, then migrate.
use vstd::prelude::*;

verus! {

/// What bootstrapping does with the database file.
#[derive(Debug, Clone, Copy, PartialEq, Eq, Structural)]
pub enum DatabaseStep {
    /// The file is there: keep it.
    UseExisting,
    /// The file is missing, or whether it exists could not be told: create it.
    Create,
}

/// The step for the answer `probe` to "does the database exist?"; `None`
/// when that could not be asked.
pub open spec fn step_for(probe: Option<bool>) -> DatabaseStep {
    if probe == Some(true) {
        DatabaseStep::UseExisting
    } else {
        DatabaseStep::Create
    }
}

/// Decides whether the database file must be created.
pub fn creation_step(probe: Option<bool>) -> (r: DatabaseStep)
    ensures
        r == step_for(probe),
{
    match probe {
        Some(true) => DatabaseStep::UseExisting,
        _ => DatabaseStep::Create,
    }
}

/// Bootstrapping an initialised store again creates nothing: once the
/// database exists, every later run keeps it, and only a missing or unknown
/// database is ever created.
pub proof fn lemma_bootstrap_is_idempotent(probe: Option<bool>)
    ensures
        step_for(Some(true)) == DatabaseStep::UseExisting,
        step_for(probe) == DatabaseStep::Create <==> probe != Some(true),
{
}

} // verus!
