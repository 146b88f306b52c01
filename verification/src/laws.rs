//! The bridge-wide guarantees, each stated over the same spec functions the
//! executable contracts use and proved once and for all.

use vstd::prelude::*;
use crate::dispatch::{spec_decision, DecisionKind};
use crate::lifecycle::spec_wallet_exists;
use crate::store::{spec_cleared, spec_minted, spec_published, SessionHandle, SessionStore};

verus! {

/// After `deinitialize`, whatever the store held before, no session handle
/// remains reachable from it and every command — whatever its name — is
/// refused as not initialized.
pub proof fn law_deinitialize_disables_execute(s: SessionStore, cmd: Seq<char>)
    ensures
        spec_cleared(s).slot is None,
        spec_decision(spec_cleared(s).slot, cmd) is RejectNotInitialized,
{
}

/// The existence check reads the store at most: its answer depends only on
/// what the collaborator found on disk, never on whether a session is set.
pub proof fn law_wallet_exists_ignores_store(
    s1: SessionStore,
    s2: SessionStore,
    persisted_on_disk: bool,
)
    ensures
        spec_wallet_exists(s1, persisted_on_disk) == spec_wallet_exists(s2, persisted_on_disk),
{
}

/// The three initialization strategies publish through one gate: a succeeding
/// attempt mints one fresh handle and leaves the store holding exactly that
/// handle — the slot is replaced, never merged, and whatever handle was
/// active before is no longer the one in the slot.
pub proof fn law_initialize_replaces_not_merges(s: SessionStore)
    requires
        s.wf(),
        s.next_id < u64::MAX,
    ensures
        ({
            let minted = spec_minted(s);
            let published = spec_published(minted.0, minted.1);
            published.slot == Some(minted.1) && (s.slot matches Some(g) ==> g != minted.1)
        }),
{
}

/// Tearing the session down twice in a row is the same as tearing it down
/// once: the store ends empty either way (and `deinitialize` acknowledges
/// with `"OK"` unconditionally, so both calls do).
pub proof fn law_deinitialize_idempotent(s: SessionStore)
    ensures
        spec_cleared(spec_cleared(s)) == spec_cleared(s),
        spec_cleared(s).slot is None,
{
}

/// With a session set, a fire-and-forget command is always detached — the
/// caller is acknowledged at once, independently of how long the detached
/// work will run — and any other command runs synchronously.
pub proof fn law_class_decides_routing(s: SessionStore, cmd: Seq<char>)
    requires
        s.slot is Some,
    ensures
        crate::commands::spec_is_fire_and_forget(cmd) ==> spec_decision(s.slot, cmd) is Detached,
        !crate::commands::spec_is_fire_and_forget(cmd) ==> spec_decision(s.slot, cmd)
            is Synchronous,
{
}

} // verus!
