//! The boot controller: the boot-phase entry point that drains the registry,
//! and the assertion helper that confirms the boot phase already ran.

use vstd::prelude::*;

use crate::registry::Registry;

verus! {

/// The identifiers of the entries still pending in `entries`, in a single
/// deterministic pass over the registry: each `Some(id)` slot contributes
/// `id` once, each already-drained slot contributes nothing.
pub open spec fn pending_ids(entries: Seq<Option<u64>>) -> Seq<u64>
    decreases entries.len(),
{
    if entries.len() == 0 {
        Seq::empty()
    } else {
        let rest = pending_ids(entries.drop_last());
        match entries.last() {
            Some(id) => rest.push(id),
            None => rest,
        }
    }
}

/// How many entries of `entries` are pending with identifier `id`.
pub open spec fn pending_count(entries: Seq<Option<u64>>, id: u64) -> nat
    decreases entries.len(),
{
    if entries.len() == 0 {
        0
    } else {
        pending_count(entries.drop_last(), id) + if entries.last() == Some(id) {
            1nat
        } else {
            0nat
        }
    }
}

/// Whether every entry of `entries` has already been drained.
pub open spec fn all_taken(entries: Seq<Option<u64>>) -> bool {
    forall|i: int| 0 <= i < entries.len() ==> entries[i] is None
}

/// The process-wide record of whether the boot phase already ran, together
/// with the build configuration: with `debug_checks` the lifecycle is
/// enforced, without it both checks are skipped for performance.
pub struct BootState {
    debug_checks: bool,
    booted: bool,
}

impl BootState {
    /// Whether this state enforces the boot lifecycle (a debug build).
    pub closed spec fn is_debug(&self) -> bool {
        self.debug_checks
    }

    /// Whether a boot call has already succeeded.
    pub closed spec fn is_booted(&self) -> bool {
        self.booted
    }

    /// The state at process start: not booted.
    pub fn new(debug_checks: bool) -> (s: BootState)
        ensures
            s.is_debug() == debug_checks,
            !s.is_booted(),
    {
        BootState { debug_checks, booted: false }
    }
}

/// A second boot attempt, which the debug configuration rejects.
pub open spec fn duplicate_boot(s: BootState) -> bool {
    s.is_debug() && s.is_booted()
}

/// The two lifecycle misuses the debug configuration detects. Both are
/// programmer errors; the host is expected to treat them as fatal.
#[derive(Clone, Copy, Debug, PartialEq, Eq, Structural)]
pub enum BootError {
    /// `boot` was called again after it already succeeded.
    DuplicateBoot,
    /// `assert_booted` was called before any successful `boot`.
    NotBooted,
}

impl BootError {
    /// The assertion message that belongs to this error.
    pub closed spec fn spec_message(&self) -> Seq<char> {
        match self {
            BootError::DuplicateBoot => "boot should be called exactly once after environment setup"@,
            BootError::NotBooted => "booter::boot should be called exactly once after env setup"@,
        }
    }

    /// The assertion message that belongs to this error.
    pub fn message(&self) -> (m: &'static str)
        ensures
            m@ == self.spec_message(),
    {
        match self {
            BootError::DuplicateBoot => "boot should be called exactly once after environment setup",
            BootError::NotBooted => "booter::boot should be called exactly once after env setup",
        }
    }
}

/// Drain the registry once: attempt every entry's take-once guard and hand
/// back, in registry order, the identifier of each callback that this pass
/// won and that the host must now invoke.
///
/// With debug checks on, a second call after a successful one is rejected as
/// [`BootError::DuplicateBoot`] and nothing is drained; without them the pass
/// always runs, and entries drained earlier are silently skipped because
/// their guards are already empty.
pub fn boot(state: &mut BootState, registry: &mut Registry) -> (r: Result<Vec<u64>, BootError>)
    ensures
        duplicate_boot(*old(state)) <==> r == Err::<Vec<u64>, BootError>(BootError::DuplicateBoot),
        duplicate_boot(*old(state)) ==> *final(state) == *old(state),
        duplicate_boot(*old(state)) ==> final(registry)@ == old(registry)@,
        !duplicate_boot(*old(state)) ==> r is Ok && r->Ok_0@ == pending_ids(old(registry)@),
        !duplicate_boot(*old(state)) ==> final(registry)@.len() == old(registry)@.len(),
        !duplicate_boot(*old(state)) ==> all_taken(final(registry)@),
        !duplicate_boot(*old(state)) ==> final(state).is_debug() == old(state).is_debug(),
        !duplicate_boot(*old(state)) ==> final(state).is_booted() == (old(state).is_booted()
            || old(state).is_debug()),
{
    if state.debug_checks {
        if state.booted {
            return Err(BootError::DuplicateBoot);
        }
        state.booted = true;
    }
    let n = registry.len();
    let mut ids: Vec<u64> = Vec::new();
    let mut i: usize = 0;
    while i < n
        invariant
            i <= n,
            n == registry@.len(),
            registry@.len() == old(registry)@.len(),
            ids@ == pending_ids(old(registry)@.subrange(0, i as int)),
            forall|j: int| 0 <= j < i ==> registry@[j] is None,
            forall|j: int| i <= j < registry@.len() ==> registry@[j] == old(registry)@[j],
        decreases n - i,
    {
        let taken = registry.take_at(i);
        match taken {
            Some(id) => ids.push(id),
            None => {},
        }
        proof {
            let pre = old(registry)@;
            assert(pre.subrange(0, i + 1).drop_last() =~= pre.subrange(0, i as int));
            assert(pre.subrange(0, i + 1).last() == pre[i as int]);
            assert(ids@ == pending_ids(pre.subrange(0, i + 1)));
        }
        i = i + 1;
    }
    proof {
        assert(old(registry)@.subrange(0, old(registry)@.len() as int) =~= old(registry)@);
    }
    Ok(ids)
}

/// Law: one boot pass hands back every pending callback identifier exactly
/// once — the sequence a successful [`boot`] returns contains each
/// identifier exactly as many times as the registry held pending entries
/// carrying it, so no registered callback is handed out twice or dropped.
pub proof fn lemma_boot_runs_each_entry_once(entries: Seq<Option<u64>>, id: u64)
    ensures
        pending_ids(entries).to_multiset().count(id) == pending_count(entries, id),
    decreases entries.len(),
{
    broadcast use vstd::seq_lib::group_to_multiset_ensures;
    broadcast use vstd::multiset::group_multiset_axioms;

    if entries.len() == 0 {
        assert(pending_ids(entries).to_multiset().len() == 0);
    } else {
        lemma_boot_runs_each_entry_once(entries.drop_last(), id);
        let rest = pending_ids(entries.drop_last());
        match entries.last() {
            Some(last_id) => {
                assert(rest.push(last_id).to_multiset() =~= rest.to_multiset().insert(last_id));
            },
            None => {},
        }
    }
}

/// Law: a drain of an already-drained registry hands back nothing — once
/// every take-once guard is empty, a further boot pass returns no identifier,
/// so no callback ever runs a second time.
pub proof fn lemma_second_boot_runs_nothing(entries: Seq<Option<u64>>)
    requires
        all_taken(entries),
    ensures
        pending_ids(entries) == Seq::<u64>::empty(),
    decreases entries.len(),
{
    if entries.len() > 0 {
        assert(entries[entries.len() - 1] is None);
        lemma_second_boot_runs_nothing(entries.drop_last());
    }
}

/// Confirm, from any later code path, that the boot phase already ran: with
/// debug checks on, an unbooted state is reported as
/// [`BootError::NotBooted`]; without them the call is a no-op that always
/// succeeds.
pub fn assert_booted(state: &BootState) -> (r: Result<(), BootError>)
    ensures
        r is Ok <==> !state.is_debug() || state.is_booted(),
        r is Err ==> r->Err_0 == BootError::NotBooted,
{
    if state.debug_checks && !state.booted {
        Err(BootError::NotBooted)
    } else {
        Ok(())
    }
}

} // verus!
