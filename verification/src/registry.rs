//! The registry: an append-only collection of boot entries, each one a
//! take-once guard over the identifier of its callback.

use atomic_take::AtomicTake;
use vstd::prelude::*;

use crate::guard::guard_new;
use crate::guard::guard_slot;
use crate::guard::guard_take;

verus! {

/// A single registered unit of deferred work.
///
/// The callback itself runs outside the registry; in here it is represented
/// by the identifier the host assigned to it, held in a take-once guard so
/// that at most one drain ever receives it.
pub struct BootBox {
    boot_fn: AtomicTake<u64>,
}

impl View for BootBox {
    type V = Option<u64>;

    /// The identifier still pending in this entry, or `None` once taken.
    closed spec fn view(&self) -> Option<u64> {
        guard_slot(self.boot_fn)
    }
}

impl BootBox {
    /// Create an entry whose callback is known to the host by `id`.
    pub fn new(id: u64) -> (entry: BootBox)
        ensures
            entry@ == Some(id),
    {
        BootBox { boot_fn: guard_new(id) }
    }

    /// Remove and return the stored identifier the first time; every later
    /// call returns `None`. "Already taken" is a normal, silent outcome.
    pub fn take(&mut self) -> (r: Option<u64>)
        ensures
            r == old(self)@,
            final(self)@ is None,
    {
        guard_take(&mut self.boot_fn)
    }
}

/// The process-wide collection of boot entries, populated incrementally and
/// never torn down. Callers must not rely on any particular order.
pub struct Registry {
    entries: Vec<BootBox>,
}

impl View for Registry {
    type V = Seq<Option<u64>>;

    /// One slot per registered entry, in registration order: the pending
    /// identifier, or `None` where the entry was already drained.
    closed spec fn view(&self) -> Seq<Option<u64>> {
        self.entries@.map_values(|e: BootBox| e@)
    }
}

impl Registry {
    /// An empty registry.
    pub fn new() -> (r: Registry)
        ensures
            r@ == Seq::<Option<u64>>::empty(),
    {
        let r = Registry { entries: Vec::new() };
        proof {
            assert(r@ =~= Seq::<Option<u64>>::empty());
        }
        r
    }

    /// Append one entry. Registration has no failure mode.
    pub fn register(&mut self, entry: BootBox)
        ensures
            final(self)@ == old(self)@.push(entry@),
    {
        let ghost pushed = entry@;
        self.entries.push(entry);
        proof {
            assert(self@ =~= old(self)@.push(pushed));
        }
    }

    /// How many entries have been registered so far, drained or not.
    pub fn len(&self) -> (n: usize)
        ensures
            n == self@.len(),
    {
        self.entries.len()
    }

    /// Attempt the take-once guard of the entry at `i`.
    pub fn take_at(&mut self, i: usize) -> (r: Option<u64>)
        requires
            i < old(self)@.len(),
        ensures
            r == old(self)@[i as int],
            final(self)@ == old(self)@.update(i as int, None::<u64>),
    {
        let entry = &mut self.entries[i];
        let r = entry.take();
        proof {
            assert(self@ =~= old(self)@.update(i as int, None::<u64>));
        }
        r
    }
}

} // verus!
