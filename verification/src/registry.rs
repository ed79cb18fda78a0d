//! The engine handle registry: the single, swappable slot that holds the
//! live wallet-engine handle. The surrounding runtime guards one registry
//! value with a short-held lock covering only the swap; every contract here
//! speaks of the slot between two such swaps.
use vstd::prelude::*;

verus! {

/// A shared handle to one live wallet-engine instance. The engine itself is
/// an outside collaborator; the bridge reads nothing from it, so the handle
/// carries only the instance's identity and whether its background
/// mempool watcher has been started.
#[derive(Clone, Copy, PartialEq, Eq, Structural, Debug)]
pub struct EngineHandle {
    /// Which engine instance this handle refers to.
    pub id: u64,
    /// Whether the instance's mempool-watching background task is running.
    pub watcher_started: bool,
}

impl EngineHandle {
    /// A handle to a freshly constructed engine, before its watcher runs.
    pub fn new(id: u64) -> (r: EngineHandle)
        ensures
            r.id == id,
            !r.watcher_started,
    {
        EngineHandle { id, watcher_started: false }
    }

    /// Records that the instance's mempool watcher has been started.
    pub fn mark_watcher_started(&mut self)
        ensures
            final(self).id == old(self).id,
            final(self).watcher_started,
    {
        self.watcher_started = true;
    }
}

/// The one mutable slot of the bridge: either empty (uninitialized) or
/// holding the current engine handle.
pub struct Registry {
    slot: Option<EngineHandle>,
}

impl Registry {
    /// The current contents of the slot.
    pub closed spec fn spec_slot(&self) -> Option<EngineHandle> {
        self.slot
    }

    /// Every handle the registry holds has its mempool watcher running:
    /// a dispatch immediately after initialization cannot miss
    /// unconfirmed activity.
    pub open spec fn wf(&self) -> bool {
        self.spec_slot() is Some ==> self.spec_slot()->0.watcher_started
    }

    /// An empty registry: the uninitialized state is normal, not an error.
    pub fn new() -> (r: Registry)
        ensures
            r.spec_slot() is None,
            r.wf(),
    {
        Registry { slot: None }
    }

    /// Replaces the slot wholesale. A reader that captured the old handle
    /// before the swap keeps using its own reference.
    pub fn set(&mut self, handle: Option<EngineHandle>)
        requires
            handle is Some ==> handle->0.watcher_started,
        ensures
            final(self).spec_slot() == handle,
            final(self).wf(),
    {
        self.slot = handle;
    }

    /// Returns an owning copy of the current handle, or nothing when the
    /// registry is uninitialized.
    pub fn get(&self) -> (r: Option<EngineHandle>)
        ensures
            r == self.spec_slot(),
    {
        self.slot
    }

    /// Whether a handle is installed.
    pub fn is_initialized(&self) -> (r: bool)
        ensures
            r == (self.spec_slot() is Some),
    {
        self.slot.is_some()
    }

    /// Clears the slot; clearing an already-empty slot is not an error.
    pub fn clear(&mut self)
        ensures
            final(self).spec_slot() is None,
            final(self).wf(),
    {
        self.slot = None;
    }
}

/// Law: a well-formed registry never hands out a handle whose mempool
/// watcher is not running.
pub proof fn lemma_installed_handle_watches(r: Registry)
    requires
        r.wf(),
        r.spec_slot() is Some,
    ensures
        r.spec_slot()->0.watcher_started,
{
}

} // verus!
