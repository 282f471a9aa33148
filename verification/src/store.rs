//! The project store: a single-slot container holding at most one
//! active project. The project itself is opaque to this crate; the
//! store only guarantees the lifecycle discipline: a successful load
//! replaces the slot wholesale, a failed load leaves it untouched.

use vstd::prelude::*;

verus! {

/// The abstract effect of storing a project: the slot holds exactly the
/// new project, whatever it held before.
pub open spec fn store_after_set<P>(slot: Option<P>, p: P) -> Option<P> {
    Some(p)
}

/// Single-slot container of the current project.
pub struct ProjectStore<P> {
    slot: Option<P>,
}

impl<P> View for ProjectStore<P> {
    type V = Option<P>;

    closed spec fn view(&self) -> Option<P> {
        self.slot
    }
}

impl<P> ProjectStore<P> {
    /// An empty store: no project loaded.
    pub fn new() -> (s: Self)
        ensures
            s@ matches None,
    {
        ProjectStore { slot: None }
    }

    /// Whether a project is currently loaded.
    pub fn is_loaded(&self) -> (b: bool)
        ensures
            b == self@.is_some(),
    {
        self.slot.is_some()
    }

    /// A shared borrow of the current project, if any.
    pub fn get(&self) -> (r: Option<&P>)
        ensures
            r matches Some(p) ==> self@ == Some(*p),
            r matches None ==> self@ matches None,
    {
        self.slot.as_ref()
    }

    /// Store a project, dropping whatever the slot held before.
    pub fn set(&mut self, p: P)
        ensures
            final(self)@ == store_after_set(old(self)@, p),
    {
        self.slot = Some(p);
    }

    /// Remove and return the current project, leaving the slot empty.
    pub fn take(&mut self) -> (r: Option<P>)
        ensures
            r == old(self)@,
            final(self)@ matches None,
    {
        let mut out: Option<P> = None;
        core::mem::swap(&mut self.slot, &mut out);
        out
    }

    /// Empty the store.
    pub fn clear(&mut self)
        ensures
            final(self)@ matches None,
    {
        self.slot = None;
    }

    /// Apply the outcome of a load or connect attempt: success replaces
    /// the slot, failure leaves the store exactly as it was and hands
    /// the failure message back for rendering.
    pub fn apply_load(&mut self, outcome: Result<P, String>) -> (err: Option<String>)
        ensures
            outcome matches Ok(p) ==> final(self)@ == store_after_set(old(self)@, p) && err matches None,
            outcome matches Err(m) ==> final(self)@ == old(self)@ && (err matches Some(e) && e == m),
    {
        match outcome {
            Ok(p) => {
                self.set(p);
                None
            },
            Err(m) => Some(m),
        }
    }
}

/// Loading twice in a row leaves the store holding a project derived
/// from the second load only: the slot after the second store neither
/// depends on the first project nor on the state before it, so the
/// first project is discarded, never merged.
pub proof fn lemma_second_load_wins<P>(before: Option<P>, first: P, second: P)
    ensures
        store_after_set(store_after_set(before, first), second) == Some(second),
        store_after_set(store_after_set(before, first), second) == store_after_set(before, second),
{
}

} // verus!
