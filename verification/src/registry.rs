//! Process-wide coordination of menu visibility.
//!
//! Several independent menu instances may live on one page. Instances that
//! opt in are registered here, each under a slot holding its visibility
//! flag; hiding every registered instance before one of them opens keeps at
//! most one context menu visible at a time.

use vstd::pervasive::VecAdditionalExecFns;
use vstd::prelude::*;

verus! {

/// A registry of visibility flags, one slot per registered menu instance.
///
/// A registered menu's visibility lives in its slot of this registry, so
/// that opening one instance can hide every other registered instance.
pub struct ContextMenuState {
    /// Visibility flag of each registered menu, indexed by its slot.
    pub shows: Vec<bool>,
}

impl ContextMenuState {
    /// Hides every registered menu instance.
    pub fn hide_all(&mut self)
        ensures
            final(self).shows@.len() == old(self).shows@.len(),
            forall|i: int| 0 <= i < final(self).shows@.len() ==> !final(self).shows@[i],
    {
        let n: usize = self.shows.len();
        let mut i: usize = 0;
        while i < n
            invariant
                n == self.shows@.len(),
                i <= n,
                forall|j: int| 0 <= j < i ==> !self.shows@[j],
            decreases n - i,
        {
            self.shows.set(i, false);
            i = i + 1;
        }
    }

    /// Registers one more menu instance, initially hidden, and returns the
    /// slot that now holds its visibility flag.
    pub fn add_menu(&mut self) -> (slot: usize)
        ensures
            final(self).shows@ == old(self).shows@.push(false),
            slot == old(self).shows@.len(),
    {
        let slot: usize = self.shows.len();
        self.shows.push(false);
        slot
    }

    /// Whether the menu registered at `slot` is currently visible.
    pub fn is_shown(&self, slot: usize) -> (r: bool)
        requires
            slot < self.shows@.len(),
        ensures
            r == self.shows@[slot as int],
    {
        self.shows[slot]
    }
}

impl Default for ContextMenuState {
    /// An empty registry: no menu instance has been registered yet.
    fn default() -> (r: Self)
        ensures
            r.shows@ == Seq::<bool>::empty(),
    {
        ContextMenuState { shows: Vec::new() }
    }
}

/// Creates the registry that menu instances may register with.
///
/// How the registry is shared with the menu instances of a page is the
/// embedding application's concern; the engine only requires exclusive
/// access to it while an instance registers, opens or is dismissed.
pub fn provide_context_menu_state() -> (r: ContextMenuState)
    ensures
        r.shows@ == Seq::<bool>::empty(),
{
    ContextMenuState { shows: Vec::new() }
}

} // verus!
