//! The two-phase ownership model for kernel-granted untyped memory regions.
//!
//! At rootserver creation the kernel tags every untyped region either
//! *tainted* (it was consumed to build the rootserver's own objects) or
//! *untainted* (free for the target system). The tag is immutable afterward:
//! construction may observe it but never change it. The only transition a
//! region ever makes is from owned to handed off, performed once per region
//! by the handoff phase, which must forward every region — tainted and
//! untainted alike — so the successor can later revoke the tainted ones and
//! reclaim the rootserver's own memory.

use vstd::prelude::*;

verus! {

/// Ownership state of an untyped memory region. A region starts owned by the
/// rootserver and is handed off to the successor exactly once; there is no
/// transition back.
#[derive(Clone, Copy, Debug, PartialEq, Eq, Structural)]
pub enum RegionState {
    /// The rootserver still owns the region.
    Owned,
    /// Ownership was transferred to the successor.
    HandedOff,
}

/// A kernel-granted block of undifferentiated physical memory: its capability
/// slot, the kernel's immutable taint tag, and its ownership state.
#[derive(Clone, Copy, Debug, PartialEq, Eq, Structural)]
pub struct UntypedRegion {
    slot: usize,
    tainted: bool,
    state: RegionState,
}

impl UntypedRegion {
    /// The capability slot naming the region.
    pub closed spec fn slot(self) -> usize {
        self.slot
    }

    /// The kernel's taint tag: `true` when the region backs rootserver objects.
    pub closed spec fn tainted(self) -> bool {
        self.tainted
    }

    /// The region's ownership state.
    pub closed spec fn state(self) -> RegionState {
        self.state
    }

    /// `self` is `from` after a handoff: same slot, same taint tag, ownership
    /// transferred.
    pub open spec fn handed_off_from(self, from: Self) -> bool {
        &&& self.slot() == from.slot()
        &&& self.tainted() == from.tainted()
        &&& self.state() == RegionState::HandedOff
    }

    /// A region as the kernel grants it: tagged once, owned by the rootserver.
    pub fn new(slot: usize, tainted: bool) -> (r: Self)
        ensures
            r.slot() == slot,
            r.tainted() == tainted,
            r.state() == RegionState::Owned,
    {
        UntypedRegion { slot, tainted, state: RegionState::Owned }
    }

    /// The capability slot naming the region.
    pub fn get_slot(&self) -> (r: usize)
        ensures
            r == self.slot(),
    {
        self.slot
    }

    /// The kernel's taint tag.
    pub fn is_tainted(&self) -> (r: bool)
        ensures
            r == self.tainted(),
    {
        self.tainted
    }

    /// The region's ownership state.
    pub fn get_state(&self) -> (r: RegionState)
        ensures
            r == self.state(),
    {
        self.state
    }

    /// Transfer ownership of the region to the successor. Consuming: a region
    /// already handed off cannot be handed off again. Slot and taint tag are
    /// preserved so the successor can revoke tainted regions afterwards.
    pub fn hand_off(&mut self)
        requires
            old(self).state() == RegionState::Owned,
        ensures
            final(self).handed_off_from(*old(self)),
    {
        self.state = RegionState::HandedOff;
    }
}

/// Hand off every untyped region to the successor. No region is dropped,
/// duplicated or reordered: entry `i` afterwards names the same slot and
/// carries the same taint tag as entry `i` before, and every entry has made
/// exactly the owned-to-handed-off transition.
pub fn hand_off_all(regions: &mut Vec<UntypedRegion>)
    requires
        forall|i: int|
            0 <= i < old(regions)@.len() ==> old(regions)@[i].state() == RegionState::Owned,
    ensures
        final(regions)@.len() == old(regions)@.len(),
        forall|i: int|
            0 <= i < old(regions)@.len() ==> final(regions)@[i].handed_off_from(old(regions)@[i]),
{
    let n = regions.len();
    let mut j: usize = 0;
    while j < n
        invariant
            n == old(regions)@.len(),
            j <= n,
            regions@.len() == n,
            forall|i: int|
                0 <= i < old(regions)@.len() ==> old(regions)@[i].state() == RegionState::Owned,
            forall|i: int| 0 <= i < j ==> regions@[i].handed_off_from(old(regions)@[i]),
            forall|i: int| j <= i < n ==> regions@[i] == old(regions)@[i],
        decreases n - j,
    {
        let mut r = regions[j];
        r.hand_off();
        regions[j] = r;
        j = j + 1;
    }
}

} // verus!
