//! The latest slot seen on each feed, for a live comparison of the two.
use vstd::prelude::*;

verus! {

/// Which feed is ahead, and by how many slots.
#[derive(Clone, Copy, Debug, PartialEq, Eq, Structural)]
pub enum SlotLead {
    Grpc(u64),
    Shred(u64),
    Even,
}

/// The highest slot seen so far on each feed; 0 before any.
pub struct SlotTracker {
    pub grpc_latest_slot: u64,
    pub shred_latest_slot: u64,
}

impl SlotTracker {
    pub fn new() -> (r: SlotTracker)
        ensures
            r.grpc_latest_slot == 0,
            r.shred_latest_slot == 0,
    {
        SlotTracker { grpc_latest_slot: 0, shred_latest_slot: 0 }
    }

    /// Takes a slot from the gRPC feed; returns whether it is a new highest.
    pub fn update_grpc_slot(&mut self, slot: u64) -> (r: bool)
        ensures
            r == (slot > old(self).grpc_latest_slot),
            final(self).grpc_latest_slot == if r { slot } else { old(self).grpc_latest_slot },
            final(self).shred_latest_slot == old(self).shred_latest_slot,
    {
        let is_new = slot > self.grpc_latest_slot;
        if is_new {
            self.grpc_latest_slot = slot;
        }
        is_new
    }

    /// Takes a slot from the shredstream feed; returns whether it is a new highest.
    pub fn update_shred_slot(&mut self, slot: u64) -> (r: bool)
        ensures
            r == (slot > old(self).shred_latest_slot),
            final(self).shred_latest_slot == if r { slot } else { old(self).shred_latest_slot },
            final(self).grpc_latest_slot == old(self).grpc_latest_slot,
    {
        let is_new = slot > self.shred_latest_slot;
        if is_new {
            self.shred_latest_slot = slot;
        }
        is_new
    }

    /// The gRPC feed's latest slot less the shredstream feed's.
    pub fn slot_gap(&self) -> (r: i128)
        ensures
            r == self.grpc_latest_slot - self.shred_latest_slot,
    {
        self.grpc_latest_slot as i128 - self.shred_latest_slot as i128
    }

    /// Which feed is ahead, and by how many slots.
    pub fn lead(&self) -> (r: SlotLead)
        ensures
            r == if self.grpc_latest_slot > self.shred_latest_slot {
                SlotLead::Grpc((self.grpc_latest_slot - self.shred_latest_slot) as u64)
            } else if self.grpc_latest_slot < self.shred_latest_slot {
                SlotLead::Shred((self.shred_latest_slot - self.grpc_latest_slot) as u64)
            } else {
                SlotLead::Even
            },
    {
        if self.grpc_latest_slot > self.shred_latest_slot {
            SlotLead::Grpc(self.grpc_latest_slot - self.shred_latest_slot)
        } else if self.grpc_latest_slot < self.shred_latest_slot {
            SlotLead::Shred(self.shred_latest_slot - self.grpc_latest_slot)
        } else {
            SlotLead::Even
        }
    }
}

} // verus!
