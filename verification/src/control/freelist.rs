//! How a free slot's token gets onto the free stack and off it again.
//!
//! A free slot passes through `FREE_PENDING`, `FREE_PUSH_CLAIMED`,
//! `FREE_PUSHED` and `FREE_PUBLISHED` on its way onto the stack, and through
//! `FREE_POPPED` and `ACQUIRE_RESERVED` on its way to a lease. Publication is
//! two steps, so that another process can act, or the publisher can die,
//! between the push and the publication of the token.

use super::error::AcquireError;
use super::meta::{
    free_word, SlotMeta, LEASE_STATE_ACQUIRE_RESERVED, LEASE_STATE_FREE_PENDING,
    LEASE_STATE_FREE_POPPED, LEASE_STATE_FREE_PUBLISHED, LEASE_STATE_FREE_PUSHED,
    LEASE_STATE_FREE_PUSH_CLAIMED, WORKER_STATE_REINITING,
};
use super::region::{RegionState, SlotState, TransportRegion};
use vstd::prelude::*;

verus! {

/// How the first step of a publication ended.
#[derive(Clone, Copy, Debug, PartialEq, Eq, Structural)]
pub enum PublishStep {
    /// Nothing is left to do; says whether the slot is published.
    Settled(bool),
    /// The token was pushed under this epoch and waits to be published.
    Pushed(u64),
}

impl RegionState {
    /// First step of a publication: claims a slot that waits for a token and
    /// pushes the token.
    pub open spec fn publish_begun(self, id: int, pid: i32) -> (RegionState, PublishStep) {
        let word = self.slots[id].meta;
        if word.state == LEASE_STATE_FREE_PUBLISHED {
            (self.with_backend_pid(id, 0), PublishStep::Settled(true))
        } else if word.state == LEASE_STATE_FREE_PUSHED {
            (
                self.with_slot(
                    id,
                    SlotState {
                        backend_pid: 0,
                        meta: free_word(LEASE_STATE_FREE_PUBLISHED, word.epoch),
                        ..self.slots[id]
                    },
                ),
                PublishStep::Settled(true),
            )
        } else if word.state != LEASE_STATE_FREE_PENDING {
            (self, PublishStep::Settled(false))
        } else if self.meta.worker_state == WORKER_STATE_REINITING {
            (self, PublishStep::Settled(false))
        } else {
            (
                self.with_slot(
                    id,
                    SlotState {
                        backend_pid: pid,
                        meta: free_word(LEASE_STATE_FREE_PUSH_CLAIMED, self.freelist_epoch),
                        ..self.slots[id]
                    },
                ).with_token(id as u32),
                PublishStep::Pushed(self.freelist_epoch),
            )
        }
    }

    /// Second step of a publication: the pushed token counts from now on,
    /// unless the slot was taken over meanwhile.
    pub open spec fn publish_finished(self, id: int, epoch: u64) -> (RegionState, bool) {
        if self.slots[id].meta == free_word(LEASE_STATE_FREE_PUSH_CLAIMED, epoch) {
            (
                self.with_slot(
                    id,
                    SlotState {
                        backend_pid: 0,
                        meta: free_word(LEASE_STATE_FREE_PUBLISHED, epoch),
                        ..self.slots[id]
                    },
                ),
                true,
            )
        } else {
            (self, false)
        }
    }

    /// Both steps of a publication.
    pub open spec fn published(self, id: int, pid: i32) -> (RegionState, bool) {
        let (begun, step) = self.publish_begun(id, pid);
        match step {
            PublishStep::Settled(done) => (begun, done),
            PublishStep::Pushed(epoch) => begun.publish_finished(id, epoch),
        }
    }

    /// A slot whose token was just popped can be had.
    pub open spec fn token_good(self, id: int) -> bool {
        let word = self.slots[id].meta;
        (word.state == LEASE_STATE_FREE_PUBLISHED || word.state == LEASE_STATE_FREE_PUSHED)
            && word.epoch == self.freelist_epoch
    }

    /// The region after a slot whose token was popped was marked so.
    pub open spec fn popped(self, id: int, pid: i32) -> RegionState {
        self.with_slot(
            id,
            SlotState {
                backend_pid: pid,
                meta: free_word(LEASE_STATE_FREE_POPPED, self.freelist_epoch),
                ..self.slots[id]
            },
        )
    }

    /// The region after `id`, whose token was popped, was claimed; says whether
    /// that worked. A slot that waits for a token gets one instead.
    pub open spec fn claimed_after_pop(self, id: int, pid: i32) -> (RegionState, bool) {
        if self.token_good(id) {
            (self.popped(id, pid), true)
        } else if self.slots[id].meta.state == LEASE_STATE_FREE_PENDING {
            (self.published(id, pid).0, false)
        } else {
            (self, false)
        }
    }

    /// The region after tokens were popped until one was good, with the slot
    /// that was had. Tokens that are no good are gone.
    pub open spec fn token_taken(self, pid: i32) -> (RegionState, Option<u32>)
        decreases self.pop_measure(),
        when forall|i: int| 0 <= i < self.freelist.len() ==> self.freelist[i] < self.slots.len()
        via RegionState::token_taken_decreases
    {
        if self.freelist.len() == 0 {
            (self, None)
        } else {
            let id = self.freelist.last();
            let (next, had) = self.without_top().claimed_after_pop(id as int, pid);
            if had {
                (next, Some(id))
            } else {
                next.token_taken(pid)
            }
        }
    }

    /// Bound on how often a token can still be popped.
    pub open spec fn pop_measure(self) -> nat {
        2 * self.freelist.len() + if self.freelist.len() > 0
            && self.slots[self.freelist.last() as int].meta.state == LEASE_STATE_FREE_PENDING {
            1nat
        } else {
            0nat
        }
    }

    #[via_fn]
    proof fn token_taken_decreases(self, pid: i32) {
        if self.freelist.len() > 0 {
            self.lemma_pop_step(pid);
        }
    }

    /// A token that is no good brings the search closer to its end.
    pub proof fn lemma_pop_step(self, pid: i32)
        requires
            self.freelist.len() > 0,
            self.freelist.last() < self.slots.len(),
        ensures
            ({
                let id = self.freelist.last();
                let (next, had) = self.without_top().claimed_after_pop(id as int, pid);
                !had ==> next.pop_measure() < self.pop_measure()
            }),
    {
        let id = self.freelist.last();
        let top = self.without_top();
        let (next, had) = top.claimed_after_pop(id as int, pid);
        if !had && top.slots[id as int].meta.state == LEASE_STATE_FREE_PENDING
            && top.meta.worker_state != WORKER_STATE_REINITING {
            assert(next.freelist =~= top.freelist.push(id));
            assert(next.freelist.last() == id);
        }
    }

    /// The region after a popped slot was reserved for a lease; says whether
    /// that worked.
    pub open spec fn reserved(self, id: int, epoch: u64, pid: i32) -> (RegionState, bool) {
        let word = self.slots[id].meta;
        if word.state == LEASE_STATE_FREE_POPPED && word.epoch == epoch {
            (self.with_meta(id, free_word(LEASE_STATE_ACQUIRE_RESERVED, 0)), true)
        } else if word.state == LEASE_STATE_FREE_PENDING {
            (self.published(id, pid).0, false)
        } else {
            (self, false)
        }
    }

    /// The region after an acquisition was given up; says whether the slot is
    /// free now. A slot that was popped or reserved is emptied and published
    /// again.
    pub open spec fn acquire_aborted(self, id: int, pid: i32) -> (RegionState, bool) {
        let word = self.slots[id].meta;
        if is_unclaimed_state(word.state) {
            (self, true)
        } else if word.state == LEASE_STATE_FREE_POPPED || word.state
            == LEASE_STATE_ACQUIRE_RESERVED {
            (self.with_emptied(id).published(id, pid).0, true)
        } else {
            (self, false)
        }
    }
}

/// The lease states of a free slot that no acquirer has taken.
pub open spec fn is_unclaimed_state(state: u32) -> bool {
    ||| state == LEASE_STATE_FREE_PUBLISHED
    ||| state == LEASE_STATE_FREE_PENDING
    ||| state == LEASE_STATE_FREE_PUSH_CLAIMED
    ||| state == LEASE_STATE_FREE_PUSHED
}

impl TransportRegion {
    /// First step of a publication, by the process `pid`.
    pub fn begin_publish_free_slot(&mut self, slot_id: u32, pid: i32) -> (r: PublishStep)
        requires
            old(self)@.shaped(),
            old(self)@.has_slot(slot_id),
        ensures
            (final(self)@, r) == old(self)@.publish_begun(slot_id as int, pid),
            final(self)@.shaped(),
    {
        let current: SlotMeta = self.load_slot_snapshot(slot_id).slot_meta;
        if current.is_free_published() {
            self.store_backend_pid(slot_id, 0);
            return PublishStep::Settled(true);
        }
        if current.is_free_pushed() {
            self.store_backend_pid(slot_id, 0);
            self.store_slot_meta(slot_id, SlotMeta::free_published(current.lease_epoch()));
            assert(self@ =~= old(self)@.publish_begun(slot_id as int, pid).0);
            return PublishStep::Settled(true);
        }
        if current.is_free_push_claimed() {
            return PublishStep::Settled(false);
        }
        if !current.is_free_pending() {
            return PublishStep::Settled(false);
        }
        if self.load_region_meta().is_reiniting() {
            return PublishStep::Settled(false);
        }
        let current_epoch: u64 = self.load_freelist_epoch();
        self.store_backend_pid(slot_id, pid);
        self.store_slot_meta(slot_id, SlotMeta::free_push_claimed(current_epoch));
        self.release_slot(slot_id);
        assert(self@ =~= old(self)@.publish_begun(slot_id as int, pid).0);
        PublishStep::Pushed(current_epoch)
    }

    /// Second step of a publication that pushed its token under `epoch`.
    pub fn finish_publish_free_slot(&mut self, slot_id: u32, epoch: u64) -> (r: bool)
        requires
            old(self)@.shaped(),
            old(self)@.has_slot(slot_id),
        ensures
            (final(self)@, r) == old(self)@.publish_finished(slot_id as int, epoch),
            final(self)@.shaped(),
    {
        let current: SlotMeta = self.load_slot_snapshot(slot_id).slot_meta;
        if !(current.is_free_push_claimed() && current.lease_epoch() == epoch
            && current.is_ownerless()) {
            return false;
        }
        self.store_slot_meta(slot_id, SlotMeta::free_pushed(epoch));
        self.store_backend_pid(slot_id, 0);
        self.store_slot_meta(slot_id, SlotMeta::free_published(epoch));
        assert(self@ =~= old(self)@.publish_finished(slot_id as int, epoch).0);
        true
    }

    /// Publishes the token of a slot that waits for one. Publication stops
    /// while the region is being reset.
    pub fn publish_free_slot(&mut self, slot_id: u32, pid: i32) -> (r: bool)
        requires
            old(self)@.shaped(),
            old(self)@.has_slot(slot_id),
        ensures
            (final(self)@, r) == old(self)@.published(slot_id as int, pid),
            final(self)@.shaped(),
    {
        match self.begin_publish_free_slot(slot_id, pid) {
            PublishStep::Settled(done) => done,
            PublishStep::Pushed(epoch) => self.finish_publish_free_slot(slot_id, epoch),
        }
    }

    /// Claims the slot whose token was just popped.
    fn claim_freelist_token_after_pop(&mut self, slot_id: u32, pid: i32) -> (r: bool)
        requires
            old(self)@.shaped(),
            old(self)@.has_slot(slot_id),
        ensures
            (final(self)@, r) == old(self)@.claimed_after_pop(slot_id as int, pid),
            final(self)@.shaped(),
    {
        let expected_epoch: u64 = self.load_freelist_epoch();
        let current: SlotMeta = self.load_slot_snapshot(slot_id).slot_meta;
        if (current.is_free_published() || current.is_free_pushed()) && current.lease_epoch()
            == expected_epoch {
            self.store_backend_pid(slot_id, pid);
            self.store_slot_meta(slot_id, SlotMeta::free_popped(expected_epoch));
            assert(self@ =~= old(self)@.popped(slot_id as int, pid));
            return true;
        }
        if current.is_free_pending() {
            let _ = self.publish_free_slot(slot_id, pid);
        }
        false
    }

    /// Pops tokens until one is good, and gives its slot with the epoch under
    /// which it was popped.
    pub fn pop_freelist_token_for_acquire(&mut self, pid: i32) -> (r: Result<
        (u32, u64),
        AcquireError,
    >)
        requires
            old(self)@.shaped(),
        ensures
            final(self)@ == old(self)@.token_taken(pid).0,
            final(self)@.shaped(),
            r == match old(self)@.token_taken(pid).1 {
                Some(id) => Ok::<(u32, u64), AcquireError>((id, old(self)@.freelist_epoch)),
                None => Err(AcquireError::Empty),
            },
            r matches Ok(popped) ==> final(self)@.has_slot(popped.0)
                && final(self)@.slots[popped.0 as int].meta == free_word(
                LEASE_STATE_FREE_POPPED,
                popped.1,
            ) && final(self)@.slots[popped.0 as int].backend_pid == pid,
            final(self)@.meta == old(self)@.meta,
            final(self)@.freelist_epoch == old(self)@.freelist_epoch,
            final(self)@.next_lease_epoch == old(self)@.next_lease_epoch,
            final(self)@.layout == old(self)@.layout,
            final(self)@.key == old(self)@.key,
    {
        let expected_epoch: u64 = self.load_freelist_epoch();
        loop
            invariant
                self@.shaped(),
                self@.token_taken(pid) == old(self)@.token_taken(pid),
                self@.freelist_epoch == expected_epoch,
                expected_epoch == old(self)@.freelist_epoch,
                self@.meta == old(self)@.meta,
                self@.next_lease_epoch == old(self)@.next_lease_epoch,
                self@.layout == old(self)@.layout,
                self@.key == old(self)@.key,
            decreases self@.pop_measure(),
        {
            let ghost before = self@;
            let slot_id: u32 = match self.acquire_slot() {
                Some(id) => id,
                None => {
                    return Err(AcquireError::Empty);
                },
            };
            proof {
                before.lemma_pop_step(pid);
            }
            if self.claim_freelist_token_after_pop(slot_id, pid) {
                return Ok((slot_id, expected_epoch));
            }
        }
    }

    /// Reserves a popped slot for a lease.
    pub fn reserve_popped_slot_for_acquire(
        &mut self,
        slot_id: u32,
        expected_epoch: u64,
        pid: i32,
    ) -> (r: bool)
        requires
            old(self)@.shaped(),
            old(self)@.has_slot(slot_id),
        ensures
            (final(self)@, r) == old(self)@.reserved(slot_id as int, expected_epoch, pid),
            final(self)@.shaped(),
    {
        let current: SlotMeta = self.load_slot_snapshot(slot_id).slot_meta;
        if current.is_free_popped() && current.lease_epoch() == expected_epoch {
            self.store_slot_meta(slot_id, SlotMeta::acquire_reserved());
            return true;
        }
        if current.is_free_pending() {
            let _ = self.publish_free_slot(slot_id, pid);
        }
        false
    }

    /// Gives an acquisition up: a slot that was popped or reserved goes back to
    /// the free stack.
    pub fn abort_reserved_slot_acquire(&mut self, slot_id: u32, pid: i32) -> (r: bool)
        requires
            old(self)@.shaped(),
            old(self)@.has_slot(slot_id),
        ensures
            (final(self)@, r) == old(self)@.acquire_aborted(slot_id as int, pid),
            final(self)@.shaped(),
    {
        let current: SlotMeta = self.load_slot_snapshot(slot_id).slot_meta;
        if current.is_free_published() || current.is_free_pending()
            || current.is_free_push_claimed() || current.is_free_pushed() {
            return true;
        }
        if !(current.is_acquire_reserved() || current.is_free_popped()) {
            return false;
        }
        self.empty_slot(slot_id);
        let _ = self.publish_free_slot(slot_id, pid);
        true
    }
}

} // verus!
