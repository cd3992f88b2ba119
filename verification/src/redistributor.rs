//! The per-core redistributor register block (GICR).
//!
//! The redistributor owns a core's private interrupt configuration: the
//! sixteen SGIs and the private peripheral interrupts, ids 0..=31, with
//! the physical timer on id 30 in this configuration.  It also carries
//! the power-management wake handshake that must complete before the
//! core's CPU interface may be configured.  One `Redistributor` value
//! stands for the block of the core executing the driver.

use vstd::prelude::*;
use crate::bits::bit_set;
use crate::bits::lane;
use crate::bits::lemma_bit_update;
use crate::bits::lemma_lane_update;
use crate::bits::lemma_or_all_ones;
use crate::bits::lemma_uniform_lanes;
use crate::bits::uniform_priority_word;
use crate::bits::with_bit_clear;
use crate::bits::with_bit_set;
use crate::bits::with_lane;
use crate::distributor::DEFAULT_SGI_PRIORITY;

verus! {

/// Interrupt id of the physical timer's private peripheral interrupt.
pub const TIMER_INTERRUPT_ID: u32 = 30;

/// Number of 32-bit registers in the private priority table: four
/// priority bytes per register cover the 32 private interrupt ids.
pub const PRIVATE_PRIORITY_REGS: usize = 8;

/// The redistributor register block of one core.
///
/// The waker handshake is modelled by its two architectural bits plus a
/// latency counter standing for the bounded time the hardware takes to
/// power the block's children up: each poll of the waker after the sleep
/// request has been withdrawn brings the handshake one step closer to
/// reporting the children awake.
pub struct Redistributor {
    /// GICR_WAKER processor-sleep request bit (set while asleep).
    pub waker_processor_sleep: bool,
    /// GICR_WAKER children-asleep status bit (clears when the wake
    /// handshake completes).
    pub waker_children_asleep: bool,
    /// Remaining waker polls before the hardware reports children awake.
    pub wake_delay: u32,
    /// GICR_IGROUPR0: group assignment for private ids 0..=31
    /// (bit set selects group 1).
    pub igroupr0: u32,
    /// GICR_ISENABLER0: enable bits for private ids 0..=31.
    pub isenabler0: u32,
    /// GICR_ISPENDR0: pending bits for private ids 0..=31.
    pub ispendr0: u32,
    /// GICR_ISACTIVER0: active bits for private ids 0..=31.
    pub isactiver0: u32,
    /// GICR_IPRIORITYR0..7: the private priority table, id `i` in byte
    /// lane `i % 4` of register `i / 4`.
    pub ipriorityr: Vec<u32>,
}

impl Redistributor {
    /// The priority table holds exactly its eight private registers.
    pub open spec fn wf(self) -> bool {
        self.ipriorityr.len() == PRIVATE_PRIORITY_REGS
    }

    /// The wake handshake has completed: the children-asleep status bit
    /// reads clear.
    pub open spec fn awake(self) -> bool {
        !self.waker_children_asleep
    }

    /// SGI `id` is enabled in this core's private bank.
    pub open spec fn sgi_enabled(self, id: u32) -> bool
        recommends
            id < 32,
    {
        bit_set(self.isenabler0, id)
    }

    /// Private interrupt `id` is pending.
    pub open spec fn interrupt_pending(self, id: u32) -> bool
        recommends
            id < 32,
    {
        bit_set(self.ispendr0, id)
    }

    /// Private interrupt `id` is active (acknowledged, not yet completed).
    pub open spec fn interrupt_active(self, id: u32) -> bool
        recommends
            id < 32,
    {
        bit_set(self.isactiver0, id)
    }

    /// Priority byte of private interrupt `id` as the table holds it.
    pub open spec fn priority_of(self, id: u32) -> u8
        recommends
            self.wf(),
            id < 32,
    {
        lane(self.ipriorityr[(id / 4) as int], id % 4)
    }

    /// The reset state of the block: asleep, with the handshake taking
    /// `wake_delay` waker polls to complete, and all private interrupt
    /// state zeroed.
    pub fn power_on(wake_delay: u32) -> (r: Redistributor)
        ensures
            r.wf(),
            r.waker_processor_sleep,
            r.waker_children_asleep,
            !r.awake(),
            r.wake_delay == wake_delay,
            r.igroupr0 == 0,
            r.isenabler0 == 0,
            r.ispendr0 == 0,
            r.isactiver0 == 0,
            forall|k: int| 0 <= k < PRIVATE_PRIORITY_REGS ==> r.ipriorityr[k] == 0,
    {
        let mut prios: Vec<u32> = Vec::new();
        let mut k: usize = 0;
        while k < PRIVATE_PRIORITY_REGS
            invariant
                k <= PRIVATE_PRIORITY_REGS,
                prios.len() == k,
                forall|j: int| 0 <= j < k ==> prios[j] == 0,
            decreases PRIVATE_PRIORITY_REGS - k,
        {
            prios.push(0);
            k = k + 1;
        }
        Redistributor {
            waker_processor_sleep: true,
            waker_children_asleep: true,
            wake_delay,
            igroupr0: 0,
            isenabler0: 0,
            ispendr0: 0,
            isactiver0: 0,
            ipriorityr: prios,
        }
    }

    /// One read of the waker status register, together with the
    /// hardware's progress on the handshake: while the sleep request is
    /// withdrawn, each poll consumes one step of the wake latency, and
    /// once the latency is exhausted the children-asleep bit clears.
    /// Returns the children-asleep bit as read.
    pub fn poll_waker(&mut self) -> (asleep: bool)
        ensures
            final(self).waker_processor_sleep == old(self).waker_processor_sleep,
            final(self).igroupr0 == old(self).igroupr0,
            final(self).isenabler0 == old(self).isenabler0,
            final(self).ispendr0 == old(self).ispendr0,
            final(self).isactiver0 == old(self).isactiver0,
            final(self).ipriorityr == old(self).ipriorityr,
            old(self).waker_processor_sleep ==> final(self).waker_children_asleep == old(self).waker_children_asleep && final(self).wake_delay == old(self).wake_delay,
            !old(self).waker_processor_sleep && old(self).wake_delay > 0 ==> final(self).wake_delay == old(self).wake_delay - 1 && final(self).waker_children_asleep == old(self).waker_children_asleep,
            !old(self).waker_processor_sleep && old(self).wake_delay == 0 ==> final(self).wake_delay == 0 && !final(self).waker_children_asleep,
            asleep == final(self).waker_children_asleep,
    {
        if !self.waker_processor_sleep {
            if self.wake_delay > 0 {
                self.wake_delay = self.wake_delay - 1;
            } else {
                self.waker_children_asleep = false;
            }
        }
        self.waker_children_asleep
    }

    /// The wake handshake: withdraw the processor-sleep request, then
    /// spin on the waker until the children-asleep status bit clears.
    ///
    /// The spin has no timeout: the hardware guarantees the handshake
    /// completes in bounded time (here, the wake latency), and a platform
    /// needing a bounded startup budget must wrap this operation
    /// externally.
    pub fn wake(&mut self)
        requires
            old(self).wf(),
        ensures
            final(self).wf(),
            !final(self).waker_processor_sleep,
            final(self).awake(),
            final(self).igroupr0 == old(self).igroupr0,
            final(self).isenabler0 == old(self).isenabler0,
            final(self).ispendr0 == old(self).ispendr0,
            final(self).isactiver0 == old(self).isactiver0,
            final(self).ipriorityr == old(self).ipriorityr,
    {
        self.waker_processor_sleep = false;
        while self.waker_children_asleep
            invariant
                self.wf(),
                !self.waker_processor_sleep,
                self.igroupr0 == old(self).igroupr0,
                self.isenabler0 == old(self).isenabler0,
                self.ispendr0 == old(self).ispendr0,
                self.isactiver0 == old(self).isactiver0,
                self.ipriorityr == old(self).ipriorityr,
            decreases self.wake_delay + (if self.waker_children_asleep { 1int } else { 0int }),
        {
            let _asleep = self.poll_waker();
        }
    }

    /// Configure this core's private interrupts after the wake handshake:
    /// assign all 32 private ids to group 1, enable the sixteen SGIs,
    /// write the default priority across the SGI slice of the priority
    /// table, then enable, group-assign and prioritize the timer
    /// interrupt, preserving the three priorities sharing its register.
    pub fn configure_private(&mut self)
        requires
            old(self).wf(),
            old(self).awake(),
        ensures
            final(self).wf(),
            final(self).awake(),
            final(self).waker_processor_sleep == old(self).waker_processor_sleep,
            final(self).igroupr0 == 0xFFFF_FFFFu32,
            final(self).isenabler0 == ((old(self).isenabler0 | 0xFFFF) | (1u32
                << TIMER_INTERRUPT_ID)),
            final(self).ispendr0 == old(self).ispendr0,
            final(self).isactiver0 == old(self).isactiver0,
            forall|k: int|
                0 <= k < 4 ==> final(self).ipriorityr[k] == uniform_priority_word(
                    DEFAULT_SGI_PRIORITY,
                ),
            forall|k: int| 4 <= k < 7 ==> final(self).ipriorityr[k] == old(self).ipriorityr[k],
            final(self).ipriorityr[7] == with_lane(
                old(self).ipriorityr[7],
                TIMER_INTERRUPT_ID % 4,
                DEFAULT_SGI_PRIORITY,
            ),
            forall|id: u32| id < 16 ==> final(self).sgi_enabled(id),
            forall|id: u32| id < 16 ==> final(self).priority_of(id) == DEFAULT_SGI_PRIORITY,
            final(self).sgi_enabled(TIMER_INTERRUPT_ID),
            final(self).priority_of(TIMER_INTERRUPT_ID) == DEFAULT_SGI_PRIORITY,
    {
        // All private interrupt ids delivered as group-1 interrupts.
        self.igroupr0 = self.igroupr0 | 0xFFFF_FFFFu32;
        proof {
            lemma_or_all_ones(old(self).igroupr0);
        }
        // Enable the sixteen SGIs.
        self.isenabler0 = self.isenabler0 | 0xFFFF;
        // Default priority across the SGI slice of the table.
        let word: u32 = ((DEFAULT_SGI_PRIORITY as u32) << 24) | ((DEFAULT_SGI_PRIORITY as u32)
            << 16) | ((DEFAULT_SGI_PRIORITY as u32) << 8) | (DEFAULT_SGI_PRIORITY as u32);
        let mut k: usize = 0;
        while k < 4
            invariant
                self.wf(),
                k <= 4,
                word == uniform_priority_word(DEFAULT_SGI_PRIORITY),
                self.waker_processor_sleep == old(self).waker_processor_sleep,
                self.waker_children_asleep == old(self).waker_children_asleep,
                self.igroupr0 == 0xFFFF_FFFFu32,
                self.isenabler0 == (old(self).isenabler0 | 0xFFFF),
                self.ispendr0 == old(self).ispendr0,
                self.isactiver0 == old(self).isactiver0,
                forall|j: int| 0 <= j < k ==> self.ipriorityr[j] == word,
                forall|j: int| k <= j < PRIVATE_PRIORITY_REGS ==> self.ipriorityr[j] == old(self).ipriorityr[j],
            decreases 4 - k,
        {
            self.ipriorityr[k] = word;
            k = k + 1;
        }
        // Timer interrupt: enable, group-assign, and set its priority
        // with a read-modify-write that keeps the other three lanes.
        self.isenabler0 = self.isenabler0 | (1u32 << TIMER_INTERRUPT_ID);
        self.igroupr0 = self.igroupr0 | (1u32 << TIMER_INTERRUPT_ID);
        proof {
            lemma_or_all_ones(1u32 << TIMER_INTERRUPT_ID);
        }
        let reg_index: usize = (TIMER_INTERRUPT_ID / 4) as usize;
        let lane_index: u32 = TIMER_INTERRUPT_ID % 4;
        let cur = self.ipriorityr[reg_index];
        self.ipriorityr[reg_index] = (cur & !(0xFFu32 << (8 * lane_index))) | ((
        DEFAULT_SGI_PRIORITY as u32) << (8 * lane_index));
        proof {
            assert forall|id: u32| id < 16 implies self.sgi_enabled(id)
                && self.priority_of(id) == DEFAULT_SGI_PRIORITY by {
                lemma_private_enable_word(old(self).isenabler0, id);
                lemma_uniform_lanes(DEFAULT_SGI_PRIORITY, id % 4);
            }
            lemma_private_enable_word(old(self).isenabler0, TIMER_INTERRUPT_ID);
            lemma_lane_update(
                old(self).ipriorityr[7],
                TIMER_INTERRUPT_ID % 4,
                0,
                DEFAULT_SGI_PRIORITY,
            );
        }
    }

    /// Enable SGI `sgi_id` in this core's private bank; ids above 15 are
    /// rejected as no-ops, leaving all state untouched.
    pub fn enable_sgi(&mut self, sgi_id: u8)
        requires
            old(self).wf(),
        ensures
            final(self).wf(),
            sgi_id > 15 ==> *final(self) == *old(self),
            sgi_id <= 15 ==> final(self).isenabler0 == with_bit_set(
                old(self).isenabler0,
                sgi_id as u32,
            ),
            sgi_id <= 15 ==> final(self).sgi_enabled(sgi_id as u32),
            sgi_id <= 15 ==> forall|id2: u32|
                id2 < 32 && id2 != sgi_id ==> final(self).sgi_enabled(id2) == old(self).sgi_enabled(id2),
            final(self).waker_processor_sleep == old(self).waker_processor_sleep,
            final(self).waker_children_asleep == old(self).waker_children_asleep,
            final(self).wake_delay == old(self).wake_delay,
            final(self).igroupr0 == old(self).igroupr0,
            final(self).ispendr0 == old(self).ispendr0,
            final(self).isactiver0 == old(self).isactiver0,
            final(self).ipriorityr == old(self).ipriorityr,
    {
        if sgi_id > 15 {
            return ;
        }
        let mask = 1u32 << (sgi_id as u32);
        self.isenabler0 = self.isenabler0 | mask;
        proof {
            assert forall|id2: u32| id2 < 32 implies (id2 == sgi_id ==> self.sgi_enabled(id2)) && (
            id2 != sgi_id ==> self.sgi_enabled(id2) == old(self).sgi_enabled(id2)) by {
                lemma_bit_update(old(self).isenabler0, sgi_id as u32, id2);
            }
        }
    }

    /// Disable SGI `sgi_id` (a write to the clear-enable register); ids
    /// above 15 are rejected as no-ops.
    pub fn disable_sgi(&mut self, sgi_id: u8)
        requires
            old(self).wf(),
        ensures
            final(self).wf(),
            sgi_id > 15 ==> *final(self) == *old(self),
            sgi_id <= 15 ==> final(self).isenabler0 == with_bit_clear(
                old(self).isenabler0,
                sgi_id as u32,
            ),
            sgi_id <= 15 ==> !final(self).sgi_enabled(sgi_id as u32),
            sgi_id <= 15 ==> forall|id2: u32|
                id2 < 32 && id2 != sgi_id ==> final(self).sgi_enabled(id2) == old(self).sgi_enabled(id2),
            final(self).waker_processor_sleep == old(self).waker_processor_sleep,
            final(self).waker_children_asleep == old(self).waker_children_asleep,
            final(self).wake_delay == old(self).wake_delay,
            final(self).igroupr0 == old(self).igroupr0,
            final(self).ispendr0 == old(self).ispendr0,
            final(self).isactiver0 == old(self).isactiver0,
            final(self).ipriorityr == old(self).ipriorityr,
    {
        if sgi_id > 15 {
            return ;
        }
        let mask = 1u32 << (sgi_id as u32);
        self.isenabler0 = self.isenabler0 & !mask;
        proof {
            assert forall|id2: u32| id2 < 32 implies (id2 == sgi_id ==> !self.sgi_enabled(id2)) && (
            id2 != sgi_id ==> self.sgi_enabled(id2) == old(self).sgi_enabled(id2)) by {
                lemma_bit_update(old(self).isenabler0, sgi_id as u32, id2);
            }
        }
    }

    /// Clear the pending state of SGI `sgi_id` (a write to the
    /// clear-pending register, distinct from the clear-enable register);
    /// ids above 15 are rejected as no-ops.
    pub fn clear_sgi_pending(&mut self, sgi_id: u8)
        requires
            old(self).wf(),
        ensures
            final(self).wf(),
            sgi_id > 15 ==> *final(self) == *old(self),
            sgi_id <= 15 ==> final(self).ispendr0 == with_bit_clear(
                old(self).ispendr0,
                sgi_id as u32,
            ),
            sgi_id <= 15 ==> !final(self).interrupt_pending(sgi_id as u32),
            sgi_id <= 15 ==> forall|id2: u32|
                id2 < 32 && id2 != sgi_id ==> final(self).interrupt_pending(id2) == old(self).interrupt_pending(id2),
            final(self).waker_processor_sleep == old(self).waker_processor_sleep,
            final(self).waker_children_asleep == old(self).waker_children_asleep,
            final(self).wake_delay == old(self).wake_delay,
            final(self).igroupr0 == old(self).igroupr0,
            final(self).isenabler0 == old(self).isenabler0,
            final(self).isactiver0 == old(self).isactiver0,
            final(self).ipriorityr == old(self).ipriorityr,
    {
        if sgi_id > 15 {
            return ;
        }
        let mask = 1u32 << (sgi_id as u32);
        self.ispendr0 = self.ispendr0 & !mask;
        proof {
            assert forall|id2: u32| id2 < 32 implies (id2 == sgi_id ==> !self.interrupt_pending(
                id2,
            )) && (id2 != sgi_id ==> self.interrupt_pending(id2) == old(self).interrupt_pending(
                id2,
            )) by {
                lemma_bit_update(old(self).ispendr0, sgi_id as u32, id2);
            }
        }
    }

    /// Mark SGI `sgi_id` pending, as the hardware does when a software
    /// generated interrupt routed to this core arrives.
    pub fn set_sgi_pending(&mut self, sgi_id: u8)
        requires
            old(self).wf(),
            sgi_id <= 15,
        ensures
            final(self).wf(),
            final(self).ispendr0 == with_bit_set(old(self).ispendr0, sgi_id as u32),
            final(self).interrupt_pending(sgi_id as u32),
            forall|id2: u32|
                id2 < 32 && id2 != sgi_id ==> final(self).interrupt_pending(id2) == old(self).interrupt_pending(id2),
            final(self).waker_processor_sleep == old(self).waker_processor_sleep,
            final(self).waker_children_asleep == old(self).waker_children_asleep,
            final(self).wake_delay == old(self).wake_delay,
            final(self).igroupr0 == old(self).igroupr0,
            final(self).isenabler0 == old(self).isenabler0,
            final(self).isactiver0 == old(self).isactiver0,
            final(self).ipriorityr == old(self).ipriorityr,
    {
        let mask = 1u32 << (sgi_id as u32);
        self.ispendr0 = self.ispendr0 | mask;
        proof {
            assert forall|id2: u32| id2 < 32 implies (id2 == sgi_id ==> self.interrupt_pending(id2))
                && (id2 != sgi_id ==> self.interrupt_pending(id2) == old(self).interrupt_pending(
                id2,
            )) by {
                lemma_bit_update(old(self).ispendr0, sgi_id as u32, id2);
            }
        }
    }

    /// Write priority `priority` for SGI `sgi_id` with a read-modify-write
    /// that preserves the other three priorities sharing its register;
    /// ids above 15 are rejected as no-ops.
    pub fn set_sgi_priority(&mut self, sgi_id: u8, priority: u8)
        requires
            old(self).wf(),
        ensures
            final(self).wf(),
            sgi_id > 15 ==> *final(self) == *old(self),
            sgi_id <= 15 ==> final(self).ipriorityr@ == old(self).ipriorityr@.update(
                sgi_id as int / 4,
                with_lane(
                    old(self).ipriorityr[sgi_id as int / 4],
                    (sgi_id % 4) as u32,
                    priority,
                ),
            ),
            sgi_id <= 15 ==> final(self).priority_of(sgi_id as u32) == priority,
            sgi_id <= 15 ==> forall|k2: u32|
                #![trigger lane(old(self).ipriorityr[sgi_id as int / 4], k2)]
                k2 < 4 && k2 != (sgi_id % 4) as u32 ==> lane(
                    final(self).ipriorityr[sgi_id as int / 4],
                    k2,
                ) == lane(old(self).ipriorityr[sgi_id as int / 4], k2),
            final(self).waker_processor_sleep == old(self).waker_processor_sleep,
            final(self).waker_children_asleep == old(self).waker_children_asleep,
            final(self).wake_delay == old(self).wake_delay,
            final(self).igroupr0 == old(self).igroupr0,
            final(self).isenabler0 == old(self).isenabler0,
            final(self).ispendr0 == old(self).ispendr0,
            final(self).isactiver0 == old(self).isactiver0,
    {
        if sgi_id > 15 {
            return ;
        }
        let reg_index: usize = (sgi_id / 4) as usize;
        let lane_index: u32 = (sgi_id % 4) as u32;
        let cur = self.ipriorityr[reg_index];
        self.ipriorityr[reg_index] = (cur & !(0xFFu32 << (8 * lane_index))) | ((priority as u32)
            << (8 * lane_index));
        proof {
            assert forall|k2: u32| k2 < 4 implies (k2 == lane_index ==> lane(
                self.ipriorityr[reg_index as int],
                k2,
            ) == priority) && (k2 != lane_index ==> lane(self.ipriorityr[reg_index as int], k2)
                == lane(old(self).ipriorityr[reg_index as int], k2)) by {
                lemma_lane_update(old(self).ipriorityr[reg_index as int], lane_index, k2, priority);
            }
        }
    }

    /// Read the children-asleep status bit: true when the wake handshake
    /// has completed.
    pub fn is_awake(&self) -> (awake: bool)
        ensures
            awake == self.awake(),
    {
        !self.waker_children_asleep
    }

    /// Read the priority byte of private interrupt `id` from its lane of
    /// the priority table.
    pub fn read_priority(&self, id: u32) -> (priority: u8)
        requires
            self.wf(),
            id < 32,
        ensures
            priority == self.priority_of(id),
    {
        let reg = self.ipriorityr[(id / 4) as usize];
        ((reg >> (8 * (id % 4))) & 0xFF) as u8
    }

    /// Whether SGI `sgi_id` is enabled; ids above 15 read as disabled.
    pub fn is_sgi_enabled(&self, sgi_id: u8) -> (enabled: bool)
        ensures
            enabled == (sgi_id <= 15 && self.sgi_enabled(sgi_id as u32)),
    {
        if sgi_id > 15 {
            return false;
        }
        self.isenabler0 & (1u32 << (sgi_id as u32)) != 0
    }
}

/// For every SGI id in range, enabling it makes its enabled bit read
/// back set, and disabling it makes the bit read back clear — the
/// round trip between `enable_sgi` / `disable_sgi` and
/// `is_sgi_enabled`, stated over the enable register they act on.
pub proof fn lemma_sgi_enable_disable_round_trip(enables: u32, sgi_id: u8)
    requires
        sgi_id <= 15,
    ensures
        bit_set(with_bit_set(enables, sgi_id as u32), sgi_id as u32),
        !bit_set(with_bit_clear(enables, sgi_id as u32), sgi_id as u32),
{
    lemma_bit_update(enables, sgi_id as u32, 0);
}

/// Bit `i` of the enable word produced by private configuration: the SGI
/// and timer bits read back set, every other bit keeps its old value.
proof fn lemma_private_enable_word(w: u32, i: u32)
    by (bit_vector)
    requires
        i < 32,
    ensures
        i <= 15 ==> bit_set((w | 0xFFFF) | (1u32 << TIMER_INTERRUPT_ID), i),
        i == TIMER_INTERRUPT_ID ==> bit_set((w | 0xFFFF) | (1u32 << TIMER_INTERRUPT_ID), i),
        16 <= i < 32 && i != TIMER_INTERRUPT_ID ==> bit_set(
            (w | 0xFFFF) | (1u32 << TIMER_INTERRUPT_ID),
            i,
        ) == bit_set(w, i),
{
}

} // verus!
