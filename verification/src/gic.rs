//! The GIC facade: one value owning the three register blocks of the
//! core that runs the driver, with the staged bring-up sequence, the
//! per-SGI operations, SGI messaging, and the acknowledge /
//! end-of-interrupt lifecycle.
//!
//! Interrupt lifecycle per id: inactive, then pending once the hardware
//! (or an SGI routed here) asserts it, then active from acknowledge
//! until end-of-interrupt.  Acknowledging raises the running priority to
//! the interrupt's priority, masking equal and lower priorities until
//! completion; in EOI mode 0 a single end-of-interrupt write both drops
//! the running priority and deactivates.

use vstd::prelude::*;
use crate::bits::bit_set;
use crate::bits::lemma_bit_update;
use crate::bits::with_bit_clear;
use crate::bits::with_bit_set;
use crate::cpu_interface::ActiveInterrupt;
use crate::cpu_interface::CpuInterface;
use crate::cpu_interface::stack_running_priority;
use crate::distributor::Distributor;
use crate::distributor::GICD_CTLR_ENABLE_GRP0;
use crate::distributor::GICD_CTLR_ENABLE_GRP1;
use crate::redistributor::Redistributor;
use crate::sgi::SGI_TARGET_ALL_EXCEPT_SELF;
use crate::sgi::SGI_TARGET_LIST;
use crate::sgi::SGI_TARGET_SELF;
use crate::sgi::SgiRequest;
use crate::sgi::effective_target_mask;
use crate::sgi::encode_routing_word;
use crate::sgi::is_broadcast_filter;
use crate::sgi::lemma_filter_constants;
use crate::sgi::lemma_single_target_bit;
use crate::sgi::sgi_routing_word;
use crate::sgi::targets_executing_core;

verus! {

/// Interrupt id the acknowledge register reports when no eligible
/// interrupt is pending.
pub const SPURIOUS_INTERRUPT_ID: u32 = 1023;

/// The interrupt controller as seen by the core that runs the driver:
/// the shared distributor plus this core's redistributor and CPU
/// interface.
pub struct Gic {
    /// The shared distributor block.
    pub distributor: Distributor,
    /// This core's redistributor block.
    pub redistributor: Redistributor,
    /// This core's CPU interface.
    pub cpu_interface: CpuInterface,
}

impl Gic {
    /// All three blocks are well formed.
    pub open spec fn wf(self) -> bool {
        self.distributor.wf() && self.redistributor.wf() && self.cpu_interface.wf()
    }

    /// Group-1 interrupts can reach this core: the distributor forwards
    /// group 1, and the CPU interface has system-register access and
    /// group-1 delivery enabled.
    pub open spec fn delivery_on(self) -> bool {
        bit_set(self.distributor.ctlr, 1) && self.cpu_interface.sysreg_access_enabled()
            && self.cpu_interface.group1_enabled()
    }

    /// Private interrupt `id` would be signalled to this core right now:
    /// delivery is on, the id is pending, enabled and in group 1, not
    /// already active, and its priority passes both the priority mask
    /// and the running priority (strictly higher priority, i.e. a
    /// strictly lower numeric value, is required).
    pub open spec fn eligible(self, id: u32) -> bool {
        &&& id < 32

        &&& self.delivery_on()
        &&& bit_set(self.redistributor.ispendr0, id)
        &&& bit_set(self.redistributor.isenabler0, id)
        &&& bit_set(self.redistributor.igroupr0, id)
        &&& !bit_set(self.redistributor.isactiver0, id)
        &&& (self.redistributor.priority_of(id) as u32) < self.cpu_interface.pmr
        &&& (self.redistributor.priority_of(id) as u32)
            < self.cpu_interface.running_priority_spec()
    }

    /// The eligible id with the highest priority among ids below `n`,
    /// lowest numeric priority first and lowest id on a tie.
    pub open spec fn best_before(self, n: int) -> Option<u32>
        decreases n,
    {
        if n <= 0 {
            None
        } else {
            let prev = self.best_before(n - 1);
            let id = (n - 1) as u32;
            if self.eligible(id) {
                match prev {
                    None => Some(id),
                    Some(b) => if self.redistributor.priority_of(id)
                        < self.redistributor.priority_of(b) {
                        Some(id)
                    } else {
                        Some(b)
                    },
                }
            } else {
                prev
            }
        }
    }

    /// The interrupt the acknowledge register would deliver: the
    /// highest-priority eligible private id, if any.
    pub open spec fn highest_pending_id(self) -> Option<u32> {
        self.best_before(32)
    }

    /// The power-on state of the controller: distributor reporting
    /// `typer`, redistributor asleep with the given wake latency, CPU
    /// interface fully gated off.
    pub fn power_on(typer: u32, wake_delay: u32) -> (gic: Gic)
        ensures
            gic.wf(),
            gic.distributor.ctlr == 0,
            gic.distributor.typer == typer,
            !gic.redistributor.awake(),
            gic.redistributor.wake_delay == wake_delay,
            gic.redistributor.ispendr0 == 0,
            gic.redistributor.isactiver0 == 0,
            gic.cpu_interface.sre == 0,
            gic.cpu_interface.active_stack@.len() == 0,
            gic.cpu_interface.sgi_requests@.len() == 0,
    {
        Gic {
            distributor: Distributor::power_on(typer),
            redistributor: Redistributor::power_on(wake_delay),
            cpu_interface: CpuInterface::power_on(),
        }
    }

    /// Enable this core's CPU interface, refusing until the local
    /// redistributor's wake handshake has reported the children awake.
    /// Returns whether the interface was enabled.
    pub fn enable_cpu_interface(&mut self) -> (enabled: bool)
        requires
            old(self).wf(),
        ensures
            final(self).wf(),
            enabled == old(self).redistributor.awake(),
            !enabled ==> *final(self) == *old(self),
            enabled ==> final(self).distributor == old(self).distributor,
            enabled ==> final(self).redistributor == old(self).redistributor,
            enabled ==> final(self).cpu_interface.sre == 0b111u32,
            enabled ==> final(self).cpu_interface.sysreg_access_enabled(),
            enabled ==> final(self).cpu_interface.pmr == 0xFF,
            enabled ==> final(self).cpu_interface.igrpen1 == 1,
            enabled ==> final(self).cpu_interface.group1_enabled(),
            enabled ==> final(self).cpu_interface.ctlr == 0,
            enabled ==> final(self).cpu_interface.eoi_mode() == 0,
            enabled ==> final(self).cpu_interface.active_stack == old(self).cpu_interface.active_stack,
            enabled ==> final(self).cpu_interface.sgi_requests == old(self).cpu_interface.sgi_requests,
    {
        if self.redistributor.is_awake() {
            self.cpu_interface.enable();
            true
        } else {
            false
        }
    }

    /// Enable global forwarding in the distributor, refusing until the
    /// local redistributor's wake handshake has completed: the global
    /// enable must never precede the handshake.  Returns whether the
    /// distributor was enabled.
    pub fn enable_distributor(&mut self) -> (enabled: bool)
        requires
            old(self).wf(),
        ensures
            final(self).wf(),
            enabled == old(self).redistributor.awake(),
            !enabled ==> *final(self) == *old(self),
            enabled ==> final(self).distributor.ctlr == (GICD_CTLR_ENABLE_GRP0
                | GICD_CTLR_ENABLE_GRP1),
            enabled ==> final(self).distributor.enabled(),
            enabled ==> final(self).distributor.typer == old(self).distributor.typer,
            enabled ==> final(self).distributor.igroupr0 == old(self).distributor.igroupr0,
            enabled ==> final(self).distributor.isenabler0 == old(self).distributor.isenabler0,
            enabled ==> final(self).distributor.ipriorityr == old(self).distributor.ipriorityr,
            enabled ==> final(self).redistributor == old(self).redistributor,
            enabled ==> final(self).cpu_interface == old(self).cpu_interface,
    {
        if self.redistributor.is_awake() {
            self.distributor.enable();
            true
        } else {
            false
        }
    }

    /// The full bring-up, in the fixed order: disable the distributor
    /// and write its tables, wake the local redistributor, configure the
    /// private interrupts, enable the CPU interface, and only then turn
    /// on global forwarding.
    pub fn init(&mut self)
        requires
            old(self).wf(),
        ensures
            final(self).wf(),
            final(self).distributor.ctlr == (GICD_CTLR_ENABLE_GRP0 | GICD_CTLR_ENABLE_GRP1),
            final(self).distributor.enabled(),
            final(self).distributor.typer == old(self).distributor.typer,
            final(self).distributor.igroupr0 == 0xFFFF_FFFFu32,
            final(self).distributor.isenabler0 == old(self).distributor.isenabler0,
            forall|k: int|
                0 <= k < 4 ==> final(self).distributor.ipriorityr[k]
                    == crate::bits::uniform_priority_word(crate::distributor::DEFAULT_SGI_PRIORITY),
            final(self).redistributor.awake(),
            !final(self).redistributor.waker_processor_sleep,
            final(self).redistributor.igroupr0 == 0xFFFF_FFFFu32,
            final(self).redistributor.isenabler0 == ((old(self).redistributor.isenabler0 | 0xFFFF)
                | (1u32 << crate::redistributor::TIMER_INTERRUPT_ID)),
            final(self).redistributor.ispendr0 == old(self).redistributor.ispendr0,
            final(self).redistributor.isactiver0 == old(self).redistributor.isactiver0,
            forall|k: int|
                0 <= k < 4 ==> final(self).redistributor.ipriorityr[k]
                    == crate::bits::uniform_priority_word(crate::distributor::DEFAULT_SGI_PRIORITY),
            forall|k: int|
                4 <= k < 7 ==> final(self).redistributor.ipriorityr[k] == old(
                    self,
                ).redistributor.ipriorityr[k],
            final(self).redistributor.ipriorityr[7] == crate::bits::with_lane(
                old(self).redistributor.ipriorityr[7],
                crate::redistributor::TIMER_INTERRUPT_ID % 4,
                crate::distributor::DEFAULT_SGI_PRIORITY,
            ),
            forall|id: u32| id < 16 ==> final(self).redistributor.sgi_enabled(id),
            forall|id: u32|
                id < 16 ==> final(self).redistributor.priority_of(id)
                    == crate::distributor::DEFAULT_SGI_PRIORITY,
            final(self).redistributor.sgi_enabled(crate::redistributor::TIMER_INTERRUPT_ID),
            final(self).redistributor.priority_of(crate::redistributor::TIMER_INTERRUPT_ID)
                == crate::distributor::DEFAULT_SGI_PRIORITY,
            final(self).cpu_interface.sre == 0b111u32,
            final(self).cpu_interface.sysreg_access_enabled(),
            final(self).cpu_interface.igrpen1 == 1,
            final(self).cpu_interface.group1_enabled(),
            final(self).cpu_interface.pmr == 0xFF,
            final(self).cpu_interface.ctlr == 0,
            final(self).cpu_interface.eoi_mode() == 0,
            final(self).cpu_interface.active_stack == old(self).cpu_interface.active_stack,
            final(self).cpu_interface.sgi_requests == old(self).cpu_interface.sgi_requests,
            final(self).delivery_on(),
    {
        self.distributor.configure();
        self.redistributor.wake();
        self.redistributor.configure_private();
        let cpu_ok = self.enable_cpu_interface();
        let dist_ok = self.enable_distributor();
        proof {
            lemma_grp1_bit();
        }
    }

    /// Enable SGI `sgi_id` in this core's redistributor bank; ids above
    /// 15 are rejected as no-ops that leave all state untouched.
    pub fn enable_sgi(&mut self, sgi_id: u8)
        requires
            old(self).wf(),
        ensures
            final(self).wf(),
            sgi_id > 15 ==> *final(self) == *old(self),
            sgi_id <= 15 ==> final(self).redistributor.isenabler0 == with_bit_set(
                old(self).redistributor.isenabler0,
                sgi_id as u32,
            ),
            sgi_id <= 15 ==> final(self).redistributor.sgi_enabled(sgi_id as u32),
            sgi_id <= 15 ==> forall|id2: u32|
                id2 < 32 && id2 != sgi_id ==> final(self).redistributor.sgi_enabled(id2) == old(self).redistributor.sgi_enabled(id2),
            final(self).distributor == old(self).distributor,
            final(self).cpu_interface == old(self).cpu_interface,
            final(self).redistributor.ispendr0 == old(self).redistributor.ispendr0,
            final(self).redistributor.isactiver0 == old(self).redistributor.isactiver0,
            final(self).redistributor.ipriorityr == old(self).redistributor.ipriorityr,
    {
        self.redistributor.enable_sgi(sgi_id);
    }

    /// Disable SGI `sgi_id`; ids above 15 are rejected as no-ops.
    pub fn disable_sgi(&mut self, sgi_id: u8)
        requires
            old(self).wf(),
        ensures
            final(self).wf(),
            sgi_id > 15 ==> *final(self) == *old(self),
            sgi_id <= 15 ==> final(self).redistributor.isenabler0 == with_bit_clear(
                old(self).redistributor.isenabler0,
                sgi_id as u32,
            ),
            sgi_id <= 15 ==> !final(self).redistributor.sgi_enabled(sgi_id as u32),
            sgi_id <= 15 ==> forall|id2: u32|
                id2 < 32 && id2 != sgi_id ==> final(self).redistributor.sgi_enabled(id2) == old(self).redistributor.sgi_enabled(id2),
            final(self).distributor == old(self).distributor,
            final(self).cpu_interface == old(self).cpu_interface,
            final(self).redistributor.ispendr0 == old(self).redistributor.ispendr0,
            final(self).redistributor.isactiver0 == old(self).redistributor.isactiver0,
            final(self).redistributor.ipriorityr == old(self).redistributor.ipriorityr,
    {
        self.redistributor.disable_sgi(sgi_id);
    }

    /// Clear the pending state of SGI `sgi_id` through the clear-pending
    /// register; ids above 15 are rejected as no-ops.
    pub fn clear_sgi_pending(&mut self, sgi_id: u8)
        requires
            old(self).wf(),
        ensures
            final(self).wf(),
            sgi_id > 15 ==> *final(self) == *old(self),
            sgi_id <= 15 ==> final(self).redistributor.ispendr0 == with_bit_clear(
                old(self).redistributor.ispendr0,
                sgi_id as u32,
            ),
            sgi_id <= 15 ==> !final(self).redistributor.interrupt_pending(sgi_id as u32),
            sgi_id <= 15 ==> forall|id2: u32|
                id2 < 32 && id2 != sgi_id ==> final(self).redistributor.interrupt_pending(id2)
                    == old(self).redistributor.interrupt_pending(id2),
            final(self).distributor == old(self).distributor,
            final(self).cpu_interface == old(self).cpu_interface,
            final(self).redistributor.isenabler0 == old(self).redistributor.isenabler0,
            final(self).redistributor.isactiver0 == old(self).redistributor.isactiver0,
            final(self).redistributor.ipriorityr == old(self).redistributor.ipriorityr,
    {
        self.redistributor.clear_sgi_pending(sgi_id);
    }

    /// Clear the pending state of SGI `sgi_id`.  Same operation as
    /// `clear_sgi_pending`: clearing pending state always targets the
    /// clear-pending register, never the clear-enable register.
    pub fn clear_pending_sgi(&mut self, sgi_id: u8)
        requires
            old(self).wf(),
        ensures
            final(self).wf(),
            sgi_id > 15 ==> *final(self) == *old(self),
            sgi_id <= 15 ==> final(self).redistributor.ispendr0 == with_bit_clear(
                old(self).redistributor.ispendr0,
                sgi_id as u32,
            ),
            sgi_id <= 15 ==> !final(self).redistributor.interrupt_pending(sgi_id as u32),
            final(self).distributor == old(self).distributor,
            final(self).cpu_interface == old(self).cpu_interface,
            final(self).redistributor.isenabler0 == old(self).redistributor.isenabler0,
            final(self).redistributor.isactiver0 == old(self).redistributor.isactiver0,
            final(self).redistributor.ipriorityr == old(self).redistributor.ipriorityr,
    {
        self.redistributor.clear_sgi_pending(sgi_id);
    }

    /// Write priority `priority` for SGI `sgi_id`, preserving the other
    /// three priorities sharing its register; ids above 15 are rejected
    /// as no-ops.
    pub fn set_sgi_priority(&mut self, sgi_id: u8, priority: u8)
        requires
            old(self).wf(),
        ensures
            final(self).wf(),
            sgi_id > 15 ==> *final(self) == *old(self),
            sgi_id <= 15 ==> final(self).redistributor.ipriorityr@ == old(self).redistributor.ipriorityr@.update(
                sgi_id as int / 4,
                crate::bits::with_lane(
                    old(self).redistributor.ipriorityr[sgi_id as int / 4],
                    (sgi_id % 4) as u32,
                    priority,
                ),
            ),
            sgi_id <= 15 ==> final(self).redistributor.priority_of(sgi_id as u32) == priority,
            sgi_id <= 15 ==> forall|k2: u32|
                #![trigger crate::bits::lane(old(self).redistributor.ipriorityr[sgi_id as int / 4], k2)]
                k2 < 4 && k2 != (sgi_id % 4) as u32 ==> crate::bits::lane(
                    final(self).redistributor.ipriorityr[sgi_id as int / 4],
                    k2,
                ) == crate::bits::lane(old(self).redistributor.ipriorityr[sgi_id as int / 4], k2),
            final(self).distributor == old(self).distributor,
            final(self).cpu_interface == old(self).cpu_interface,
            final(self).redistributor.isenabler0 == old(self).redistributor.isenabler0,
            final(self).redistributor.ispendr0 == old(self).redistributor.ispendr0,
            final(self).redistributor.isactiver0 == old(self).redistributor.isactiver0,
    {
        self.redistributor.set_sgi_priority(sgi_id, priority);
    }

    /// Whether SGI `sgi_id` is enabled; ids above 15 read as disabled.
    pub fn is_sgi_enabled(&self, sgi_id: u8) -> (enabled: bool)
        ensures
            enabled == (sgi_id <= 15 && self.redistributor.sgi_enabled(sgi_id as u32)),
    {
        self.redistributor.is_sgi_enabled(sgi_id)
    }

    /// Read the distributor type register.
    pub fn read_typer(&self) -> (typer: u32)
        ensures
            typer == self.distributor.typer,
    {
        self.distributor.typer
    }

    /// Number of implemented interrupt lines reported by the type
    /// register: `(banks + 1) * 32` for a bank-count field of `banks`.
    pub fn get_num_interrupts(&self) -> (count: u32)
        ensures
            count == ((self.distributor.typer & 0x1F) + 1) * 32,
    {
        self.distributor.interrupt_count()
    }

    /// Read the system-register-enable state of this core's interface.
    pub fn read_icc_sre(&self) -> (sre: u32)
        ensures
            sre == self.cpu_interface.sre,
    {
        self.cpu_interface.sre
    }

    /// Write the CPU interface control register (selects the EOI mode).
    pub fn write_icc_ctlr(&mut self, value: u32)
        requires
            old(self).wf(),
        ensures
            final(self).wf(),
            final(self).cpu_interface.ctlr == value,
            final(self).cpu_interface.eoi_mode() == (value >> 1) & 1,
            final(self).distributor == old(self).distributor,
            final(self).redistributor == old(self).redistributor,
            final(self).cpu_interface.sre == old(self).cpu_interface.sre,
            final(self).cpu_interface.pmr == old(self).cpu_interface.pmr,
            final(self).cpu_interface.igrpen1 == old(self).cpu_interface.igrpen1,
            final(self).cpu_interface.active_stack == old(self).cpu_interface.active_stack,
            final(self).cpu_interface.sgi_requests == old(self).cpu_interface.sgi_requests,
    {
        self.cpu_interface.write_ctlr(value);
    }

    /// Read the running priority register: the priority of the most
    /// recently acknowledged in-service interrupt, or the idle value.
    pub fn read_running_priority(&self) -> (rpr: u32)
        ensures
            rpr == self.cpu_interface.running_priority_spec(),
    {
        self.cpu_interface.running_priority()
    }

    /// Extract the interrupt id from an acknowledge-register value: the
    /// low 10 bits (for SGIs, bits above carry the originating core).
    pub fn get_interrupt_id(iar: u32) -> (id: u32)
        ensures
            id == iar & 0x3FF,
    {
        iar & 0x3FF
    }

    /// Whether private interrupt `id` would be signalled right now.
    fn eligible_now(&self, id: u32) -> (e: bool)
        requires
            self.wf(),
            id < 32,
        ensures
            e == self.eligible(id),
    {
        let delivery = (self.distributor.ctlr & (1u32 << 1) != 0) && (self.cpu_interface.sre & (
        1u32 << 0) != 0) && (self.cpu_interface.igrpen1 & (1u32 << 0) != 0);
        if !delivery {
            return false;
        }
        if self.redistributor.ispendr0 & (1u32 << id) == 0 {
            return false;
        }
        if self.redistributor.isenabler0 & (1u32 << id) == 0 {
            return false;
        }
        if self.redistributor.igroupr0 & (1u32 << id) == 0 {
            return false;
        }
        if self.redistributor.isactiver0 & (1u32 << id) != 0 {
            return false;
        }
        let priority = self.redistributor.read_priority(id);
        ((priority as u32) < self.cpu_interface.pmr) && ((priority as u32)
            < self.cpu_interface.running_priority())
    }

    /// Scan the private ids for the interrupt the acknowledge register
    /// would deliver: returns whether one is eligible, and if so its id
    /// and priority.
    fn scan_pending(&self) -> (found: (bool, u32, u8))
        requires
            self.wf(),
        ensures
            !found.0 ==> self.highest_pending_id() is None,
            found.0 ==> self.highest_pending_id() == Some(found.1),
            found.0 ==> found.1 < 32 && self.eligible(found.1),
            found.0 ==> found.2 == self.redistributor.priority_of(found.1),
    {
        let mut found = false;
        let mut best_id: u32 = 0;
        let mut best_priority: u8 = 0;
        let mut i: u32 = 0;
        while i < 32
            invariant
                self.wf(),
                i <= 32,
                !found ==> self.best_before(i as int) is None,
                found ==> self.best_before(i as int) == Some(best_id),
                found ==> best_id < i && best_id < 32 && self.eligible(best_id),
                found ==> best_priority == self.redistributor.priority_of(best_id),
            decreases 32 - i,
        {
            if self.eligible_now(i) {
                let priority = self.redistributor.read_priority(i);
                if !found || priority < best_priority {
                    found = true;
                    best_id = i;
                    best_priority = priority;
                }
            }
            i = i + 1;
        }
        (found, best_id, best_priority)
    }

    /// Read the highest-priority-pending register: the id the
    /// acknowledge register would deliver, or the spurious id, with no
    /// side effects.
    pub fn read_highest_pending(&self) -> (id: u32)
        requires
            self.wf(),
        ensures
            self.highest_pending_id() is None ==> id == SPURIOUS_INTERRUPT_ID,
            self.highest_pending_id() is Some ==> Some(id) == self.highest_pending_id(),
    {
        let (found, best_id, _priority) = self.scan_pending();
        if found {
            best_id
        } else {
            SPURIOUS_INTERRUPT_ID
        }
    }

    /// Read the interrupt-acknowledge register.  When an eligible
    /// interrupt is pending, the highest-priority one moves from pending
    /// to active, the running priority rises to its priority, and its id
    /// is returned; otherwise the spurious id is returned and nothing
    /// changes.
    pub fn read_interrupt_ack(&mut self) -> (iar: u32)
        requires
            old(self).wf(),
        ensures
            final(self).wf(),
            old(self).highest_pending_id() is None ==> iar == SPURIOUS_INTERRUPT_ID && *final(self)
                == *old(self),
            old(self).highest_pending_id() is Some ==> ({
                let id = old(self).highest_pending_id()->Some_0;
                let priority = old(self).redistributor.priority_of(id);
                &&& iar == id
                &&& old(self).eligible(id)
                &&& final(self).redistributor.ispendr0 == with_bit_clear(
                    old(self).redistributor.ispendr0,
                    id,
                )
                &&& final(self).redistributor.isactiver0 == with_bit_set(
                    old(self).redistributor.isactiver0,
                    id,
                )
                &&& !final(self).redistributor.interrupt_pending(id)
                &&& final(self).redistributor.interrupt_active(id)
                &&& final(self).cpu_interface.active_stack@ == old(self).cpu_interface.active_stack@.push((ActiveInterrupt { id, priority }))
                &&& final(self).cpu_interface.running_priority_spec() == priority as u32
                &&& final(self).redistributor.waker_processor_sleep == old(self).redistributor.waker_processor_sleep
                &&& final(self).redistributor.waker_children_asleep == old(self).redistributor.waker_children_asleep
                &&& final(self).redistributor.igroupr0 == old(self).redistributor.igroupr0
                &&& final(self).redistributor.isenabler0 == old(self).redistributor.isenabler0
                &&& final(self).redistributor.ipriorityr == old(self).redistributor.ipriorityr
                &&& final(self).distributor == old(self).distributor
                &&& final(self).cpu_interface.sre == old(self).cpu_interface.sre
                &&& final(self).cpu_interface.pmr == old(self).cpu_interface.pmr
                &&& final(self).cpu_interface.igrpen1 == old(self).cpu_interface.igrpen1
                &&& final(self).cpu_interface.ctlr == old(self).cpu_interface.ctlr
                &&& final(self).cpu_interface.sgi_requests == old(self).cpu_interface.sgi_requests
            }),
    {
        let (found, best_id, best_priority) = self.scan_pending();
        if found {
            let mask = 1u32 << best_id;
            self.redistributor.ispendr0 = self.redistributor.ispendr0 & !mask;
            self.redistributor.isactiver0 = self.redistributor.isactiver0 | mask;
            self.cpu_interface.active_stack.push(
                ActiveInterrupt { id: best_id, priority: best_priority },
            );
            proof {
                lemma_bit_update(old(self).redistributor.ispendr0, best_id, best_id);
                lemma_bit_update(old(self).redistributor.isactiver0, best_id, best_id);
            }
            best_id
        } else {
            SPURIOUS_INTERRUPT_ID
        }
    }

    /// Write the group-1 end-of-interrupt register for `interrupt_id`,
    /// which must be the most recently acknowledged in-service
    /// interrupt.  The running priority drops to its pre-acknowledge
    /// value; in EOI mode 0 the interrupt is deactivated in the same
    /// step, in mode 1 it stays active until deactivated separately.
    pub fn write_end_of_interrupt_group1(&mut self, interrupt_id: u32)
        requires
            old(self).wf(),
            old(self).cpu_interface.active_stack@.len() > 0,
            old(self).cpu_interface.active_stack@.last().id == interrupt_id,
        ensures
            final(self).wf(),
            final(self).cpu_interface.active_stack@ == old(self).cpu_interface.active_stack@.drop_last(),
            final(self).cpu_interface.running_priority_spec() == stack_running_priority(
                old(self).cpu_interface.active_stack@.drop_last(),
            ),
            old(self).cpu_interface.eoi_mode() == 0 ==> final(self).redistributor.isactiver0
                == with_bit_clear(old(self).redistributor.isactiver0, interrupt_id),
            old(self).cpu_interface.eoi_mode() == 0 ==> !final(self).redistributor.interrupt_active(interrupt_id),
            old(self).cpu_interface.eoi_mode() != 0 ==> final(self).redistributor.isactiver0
                == old(self).redistributor.isactiver0,
            final(self).distributor == old(self).distributor,
            final(self).redistributor.waker_processor_sleep == old(self).redistributor.waker_processor_sleep,
            final(self).redistributor.waker_children_asleep == old(self).redistributor.waker_children_asleep,
            final(self).redistributor.igroupr0 == old(self).redistributor.igroupr0,
            final(self).redistributor.isenabler0 == old(self).redistributor.isenabler0,
            final(self).redistributor.ispendr0 == old(self).redistributor.ispendr0,
            final(self).redistributor.ipriorityr == old(self).redistributor.ipriorityr,
            final(self).cpu_interface.sre == old(self).cpu_interface.sre,
            final(self).cpu_interface.pmr == old(self).cpu_interface.pmr,
            final(self).cpu_interface.igrpen1 == old(self).cpu_interface.igrpen1,
            final(self).cpu_interface.ctlr == old(self).cpu_interface.ctlr,
            final(self).cpu_interface.sgi_requests == old(self).cpu_interface.sgi_requests,
    {
        proof {
            assert(old(self).cpu_interface.active_stack@.last().id < 32);
        }
        let _completed = self.cpu_interface.active_stack.pop();
        let eoi_mode = (self.cpu_interface.ctlr >> 1) & 1;
        if eoi_mode == 0 {
            // Mode 0: the one write both drops priority and deactivates.
            let mask = 1u32 << interrupt_id;
            self.redistributor.isactiver0 = self.redistributor.isactiver0 & !mask;
            proof {
                lemma_bit_update(old(self).redistributor.isactiver0, interrupt_id, interrupt_id);
            }
        }
    }

    /// Write the deactivate register for `interrupt_id`: marks it no
    /// longer active without touching the running priority.  Meaningful
    /// only in EOI mode 1, where priority drop and deactivation are
    /// split.
    pub fn write_deactivate_interrupt(&mut self, interrupt_id: u32)
        requires
            old(self).wf(),
            interrupt_id < 32,
            old(self).cpu_interface.eoi_mode() == 1,
        ensures
            final(self).wf(),
            final(self).redistributor.isactiver0 == with_bit_clear(
                old(self).redistributor.isactiver0,
                interrupt_id,
            ),
            !final(self).redistributor.interrupt_active(interrupt_id),
            forall|id2: u32|
                id2 < 32 && id2 != interrupt_id ==> final(self).redistributor.interrupt_active(id2)
                    == old(self).redistributor.interrupt_active(id2),
            final(self).distributor == old(self).distributor,
            final(self).cpu_interface == old(self).cpu_interface,
            final(self).redistributor.waker_processor_sleep == old(self).redistributor.waker_processor_sleep,
            final(self).redistributor.waker_children_asleep == old(self).redistributor.waker_children_asleep,
            final(self).redistributor.igroupr0 == old(self).redistributor.igroupr0,
            final(self).redistributor.isenabler0 == old(self).redistributor.isenabler0,
            final(self).redistributor.ispendr0 == old(self).redistributor.ispendr0,
            final(self).redistributor.ipriorityr == old(self).redistributor.ipriorityr,
    {
        let mask = 1u32 << interrupt_id;
        self.redistributor.isactiver0 = self.redistributor.isactiver0 & !mask;
        proof {
            assert forall|id2: u32| id2 < 32 implies (id2 == interrupt_id ==> !self.redistributor
                .interrupt_active(id2)) && (id2 != interrupt_id
                ==> self.redistributor.interrupt_active(id2) == old(self).redistributor.interrupt_active(id2)) by {
                lemma_bit_update(old(self).redistributor.isactiver0, interrupt_id, id2);
            }
        }
    }

    /// Issue an SGI: encode the routing word for `sgi_id` under the
    /// given filter and target list, record the 64-bit write (affinity
    /// word zero), and, when the addressing includes the issuing core,
    /// mark the SGI pending in the local redistributor.  Ids above 15
    /// are rejected as no-ops.
    pub fn send_sgi(&mut self, sgi_id: u8, target_list: u16, filter: u32)
        requires
            old(self).wf(),
            old(self).cpu_interface.sysreg_access_enabled(),
        ensures
            final(self).wf(),
            sgi_id > 15 ==> *final(self) == *old(self),
            sgi_id <= 15 ==> final(self).cpu_interface.sgi_requests@ == old(self).cpu_interface.sgi_requests@.push(
                (SgiRequest {
                    routing: sgi_routing_word(
                        sgi_id,
                        is_broadcast_filter(filter),
                        effective_target_mask(target_list, filter),
                    ),
                    affinity: 0,
                }),
            ),
            sgi_id <= 15 && targets_executing_core(target_list, filter) ==> final(self).redistributor.ispendr0 == with_bit_set(old(self).redistributor.ispendr0, sgi_id as u32)
                && final(self).redistributor.interrupt_pending(sgi_id as u32),
            sgi_id <= 15 && !targets_executing_core(target_list, filter) ==> final(self).redistributor.ispendr0 == old(self).redistributor.ispendr0,
            final(self).distributor == old(self).distributor,
            final(self).redistributor.waker_processor_sleep == old(self).redistributor.waker_processor_sleep,
            final(self).redistributor.waker_children_asleep == old(self).redistributor.waker_children_asleep,
            final(self).redistributor.wake_delay == old(self).redistributor.wake_delay,
            final(self).redistributor.igroupr0 == old(self).redistributor.igroupr0,
            final(self).redistributor.isenabler0 == old(self).redistributor.isenabler0,
            final(self).redistributor.isactiver0 == old(self).redistributor.isactiver0,
            final(self).redistributor.ipriorityr == old(self).redistributor.ipriorityr,
            final(self).cpu_interface.sre == old(self).cpu_interface.sre,
            final(self).cpu_interface.pmr == old(self).cpu_interface.pmr,
            final(self).cpu_interface.igrpen1 == old(self).cpu_interface.igrpen1,
            final(self).cpu_interface.ctlr == old(self).cpu_interface.ctlr,
            final(self).cpu_interface.active_stack == old(self).cpu_interface.active_stack,
    {
        if sgi_id > 15 {
            return ;
        }
        let broadcast = filter == SGI_TARGET_ALL_EXCEPT_SELF;
        let targets: u16 = if filter == SGI_TARGET_SELF {
            1u16
        } else {
            target_list
        };
        let word = encode_routing_word(sgi_id, broadcast, targets);
        self.cpu_interface.sgi_requests.push(SgiRequest { routing: word, affinity: 0 });
        if !broadcast && (targets & 1) != 0 {
            self.redistributor.set_sgi_pending(sgi_id);
        }
    }

    /// Send SGI `sgi_id` to the single core `cpu_id` of the local
    /// cluster; core ids above 15 are rejected as no-ops.
    pub fn send_sgi_to_cpu(&mut self, sgi_id: u8, cpu_id: u8)
        requires
            old(self).wf(),
            old(self).cpu_interface.sysreg_access_enabled(),
        ensures
            final(self).wf(),
            cpu_id > 15 ==> *final(self) == *old(self),
            sgi_id > 15 ==> *final(self) == *old(self),
            cpu_id <= 15 && sgi_id <= 15 ==> final(self).cpu_interface.sgi_requests@ == old(self).cpu_interface.sgi_requests@.push(
                (SgiRequest {
                    routing: sgi_routing_word(sgi_id, false, (1u16 << cpu_id)),
                    affinity: 0,
                }),
            ),
            cpu_id == 0 && sgi_id <= 15 ==> final(self).redistributor.interrupt_pending(
                sgi_id as u32,
            ),
            1 <= cpu_id <= 15 && sgi_id <= 15 ==> final(self).redistributor.ispendr0 == old(self).redistributor.ispendr0,
            final(self).distributor == old(self).distributor,
            final(self).cpu_interface.active_stack == old(self).cpu_interface.active_stack,
    {
        if cpu_id > 15 {
            return ;
        }
        let target_mask: u16 = 1u16 << cpu_id;
        proof {
            lemma_single_target_bit(cpu_id as u16);
            lemma_filter_constants();
        }
        self.send_sgi(sgi_id, target_mask, SGI_TARGET_LIST);
    }

    /// Send SGI `sgi_id` to every other core of the cluster: the routing
    /// word carries the routing-mode bit and receivers ignore its target
    /// list; the issuing core itself observes nothing.
    pub fn send_sgi_to_all_except_self(&mut self, sgi_id: u8)
        requires
            old(self).wf(),
            old(self).cpu_interface.sysreg_access_enabled(),
        ensures
            final(self).wf(),
            sgi_id > 15 ==> *final(self) == *old(self),
            sgi_id <= 15 ==> final(self).cpu_interface.sgi_requests@ == old(self).cpu_interface.sgi_requests@.push(
                (SgiRequest { routing: sgi_routing_word(sgi_id, true, 0), affinity: 0 }),
            ),
            final(self).redistributor == old(self).redistributor,
            final(self).distributor == old(self).distributor,
            final(self).cpu_interface.active_stack == old(self).cpu_interface.active_stack,
    {
        proof {
            lemma_filter_constants();
        }
        self.send_sgi(sgi_id, 0, SGI_TARGET_ALL_EXCEPT_SELF);
    }

    /// Send SGI `sgi_id` to the issuing core alone: target-list routing
    /// naming only this core, which then observes the SGI pending in its
    /// own redistributor.
    pub fn send_sgi_to_self(&mut self, sgi_id: u8)
        requires
            old(self).wf(),
            old(self).cpu_interface.sysreg_access_enabled(),
        ensures
            final(self).wf(),
            sgi_id > 15 ==> *final(self) == *old(self),
            sgi_id <= 15 ==> final(self).cpu_interface.sgi_requests@ == old(self).cpu_interface.sgi_requests@.push(
                (SgiRequest { routing: sgi_routing_word(sgi_id, false, 1), affinity: 0 }),
            ),
            sgi_id <= 15 ==> final(self).redistributor.interrupt_pending(sgi_id as u32),
            sgi_id <= 15 ==> final(self).redistributor.ispendr0 == with_bit_set(
                old(self).redistributor.ispendr0,
                sgi_id as u32,
            ),
            final(self).distributor == old(self).distributor,
            final(self).cpu_interface.active_stack == old(self).cpu_interface.active_stack,
    {
        proof {
            lemma_filter_constants();
            assert(1u16 & 1 != 0) by (bit_vector);
        }
        self.send_sgi(sgi_id, 1, SGI_TARGET_LIST);
    }
}

/// Bit 1 of the combined group-enable control value is set: enabling
/// both groups turns group-1 forwarding on.
proof fn lemma_grp1_bit()
    by (bit_vector)
    ensures
        (GICD_CTLR_ENABLE_GRP0 | GICD_CTLR_ENABLE_GRP1) & (1u32 << 1) != 0,
{
}

/// Initialize the GIC: the full distributor, redistributor and CPU
/// interface bring-up in the fixed order.
pub fn gic_init(gic: &mut Gic)
    requires
        old(gic).wf(),
    ensures
        final(gic).wf(),
        final(gic).distributor.ctlr == (GICD_CTLR_ENABLE_GRP0 | GICD_CTLR_ENABLE_GRP1),
        final(gic).distributor.enabled(),
        final(gic).distributor.typer == old(gic).distributor.typer,
        final(gic).redistributor.awake(),
        final(gic).delivery_on(),
        final(gic).cpu_interface.pmr == 0xFF,
        final(gic).cpu_interface.eoi_mode() == 0,
        forall|id: u32| id < 16 ==> final(gic).redistributor.sgi_enabled(id),
        forall|id: u32|
            id < 16 ==> final(gic).redistributor.priority_of(id)
                == crate::distributor::DEFAULT_SGI_PRIORITY,
        final(gic).redistributor.sgi_enabled(crate::redistributor::TIMER_INTERRUPT_ID),
{
    gic.init();
}

/// Send an SGI to a specific core of the local cluster.
pub fn send_sgi(gic: &mut Gic, sgi_id: u8, cpu_id: u8)
    requires
        old(gic).wf(),
        old(gic).cpu_interface.sysreg_access_enabled(),
    ensures
        final(gic).wf(),
        cpu_id > 15 ==> *final(gic) == *old(gic),
        sgi_id > 15 ==> *final(gic) == *old(gic),
        cpu_id <= 15 && sgi_id <= 15 ==> final(gic).cpu_interface.sgi_requests@ == old(gic).cpu_interface.sgi_requests@.push(
            (SgiRequest { routing: sgi_routing_word(sgi_id, false, (1u16 << cpu_id)), affinity: 0 }),
        ),
        cpu_id == 0 && sgi_id <= 15 ==> final(gic).redistributor.interrupt_pending(sgi_id as u32),
        1 <= cpu_id <= 15 && sgi_id <= 15 ==> final(gic).redistributor.ispendr0 == old(gic).redistributor.ispendr0,
{
    gic.send_sgi_to_cpu(sgi_id, cpu_id);
}

/// Send an SGI to all cores of the cluster except the issuing one.
pub fn send_sgi_broadcast(gic: &mut Gic, sgi_id: u8)
    requires
        old(gic).wf(),
        old(gic).cpu_interface.sysreg_access_enabled(),
    ensures
        final(gic).wf(),
        sgi_id > 15 ==> *final(gic) == *old(gic),
        sgi_id <= 15 ==> final(gic).cpu_interface.sgi_requests@ == old(gic).cpu_interface.sgi_requests@.push(
            (SgiRequest { routing: sgi_routing_word(sgi_id, true, 0), affinity: 0 }),
        ),
        final(gic).redistributor == old(gic).redistributor,
{
    gic.send_sgi_to_all_except_self(sgi_id);
}

/// Send an SGI to the issuing core alone.
pub fn send_sgi_to_self(gic: &mut Gic, sgi_id: u8)
    requires
        old(gic).wf(),
        old(gic).cpu_interface.sysreg_access_enabled(),
    ensures
        final(gic).wf(),
        sgi_id > 15 ==> *final(gic) == *old(gic),
        sgi_id <= 15 ==> final(gic).redistributor.interrupt_pending(sgi_id as u32),
        sgi_id <= 15 ==> final(gic).cpu_interface.sgi_requests@ == old(gic).cpu_interface.sgi_requests@.push(
            (SgiRequest { routing: sgi_routing_word(sgi_id, false, 1), affinity: 0 }),
        ),
{
    gic.send_sgi_to_self(sgi_id);
}

/// Acknowledging a pending interrupt takes it from pending to active
/// and raises the running priority to the interrupt's priority; the
/// matching end-of-interrupt restores the running priority to its
/// pre-acknowledge value and, in EOI mode 0, returns the interrupt to
/// inactive (for a source that does not re-assert).
pub proof fn lemma_ack_eoi_round_trip(
    pending: u32,
    active: u32,
    stack: Seq<ActiveInterrupt>,
    id: u32,
    priority: u8,
)
    requires
        id < 32,
    ensures
        ({
            let pending_after_ack = with_bit_clear(pending, id);
            let active_after_ack = with_bit_set(active, id);
            let stack_after_ack = stack.push((ActiveInterrupt { id, priority }));
            let active_after_eoi = with_bit_clear(active_after_ack, id);
            &&& !bit_set(pending_after_ack, id)
            &&& bit_set(active_after_ack, id)
            &&& stack_running_priority(stack_after_ack) == priority as u32
            &&& stack_running_priority(stack_after_ack.drop_last()) == stack_running_priority(
                stack,
            )
            &&& !bit_set(active_after_eoi, id)
            &&& !bit_set(pending_after_ack, id) && !bit_set(active_after_eoi, id)
        }),
{
    lemma_bit_update(pending, id, id);
    lemma_bit_update(active, id, id);
    lemma_bit_update(with_bit_set(active, id), id, id);
    assert(stack.push((ActiveInterrupt { id, priority })).drop_last() =~= stack);
}

} // verus!
