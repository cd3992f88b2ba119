//! The per-core CPU interface, accessed through coprocessor registers.
//!
//! The CPU interface presents pending interrupts to its core: it gates
//! delivery through a system-register access enable, a priority mask and
//! a group enable, and tracks the priorities of the interrupts the core
//! is currently servicing.  The running priority is the priority of the
//! most recently acknowledged, not yet completed interrupt; while one is
//! in service, only strictly higher-priority (numerically lower)
//! interrupts are signalled.  Acknowledged interrupts nest, so the
//! in-service priorities form a stack that end-of-interrupt unwinds.

use vstd::prelude::*;
use crate::bits::bit_set;
use crate::sgi::SgiRequest;

verus! {

/// Running priority reported while no interrupt is being serviced.
pub const IDLE_PRIORITY: u32 = 0xFF;

/// One acknowledged, not yet completed interrupt.
#[derive(Clone, Copy, Debug, PartialEq, Eq, Structural)]
pub struct ActiveInterrupt {
    /// The acknowledged interrupt id.
    pub id: u32,
    /// The priority it was acknowledged at.
    pub priority: u8,
}

/// Running priority implied by a stack of in-service interrupts: the
/// priority of the most recent acknowledge, or the idle value when the
/// stack is empty.
pub open spec fn stack_running_priority(stack: Seq<ActiveInterrupt>) -> u32 {
    if stack.len() == 0 {
        IDLE_PRIORITY
    } else {
        stack.last().priority as u32
    }
}

/// The CPU interface register state of one core.
pub struct CpuInterface {
    /// ICC_SRE: system-register access enable (bit 0).
    pub sre: u32,
    /// ICC_PMR: priority mask; interrupts at or above this numeric
    /// priority value are not signalled to the core.
    pub pmr: u32,
    /// ICC_IGRPEN1: group-1 delivery enable for this core (bit 0).
    pub igrpen1: u32,
    /// ICC_CTLR: control register; bit 1 selects the end-of-interrupt
    /// mode (0: one EOI write drops priority and deactivates; 1: the
    /// two steps are split and deactivation is a separate write).
    pub ctlr: u32,
    /// The in-service interrupts, most recent acknowledge last.
    pub active_stack: Vec<ActiveInterrupt>,
    /// The SGI routing words this core has issued, oldest first.
    pub sgi_requests: Vec<SgiRequest>,
}

impl CpuInterface {
    /// Every in-service entry names a private interrupt id.
    pub open spec fn wf(self) -> bool {
        forall|i: int| 0 <= i < self.active_stack.len() ==> self.active_stack[i].id < 32
    }

    /// System-register access to the interrupt interface is enabled.
    pub open spec fn sysreg_access_enabled(self) -> bool {
        bit_set(self.sre, 0)
    }

    /// Group-1 delivery to this core is enabled.
    pub open spec fn group1_enabled(self) -> bool {
        bit_set(self.igrpen1, 0)
    }

    /// The configured end-of-interrupt mode.
    pub open spec fn eoi_mode(self) -> u32 {
        (self.ctlr >> 1) & 1
    }

    /// The running priority the interface currently reports.
    pub open spec fn running_priority_spec(self) -> u32 {
        stack_running_priority(self.active_stack@)
    }

    /// The reset state: all delivery gates closed, nothing in service.
    pub fn power_on() -> (c: CpuInterface)
        ensures
            c.wf(),
            c.sre == 0,
            c.pmr == 0,
            c.igrpen1 == 0,
            c.ctlr == 0,
            c.active_stack@ == Seq::<ActiveInterrupt>::empty(),
            c.sgi_requests@ == Seq::<SgiRequest>::empty(),
    {
        CpuInterface {
            sre: 0,
            pmr: 0,
            igrpen1: 0,
            ctlr: 0,
            active_stack: Vec::new(),
            sgi_requests: Vec::new(),
        }
    }

    /// Bring the interface up, in order: enable system-register access,
    /// open the priority mask fully so no priority filtering occurs,
    /// enable group-1 delivery to this core, and select end-of-interrupt
    /// mode 0.  On hardware each of these writes is followed by a
    /// synchronization barrier before dependent instructions; the model's
    /// sequential transitions reflect the post-barrier state.
    pub fn enable(&mut self)
        ensures
            final(self).sre == 0b111u32,
            final(self).sysreg_access_enabled(),
            final(self).pmr == 0xFF,
            final(self).igrpen1 == 1,
            final(self).group1_enabled(),
            final(self).ctlr == 0,
            final(self).eoi_mode() == 0,
            final(self).active_stack == old(self).active_stack,
            final(self).sgi_requests == old(self).sgi_requests,
            final(self).wf() == old(self).wf(),
    {
        self.sre = 0b111;
        self.pmr = 0xFF;
        self.igrpen1 = 1;
        self.ctlr = 0;
        proof {
            lemma_enable_bits();
        }
    }

    /// The running priority register: priority of the most recently
    /// acknowledged in-service interrupt, or the idle value.
    pub fn running_priority(&self) -> (rpr: u32)
        ensures
            rpr == self.running_priority_spec(),
    {
        if self.active_stack.len() == 0 {
            IDLE_PRIORITY
        } else {
            self.active_stack[self.active_stack.len() - 1].priority as u32
        }
    }

    /// Write the interface control register (selects the EOI mode).
    pub fn write_ctlr(&mut self, value: u32)
        ensures
            final(self).ctlr == value,
            final(self).sre == old(self).sre,
            final(self).pmr == old(self).pmr,
            final(self).igrpen1 == old(self).igrpen1,
            final(self).active_stack == old(self).active_stack,
            final(self).sgi_requests == old(self).sgi_requests,
            final(self).wf() == old(self).wf(),
    {
        self.ctlr = value;
    }
}

/// Write the system-register-enable register of a core's interface.
pub fn write_icc_sre(cpu_interface: &mut CpuInterface, value: u32)
    ensures
        final(cpu_interface).sre == value,
        final(cpu_interface).pmr == old(cpu_interface).pmr,
        final(cpu_interface).igrpen1 == old(cpu_interface).igrpen1,
        final(cpu_interface).ctlr == old(cpu_interface).ctlr,
        final(cpu_interface).active_stack == old(cpu_interface).active_stack,
        final(cpu_interface).sgi_requests == old(cpu_interface).sgi_requests,
        final(cpu_interface).wf() == old(cpu_interface).wf(),
{
    cpu_interface.sre = value;
}

/// Read the system-register-enable register of a core's interface.
pub fn read_icc_sre(cpu_interface: &CpuInterface) -> (value: u32)
    ensures
        value == cpu_interface.sre,
{
    cpu_interface.sre
}

/// The bring-up constants pass their own gate tests: bit 0 of the
/// access-enable value and of the group-enable value read back set, and
/// the mode field of a zeroed control register selects EOI mode 0.
proof fn lemma_enable_bits()
    by (bit_vector)
    ensures
        0b111u32 & (1u32 << 0) != 0,
        1u32 & (1u32 << 0) != 0,
        (0u32 >> 1) & 1 == 0,
{
}

} // verus!
