//! The GIC distributor register block (GICD).
//!
//! The distributor holds the global group-enable switch, the shared
//! interrupt configuration tables, and the read-only type register that
//! reports how many 32-line interrupt banks the implementation provides.
//! One exclusively-owned `Distributor` value stands for the single
//! physical block; all mutation goes through its methods, so the contracts
//! below describe every change the register contents can undergo.

use vstd::prelude::*;
use crate::bits::lane;
use crate::bits::lemma_or_all_ones;
use crate::bits::lemma_or_mask;
use crate::bits::lemma_uniform_lanes;
use crate::bits::uniform_priority_word;

verus! {

/// Global enable bit for group-0 interrupt forwarding in `ctlr`.
pub const GICD_CTLR_ENABLE_GRP0: u32 = 1 << 0;

/// Global enable bit for group-1 interrupt forwarding in `ctlr`.
pub const GICD_CTLR_ENABLE_GRP1: u32 = 1 << 1;

/// Default priority written across the SGI priority table at bring-up
/// (higher numeric value means lower priority).
pub const DEFAULT_SGI_PRIORITY: u8 = 0xA0;

/// Number of 32-bit registers in the SGI slice of the priority table:
/// four priority bytes per register cover the sixteen SGI ids.
pub const SGI_PRIORITY_REGS: usize = 4;

/// The distributor register block.
///
/// Fields mirror the memory-mapped registers the driver touches; the
/// priority table holds one 32-bit register per four interrupt ids, id
/// `i` occupying byte lane `i % 4` of register `i / 4`.
pub struct Distributor {
    /// GICD_CTLR: global group-enable switch.
    pub ctlr: u32,
    /// GICD_TYPER: read-only configuration report; bits [4:0] give the
    /// number of implemented 32-line banks minus one.
    pub typer: u32,
    /// GICD_IGROUPR0: group assignment for interrupt ids 0..=31
    /// (bit set selects group 1).
    pub igroupr0: u32,
    /// GICD_ISENABLER0: enable bits for interrupt ids 0..=31.
    pub isenabler0: u32,
    /// GICD_IPRIORITYR0..3: the SGI slice of the priority table.
    pub ipriorityr: Vec<u32>,
}

/// A control register holding zero does not satisfy the enabled test.
proof fn lemma_ctlr_zero_disabled()
    by (bit_vector)
    ensures
        0u32 & (GICD_CTLR_ENABLE_GRP0 | GICD_CTLR_ENABLE_GRP1) != (GICD_CTLR_ENABLE_GRP0
            | GICD_CTLR_ENABLE_GRP1),
{
}

impl Distributor {
    /// The priority table holds exactly its four SGI registers.
    pub open spec fn wf(self) -> bool {
        self.ipriorityr.len() == SGI_PRIORITY_REGS
    }

    /// Both global group-enable bits are set.
    pub open spec fn enabled(self) -> bool {
        self.ctlr & (GICD_CTLR_ENABLE_GRP0 | GICD_CTLR_ENABLE_GRP1)
            == (GICD_CTLR_ENABLE_GRP0 | GICD_CTLR_ENABLE_GRP1)
    }

    /// Priority byte of SGI `id` as the table currently holds it.
    pub open spec fn sgi_priority(self, id: u32) -> u8
        recommends
            self.wf(),
            id < 16,
    {
        lane(self.ipriorityr[(id / 4) as int], id % 4)
    }

    /// The reset state of the block: everything disabled and zeroed, with
    /// the implementation-defined type register reporting `typer`.
    pub fn power_on(typer: u32) -> (d: Distributor)
        ensures
            d.wf(),
            d.ctlr == 0,
            d.typer == typer,
            d.igroupr0 == 0,
            d.isenabler0 == 0,
            forall|k: int| 0 <= k < SGI_PRIORITY_REGS ==> d.ipriorityr[k] == 0,
    {
        let mut prios: Vec<u32> = Vec::new();
        prios.push(0);
        prios.push(0);
        prios.push(0);
        prios.push(0);
        Distributor { ctlr: 0, typer, igroupr0: 0, isenabler0: 0, ipriorityr: prios }
    }

    /// Write the shared configuration tables while forwarding is off.
    ///
    /// Disables the distributor, assigns every SGI to group 1, and writes
    /// the default priority across the SGI priority table.  The block is
    /// left disabled: the global enable is the last step of the whole
    /// bring-up sequence and is performed separately, once the
    /// redistributor wake handshake has completed.
    pub fn configure(&mut self)
        requires
            old(self).wf(),
        ensures
            final(self).wf(),
            final(self).ctlr == 0,
            !final(self).enabled(),
            final(self).typer == old(self).typer,
            final(self).igroupr0 == 0xFFFF_FFFFu32,
            final(self).isenabler0 == old(self).isenabler0,
            forall|k: int|
                0 <= k < SGI_PRIORITY_REGS ==> final(self).ipriorityr[k] == uniform_priority_word(
                    DEFAULT_SGI_PRIORITY,
                ),
            forall|id: u32| id < 16 ==> final(self).sgi_priority(id) == DEFAULT_SGI_PRIORITY,
    {
        // Forwarding must be off while the tables are rewritten.
        self.ctlr = 0;
        // All SGIs delivered as group-1 interrupts.
        self.igroupr0 = self.igroupr0 | 0xFFFF_FFFFu32;
        proof {
            lemma_or_all_ones(old(self).igroupr0);
            lemma_ctlr_zero_disabled();
        }
        let word: u32 = ((DEFAULT_SGI_PRIORITY as u32) << 24) | ((DEFAULT_SGI_PRIORITY as u32)
            << 16) | ((DEFAULT_SGI_PRIORITY as u32) << 8) | (DEFAULT_SGI_PRIORITY as u32);
        let mut k: usize = 0;
        while k < SGI_PRIORITY_REGS
            invariant
                self.wf(),
                k <= SGI_PRIORITY_REGS,
                word == uniform_priority_word(DEFAULT_SGI_PRIORITY),
                self.ctlr == 0,
                self.typer == old(self).typer,
                self.igroupr0 == 0xFFFF_FFFFu32,
                self.isenabler0 == old(self).isenabler0,
                forall|j: int| 0 <= j < k ==> self.ipriorityr[j] == word,
            decreases SGI_PRIORITY_REGS - k,
        {
            self.ipriorityr[k] = word;
            k = k + 1;
        }
        assert forall|id: u32| id < 16 implies self.sgi_priority(id) == DEFAULT_SGI_PRIORITY by {
            lemma_uniform_lanes(DEFAULT_SGI_PRIORITY, id % 4);
        }
    }

    /// Turn on global forwarding for both interrupt groups.
    pub fn enable(&mut self)
        requires
            old(self).wf(),
        ensures
            final(self).wf(),
            final(self).ctlr == (GICD_CTLR_ENABLE_GRP0 | GICD_CTLR_ENABLE_GRP1),
            final(self).enabled(),
            final(self).typer == old(self).typer,
            final(self).igroupr0 == old(self).igroupr0,
            final(self).isenabler0 == old(self).isenabler0,
            final(self).ipriorityr == old(self).ipriorityr,
    {
        self.ctlr = GICD_CTLR_ENABLE_GRP0 | GICD_CTLR_ENABLE_GRP1;
        proof {
            lemma_or_mask(0, GICD_CTLR_ENABLE_GRP0 | GICD_CTLR_ENABLE_GRP1);
        }
    }

    /// Number of implemented interrupt lines: the type register's
    /// bank-count field, plus one, times the 32 lines per bank.
    pub fn interrupt_count(&self) -> (n: u32)
        ensures
            n == ((self.typer & 0x1F) + 1) * 32,
    {
        let t = self.typer;
        let it_lines = t & 0x1F;
        assert(it_lines < 32) by (bit_vector)
            requires
                it_lines == t & 0x1F,
        ;
        (it_lines + 1) * 32
    }
}

} // verus!
