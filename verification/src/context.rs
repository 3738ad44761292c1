//! The saved hardware context of a task: what a context switch stores of
//! the task that stops and loads of the task that goes on.

use memory_addr::{PhysAddr, VirtAddr};
use vstd::prelude::*;

verus! {

/// `memory_addr::VirtAddr`, carried as an opaque value.
#[verifier::external_type_specification]
#[verifier::external_body]
pub struct ExVirtAddr(VirtAddr);

/// `memory_addr::PhysAddr`, carried as an opaque value.
#[verifier::external_type_specification]
#[verifier::external_body]
pub struct ExPhysAddr(PhysAddr);

/// The number that a virtual address of `memory_addr` stands for.
pub uninterp spec fn virt_addr_value(addr: VirtAddr) -> usize;

/// The number that a physical address of `memory_addr` stands for.
pub uninterp spec fn phys_addr_value(addr: PhysAddr) -> usize;

/// `VirtAddr::as_usize`: the number that the address stands for.
pub assume_specification[ VirtAddr::as_usize ](addr: VirtAddr) -> (r: usize)
    ensures
        r == virt_addr_value(addr),
;

/// `PhysAddr::default`: the address zero.
#[verifier::external_body]
fn phys_addr_zero() -> (addr: PhysAddr)
    ensures
        phys_addr_value(addr) == 0,
{
    PhysAddr::default()
}

/// The registers that a context switch carries over: the return address,
/// the stack pointer and the callee-saved registers.
#[derive(Clone, Copy, Debug, PartialEq, Eq, Structural)]
pub struct CalleeSaved {
    pub ra: usize,
    pub sp: usize,
    pub s0: usize,
    pub s1: usize,
    pub s2: usize,
    pub s3: usize,
    pub s4: usize,
    pub s5: usize,
    pub s6: usize,
    pub s7: usize,
    pub s8: usize,
    pub s9: usize,
    pub s10: usize,
    pub s11: usize,
}

/// The saved hardware state of a task: the registers that a switch carries
/// over, the thread pointer, and the root of the page table.
#[derive(Debug)]
pub struct TaskContext {
    /// The return address: where the task goes on.
    pub ra: usize,
    /// The stack pointer.
    pub sp: usize,
    pub s0: usize,
    pub s1: usize,
    pub s2: usize,
    pub s3: usize,
    pub s4: usize,
    pub s5: usize,
    pub s6: usize,
    pub s7: usize,
    pub s8: usize,
    pub s9: usize,
    pub s10: usize,
    pub s11: usize,
    /// The thread pointer, kept for thread-local storage.
    pub tp: usize,
    /// The root of the page table.
    pub satp: PhysAddr,
}

/// What a switch leaves in the context of the task that stops, and in the
/// registers: the context takes the registers, and the registers take what
/// the context of the next task holds.
pub open spec fn switched(cpu: CalleeSaved, next: CalleeSaved) -> (CalleeSaved, CalleeSaved) {
    (cpu, next)
}

/// A switch away from a task and a later switch back to it restore the
/// registers that the task had when it stopped, whatever the other task did
/// to them in between.
pub proof fn lemma_switch_round_trip(cpu: CalleeSaved, other: CalleeSaved, between: CalleeSaved)
    ensures
        ({
            let (stopped, _) = switched(cpu, other);
            let (_, resumed) = switched(between, stopped);
            resumed == cpu
        }),
{
}

impl TaskContext {
    /// The registers that a switch carries over, as the context holds them.
    pub open spec fn saved(&self) -> CalleeSaved {
        CalleeSaved {
            ra: self.ra,
            sp: self.sp,
            s0: self.s0,
            s1: self.s1,
            s2: self.s2,
            s3: self.s3,
            s4: self.s4,
            s5: self.s5,
            s6: self.s6,
            s7: self.s7,
            s8: self.s8,
            s9: self.s9,
            s10: self.s10,
            s11: self.s11,
        }
    }

    /// Whether every register is zero and the page table root is the
    /// address zero.
    pub open spec fn is_blank(&self) -> bool {
        &&& self.saved() == (CalleeSaved {
            ra: 0,
            sp: 0,
            s0: 0,
            s1: 0,
            s2: 0,
            s3: 0,
            s4: 0,
            s5: 0,
            s6: 0,
            s7: 0,
            s8: 0,
            s9: 0,
            s10: 0,
            s11: 0,
        })
        &&& self.tp == 0
        &&& phys_addr_value(self.satp) == 0
    }

    /// A context that holds nothing yet: `init` or a first switch away from
    /// its task fills it.
    pub fn new() -> (r: Self)
        ensures
            r.is_blank(),
    {
        TaskContext {
            ra: 0,
            sp: 0,
            s0: 0,
            s1: 0,
            s2: 0,
            s3: 0,
            s4: 0,
            s5: 0,
            s6: 0,
            s7: 0,
            s8: 0,
            s9: 0,
            s10: 0,
            s11: 0,
            tp: 0,
            satp: phys_addr_zero(),
        }
    }

    /// Records the base of the thread-local storage of the task.
    pub fn set_tls(&mut self, tls_area: VirtAddr)
        ensures
            final(self).tp == virt_addr_value(tls_area),
            final(self).saved() == old(self).saved(),
            final(self).satp == old(self).satp,
    {
        self.tp = tls_area.as_usize();
    }

    /// Sets the context up for a new task: a first switch to it goes on at
    /// `entry` with the stack at `kstack_top`.
    pub fn init(&mut self, entry: usize, kstack_top: VirtAddr)
        ensures
            final(self).saved() == (CalleeSaved {
                ra: entry,
                sp: virt_addr_value(kstack_top),
                ..old(self).saved()
            }),
            final(self).tp == old(self).tp,
            final(self).satp == old(self).satp,
    {
        self.sp = kstack_top.as_usize();
        self.ra = entry;
    }

    /// The registers that a switch carries over, as the context holds them.
    pub fn registers(&self) -> (r: CalleeSaved)
        ensures
            r == self.saved(),
    {
        CalleeSaved {
            ra: self.ra,
            sp: self.sp,
            s0: self.s0,
            s1: self.s1,
            s2: self.s2,
            s3: self.s3,
            s4: self.s4,
            s5: self.s5,
            s6: self.s6,
            s7: self.s7,
            s8: self.s8,
            s9: self.s9,
            s10: self.s10,
            s11: self.s11,
        }
    }

    /// The register transfer of a switch from the task of this context to
    /// the task of `next_ctx`, on the registers `cpu`: the context takes the
    /// registers as they are, and the registers take what `next_ctx` holds.
    /// The thread pointer and the page table root stay as they are.
    pub fn switch_to(&mut self, next_ctx: &Self, cpu: &mut CalleeSaved)
        ensures
            (final(self).saved(), *final(cpu)) == switched(*old(cpu), next_ctx.saved()),
            final(self).tp == old(self).tp,
            final(self).satp == old(self).satp,
    {
        self.ra = cpu.ra;
        self.sp = cpu.sp;
        self.s0 = cpu.s0;
        self.s1 = cpu.s1;
        self.s2 = cpu.s2;
        self.s3 = cpu.s3;
        self.s4 = cpu.s4;
        self.s5 = cpu.s5;
        self.s6 = cpu.s6;
        self.s7 = cpu.s7;
        self.s8 = cpu.s8;
        self.s9 = cpu.s9;
        self.s10 = cpu.s10;
        self.s11 = cpu.s11;
        *cpu = next_ctx.registers();
    }
}

impl Default for TaskContext {
    fn default() -> (r: Self)
        ensures
            r.is_blank(),
    {
        TaskContext::new()
    }
}

} // verus!
