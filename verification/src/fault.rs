//! What the processor says when it traps: which interrupt nobody handles,
//! and what it stacked when it faulted.

use vstd::prelude::*;

verus! {

/// The bits of the interrupt program status register that number the active
/// interrupt.
pub const IPSR_MASK: u32 = 0x1ff;

/// How many words the processor stacks when it takes an exception.
pub const FRAME_WORDS: usize = 8;

/// The number of the interrupt that is active, from the interrupt program
/// status register `ipsr`: its low nine bits.
pub fn unhandled_interrupt(ipsr: u32) -> (interrupt_number: u32)
    ensures
        interrupt_number == ipsr & IPSR_MASK,
        interrupt_number <= IPSR_MASK,
{
    let interrupt_number: u32 = ipsr & IPSR_MASK;
    assert(ipsr & 0x1ff <= 0x1ff) by (bit_vector);
    interrupt_number
}

/// The state of the processor at a hard fault.
#[derive(Clone, Copy, Debug, PartialEq, Eq, Structural)]
pub struct HardFault {
    /// Whether the fault hit the kernel, which runs on the main stack, and
    /// not a process.
    pub kernel_stack: bool,
    pub r0: u32,
    pub r1: u32,
    pub r2: u32,
    pub r3: u32,
    pub r12: u32,
    pub lr: u32,
    pub pc: u32,
    pub prs: u32,
    /// Where the stacked registers lie.
    pub sp: u32,
    /// The system handler control and state register.
    pub shcsr: u32,
    /// The configurable fault status register.
    pub cfsr: u32,
    /// The hard fault status register.
    pub hfsr: u32,
}

impl HardFault {
    /// Who was running, in a word.
    pub open spec fn spec_mode_str(self) -> Seq<char> {
        if self.kernel_stack {
            "Kernel"@
        } else {
            "Process"@
        }
    }

    /// Who was running, in a word: `Kernel` or `Process`.
    pub fn mode_str(&self) -> (s: &'static str)
        ensures
            s@ == self.spec_mode_str(),
    {
        if self.kernel_stack {
            "Kernel"
        } else {
            "Process"
        }
    }
}

/// Reads a hard fault off the frame that the processor stacked at
/// `faulting_stack`: `r0` to `r3`, `r12`, the link register, the program
/// counter and the program status register, in that order. `kernel_stack`
/// says on which of the two stacks the frame lies.
pub fn hard_fault_handler(
    kernel_stack: bool,
    faulting_stack: u32,
    frame: &[u32; 8],
    shcsr: u32,
    cfsr: u32,
    hfsr: u32,
) -> (fault: HardFault)
    ensures
        fault == (HardFault {
            kernel_stack,
            r0: frame@[0],
            r1: frame@[1],
            r2: frame@[2],
            r3: frame@[3],
            r12: frame@[4],
            lr: frame@[5],
            pc: frame@[6],
            prs: frame@[7],
            sp: faulting_stack,
            shcsr,
            cfsr,
            hfsr,
        }),
{
    let stacked_r0: u32 = frame[0];
    let stacked_r1: u32 = frame[1];
    let stacked_r2: u32 = frame[2];
    let stacked_r3: u32 = frame[3];
    let stacked_r12: u32 = frame[4];
    let stacked_lr: u32 = frame[5];
    let stacked_pc: u32 = frame[6];
    let stacked_prs: u32 = frame[7];
    HardFault {
        kernel_stack,
        r0: stacked_r0,
        r1: stacked_r1,
        r2: stacked_r2,
        r3: stacked_r3,
        r12: stacked_r12,
        lr: stacked_lr,
        pc: stacked_pc,
        prs: stacked_prs,
        sp: faulting_stack,
        shcsr,
        cfsr,
        hfsr,
    }
}

} // verus!
