//! Interrupt lines of the nested vectored interrupt controller that the DMA
//! channels and the USARTs are wired to.

use vstd::prelude::*;

verus! {

/// An interrupt line.
#[derive(Clone, Copy, Debug, PartialEq, Eq, Structural)]
pub enum NvicIdx {
    PDCA0,
    PDCA1,
    PDCA2,
    PDCA3,
    PDCA4,
    PDCA5,
    PDCA6,
    PDCA7,
    PDCA8,
    PDCA9,
    PDCA10,
    PDCA11,
    PDCA12,
    PDCA13,
    PDCA14,
    PDCA15,
    USART0,
    USART1,
    USART2,
    USART3,
}

impl NvicIdx {
    /// The position of the line in the peripheral vector table.
    pub open spec fn spec_number(self) -> u32 {
        match self {
            NvicIdx::PDCA0 => 1,
            NvicIdx::PDCA1 => 2,
            NvicIdx::PDCA2 => 3,
            NvicIdx::PDCA3 => 4,
            NvicIdx::PDCA4 => 5,
            NvicIdx::PDCA5 => 6,
            NvicIdx::PDCA6 => 7,
            NvicIdx::PDCA7 => 8,
            NvicIdx::PDCA8 => 9,
            NvicIdx::PDCA9 => 10,
            NvicIdx::PDCA10 => 11,
            NvicIdx::PDCA11 => 12,
            NvicIdx::PDCA12 => 13,
            NvicIdx::PDCA13 => 14,
            NvicIdx::PDCA14 => 15,
            NvicIdx::PDCA15 => 16,
            NvicIdx::USART0 => 65,
            NvicIdx::USART1 => 66,
            NvicIdx::USART2 => 67,
            NvicIdx::USART3 => 68,
        }
    }

    /// The position of the line in the peripheral vector table: the DMA
    /// channels follow the flash controller, the USARTs follow the two-wire
    /// interfaces.
    #[verifier::when_used_as_spec(spec_number)]
    pub fn number(self) -> (n: u32)
        ensures
            n == self.spec_number(),
            n < 80,
    {
        match self {
            NvicIdx::PDCA0 => 1,
            NvicIdx::PDCA1 => 2,
            NvicIdx::PDCA2 => 3,
            NvicIdx::PDCA3 => 4,
            NvicIdx::PDCA4 => 5,
            NvicIdx::PDCA5 => 6,
            NvicIdx::PDCA6 => 7,
            NvicIdx::PDCA7 => 8,
            NvicIdx::PDCA8 => 9,
            NvicIdx::PDCA9 => 10,
            NvicIdx::PDCA10 => 11,
            NvicIdx::PDCA11 => 12,
            NvicIdx::PDCA12 => 13,
            NvicIdx::PDCA13 => 14,
            NvicIdx::PDCA14 => 15,
            NvicIdx::PDCA15 => 16,
            NvicIdx::USART0 => 65,
            NvicIdx::USART1 => 66,
            NvicIdx::USART2 => 67,
            NvicIdx::USART3 => 68,
        }
    }
}

} // verus!
