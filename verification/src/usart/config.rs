//! How an engine is set up and what it can be used as.

use vstd::prelude::*;
use crate::nvic::NvicIdx;
use crate::pm::PBAClock;

verus! {

/// Which of the four USARTs.
#[derive(Clone, Copy, Debug, PartialEq, Eq, Structural)]
pub enum Location {
    USART0,
    USART1,
    USART2,
    USART3,
}

impl Location {
    /// The USART's position among the four.
    pub open spec fn spec_index(self) -> usize {
        match self {
            Location::USART0 => 0,
            Location::USART1 => 1,
            Location::USART2 => 2,
            Location::USART3 => 3,
        }
    }

    /// The USART's position among the four.
    #[verifier::when_used_as_spec(spec_index)]
    pub fn index(self) -> (i: usize)
        ensures
            i == self.spec_index(),
            i < 4,
    {
        match self {
            Location::USART0 => 0,
            Location::USART1 => 1,
            Location::USART2 => 2,
            Location::USART3 => 3,
        }
    }
}

impl Location {
    /// The clock of this USART on peripheral bus A.
    pub open spec fn spec_clock(self) -> PBAClock {
        match self {
            Location::USART0 => PBAClock::USART0,
            Location::USART1 => PBAClock::USART1,
            Location::USART2 => PBAClock::USART2,
            Location::USART3 => PBAClock::USART3,
        }
    }

    /// The clock of this USART on peripheral bus A.
    #[verifier::when_used_as_spec(spec_clock)]
    pub fn clock(self) -> (c: PBAClock)
        ensures
            c == self.spec_clock(),
    {
        match self {
            Location::USART0 => PBAClock::USART0,
            Location::USART1 => PBAClock::USART1,
            Location::USART2 => PBAClock::USART2,
            Location::USART3 => PBAClock::USART3,
        }
    }

    /// The interrupt line that this USART raises.
    pub open spec fn spec_interrupt(self) -> NvicIdx {
        match self {
            Location::USART0 => NvicIdx::USART0,
            Location::USART1 => NvicIdx::USART1,
            Location::USART2 => NvicIdx::USART2,
            Location::USART3 => NvicIdx::USART3,
        }
    }

    /// The interrupt line that this USART raises.
    #[verifier::when_used_as_spec(spec_interrupt)]
    pub fn interrupt(self) -> (line: NvicIdx)
        ensures
            line == self.spec_interrupt(),
            line.spec_number() == 65 + self.spec_index(),
    {
        match self {
            Location::USART0 => NvicIdx::USART0,
            Location::USART1 => NvicIdx::USART1,
            Location::USART2 => NvicIdx::USART2,
            Location::USART3 => NvicIdx::USART3,
        }
    }
}

/// How the parity bit of a character is made.
#[derive(Clone, Copy, Debug, PartialEq, Eq, Structural)]
pub enum Parity {
    Even,
    Odd,
    ForceZero,
    ForceOne,
    NoParity,
    Multidrop,
}

impl Parity {
    /// The value of the parity field of the mode register.
    pub open spec fn spec_code(self) -> u32 {
        match self {
            Parity::Even => 0,
            Parity::Odd => 1,
            Parity::ForceZero => 2,
            Parity::ForceOne => 3,
            Parity::NoParity => 4,
            Parity::Multidrop => 6,
        }
    }

    /// The value of the parity field of the mode register.
    #[verifier::when_used_as_spec(spec_code)]
    pub fn code(self) -> (c: u32)
        ensures
            c == self.spec_code(),
            c < 8,
    {
        match self {
            Parity::Even => 0,
            Parity::Odd => 1,
            Parity::ForceZero => 2,
            Parity::ForceOne => 3,
            Parity::NoParity => 4,
            Parity::Multidrop => 6,
        }
    }
}

/// How a UART handshakes.
#[derive(Clone, Copy, Debug, PartialEq, Eq, Structural)]
pub enum Mode {
    Normal,
    FlowControl,
}

impl Mode {
    /// The value of the mode field of the mode register.
    pub open spec fn spec_code(self) -> u32 {
        match self {
            Mode::Normal => 0,
            Mode::FlowControl => 2,
        }
    }

    /// The value of the mode field of the mode register.
    #[verifier::when_used_as_spec(spec_code)]
    pub fn code(self) -> (c: u32)
        ensures
            c == self.spec_code(),
            c < 16,
    {
        match self {
            Mode::Normal => 0,
            Mode::FlowControl => 2,
        }
    }
}

/// The level of the SPI clock between frames.
#[derive(Clone, Copy, Debug, PartialEq, Eq, Structural)]
pub enum ClockPolarity {
    IdleLow,
    IdleHigh,
}

/// The edge of the SPI clock on which data is sampled.
#[derive(Clone, Copy, Debug, PartialEq, Eq, Structural)]
pub enum ClockPhase {
    SampleLeading,
    SampleTrailing,
}

/// How a UART is to be set up.
#[derive(Clone, Copy, Debug, PartialEq, Eq, Structural)]
pub struct USARTParams {
    pub baud_rate: u32,
    pub data_bits: u8,
    pub parity: Parity,
    pub mode: Mode,
}

/// What the engine is used as.
#[derive(Clone, Copy, Debug, PartialEq, Eq, Structural)]
pub enum UsartMode {
    Uart,
    Spi,
    Unused,
}

/// The kind of client that is registered with the engine.
#[derive(Clone, Copy, Debug, PartialEq, Eq, Structural)]
pub enum UsartClient {
    /// A client of the UART: it hears of received bytes and of buffers sent.
    Uart,
    /// A client of the SPI master: it hears of exchanged frames.
    SpiMaster,
}

/// Why the engine did not do what it was asked.
#[derive(Clone, Copy, Debug, PartialEq, Eq, Structural)]
pub enum UsartError {
    /// The baud rate is zero, or so high that eight times it cannot be
    /// counted.
    BaudRate,
    /// A character of no bits was asked for.
    DataBits,
    /// The engine is not in the mode that the request belongs to.
    WrongMode,
    /// No DMA channel is attached.
    NoDma,
    /// A transfer is outstanding already.
    Busy,
    /// The length is zero or more than a buffer holds.
    InvalidLength,
}

} // verus!
