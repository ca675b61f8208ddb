//! The registers of a USART, the bits of them that the engine uses, and what
//! the engine can ask of the hardware.

use vstd::prelude::*;
use crate::nvic::NvicIdx;
use crate::pm::Clock;

verus! {

/// Where the register block of the first USART starts.
pub const BASE_ADDRESS: usize = 0x40024000;

/// The distance in bytes from one USART's register block to the next.
pub const SIZE: usize = 0x4000;

/// The frequency in hertz that the baud rate of a UART is derived from.
pub const UART_CLOCK: u32 = 48000000;

/// The baud rate divisor of an SPI master: a 16 MHz clock for a 2 MHz bus.
pub const SPI_DIVISOR: u32 = 8;

/// Control register: reset the receiver.
pub const CR_RSTRX: u32 = 0x4;

/// Control register: enable the receiver.
pub const CR_RXEN: u32 = 0x10;

/// Control register: disable the receiver.
pub const CR_RXDIS: u32 = 0x20;

/// Control register: enable the transmitter.
pub const CR_TXEN: u32 = 0x40;

/// Control register: disable the transmitter.
pub const CR_TXDIS: u32 = 0x80;

/// Control register: enable receiver and transmitter.
pub const CR_RXEN_TXEN: u32 = 0x50;

/// Control register: disable receiver and transmitter.
pub const CR_RXDIS_TXDIS: u32 = 0xa0;

/// Control register: drive the chip select line low, which selects the slave.
pub const CR_CS_LOW: u32 = 0x40000;

/// Control register: release the chip select line to high.
pub const CR_CS_HIGH: u32 = 0x80000;

/// Interrupt and status registers: a received byte is waiting.
pub const RXRDY: u32 = 0x1;

/// Interrupt and status registers: the transmitter takes a byte.
pub const TXRDY: u32 = 0x2;

/// Mode register: the clock idles high.
pub const MR_CPOL: u32 = 0x10000;

/// Mode register: data is sampled on the leading edge of the clock.
pub const MR_CPHA: u32 = 0x100;

/// Mode register: oversample at eight times the baud rate.
pub const MR_OVER: u32 = 0x80000;

/// Mode register of an SPI master: master mode, eight bits a character, no
/// parity, the engine drives the clock.
pub const MR_SPI_MASTER: u32 = 0x408ce;

/// The transmitter timeguard of a UART: four bit times of idle line after
/// every character.
pub const TIMEGUARD: u32 = 4;

/// The transmitter timeguard of an SPI master: none, the guard is disabled.
pub const TIMEGUARD_DISABLED: u32 = 0;

/// The byte that [`USART::write_byte`] shifts out.
pub const WRITE_BYTE_PROBE: u32 = 0xa;

/// A register of the USART.
#[derive(Clone, Copy, Debug, PartialEq, Eq, Structural)]
pub enum UsartRegister {
    Cr,
    Mr,
    Ier,
    Idr,
    Imr,
    Csr,
    Rhr,
    Thr,
    Brgr,
    Rtor,
    Ttgr,
    Fidi,
    Ner,
    Ifr,
    Man,
    Linmr,
    Linir,
    Linbrr,
    Wpmr,
    Wpsr,
    Version,
}

impl UsartRegister {
    /// The distance in bytes from the start of the register block.
    pub open spec fn spec_offset(self) -> usize {
        match self {
            UsartRegister::Cr => 0x00,
            UsartRegister::Mr => 0x04,
            UsartRegister::Ier => 0x08,
            UsartRegister::Idr => 0x0c,
            UsartRegister::Imr => 0x10,
            UsartRegister::Csr => 0x14,
            UsartRegister::Rhr => 0x18,
            UsartRegister::Thr => 0x1c,
            UsartRegister::Brgr => 0x20,
            UsartRegister::Rtor => 0x24,
            UsartRegister::Ttgr => 0x28,
            UsartRegister::Fidi => 0x40,
            UsartRegister::Ner => 0x44,
            UsartRegister::Ifr => 0x4c,
            UsartRegister::Man => 0x50,
            UsartRegister::Linmr => 0x54,
            UsartRegister::Linir => 0x58,
            UsartRegister::Linbrr => 0x5c,
            UsartRegister::Wpmr => 0x60,
            UsartRegister::Wpsr => 0x64,
            UsartRegister::Version => 0x68,
        }
    }

    /// The distance in bytes from the start of the register block. Five
    /// words after the timeguard and one word after the number of errors are
    /// left out by the hardware.
    #[verifier::when_used_as_spec(spec_offset)]
    pub fn offset(self) -> (o: usize)
        ensures
            o == self.spec_offset(),
            o % 4 == 0,
            o + 4 <= SIZE,
    {
        match self {
            UsartRegister::Cr => 0x00,
            UsartRegister::Mr => 0x04,
            UsartRegister::Ier => 0x08,
            UsartRegister::Idr => 0x0c,
            UsartRegister::Imr => 0x10,
            UsartRegister::Csr => 0x14,
            UsartRegister::Rhr => 0x18,
            UsartRegister::Thr => 0x1c,
            UsartRegister::Brgr => 0x20,
            UsartRegister::Rtor => 0x24,
            UsartRegister::Ttgr => 0x28,
            UsartRegister::Fidi => 0x40,
            UsartRegister::Ner => 0x44,
            UsartRegister::Ifr => 0x4c,
            UsartRegister::Man => 0x50,
            UsartRegister::Linmr => 0x54,
            UsartRegister::Linir => 0x58,
            UsartRegister::Linbrr => 0x5c,
            UsartRegister::Wpmr => 0x60,
            UsartRegister::Wpsr => 0x64,
            UsartRegister::Version => 0x68,
        }
    }
}

/// The registers of one USART, each holding what was last stored to it or
/// latched into it.
#[derive(Clone, Copy, Debug, PartialEq, Eq, Structural)]
pub struct UsartRegisters {
    pub cr: u32,
    pub mr: u32,
    pub ier: u32,
    pub idr: u32,
    pub imr: u32,
    pub csr: u32,
    pub rhr: u32,
    pub thr: u32,
    pub brgr: u32,
    pub rtor: u32,
    pub ttgr: u32,
    pub fidi: u32,
    pub ner: u32,
    pub ifr: u32,
    pub man: u32,
    pub linmr: u32,
    pub linir: u32,
    pub linbrr: u32,
    pub wpmr: u32,
    pub wpsr: u32,
    pub version: u32,
}

impl UsartRegisters {
    /// Every register zero.
    pub open spec fn zeroed() -> UsartRegisters {
        UsartRegisters {
            cr: 0,
            mr: 0,
            ier: 0,
            idr: 0,
            imr: 0,
            csr: 0,
            rhr: 0,
            thr: 0,
            brgr: 0,
            rtor: 0,
            ttgr: 0,
            fidi: 0,
            ner: 0,
            ifr: 0,
            man: 0,
            linmr: 0,
            linir: 0,
            linbrr: 0,
            wpmr: 0,
            wpsr: 0,
            version: 0,
        }
    }

    /// What `register` holds.
    pub open spec fn read(self, register: UsartRegister) -> u32 {
        match register {
            UsartRegister::Cr => self.cr,
            UsartRegister::Mr => self.mr,
            UsartRegister::Ier => self.ier,
            UsartRegister::Idr => self.idr,
            UsartRegister::Imr => self.imr,
            UsartRegister::Csr => self.csr,
            UsartRegister::Rhr => self.rhr,
            UsartRegister::Thr => self.thr,
            UsartRegister::Brgr => self.brgr,
            UsartRegister::Rtor => self.rtor,
            UsartRegister::Ttgr => self.ttgr,
            UsartRegister::Fidi => self.fidi,
            UsartRegister::Ner => self.ner,
            UsartRegister::Ifr => self.ifr,
            UsartRegister::Man => self.man,
            UsartRegister::Linmr => self.linmr,
            UsartRegister::Linir => self.linir,
            UsartRegister::Linbrr => self.linbrr,
            UsartRegister::Wpmr => self.wpmr,
            UsartRegister::Wpsr => self.wpsr,
            UsartRegister::Version => self.version,
        }
    }

    /// The registers with `value` in `register` and all others as they are.
    pub open spec fn write(self, register: UsartRegister, value: u32) -> UsartRegisters {
        match register {
            UsartRegister::Cr => UsartRegisters { cr: value, ..self },
            UsartRegister::Mr => UsartRegisters { mr: value, ..self },
            UsartRegister::Ier => UsartRegisters { ier: value, ..self },
            UsartRegister::Idr => UsartRegisters { idr: value, ..self },
            UsartRegister::Imr => UsartRegisters { imr: value, ..self },
            UsartRegister::Csr => UsartRegisters { csr: value, ..self },
            UsartRegister::Rhr => UsartRegisters { rhr: value, ..self },
            UsartRegister::Thr => UsartRegisters { thr: value, ..self },
            UsartRegister::Brgr => UsartRegisters { brgr: value, ..self },
            UsartRegister::Rtor => UsartRegisters { rtor: value, ..self },
            UsartRegister::Ttgr => UsartRegisters { ttgr: value, ..self },
            UsartRegister::Fidi => UsartRegisters { fidi: value, ..self },
            UsartRegister::Ner => UsartRegisters { ner: value, ..self },
            UsartRegister::Ifr => UsartRegisters { ifr: value, ..self },
            UsartRegister::Man => UsartRegisters { man: value, ..self },
            UsartRegister::Linmr => UsartRegisters { linmr: value, ..self },
            UsartRegister::Linir => UsartRegisters { linir: value, ..self },
            UsartRegister::Linbrr => UsartRegisters { linbrr: value, ..self },
            UsartRegister::Wpmr => UsartRegisters { wpmr: value, ..self },
            UsartRegister::Wpsr => UsartRegisters { wpsr: value, ..self },
            UsartRegister::Version => UsartRegisters { version: value, ..self },
        }
    }

    /// Registers that are all zero.
    pub fn new() -> (r: UsartRegisters)
        ensures
            r == Self::zeroed(),
    {
        UsartRegisters {
            cr: 0,
            mr: 0,
            ier: 0,
            idr: 0,
            imr: 0,
            csr: 0,
            rhr: 0,
            thr: 0,
            brgr: 0,
            rtor: 0,
            ttgr: 0,
            fidi: 0,
            ner: 0,
            ifr: 0,
            man: 0,
            linmr: 0,
            linir: 0,
            linbrr: 0,
            wpmr: 0,
            wpsr: 0,
            version: 0,
        }
    }

    /// What `register` holds.
    pub fn get(&self, register: UsartRegister) -> (value: u32)
        ensures
            value == self.read(register),
    {
        match register {
            UsartRegister::Cr => self.cr,
            UsartRegister::Mr => self.mr,
            UsartRegister::Ier => self.ier,
            UsartRegister::Idr => self.idr,
            UsartRegister::Imr => self.imr,
            UsartRegister::Csr => self.csr,
            UsartRegister::Rhr => self.rhr,
            UsartRegister::Thr => self.thr,
            UsartRegister::Brgr => self.brgr,
            UsartRegister::Rtor => self.rtor,
            UsartRegister::Ttgr => self.ttgr,
            UsartRegister::Fidi => self.fidi,
            UsartRegister::Ner => self.ner,
            UsartRegister::Ifr => self.ifr,
            UsartRegister::Man => self.man,
            UsartRegister::Linmr => self.linmr,
            UsartRegister::Linir => self.linir,
            UsartRegister::Linbrr => self.linbrr,
            UsartRegister::Wpmr => self.wpmr,
            UsartRegister::Wpsr => self.wpsr,
            UsartRegister::Version => self.version,
        }
    }

    /// Puts `value` in `register`.
    pub fn set(&mut self, register: UsartRegister, value: u32)
        ensures
            *final(self) == old(self).write(register, value),
    {
        match register {
            UsartRegister::Cr => self.cr = value,
            UsartRegister::Mr => self.mr = value,
            UsartRegister::Ier => self.ier = value,
            UsartRegister::Idr => self.idr = value,
            UsartRegister::Imr => self.imr = value,
            UsartRegister::Csr => self.csr = value,
            UsartRegister::Rhr => self.rhr = value,
            UsartRegister::Thr => self.thr = value,
            UsartRegister::Brgr => self.brgr = value,
            UsartRegister::Rtor => self.rtor = value,
            UsartRegister::Ttgr => self.ttgr = value,
            UsartRegister::Fidi => self.fidi = value,
            UsartRegister::Ner => self.ner = value,
            UsartRegister::Ifr => self.ifr = value,
            UsartRegister::Man => self.man = value,
            UsartRegister::Linmr => self.linmr = value,
            UsartRegister::Linir => self.linir = value,
            UsartRegister::Linbrr => self.linbrr = value,
            UsartRegister::Wpmr => self.wpmr = value,
            UsartRegister::Wpsr => self.wpsr = value,
            UsartRegister::Version => self.version = value,
        }
    }

    /// A register that was written holds what was written, and the others
    /// hold what they held.
    pub proof fn read_after_write(
        self,
        written: UsartRegister,
        value: u32,
        register: UsartRegister,
    )
        ensures
            self.write(written, value).read(register) == if register == written {
                value
            } else {
                self.read(register)
            },
    {
    }
}

/// Something that the engine asks of the hardware.
#[derive(Clone, Copy, Debug, PartialEq, Eq, Structural)]
pub enum UsartEffect {
    /// Store `value` to `register` of the USART.
    Write { register: UsartRegister, value: u32 },
    /// Let the power manager run `0`.
    EnableClock(Clock),
    /// Unmask the interrupt line `0`.
    EnableInterrupt(NvicIdx),
    /// Mask the interrupt line `0`.
    DisableInterrupt(NvicIdx),
}

} // verus!
