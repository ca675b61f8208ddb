//! The registers of a channel, and what a channel can ask of the hardware.

use vstd::prelude::*;
use crate::nvic::NvicIdx;
use crate::pm::Clock;

verus! {

/// Where the register blocks of the channels start.
pub const DMA_BASE_ADDR: usize = 0x400A2000;

/// The distance in bytes from one channel's register block to the next.
pub const DMA_CHANNEL_SIZE: usize = 0x40;

/// How many channels the controller has.
pub const DMA_CHANNELS: usize = 16;

/// A register of a channel.
#[derive(Clone, Copy, Debug, PartialEq, Eq, Structural)]
pub enum DmaRegister {
    MemoryAddress,
    PeripheralSelect,
    TransferCounter,
    MemoryAddressReload,
    TransferCounterReload,
    Control,
    Mode,
    Status,
    InterruptEnable,
    InterruptDisable,
    InterruptMask,
    InterruptStatus,
    Version,
}

impl DmaRegister {
    /// The distance in bytes from the start of the channel's register block.
    pub open spec fn spec_offset(self) -> usize {
        match self {
            DmaRegister::MemoryAddress => 0x00,
            DmaRegister::PeripheralSelect => 0x04,
            DmaRegister::TransferCounter => 0x08,
            DmaRegister::MemoryAddressReload => 0x0c,
            DmaRegister::TransferCounterReload => 0x10,
            DmaRegister::Control => 0x14,
            DmaRegister::Mode => 0x18,
            DmaRegister::Status => 0x1c,
            DmaRegister::InterruptEnable => 0x20,
            DmaRegister::InterruptDisable => 0x24,
            DmaRegister::InterruptMask => 0x28,
            DmaRegister::InterruptStatus => 0x2c,
            DmaRegister::Version => 0x30,
        }
    }

    /// The distance in bytes from the start of the channel's register block.
    /// The block is thirteen words and three more that are not used.
    #[verifier::when_used_as_spec(spec_offset)]
    pub fn offset(self) -> (o: usize)
        ensures
            o == self.spec_offset(),
            o % 4 == 0,
            o + 4 <= DMA_CHANNEL_SIZE,
    {
        match self {
            DmaRegister::MemoryAddress => 0x00,
            DmaRegister::PeripheralSelect => 0x04,
            DmaRegister::TransferCounter => 0x08,
            DmaRegister::MemoryAddressReload => 0x0c,
            DmaRegister::TransferCounterReload => 0x10,
            DmaRegister::Control => 0x14,
            DmaRegister::Mode => 0x18,
            DmaRegister::Status => 0x1c,
            DmaRegister::InterruptEnable => 0x20,
            DmaRegister::InterruptDisable => 0x24,
            DmaRegister::InterruptMask => 0x28,
            DmaRegister::InterruptStatus => 0x2c,
            DmaRegister::Version => 0x30,
        }
    }
}

/// The registers of one channel, each holding what was last stored to it or
/// latched into it.
#[derive(Clone, Copy, Debug, PartialEq, Eq, Structural)]
pub struct DMARegisters {
    pub memory_address: usize,
    pub peripheral_select: usize,
    pub transfer_counter: usize,
    pub memory_address_reload: usize,
    pub transfer_counter_reload: usize,
    pub control: usize,
    pub mode: usize,
    pub status: usize,
    pub interrupt_enable: usize,
    pub interrupt_disable: usize,
    pub interrupt_mask: usize,
    pub interrupt_status: usize,
    pub version: usize,
}

impl DMARegisters {
    /// Every register zero.
    pub open spec fn zeroed() -> DMARegisters {
        DMARegisters {
            memory_address: 0,
            peripheral_select: 0,
            transfer_counter: 0,
            memory_address_reload: 0,
            transfer_counter_reload: 0,
            control: 0,
            mode: 0,
            status: 0,
            interrupt_enable: 0,
            interrupt_disable: 0,
            interrupt_mask: 0,
            interrupt_status: 0,
            version: 0,
        }
    }

    /// What `register` holds.
    pub open spec fn read(self, register: DmaRegister) -> usize {
        match register {
            DmaRegister::MemoryAddress => self.memory_address,
            DmaRegister::PeripheralSelect => self.peripheral_select,
            DmaRegister::TransferCounter => self.transfer_counter,
            DmaRegister::MemoryAddressReload => self.memory_address_reload,
            DmaRegister::TransferCounterReload => self.transfer_counter_reload,
            DmaRegister::Control => self.control,
            DmaRegister::Mode => self.mode,
            DmaRegister::Status => self.status,
            DmaRegister::InterruptEnable => self.interrupt_enable,
            DmaRegister::InterruptDisable => self.interrupt_disable,
            DmaRegister::InterruptMask => self.interrupt_mask,
            DmaRegister::InterruptStatus => self.interrupt_status,
            DmaRegister::Version => self.version,
        }
    }

    /// The registers with `value` in `register` and all others as they are.
    pub open spec fn write(self, register: DmaRegister, value: usize) -> DMARegisters {
        match register {
            DmaRegister::MemoryAddress => DMARegisters { memory_address: value, ..self },
            DmaRegister::PeripheralSelect => DMARegisters { peripheral_select: value, ..self },
            DmaRegister::TransferCounter => DMARegisters { transfer_counter: value, ..self },
            DmaRegister::MemoryAddressReload => DMARegisters {
                memory_address_reload: value,
                ..self
            },
            DmaRegister::TransferCounterReload => DMARegisters {
                transfer_counter_reload: value,
                ..self
            },
            DmaRegister::Control => DMARegisters { control: value, ..self },
            DmaRegister::Mode => DMARegisters { mode: value, ..self },
            DmaRegister::Status => DMARegisters { status: value, ..self },
            DmaRegister::InterruptEnable => DMARegisters { interrupt_enable: value, ..self },
            DmaRegister::InterruptDisable => DMARegisters { interrupt_disable: value, ..self },
            DmaRegister::InterruptMask => DMARegisters { interrupt_mask: value, ..self },
            DmaRegister::InterruptStatus => DMARegisters { interrupt_status: value, ..self },
            DmaRegister::Version => DMARegisters { version: value, ..self },
        }
    }

    /// Registers that are all zero.
    pub fn new() -> (r: DMARegisters)
        ensures
            r == Self::zeroed(),
    {
        DMARegisters {
            memory_address: 0,
            peripheral_select: 0,
            transfer_counter: 0,
            memory_address_reload: 0,
            transfer_counter_reload: 0,
            control: 0,
            mode: 0,
            status: 0,
            interrupt_enable: 0,
            interrupt_disable: 0,
            interrupt_mask: 0,
            interrupt_status: 0,
            version: 0,
        }
    }

    /// What `register` holds.
    pub fn get(&self, register: DmaRegister) -> (value: usize)
        ensures
            value == self.read(register),
    {
        match register {
            DmaRegister::MemoryAddress => self.memory_address,
            DmaRegister::PeripheralSelect => self.peripheral_select,
            DmaRegister::TransferCounter => self.transfer_counter,
            DmaRegister::MemoryAddressReload => self.memory_address_reload,
            DmaRegister::TransferCounterReload => self.transfer_counter_reload,
            DmaRegister::Control => self.control,
            DmaRegister::Mode => self.mode,
            DmaRegister::Status => self.status,
            DmaRegister::InterruptEnable => self.interrupt_enable,
            DmaRegister::InterruptDisable => self.interrupt_disable,
            DmaRegister::InterruptMask => self.interrupt_mask,
            DmaRegister::InterruptStatus => self.interrupt_status,
            DmaRegister::Version => self.version,
        }
    }

    /// Puts `value` in `register`.
    pub fn set(&mut self, register: DmaRegister, value: usize)
        ensures
            *final(self) == old(self).write(register, value),
    {
        match register {
            DmaRegister::MemoryAddress => self.memory_address = value,
            DmaRegister::PeripheralSelect => self.peripheral_select = value,
            DmaRegister::TransferCounter => self.transfer_counter = value,
            DmaRegister::MemoryAddressReload => self.memory_address_reload = value,
            DmaRegister::TransferCounterReload => self.transfer_counter_reload = value,
            DmaRegister::Control => self.control = value,
            DmaRegister::Mode => self.mode = value,
            DmaRegister::Status => self.status = value,
            DmaRegister::InterruptEnable => self.interrupt_enable = value,
            DmaRegister::InterruptDisable => self.interrupt_disable = value,
            DmaRegister::InterruptMask => self.interrupt_mask = value,
            DmaRegister::InterruptStatus => self.interrupt_status = value,
            DmaRegister::Version => self.version = value,
        }
    }

    /// A register that was written holds what was written, and the others
    /// hold what they held.
    pub proof fn read_after_write(self, written: DmaRegister, value: usize, register: DmaRegister)
        ensures
            self.write(written, value).read(register) == if register == written {
                value
            } else {
                self.read(register)
            },
    {
    }
}

/// Something that a channel asks of the hardware.
#[derive(Clone, Copy, Debug, PartialEq, Eq, Structural)]
pub enum DmaEffect {
    /// Store `value` to `register` of the channel.
    Write { register: DmaRegister, value: usize },
    /// Let the power manager run `0`.
    EnableClock(Clock),
    /// Let the power manager stop `0`.
    DisableClock(Clock),
    /// Unmask the interrupt line `0`.
    EnableInterrupt(NvicIdx),
    /// Mask the interrupt line `0`.
    DisableInterrupt(NvicIdx),
}

} // verus!
