//! The engine as a state machine: what every operation and every interrupt
//! does to it, and which callback is then due.

use vstd::prelude::*;
use crate::buffer::BufferView;
use crate::dma::{DMAChannelNum, DMAPeripheral, DmaView};
use crate::nvic::NvicIdx;
use crate::pm::{Clock, PBAClock};
use crate::usart::config::{
    ClockPhase, ClockPolarity, Location, USARTParams, UsartClient, UsartError, UsartMode,
};
use crate::usart::event::EventView;
use crate::usart::registers::{
    UsartEffect, UsartRegister, UsartRegisters, CR_CS_HIGH, CR_CS_LOW, CR_RXDIS_TXDIS,
    CR_RXEN_TXEN, MR_CPHA, MR_CPOL, MR_OVER, MR_SPI_MASTER, RXRDY, SPI_DIVISOR, TIMEGUARD,
    TIMEGUARD_DISABLED, TXRDY, UART_CLOCK,
};

verus! {

/// What an SPI exchange in flight is, mathematically.
pub struct SpiTransferView {
    /// The bytes that are shifted out.
    pub write_buffer: BufferView,
    /// Where the bytes that are shifted in go, if they are kept.
    pub read_buffer: Option<BufferView>,
    /// How many bytes the frame has.
    pub len: usize,
    /// How many bytes of the frame have come in.
    pub idx: usize,
}

impl SpiTransferView {
    /// The cursor is inside the frame and the frame inside both buffers.
    pub open spec fn wf(self) -> bool {
        &&& self.idx < self.len
        &&& self.len <= self.write_buffer.bytes.len()
        &&& self.read_buffer matches Some(r) ==> self.len <= r.bytes.len()
    }

    /// The read buffer with `byte` stored at the cursor, if there is a read
    /// buffer.
    pub open spec fn store(self, byte: u8) -> Option<BufferView> {
        match self.read_buffer {
            Some(r) => Some(
                BufferView { address: r.address, bytes: r.bytes.update(self.idx as int, byte) },
            ),
            None => None,
        }
    }

    /// Whether the byte that comes in next is the last of the frame.
    pub open spec fn at_last(self) -> bool {
        self.idx == self.len - 1
    }
}

/// The callback that is due when a frame has been exchanged: the client's,
/// where an SPI client is registered, and nobody's otherwise.
pub open spec fn spi_done_event(
    client: Option<UsartClient>,
    write_buffer: BufferView,
    read_buffer: Option<BufferView>,
    len: usize,
) -> EventView {
    if client == Some(UsartClient::SpiMaster) {
        EventView::ReadWriteDone { write_buffer, read_buffer, len }
    } else {
        EventView::Unclaimed { write_buffer, read_buffer }
    }
}

/// The callback that is due when the DMA channel gave back `buffer`: the
/// client's, where a UART client is registered, and nobody's otherwise.
pub open spec fn write_done_event(client: Option<UsartClient>, buffer: Option<BufferView>)
    -> EventView {
    match buffer {
        Some(b) => {
            if client == Some(UsartClient::Uart) {
                EventView::WriteDone(b)
            } else {
                EventView::Unclaimed { write_buffer: b, read_buffer: None }
            }
        },
        None => EventView::Nothing,
    }
}

/// What a USART is, mathematically.
pub struct UsartView {
    /// Which of the four USARTs this is.
    pub location: Location,
    /// The clock that feeds it.
    pub clock: Clock,
    /// The interrupt line it raises.
    pub nvic: NvicIdx,
    /// The kind of client that is registered, if one is.
    pub client: Option<UsartClient>,
    /// The DMA channel that is attached, if one is.
    pub dma: Option<DMAChannelNum>,
    /// The request line that the attached channel serves.
    pub dma_peripheral: DMAPeripheral,
    /// What the engine is used as.
    pub mode: UsartMode,
    /// The SPI exchange in flight, if one is.
    pub spi: Option<SpiTransferView>,
    /// The registers.
    pub registers: UsartRegisters,
    /// What the engine has asked of the hardware and nobody has collected
    /// yet, oldest first.
    pub effects: Seq<UsartEffect>,
}

impl UsartView {
    /// A USART on which nothing has happened yet.
    pub open spec fn fresh(location: Location, clock: PBAClock, nvic: NvicIdx) -> UsartView {
        UsartView {
            location,
            clock: Clock::PBA(clock),
            nvic,
            client: None,
            dma: None,
            dma_peripheral: DMAPeripheral::USART0_RX,
            mode: UsartMode::Unused,
            spi: None,
            registers: UsartRegisters::zeroed(),
            effects: Seq::empty(),
        }
    }

    /// An exchange in flight, if there is one, is sound.
    pub open spec fn wf(self) -> bool {
        self.spi matches Some(t) ==> t.wf()
    }

    /// The engine after it asked for `effect`.
    pub open spec fn emit(self, effect: UsartEffect) -> UsartView {
        UsartView { effects: self.effects.push(effect), ..self }
    }

    /// The engine after it stored `value` to `register`.
    pub open spec fn write(self, register: UsartRegister, value: u32) -> UsartView {
        UsartView {
            registers: self.registers.write(register, value),
            ..self.emit(UsartEffect::Write { register, value })
        }
    }

    /// The engine after the hardware put `value` in `register`.
    pub open spec fn latch(self, register: UsartRegister, value: u32) -> UsartView {
        UsartView { registers: self.registers.write(register, value), ..self }
    }

    /// The engine with nothing left to collect.
    pub open spec fn collected(self) -> UsartView {
        UsartView { effects: Seq::empty(), ..self }
    }

    /// Whether a received byte is waiting.
    pub open spec fn rx_ready(self) -> bool {
        self.registers.csr & RXRDY != 0
    }

    /// Whether the transmitter takes a byte.
    pub open spec fn tx_ready(self) -> bool {
        self.registers.csr & TXRDY != 0
    }

    /// The byte in the receive holding register: its low eight bits.
    pub open spec fn received(self) -> u8 {
        self.registers.rhr as u8
    }

    /// The engine after its interrupt line was unmasked.
    pub open spec fn enable_nvic(self) -> UsartView {
        self.emit(UsartEffect::EnableInterrupt(self.nvic))
    }

    /// The engine after its interrupt line was masked.
    pub open spec fn disable_nvic(self) -> UsartView {
        self.emit(UsartEffect::DisableInterrupt(self.nvic))
    }

    /// The engine after its clock was started.
    pub open spec fn enable_clock(self) -> UsartView {
        self.emit(UsartEffect::EnableClock(self.clock))
    }

    /// The engine after the interrupt for a received byte was enabled.
    pub open spec fn enable_rx_interrupts(self) -> UsartView {
        self.enable_nvic().write(UsartRegister::Ier, RXRDY)
    }

    /// The engine after the interrupt for a ready transmitter was enabled.
    pub open spec fn enable_tx_interrupts(self) -> UsartView {
        self.enable_nvic().write(UsartRegister::Ier, TXRDY)
    }

    /// The engine after the interrupt for a received byte was disabled.
    pub open spec fn disable_rx_interrupts(self) -> UsartView {
        self.disable_nvic().write(UsartRegister::Idr, RXRDY)
    }

    /// What is wrong with `params`, if anything: the baud rate first.
    pub open spec fn params_error(params: USARTParams) -> Option<UsartError> {
        if params.baud_rate == 0 || 8 * params.baud_rate > u32::MAX {
            Some(UsartError::BaudRate)
        } else if params.data_bits == 0 {
            Some(UsartError::DataBits)
        } else {
            None
        }
    }

    /// The baud rate divisor of a UART at `baud_rate`: the clock over eight
    /// times the baud rate, rounded down.
    pub open spec fn uart_divisor(baud_rate: u32) -> u32 {
        (UART_CLOCK as int / (8 * baud_rate)) as u32
    }

    /// The character length field for characters of `data_bits` bits: the
    /// low two bits of one less than `data_bits`.
    pub open spec fn character_length(data_bits: u8) -> u32 {
        (((data_bits - 1) as u8) & 0x3) as u32
    }

    /// The mode register of a UART set up by `params`: the handshake in
    /// bits 0 to 3, the character length in bits 6 and 7, the parity in bits
    /// 9 to 11, one stop bit, and oversampling by eight.
    pub open spec fn uart_mode_word(params: USARTParams) -> u32 {
        params.mode.spec_code() | (Self::character_length(params.data_bits) << 6) | (
        params.parity.spec_code() << 9) | MR_OVER
    }

    /// The engine after it was set up as a UART by `params`, which are in
    /// order: clock started, divisor and mode programmed, timeguard set, the
    /// interrupt for a received byte enabled.
    pub open spec fn configure(self, params: USARTParams) -> UsartView {
        UsartView {
            mode: UsartMode::Uart,
            ..self.enable_clock().write(
                UsartRegister::Brgr,
                Self::uart_divisor(params.baud_rate),
            ).write(UsartRegister::Mr, Self::uart_mode_word(params)).write(
                UsartRegister::Ttgr,
                TIMEGUARD,
            ).enable_rx_interrupts()
        }
    }

    /// The engine after it was set up as an SPI master: clock started, the
    /// divisor for the bus clock and the mode of a master programmed, the
    /// transmitter timeguard disabled.
    pub open spec fn init(self) -> UsartView {
        UsartView {
            mode: UsartMode::Spi,
            ..self.enable_clock().write(UsartRegister::Brgr, SPI_DIVISOR).write(
                UsartRegister::Mr,
                MR_SPI_MASTER,
            ).write(UsartRegister::Ttgr, TIMEGUARD_DISABLED)
        }
    }

    /// The engine after it was asked to send `byte`: the byte is in the
    /// transmit holding register if the transmitter was ready for it.
    pub open spec fn send_byte(self, byte: u8) -> UsartView {
        if self.tx_ready() {
            self.write(UsartRegister::Thr, byte as u32)
        } else {
            self
        }
    }

    /// Why a buffer cannot be sent through the controller `dma`, if it
    /// cannot: the engine is no UART, or has no channel, or its channel
    /// holds a buffer already.
    pub open spec fn send_error(self, dma: DmaView) -> Option<UsartError> {
        if self.mode != UsartMode::Uart {
            Some(UsartError::WrongMode)
        } else if self.dma is None {
            Some(UsartError::NoDma)
        } else if dma.channel(self.dma->0).buffer is Some {
            Some(UsartError::Busy)
        } else {
            None
        }
    }

    /// The controller after the engine, which has a channel, began to send
    /// `len` bytes of `bytes` through it: the channel enabled, the transfer
    /// programmed for the engine's request line and started.
    pub open spec fn send_bytes(self, dma: DmaView, bytes: BufferView, len: usize) -> DmaView {
        let ch = self.dma->0;
        dma.enable(ch).with_channel(
            ch,
            dma.enable(ch).channel(ch).do_xfer(self.dma_peripheral, bytes, len),
        )
    }

    /// The controller after the engine heard that its channel is done: the
    /// transfer aborted and the channel disabled. Without a channel nothing
    /// changes.
    pub open spec fn xfer_done(self, dma: DmaView) -> DmaView {
        match self.dma {
            Some(ch) => dma.with_channel(ch, dma.channel(ch).abort_xfer()).disable(ch),
            None => dma,
        }
    }

    /// The callback that is due when the engine heard that its channel is
    /// done: the buffer that the channel held goes to the UART client.
    pub open spec fn xfer_done_event(self, dma: DmaView) -> EventView {
        match self.dma {
            Some(ch) => write_done_event(self.client, dma.channel(ch).buffer),
            None => EventView::Nothing,
        }
    }

    /// Why a frame of `len` bytes cannot be exchanged through these buffers,
    /// if it cannot: the engine is no SPI master, or is exchanging a frame
    /// already, or the frame is empty or longer than a buffer.
    pub open spec fn transfer_error(
        self,
        write_buffer: BufferView,
        read_buffer: Option<BufferView>,
        len: usize,
    ) -> Option<UsartError> {
        if self.mode != UsartMode::Spi {
            Some(UsartError::WrongMode)
        } else if self.spi is Some {
            Some(UsartError::Busy)
        } else if len == 0 || len > write_buffer.bytes.len() || (read_buffer is Some && len
            > read_buffer->0.bytes.len()) {
            Some(UsartError::InvalidLength)
        } else {
            None
        }
    }

    /// The engine after an exchange of `len` bytes was begun: the interrupt
    /// for a received byte enabled, receiver and transmitter enabled, the
    /// slave selected, the first byte shifted out, the buffers kept and the
    /// cursor at the start.
    pub open spec fn read_write_bytes(
        self,
        write_buffer: BufferView,
        read_buffer: Option<BufferView>,
        len: usize,
    ) -> UsartView {
        UsartView {
            spi: Some(SpiTransferView { write_buffer, read_buffer, len, idx: 0 }),
            ..self.enable_rx_interrupts().write(UsartRegister::Cr, CR_RXEN_TXEN).write(
                UsartRegister::Cr,
                CR_CS_LOW,
            ).write(UsartRegister::Thr, write_buffer.bytes[0] as u32)
        }
    }

    /// The engine after a byte of an SPI frame came in. Without an exchange
    /// in flight nothing changes. After the last byte of the frame the slave
    /// is released, receiver and transmitter are disabled and the exchange
    /// is over. After any other byte the cursor moves on and the next byte
    /// is shifted out. The byte is stored at the cursor where there is a
    /// read buffer.
    pub open spec fn spi_got_byte(self, byte: u8) -> UsartView {
        match self.spi {
            None => self,
            Some(t) => {
                if t.at_last() {
                    UsartView {
                        spi: None,
                        ..self.write(UsartRegister::Cr, CR_CS_HIGH).write(
                            UsartRegister::Cr,
                            CR_RXDIS_TXDIS,
                        )
                    }
                } else {
                    UsartView {
                        spi: Some(
                            SpiTransferView {
                                read_buffer: t.store(byte),
                                idx: (t.idx + 1) as usize,
                                ..t
                            },
                        ),
                        ..self.write(
                            UsartRegister::Thr,
                            t.write_buffer.bytes[t.idx + 1] as u32,
                        )
                    }
                }
            },
        }
    }

    /// The callback that is due after a byte of an SPI frame came in: none
    /// before the last byte, and after the last byte the one for an
    /// exchanged frame, with the write buffer, the read buffer with that
    /// byte in it, and the length of the frame.
    pub open spec fn spi_got_byte_event(self, byte: u8) -> EventView {
        match self.spi {
            None => EventView::Nothing,
            Some(t) => {
                if t.at_last() {
                    spi_done_event(self.client, t.write_buffer, t.store(byte), t.len)
                } else {
                    EventView::Nothing
                }
            },
        }
    }

    /// The engine after an interrupt. Where a received byte is waiting and
    /// the engine is an SPI master, the byte belongs to the frame. Otherwise
    /// nothing changes.
    pub open spec fn handle_interrupt(self) -> UsartView {
        if self.rx_ready() && self.mode == UsartMode::Spi {
            self.spi_got_byte(self.received())
        } else {
            self
        }
    }

    /// The callback that is due after an interrupt. A byte that a UART
    /// received goes to the UART client at once, one callback a byte; a byte
    /// that an SPI master received is reported as the frame has it; where no
    /// byte is waiting or the engine is not in use, none is due.
    pub open spec fn handle_interrupt_event(self) -> EventView {
        if self.rx_ready() {
            match self.mode {
                UsartMode::Uart => {
                    if self.client == Some(UsartClient::Uart) {
                        EventView::ReadDone(self.received())
                    } else {
                        EventView::Nothing
                    }
                },
                UsartMode::Spi => self.spi_got_byte_event(self.received()),
                UsartMode::Unused => EventView::Nothing,
            }
        } else {
            EventView::Nothing
        }
    }

    /// The engine after the polarity of the SPI clock was set.
    pub open spec fn set_clock(self, polarity: ClockPolarity) -> UsartView {
        match polarity {
            ClockPolarity::IdleLow => self.write(UsartRegister::Mr, self.registers.mr & !MR_CPOL),
            ClockPolarity::IdleHigh => self.write(UsartRegister::Mr, self.registers.mr | MR_CPOL),
        }
    }

    /// The polarity of the SPI clock.
    pub open spec fn get_clock(self) -> ClockPolarity {
        if self.registers.mr & MR_CPOL == 0 {
            ClockPolarity::IdleLow
        } else {
            ClockPolarity::IdleHigh
        }
    }

    /// The engine after the phase of the SPI clock was set: the phase bit
    /// set for sampling on the leading edge and clear for sampling on the
    /// trailing edge.
    pub open spec fn set_phase(self, phase: ClockPhase) -> UsartView {
        match phase {
            ClockPhase::SampleLeading => self.write(
                UsartRegister::Mr,
                self.registers.mr | MR_CPHA,
            ),
            ClockPhase::SampleTrailing => self.write(
                UsartRegister::Mr,
                self.registers.mr & !MR_CPHA,
            ),
        }
    }

    /// The phase of the SPI clock: the leading edge where the phase bit is
    /// set, the trailing edge where it is clear.
    pub open spec fn get_phase(self) -> ClockPhase {
        if self.registers.mr & MR_CPHA == 0 {
            ClockPhase::SampleTrailing
        } else {
            ClockPhase::SampleLeading
        }
    }
}

/// The read buffer `read_buffer` with its first `k` bytes replaced by the
/// first `k` bytes of `bytes`, if there is a read buffer.
pub open spec fn filled(read_buffer: Option<BufferView>, bytes: Seq<u8>, k: int) -> Option<
    BufferView,
> {
    match read_buffer {
        Some(r) => Some(
            BufferView { address: r.address, bytes: bytes.take(k) + r.bytes.skip(k) },
        ),
        None => None,
    }
}

impl UsartView {
    /// The engine after the hardware shifted in `byte` and raised the
    /// receive interrupt, and the interrupt was served.
    pub open spec fn receive(self, byte: u8) -> UsartView {
        self.latch(UsartRegister::Csr, RXRDY).latch(
            UsartRegister::Rhr,
            byte as u32,
        ).handle_interrupt()
    }

    /// The callback that is due after the hardware shifted in `byte` and
    /// raised the receive interrupt.
    pub open spec fn receive_event(self, byte: u8) -> EventView {
        self.latch(UsartRegister::Csr, RXRDY).latch(
            UsartRegister::Rhr,
            byte as u32,
        ).handle_interrupt_event()
    }

    /// The engine after the hardware shifted in the bytes of `bytes`, one
    /// interrupt a byte.
    pub open spec fn receive_all(self, bytes: Seq<u8>) -> UsartView
        decreases bytes.len(),
    {
        if bytes.len() == 0 {
            self
        } else {
            self.receive_all(bytes.drop_last()).receive(bytes.last())
        }
    }

    /// The callback that is due after the interrupt for `bytes[k]`, the
    /// bytes before it having come in.
    pub open spec fn receive_event_at(self, bytes: Seq<u8>, k: int) -> EventView {
        self.receive_all(bytes.take(k)).receive_event(bytes[k])
    }

    /// A byte that the hardware shifted in reaches an SPI master as that
    /// byte of its frame, and a UART as that byte for its client.
    pub proof fn receive_delivers(self, byte: u8)
        ensures
            self.mode == UsartMode::Spi ==> {
                &&& self.receive(byte).spi == self.spi_got_byte(byte).spi
                &&& self.receive(byte).client == self.client
                &&& self.receive(byte).mode == self.mode
                &&& self.receive(byte).effects == self.spi_got_byte(byte).effects
                &&& self.receive_event(byte) == self.spi_got_byte_event(byte)
            },
            self.mode == UsartMode::Uart ==> {
                &&& self.receive(byte) == self.latch(UsartRegister::Csr, RXRDY).latch(
                    UsartRegister::Rhr,
                    byte as u32,
                )
                &&& self.receive_event(byte) == if self.client == Some(UsartClient::Uart) {
                    EventView::ReadDone(byte)
                } else {
                    EventView::Nothing
                }
            },
    {
        assert(RXRDY & RXRDY != 0) by (bit_vector);
        assert((byte as u32) as u8 == byte) by (bit_vector);
    }

    /// While a frame is in flight and `k` of its bytes have come in, `k`
    /// being less than its length, the frame is still in flight, its cursor
    /// is at `k`, and the read buffer holds those `k` bytes at its start.
    pub proof fn frame_progress(self, bytes: Seq<u8>, k: int)
        requires
            self.mode == UsartMode::Spi,
            self.spi is Some,
            self.spi->0.wf(),
            self.spi->0.idx == 0,
            0 <= k < self.spi->0.len,
            k <= bytes.len(),
        ensures
            self.receive_all(bytes.take(k)).mode == UsartMode::Spi,
            self.receive_all(bytes.take(k)).client == self.client,
            self.receive_all(bytes.take(k)).spi == Some(
                SpiTransferView {
                    read_buffer: filled(self.spi->0.read_buffer, bytes, k),
                    idx: k as usize,
                    ..self.spi->0
                },
            ),
        decreases k,
    {
        let t = self.spi->0;
        if k == 0 {
            assert(bytes.take(0).len() == 0);
            if t.read_buffer is Some {
                let r = t.read_buffer->0;
                assert(bytes.take(0) + r.bytes.skip(0) =~= r.bytes);
            }
        } else {
            self.frame_progress(bytes, k - 1);
            let before = self.receive_all(bytes.take(k - 1));
            assert(bytes.take(k).drop_last() =~= bytes.take(k - 1));
            assert(bytes.take(k).last() == bytes[k - 1]);
            before.receive_delivers(bytes[k - 1]);
            if t.read_buffer is Some {
                let r = t.read_buffer->0;
                assert((bytes.take(k - 1) + r.bytes.skip(k - 1)).update(k - 1, bytes[k - 1])
                    =~= bytes.take(k) + r.bytes.skip(k));
            }
        }
    }
}

} // verus!
