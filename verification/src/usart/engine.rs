//! The engine itself.

use vstd::prelude::*;
use crate::buffer::{opt_view, Buffer};
use crate::dma::{DMAChannelNum, DMAClient, DMAPeripheral, Dma, DmaView};
use crate::nvic::NvicIdx;
use crate::pm::{Clock, PBAClock};
use crate::usart::config::{
    ClockPhase, ClockPolarity, Location, USARTParams, UsartClient, UsartError, UsartMode,
};
use crate::usart::event::{Rejected, UsartEvent};
use crate::usart::model::{SpiTransferView, UsartView};
use crate::usart::registers::{
    UsartEffect, UsartRegister, UsartRegisters, BASE_ADDRESS, CR_CS_HIGH, CR_CS_LOW, CR_RSTRX,
    CR_RXDIS, CR_RXDIS_TXDIS, CR_RXEN, CR_RXEN_TXEN, CR_TXDIS, CR_TXEN, MR_CPHA, MR_CPOL,
    MR_OVER, MR_SPI_MASTER, RXRDY, SIZE, SPI_DIVISOR, TIMEGUARD, TIMEGUARD_DISABLED, TXRDY,
    UART_CLOCK,
    WRITE_BYTE_PROBE,
};

verus! {

/// An SPI exchange in flight: the two buffers, the length of the frame and
/// how far it has come.
#[derive(Debug, PartialEq, Eq)]
pub struct SpiTransfer {
    write_buffer: Buffer,
    read_buffer: Option<Buffer>,
    len: usize,
    idx: usize,
}

impl View for SpiTransfer {
    type V = SpiTransferView;

    closed spec fn view(&self) -> SpiTransferView {
        SpiTransferView {
            write_buffer: self.write_buffer@,
            read_buffer: opt_view(self.read_buffer),
            len: self.len,
            idx: self.idx,
        }
    }
}

/// The view of an exchange that may be absent.
pub closed spec fn opt_transfer_view(t: Option<SpiTransfer>) -> Option<SpiTransferView> {
    match t {
        Some(t) => Some(t@),
        None => None,
    }
}

/// One USART.
#[derive(Debug, PartialEq, Eq)]
pub struct USART {
    location: Location,
    client: Option<UsartClient>,
    clock: Clock,
    nvic: NvicIdx,
    dma_peripheral: DMAPeripheral,
    dma: Option<DMAChannelNum>,
    usart_mode: UsartMode,
    spi: Option<SpiTransfer>,
    registers: UsartRegisters,
    effects: Vec<UsartEffect>,
}

impl View for USART {
    type V = UsartView;

    closed spec fn view(&self) -> UsartView {
        UsartView {
            location: self.location,
            clock: self.clock,
            nvic: self.nvic,
            client: self.client,
            dma: self.dma,
            dma_peripheral: self.dma_peripheral,
            mode: self.usart_mode,
            spi: opt_transfer_view(self.spi),
            registers: self.registers,
            effects: self.effects@,
        }
    }
}

impl USART {
    /// The engine is sound, as [`UsartView::wf`] has it.
    pub open spec fn wf(&self) -> bool {
        self@.wf()
    }

    /// The USART at `location`, fed by `clock` and raising `nvic`, not in
    /// use, with no client and no DMA channel.
    pub fn new(location: Location, clock: PBAClock, nvic: NvicIdx) -> (u: USART)
        ensures
            u@ == UsartView::fresh(location, clock, nvic),
            u.wf(),
    {
        USART {
            location,
            clock: Clock::PBA(clock),
            nvic,
            dma: None,
            dma_peripheral: DMAPeripheral::USART0_RX,
            client: None,
            usart_mode: UsartMode::Unused,
            spi: None,
            registers: UsartRegisters::new(),
            effects: Vec::new(),
        }
    }

    /// The USART at `location` with the clock and the interrupt line that the
    /// chip gives it.
    pub fn at(location: Location) -> (u: USART)
        ensures
            u@ == UsartView::fresh(location, location.spec_clock(), location.spec_interrupt()),
            u.wf(),
    {
        USART::new(location, location.clock(), location.interrupt())
    }

    /// Which of the four USARTs this is.
    pub fn location(&self) -> (l: Location)
        ensures
            l == self@.location,
    {
        self.location
    }

    /// Where the register block starts.
    pub fn base_address(&self) -> (a: usize)
        ensures
            a == BASE_ADDRESS + self@.location.spec_index() * SIZE,
    {
        BASE_ADDRESS + self.location.index() * SIZE
    }

    /// Where `register` lies.
    pub fn register_address(&self, register: UsartRegister) -> (a: usize)
        ensures
            a == BASE_ADDRESS + self@.location.spec_index() * SIZE + register.spec_offset(),
    {
        self.base_address() + register.offset()
    }

    /// The clock that feeds the engine.
    pub fn clock(&self) -> (c: Clock)
        ensures
            c == self@.clock,
    {
        self.clock
    }

    /// The interrupt line that the engine raises.
    pub fn nvic(&self) -> (n: NvicIdx)
        ensures
            n == self@.nvic,
    {
        self.nvic
    }

    /// What the engine is used as.
    pub fn mode(&self) -> (m: UsartMode)
        ensures
            m == self@.mode,
    {
        self.usart_mode
    }

    /// The kind of client that is registered, if one is.
    pub fn client(&self) -> (c: Option<UsartClient>)
        ensures
            c == self@.client,
    {
        self.client
    }

    /// The DMA channel that is attached, if one is.
    pub fn dma(&self) -> (d: Option<DMAChannelNum>)
        ensures
            d == self@.dma,
    {
        self.dma
    }

    /// The request line that the attached channel serves.
    pub fn dma_peripheral(&self) -> (p: DMAPeripheral)
        ensures
            p == self@.dma_peripheral,
    {
        self.dma_peripheral
    }

    /// The registers.
    pub fn registers(&self) -> (r: UsartRegisters)
        ensures
            r == self@.registers,
    {
        self.registers
    }

    /// What the engine has asked of the hardware and nobody has collected
    /// yet, oldest first.
    pub fn effects(&self) -> (e: &Vec<UsartEffect>)
        ensures
            e@ == self@.effects,
    {
        &self.effects
    }

    /// Hands out what the engine has asked of the hardware, oldest first,
    /// and leaves nothing to collect.
    pub fn take_effects(&mut self) -> (e: Vec<UsartEffect>)
        ensures
            e@ == old(self)@.effects,
            final(self)@ == old(self)@.collected(),
    {
        let mut e: Vec<UsartEffect> = Vec::new();
        std::mem::swap(&mut self.effects, &mut e);
        e
    }

    /// Records that the hardware put `value` in `register`.
    pub fn latch(&mut self, register: UsartRegister, value: u32)
        ensures
            final(self)@ == old(self)@.latch(register, value),
    {
        self.registers.set(register, value);
    }

    fn emit(&mut self, effect: UsartEffect)
        ensures
            final(self)@ == old(self)@.emit(effect),
    {
        self.effects.push(effect);
    }

    fn write(&mut self, register: UsartRegister, value: u32)
        ensures
            final(self)@ == old(self)@.write(register, value),
    {
        self.effects.push(UsartEffect::Write { register, value });
        self.registers.set(register, value);
    }

    fn set_internal_client(&mut self, client: UsartClient)
        ensures
            final(self)@ == (UsartView { client: Some(client), ..old(self)@ }),
    {
        self.client = Some(client);
    }

    /// Registers a client of the UART in the place of any earlier client.
    pub fn set_uart_client(&mut self)
        ensures
            final(self)@ == (UsartView { client: Some(UsartClient::Uart), ..old(self)@ }),
    {
        self.set_internal_client(UsartClient::Uart);
    }

    /// Registers a client of the SPI master in the place of any earlier
    /// client.
    pub fn set_client(&mut self)
        ensures
            final(self)@ == (UsartView { client: Some(UsartClient::SpiMaster), ..old(self)@ }),
    {
        self.set_internal_client(UsartClient::SpiMaster);
    }

    /// Attaches the DMA channel `dma`, which serves the request line
    /// `dma_peripheral`.
    pub fn set_dma(&mut self, dma: DMAChannelNum, dma_peripheral: DMAPeripheral)
        ensures
            final(self)@ == (UsartView { dma: Some(dma), dma_peripheral, ..old(self)@ }),
    {
        self.dma = Some(dma);
        self.dma_peripheral = dma_peripheral;
    }

    fn set_baud_rate(&mut self, baud_rate: u32)
        requires
            0 < baud_rate,
            8 * baud_rate <= u32::MAX,
        ensures
            final(self)@ == old(self)@.write(
                UsartRegister::Brgr,
                UsartView::uart_divisor(baud_rate),
            ),
    {
        let cd: u32 = UART_CLOCK / (8 * baud_rate);
        self.write(UsartRegister::Brgr, cd);
    }

    fn set_mode(&mut self, mode: u32)
        ensures
            final(self)@ == old(self)@.write(UsartRegister::Mr, mode),
    {
        self.write(UsartRegister::Mr, mode);
    }

    fn enable_clock(&mut self)
        ensures
            final(self)@ == old(self)@.enable_clock(),
    {
        self.emit(UsartEffect::EnableClock(self.clock));
    }

    fn enable_nvic(&mut self)
        ensures
            final(self)@ == old(self)@.enable_nvic(),
    {
        self.emit(UsartEffect::EnableInterrupt(self.nvic));
    }

    fn disable_nvic(&mut self)
        ensures
            final(self)@ == old(self)@.disable_nvic(),
    {
        self.emit(UsartEffect::DisableInterrupt(self.nvic));
    }

    /// Unmasks the interrupt line and enables the interrupt for a received
    /// byte.
    pub fn enable_rx_interrupts(&mut self)
        ensures
            final(self)@ == old(self)@.enable_rx_interrupts(),
    {
        self.enable_nvic();
        self.write(UsartRegister::Ier, RXRDY);
    }

    /// Unmasks the interrupt line and enables the interrupt for a ready
    /// transmitter.
    pub fn enable_tx_interrupts(&mut self)
        ensures
            final(self)@ == old(self)@.enable_tx_interrupts(),
    {
        self.enable_nvic();
        self.write(UsartRegister::Ier, TXRDY);
    }

    /// Masks the interrupt line and disables the interrupt for a received
    /// byte.
    pub fn disable_rx_interrupts(&mut self)
        ensures
            final(self)@ == old(self)@.disable_rx_interrupts(),
    {
        self.disable_nvic();
        self.write(UsartRegister::Idr, RXRDY);
    }

    /// Resets the receiver.
    pub fn reset_rx(&mut self)
        ensures
            final(self)@ == old(self)@.write(UsartRegister::Cr, CR_RSTRX),
    {
        self.write(UsartRegister::Cr, CR_RSTRX);
    }

    /// Sets the engine up as a UART: starts its clock, programs the baud
    /// rate divisor and the mode register, sets the timeguard and enables
    /// the interrupt for a received byte. Parameters that are out of order
    /// are turned down and nothing is done.
    pub fn configure(&mut self, params: USARTParams) -> (r: Result<(), UsartError>)
        ensures
            UsartView::params_error(params) matches Some(e) ==> r == Err::<(), UsartError>(e)
                && final(self)@ == old(self)@,
            UsartView::params_error(params) is None ==> r is Ok && final(self)@ == old(
                self,
            )@.configure(params),
            old(self).wf() ==> final(self).wf(),
    {
        if params.baud_rate == 0 || params.baud_rate > u32::MAX / 8 {
            return Err(UsartError::BaudRate);
        }
        if params.data_bits == 0 {
            return Err(UsartError::DataBits);
        }
        let chrl: u32 = ((params.data_bits - 1) & 0x3) as u32;
        let mode: u32 = params.mode.code() | (chrl << 6) | (params.parity.code() << 9) | MR_OVER;
        self.enable_clock();
        self.set_baud_rate(params.baud_rate);
        self.set_mode(mode);
        self.write(UsartRegister::Ttgr, TIMEGUARD);
        self.usart_mode = UsartMode::Uart;
        self.enable_rx_interrupts();
        Ok(())
    }

    /// Whether a received byte is waiting.
    pub fn rx_ready(&self) -> (b: bool)
        ensures
            b == self@.rx_ready(),
    {
        self.registers.csr & RXRDY != 0
    }

    /// Whether the transmitter takes a byte.
    pub fn tx_ready(&self) -> (b: bool)
        ensures
            b == self@.tx_ready(),
    {
        self.registers.csr & TXRDY != 0
    }

    /// Sends `byte` if the transmitter is ready for it, and says whether it
    /// did. Whoever wants the byte sent at any rate latches the status
    /// register and asks again until it is.
    pub fn send_byte(&mut self, byte: u8) -> (sent: bool)
        ensures
            sent == old(self)@.tx_ready(),
            final(self)@ == old(self)@.send_byte(byte),
    {
        if self.tx_ready() {
            self.write(UsartRegister::Thr, byte as u32);
            true
        } else {
            false
        }
    }

    /// The received byte, if one is waiting.
    pub fn read_byte(&self) -> (byte: Option<u8>)
        ensures
            byte == if self@.rx_ready() {
                Some(self@.received())
            } else {
                None
            },
    {
        if self.rx_ready() {
            Some(#[verifier::truncate] (self.registers.rhr as u8))
        } else {
            None
        }
    }

    /// Enables the receiver.
    pub fn enable_rx(&mut self)
        ensures
            final(self)@ == old(self)@.write(UsartRegister::Cr, CR_RXEN),
    {
        self.write(UsartRegister::Cr, CR_RXEN);
    }

    /// Disables the receiver.
    pub fn disable_rx(&mut self)
        ensures
            final(self)@ == old(self)@.write(UsartRegister::Cr, CR_RXDIS),
    {
        self.write(UsartRegister::Cr, CR_RXDIS);
    }

    /// Enables the transmitter.
    pub fn enable_tx(&mut self)
        ensures
            final(self)@ == old(self)@.write(UsartRegister::Cr, CR_TXEN),
    {
        self.write(UsartRegister::Cr, CR_TXEN);
    }

    /// Disables the transmitter.
    pub fn disable_tx(&mut self)
        ensures
            final(self)@ == old(self)@.write(UsartRegister::Cr, CR_TXDIS),
    {
        self.write(UsartRegister::Cr, CR_TXDIS);
    }

    /// Begins to send `len` bytes of `bytes`, or all of them where `len` is
    /// more, through the attached DMA channel of `dma`, and returns before
    /// they are sent: the channel keeps the buffer until the engine hears
    /// that the channel is done and takes it back. A request that cannot be served
    /// is turned down, and the buffer comes back with the reason.
    pub fn send_bytes(&self, dma: &mut Dma, bytes: Buffer, len: usize)
        -> (r: Result<(), Rejected>)
        requires
            old(dma).wf(),
        ensures
            final(dma).wf(),
            self@.send_error(old(dma)@) matches Some(e) ==> {
                &&& r is Err
                &&& r->Err_0.error == e
                &&& r->Err_0.write_buffer@ == bytes@
                &&& r->Err_0.read_buffer is None
                &&& final(dma)@ == old(dma)@
            },
            self@.send_error(old(dma)@) is None ==> {
                &&& r is Ok
                &&& final(dma)@ == self@.send_bytes(old(dma)@, bytes@, len)
            },
    {
        match self.usart_mode {
            UsartMode::Uart => {},
            _ => {
                let error = UsartError::WrongMode;
                return Err(Rejected { error, write_buffer: bytes, read_buffer: None });
            },
        }
        match self.dma {
            None => {
                let error = UsartError::NoDma;
                Err(Rejected { error, write_buffer: bytes, read_buffer: None })
            },
            Some(ch) => {
                if dma.channel(ch).holds_buffer() {
                    let error = UsartError::Busy;
                    return Err(Rejected { error, write_buffer: bytes, read_buffer: None });
                }
                dma.enable(ch);
                dma.do_xfer(ch, self.dma_peripheral, bytes, len);
                Ok(())
            },
        }
    }

    /// Sets the engine up as an SPI master: starts its clock, programs the
    /// divisor for the bus clock and the mode register for eight bits
    /// without parity with the engine driving the clock, and disables the
    /// transmitter timeguard.
    pub fn init(&mut self)
        ensures
            final(self)@ == old(self)@.init(),
            old(self).wf() ==> final(self).wf(),
    {
        self.usart_mode = UsartMode::Spi;
        self.enable_clock();
        self.write(UsartRegister::Brgr, SPI_DIVISOR);
        self.set_mode(MR_SPI_MASTER);
        self.write(UsartRegister::Ttgr, TIMEGUARD_DISABLED);
    }

    /// Whether the SPI master is busy. It never says so: a request that
    /// comes while a frame is in flight is turned down by
    /// [`Self::read_write_bytes`].
    pub fn is_busy(&self) -> (b: bool)
        ensures
            !b,
    {
        false
    }

    /// Begins the exchange of a frame of `len` bytes: selects the slave,
    /// shifts out the first byte of `write_buffer` and keeps both buffers.
    /// It returns before the frame is exchanged; every receive interrupt
    /// moves the frame on by a byte, and the last one hands the buffers
    /// back. A request that cannot be served is turned down, and the buffers
    /// come back with the reason.
    pub fn read_write_bytes(
        &mut self,
        write_buffer: Buffer,
        read_buffer: Option<Buffer>,
        len: usize,
    ) -> (r: Result<(), Rejected>)
        requires
            old(self).wf(),
        ensures
            final(self).wf(),
            old(self)@.transfer_error(write_buffer@, opt_view(read_buffer), len) matches Some(e)
                ==> {
                &&& r is Err
                &&& r->Err_0.error == e
                &&& r->Err_0.write_buffer@ == write_buffer@
                &&& opt_view(r->Err_0.read_buffer) == opt_view(read_buffer)
                &&& final(self)@ == old(self)@
            },
            old(self)@.transfer_error(write_buffer@, opt_view(read_buffer), len) is None ==> {
                &&& r is Ok
                &&& final(self)@ == old(self)@.read_write_bytes(
                    write_buffer@,
                    opt_view(read_buffer),
                    len,
                )
            },
    {
        match self.usart_mode {
            UsartMode::Spi => {},
            _ => {
                return Err(Rejected { error: UsartError::WrongMode, write_buffer, read_buffer });
            },
        }
        if self.spi.is_some() {
            return Err(Rejected { error: UsartError::Busy, write_buffer, read_buffer });
        }
        let read_fits: bool = match &read_buffer {
            Some(r) => len <= r.len(),
            None => true,
        };
        if len == 0 || len > write_buffer.len() || !read_fits {
            return Err(Rejected { error: UsartError::InvalidLength, write_buffer, read_buffer });
        }
        self.enable_rx_interrupts();
        self.write(UsartRegister::Cr, CR_RXEN_TXEN);
        self.write(UsartRegister::Cr, CR_CS_LOW);
        self.write(UsartRegister::Thr, write_buffer.get(0) as u32);
        self.spi = Some(SpiTransfer { write_buffer, read_buffer, len, idx: 0 });
        Ok(())
    }

    /// Takes a byte of the SPI frame in flight and says which callback is
    /// due. The byte is stored at the cursor where there is a read buffer
    /// and dropped where there is none. After the last byte of the frame the
    /// slave is released, receiver and transmitter are disabled, and both
    /// buffers leave the engine: in the callback for an exchanged frame, or
    /// back to the caller where no SPI client is registered. After any other
    /// byte the next byte of the write buffer is shifted out. Without a
    /// frame in flight the byte is dropped.
    pub fn spi_got_byte(&mut self, byte: u8) -> (event: UsartEvent)
        requires
            old(self).wf(),
        ensures
            final(self).wf(),
            final(self)@ == old(self)@.spi_got_byte(byte),
            event@ == old(self)@.spi_got_byte_event(byte),
    {
        match self.spi.take() {
            None => UsartEvent::Nothing,
            Some(transfer) => {
                let SpiTransfer { write_buffer, read_buffer, len, idx } = transfer;
                let read_buffer = match read_buffer {
                    Some(rbuf) => {
                        let mut rbuf = rbuf;
                        rbuf.set(idx, byte);
                        Some(rbuf)
                    },
                    None => None,
                };
                if idx == len - 1 {
                    self.write(UsartRegister::Cr, CR_CS_HIGH);
                    self.write(UsartRegister::Cr, CR_RXDIS_TXDIS);
                    match self.client {
                        Some(UsartClient::SpiMaster) => UsartEvent::ReadWriteDone {
                            write_buffer,
                            read_buffer,
                            len,
                        },
                        _ => UsartEvent::Unclaimed { write_buffer, read_buffer },
                    }
                } else {
                    let next: u8 = write_buffer.get(idx + 1);
                    self.write(UsartRegister::Thr, next as u32);
                    self.spi = Some(SpiTransfer { write_buffer, read_buffer, len, idx: idx + 1 });
                    UsartEvent::Nothing
                }
            },
        }
    }

    /// Serves an interrupt of the engine and says which callback is due.
    /// Where a received byte is waiting, a UART hands it to its client at
    /// once and an SPI master takes it into the frame in flight. Otherwise
    /// nothing happens.
    pub fn handle_interrupt(&mut self) -> (event: UsartEvent)
        requires
            old(self).wf(),
        ensures
            final(self).wf(),
            final(self)@ == old(self)@.handle_interrupt(),
            event@ == old(self)@.handle_interrupt_event(),
    {
        if self.rx_ready() {
            let c: u8 = #[verifier::truncate] (self.registers.rhr as u8);
            match self.usart_mode {
                UsartMode::Uart => {
                    match self.client {
                        Some(UsartClient::Uart) => UsartEvent::ReadDone(c),
                        _ => UsartEvent::Nothing,
                    }
                },
                UsartMode::Spi => self.spi_got_byte(c),
                UsartMode::Unused => UsartEvent::Nothing,
            }
        } else {
            UsartEvent::Nothing
        }
    }

    /// Plays the hardware: shifts `byte` in, raises the receive interrupt and
    /// has it served. This is what a receive interrupt looks like to the
    /// engine, for whoever drives it without a device.
    pub fn receive(&mut self, byte: u8) -> (event: UsartEvent)
        requires
            old(self).wf(),
        ensures
            final(self).wf(),
            final(self)@ == old(self)@.receive(byte),
            event@ == old(self)@.receive_event(byte),
    {
        self.latch(UsartRegister::Csr, RXRDY);
        self.latch(UsartRegister::Rhr, byte as u32);
        self.handle_interrupt()
    }

    /// Enables receiver and transmitter and shifts out the probe byte,
    /// whatever `val` is.
    pub fn write_byte(&mut self, val: u8)
        ensures
            final(self)@ == old(self)@.write(UsartRegister::Cr, CR_RXEN_TXEN).write(
                UsartRegister::Thr,
                WRITE_BYTE_PROBE,
            ),
    {
        self.write(UsartRegister::Cr, CR_RXEN_TXEN);
        self.write(UsartRegister::Thr, WRITE_BYTE_PROBE);
    }

    /// Exchanges nothing and answers zero.
    pub fn read_write_byte(&self, val: u8) -> (r: u8)
        ensures
            r == 0,
    {
        0
    }

    /// Says whether the chip select `cs` was applied. None ever is: the
    /// engine has one chip select line.
    pub fn set_chip_select(&self, cs: u8) -> (applied: bool)
        ensures
            !applied,
    {
        false
    }

    /// The chip select in use: always the first.
    pub fn get_chip_select(&self) -> (cs: u8)
        ensures
            cs == 0,
    {
        0
    }

    /// Says which rate was set for a request of `rate`. None ever is: the
    /// rate is fixed by [`Self::init`].
    pub fn set_rate(&self, rate: u32) -> (actual: u32)
        ensures
            actual == 0,
    {
        0
    }

    /// The rate that was set through [`Self::set_rate`]: none.
    pub fn get_rate(&self) -> (rate: u32)
        ensures
            rate == 0,
    {
        0
    }

    /// Sets the level at which the SPI clock idles, and leaves the rest of
    /// the mode register as it is.
    pub fn set_clock(&mut self, polarity: ClockPolarity)
        ensures
            final(self)@ == old(self)@.set_clock(polarity),
    {
        let mode: u32 = self.registers.mr;
        match polarity {
            ClockPolarity::IdleLow => {
                self.write(UsartRegister::Mr, mode & !MR_CPOL);
            },
            ClockPolarity::IdleHigh => {
                self.write(UsartRegister::Mr, mode | MR_CPOL);
            },
        }
    }

    /// The level at which the SPI clock idles.
    pub fn get_clock(&self) -> (polarity: ClockPolarity)
        ensures
            polarity == self@.get_clock(),
    {
        let mode: u32 = self.registers.mr;
        if mode & MR_CPOL == 0 {
            ClockPolarity::IdleLow
        } else {
            ClockPolarity::IdleHigh
        }
    }

    /// Sets the phase bit of the mode register for sampling on the leading
    /// edge and clears it for sampling on the trailing edge, and leaves the
    /// rest of the register as it is.
    pub fn set_phase(&mut self, phase: ClockPhase)
        ensures
            final(self)@ == old(self)@.set_phase(phase),
    {
        let mode: u32 = self.registers.mr;
        match phase {
            ClockPhase::SampleLeading => {
                self.write(UsartRegister::Mr, mode | MR_CPHA);
            },
            ClockPhase::SampleTrailing => {
                self.write(UsartRegister::Mr, mode & !MR_CPHA);
            },
        }
    }

    /// The edge of the SPI clock on which data is sampled, as the phase bit
    /// of the mode register has it: the leading edge where the bit is set,
    /// the trailing edge where it is clear.
    pub fn get_phase(&self) -> (phase: ClockPhase)
        ensures
            phase == self@.get_phase(),
    {
        let mode: u32 = self.registers.mr;
        if mode & MR_CPHA == 0 {
            ClockPhase::SampleTrailing
        } else {
            ClockPhase::SampleLeading
        }
    }
}

impl DMAClient for USART {
    type Event = UsartEvent;

    /// The engine stays as it is, the controller is as
    /// [`UsartView::xfer_done`] has it, and the callback that is due is as
    /// [`UsartView::xfer_done_event`] has it.
    open spec fn heard(
        before: &Self,
        dma_before: DmaView,
        pid: DMAPeripheral,
        after: &Self,
        dma_after: DmaView,
        event: &UsartEvent,
    ) -> bool {
        &&& after@ == before@
        &&& dma_after == before@.xfer_done(dma_before)
        &&& event@ == before@.xfer_done_event(dma_before)
    }

    /// Hears that the attached DMA channel of `dma` is done with the request
    /// line `pid`: aborts the transfer, disables the channel, and says which
    /// callback is due. The buffer that the channel held goes to the UART
    /// client's callback for a sent buffer, or back to the caller where no
    /// UART client is registered. Where the channel held none, or none is
    /// attached, no callback is due.
    fn xfer_done(&mut self, dma: &mut Dma, pid: DMAPeripheral) -> (event: UsartEvent) {
        let buffer = match self.dma {
            Some(ch) => {
                let buf = dma.abort_xfer(ch);
                dma.disable(ch);
                buf
            },
            None => None,
        };
        match buffer {
            Some(buf) => {
                match self.client {
                    Some(UsartClient::Uart) => UsartEvent::WriteDone(buf),
                    _ => UsartEvent::Unclaimed { write_buffer: buf, read_buffer: None },
                }
            },
            None => UsartEvent::Nothing,
        }
    }
}

} // verus!
