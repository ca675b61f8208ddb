//! One channel: its registers, the buffer it holds, and what it has asked of
//! the hardware.

use vstd::prelude::*;
use crate::buffer::{opt_view, Buffer, BufferView};
use crate::dma::peripheral::{DMAChannelNum, DMAPeripheral};
use crate::dma::registers::{
    DMARegisters, DmaEffect, DmaRegister, DMA_BASE_ADDR, DMA_CHANNEL_SIZE,
};
use crate::nvic::NvicIdx;
use crate::pm::{Clock, HSBClock, PBBClock};

verus! {

/// The count of enabled channels, by which the controller's clock is gated.
/// All channels of one controller enable and disable themselves against the
/// same counter.
#[derive(Debug, PartialEq, Eq)]
pub struct DmaClock {
    active: usize,
}

impl DmaClock {
    /// How many channels are enabled.
    pub closed spec fn spec_active(&self) -> usize {
        self.active
    }

    /// Whether the clock of the controller runs: it does while some channel
    /// is enabled.
    pub open spec fn spec_running(&self) -> bool {
        self.spec_active() > 0
    }

    /// A counter at zero: no channel enabled, the clock stopped.
    pub fn new() -> (c: DmaClock)
        ensures
            c.spec_active() == 0,
    {
        DmaClock { active: 0 }
    }

    /// How many channels are enabled.
    #[verifier::when_used_as_spec(spec_active)]
    pub fn active(&self) -> (n: usize)
        ensures
            n == self.spec_active(),
    {
        self.active
    }

    /// Whether the clock of the controller runs.
    #[verifier::when_used_as_spec(spec_running)]
    pub fn running(&self) -> (b: bool)
        ensures
            b == self.spec_running(),
    {
        self.active > 0
    }
}

/// What a channel is, mathematically.
pub struct ChannelView {
    /// Which of the sixteen channels this is.
    pub num: DMAChannelNum,
    /// The interrupt line the channel is bound to.
    pub nvic: NvicIdx,
    /// Whether the channel counts as enabled.
    pub enabled: bool,
    /// Whether somebody is registered to hear of completed transfers.
    pub client: bool,
    /// The buffer that the channel holds, if it holds one.
    pub buffer: Option<BufferView>,
    /// The channel's registers.
    pub registers: DMARegisters,
    /// What the channel has asked of the hardware and nobody has collected
    /// yet, oldest first.
    pub effects: Seq<DmaEffect>,
}

impl ChannelView {
    /// A channel on which nothing has happened yet.
    pub open spec fn fresh(num: DMAChannelNum, nvic: NvicIdx) -> ChannelView {
        ChannelView {
            num,
            nvic,
            enabled: false,
            client: false,
            buffer: None,
            registers: DMARegisters::zeroed(),
            effects: Seq::empty(),
        }
    }

    /// The channel after it asked for `effect`.
    pub open spec fn emit(self, effect: DmaEffect) -> ChannelView {
        ChannelView { effects: self.effects.push(effect), ..self }
    }

    /// The channel after it stored `value` to `register`.
    pub open spec fn write(self, register: DmaRegister, value: usize) -> ChannelView {
        ChannelView {
            registers: self.registers.write(register, value),
            ..self.emit(DmaEffect::Write { register, value })
        }
    }

    /// The channel after the hardware put `value` in `register`.
    pub open spec fn latch(self, register: DmaRegister, value: usize) -> ChannelView {
        ChannelView { registers: self.registers.write(register, value), ..self }
    }

    /// The count of enabled channels after this one was enabled, `active`
    /// having been the count before.
    pub open spec fn active_after_enable(self, active: int) -> int {
        if self.enabled {
            active
        } else {
            active + 1
        }
    }

    /// The channel after it was enabled while `active` channels were. Its
    /// interrupt line is unmasked in any case. An enabled channel is
    /// otherwise left as it is. Another one first starts the controller's
    /// clocks if it is the first and silences its own interrupt sources, and
    /// then counts as enabled.
    pub open spec fn enable(self, active: int) -> ChannelView {
        if self.enabled {
            self.emit(DmaEffect::EnableInterrupt(self.nvic))
        } else {
            let clocked = if active == 0 {
                self.emit(DmaEffect::EnableClock(Clock::HSB(HSBClock::PDCA))).emit(
                    DmaEffect::EnableClock(Clock::PBB(PBBClock::PDCA)),
                )
            } else {
                self
            };
            ChannelView {
                enabled: true,
                ..clocked.write(DmaRegister::InterruptDisable, 0xffff_ffff).emit(
                    DmaEffect::EnableInterrupt(self.nvic),
                )
            }
        }
    }

    /// The count of enabled channels after this one was disabled, `active`
    /// having been the count before.
    pub open spec fn active_after_disable(self, active: int) -> int {
        if self.enabled {
            active - 1
        } else {
            active
        }
    }

    /// The channel after it was disabled while `active` channels were
    /// enabled. A disabled channel stays as it is. An enabled one stops the
    /// controller's clocks if it is the last, stops its transfer, counts as
    /// disabled and has its interrupt line masked.
    pub open spec fn disable(self, active: int) -> ChannelView {
        if !self.enabled {
            self
        } else {
            let clocked = if active == 1 {
                self.emit(DmaEffect::DisableClock(Clock::HSB(HSBClock::PDCA))).emit(
                    DmaEffect::DisableClock(Clock::PBB(PBBClock::PDCA)),
                )
            } else {
                self
            };
            ChannelView {
                enabled: false,
                ..clocked.write(DmaRegister::Control, 0x2).emit(
                    DmaEffect::DisableInterrupt(self.nvic),
                )
            }
        }
    }

    /// The channel after the entry of its interrupt: every interrupt source
    /// silenced, so that the line stays quiet until the interrupt is served.
    pub open spec fn pdca_handler(self) -> ChannelView {
        self.write(DmaRegister::InterruptDisable, 0xffff_ffff)
    }

    /// The channel after its transfer was started.
    pub open spec fn start_xfer(self) -> ChannelView {
        self.write(DmaRegister::Control, 0x1)
    }

    /// How many bytes a transfer of `len` bytes through `buf` moves: `len`,
    /// or all of the buffer where `len` is more than it holds.
    pub open spec fn clamp(buf: BufferView, len: usize) -> usize {
        if len > buf.bytes.len() {
            buf.bytes.len() as usize
        } else {
            len
        }
    }

    /// The channel after a transfer of `len` bytes between `buf` and `pid`
    /// was programmed: the request line selected, the address and the
    /// clamped count put in the reload registers, the interrupt for the end
    /// of the transfer armed, and `buf` in the place of whatever was held.
    pub open spec fn prepare_xfer(self, pid: DMAPeripheral, buf: BufferView, len: usize)
        -> ChannelView {
        ChannelView {
            buffer: Some(buf),
            ..self.write(DmaRegister::PeripheralSelect, pid.spec_code()).write(
                DmaRegister::MemoryAddressReload,
                buf.address,
            ).write(DmaRegister::TransferCounterReload, Self::clamp(buf, len)).write(
                DmaRegister::InterruptEnable,
                0x2,
            )
        }
    }

    /// The channel after a transfer was programmed and started.
    pub open spec fn do_xfer(self, pid: DMAPeripheral, buf: BufferView, len: usize)
        -> ChannelView {
        self.prepare_xfer(pid, buf, len).start_xfer()
    }

    /// The channel after its transfer was aborted: every interrupt source
    /// silenced, the transfer counter at zero, no buffer held.
    pub open spec fn abort_xfer(self) -> ChannelView {
        ChannelView {
            buffer: None,
            ..self.write(DmaRegister::InterruptDisable, usize::MAX).write(
                DmaRegister::TransferCounter,
                0,
            )
        }
    }

    /// Whether the peripheral select register holds the code of a request
    /// line. Where it does not, the hardware is corrupt and nothing can be
    /// made of an interrupt.
    pub open spec fn selects_a_peripheral(self) -> bool {
        DMAPeripheral::is_code(self.registers.peripheral_select)
    }

    /// What an interrupt of the channel amounts to, the peripheral select
    /// register holding the code of a request line: that line is to be
    /// reported to the registered client, if there is one.
    pub open spec fn handle_interrupt(self) -> Option<DMAPeripheral> {
        if self.client {
            Some(DMAPeripheral::with_code(self.registers.peripheral_select))
        } else {
            None
        }
    }

    /// The channel with nothing left to collect.
    pub open spec fn collected(self) -> ChannelView {
        ChannelView { effects: Seq::empty(), ..self }
    }
}

/// One channel of the controller.
#[derive(Debug, PartialEq, Eq)]
pub struct DMAChannel {
    num: DMAChannelNum,
    nvic: NvicIdx,
    client: bool,
    enabled: bool,
    buffer: Option<Buffer>,
    registers: DMARegisters,
    effects: Vec<DmaEffect>,
}

impl View for DMAChannel {
    type V = ChannelView;

    closed spec fn view(&self) -> ChannelView {
        ChannelView {
            num: self.num,
            nvic: self.nvic,
            enabled: self.enabled,
            client: self.client,
            buffer: opt_view(self.buffer),
            registers: self.registers,
            effects: self.effects@,
        }
    }
}

impl DMAChannel {
    /// The channel `channel`, bound to the interrupt line `nvic`, with
    /// nothing done to it yet.
    pub fn new(channel: DMAChannelNum, nvic: NvicIdx) -> (c: DMAChannel)
        ensures
            c@ == ChannelView::fresh(channel, nvic),
    {
        DMAChannel {
            num: channel,
            nvic,
            client: false,
            enabled: false,
            buffer: None,
            registers: DMARegisters::new(),
            effects: Vec::new(),
        }
    }

    /// Which of the sixteen channels this is.
    pub fn num(&self) -> (n: DMAChannelNum)
        ensures
            n == self@.num,
    {
        self.num
    }

    /// The interrupt line the channel is bound to.
    pub fn nvic(&self) -> (n: NvicIdx)
        ensures
            n == self@.nvic,
    {
        self.nvic
    }

    /// Where the channel's register block starts.
    pub fn base_address(&self) -> (a: usize)
        ensures
            a == DMA_BASE_ADDR + self@.num.spec_index() * DMA_CHANNEL_SIZE,
    {
        DMA_BASE_ADDR + self.num.index() * DMA_CHANNEL_SIZE
    }

    /// Where `register` of the channel lies.
    pub fn register_address(&self, register: DmaRegister) -> (a: usize)
        ensures
            a == DMA_BASE_ADDR + self@.num.spec_index() * DMA_CHANNEL_SIZE
                + register.spec_offset(),
    {
        self.base_address() + register.offset()
    }

    /// Whether the channel counts as enabled.
    pub fn is_enabled(&self) -> (b: bool)
        ensures
            b == self@.enabled,
    {
        self.enabled
    }

    /// Whether somebody is registered to hear of completed transfers.
    pub fn has_client(&self) -> (b: bool)
        ensures
            b == self@.client,
    {
        self.client
    }

    /// Whether the channel holds a buffer.
    pub fn holds_buffer(&self) -> (b: bool)
        ensures
            b == self@.buffer is Some,
    {
        self.buffer.is_some()
    }

    /// The channel's registers.
    pub fn registers(&self) -> (r: DMARegisters)
        ensures
            r == self@.registers,
    {
        self.registers
    }

    /// What the channel has asked of the hardware and nobody has collected
    /// yet, oldest first.
    pub fn effects(&self) -> (e: &Vec<DmaEffect>)
        ensures
            e@ == self@.effects,
    {
        &self.effects
    }

    /// Hands out what the channel has asked of the hardware, oldest first,
    /// and leaves nothing to collect.
    pub fn take_effects(&mut self) -> (e: Vec<DmaEffect>)
        ensures
            e@ == old(self)@.effects,
            final(self)@ == old(self)@.collected(),
    {
        let mut e: Vec<DmaEffect> = Vec::new();
        std::mem::swap(&mut self.effects, &mut e);
        e
    }

    /// Registers or unregisters the client that hears of completed
    /// transfers.
    pub fn set_client(&mut self, client: bool)
        ensures
            final(self)@ == (ChannelView { client, ..old(self)@ }),
    {
        self.client = client;
    }

    /// Records that the hardware put `value` in `register`.
    pub fn latch(&mut self, register: DmaRegister, value: usize)
        ensures
            final(self)@ == old(self)@.latch(register, value),
    {
        self.registers.set(register, value);
    }

    fn emit(&mut self, effect: DmaEffect)
        ensures
            final(self)@ == old(self)@.emit(effect),
    {
        self.effects.push(effect);
    }

    fn write(&mut self, register: DmaRegister, value: usize)
        ensures
            final(self)@ == old(self)@.write(register, value),
    {
        self.effects.push(DmaEffect::Write { register, value });
        self.registers.set(register, value);
    }

    /// Enables the channel against the counter `clock`. The channel's
    /// interrupt line is unmasked in any case. Enabling an enabled channel
    /// does nothing else. Otherwise the counter goes up by one, the
    /// controller's clocks are started if it was at zero, and the channel's
    /// interrupt sources are silenced.
    pub fn enable(&mut self, clock: &mut DmaClock)
        requires
            !old(self)@.enabled ==> old(clock).spec_active() < usize::MAX,
        ensures
            final(self)@ == old(self)@.enable(old(clock).spec_active() as int),
            final(clock).spec_active() == old(self)@.active_after_enable(
                old(clock).spec_active() as int,
            ),
            final(self)@.enabled,
    {
        if !self.enabled {
            let num_enabled: usize = clock.active;
            clock.active = num_enabled + 1;
            if num_enabled == 0 {
                self.emit(DmaEffect::EnableClock(Clock::HSB(HSBClock::PDCA)));
                self.emit(DmaEffect::EnableClock(Clock::PBB(PBBClock::PDCA)));
            }
            self.write(DmaRegister::InterruptDisable, 0xffff_ffff);
            self.enabled = true;
        }
        self.emit(DmaEffect::EnableInterrupt(self.nvic));
    }

    /// Disables the channel against the counter `clock`. Disabling a
    /// disabled channel changes nothing. Otherwise the counter goes down by
    /// one, the controller's clocks are stopped if it reaches zero, the
    /// channel's transfer is stopped and its interrupt line masked.
    pub fn disable(&mut self, clock: &mut DmaClock)
        requires
            old(self)@.enabled ==> old(clock).spec_active() > 0,
        ensures
            final(self)@ == old(self)@.disable(old(clock).spec_active() as int),
            final(clock).spec_active() == old(self)@.active_after_disable(
                old(clock).spec_active() as int,
            ),
            !final(self)@.enabled,
    {
        if self.enabled {
            let num_enabled: usize = clock.active;
            clock.active = num_enabled - 1;
            if num_enabled == 1 {
                self.emit(DmaEffect::DisableClock(Clock::HSB(HSBClock::PDCA)));
                self.emit(DmaEffect::DisableClock(Clock::PBB(PBBClock::PDCA)));
            }
            self.write(DmaRegister::Control, 0x2);
            self.enabled = false;
            self.emit(DmaEffect::DisableInterrupt(self.nvic));
        }
    }

    /// The entry of the channel's interrupt: silences every interrupt source
    /// of the channel, so that the line stays quiet until the interrupt is
    /// served.
    pub fn pdca_handler(&mut self)
        ensures
            final(self)@ == old(self)@.pdca_handler(),
    {
        self.write(DmaRegister::InterruptDisable, 0xffff_ffff);
    }

    /// Whether the peripheral select register holds the code of a request
    /// line, as it must for an interrupt of the channel to be served.
    pub fn selects_a_peripheral(&self) -> (b: bool)
        ensures
            b == self@.selects_a_peripheral(),
    {
        DMAPeripheral::from_code(self.registers.peripheral_select).is_some()
    }

    /// Says what an interrupt of the channel amounts to: the request line
    /// that the peripheral select register names, to be reported to the
    /// registered client if there is one. The buffer stays where it is. A
    /// register that names no request line means corrupt hardware, which
    /// nothing here recovers from: the caller has to rule it out.
    pub fn handle_interrupt(&self) -> (r: Option<DMAPeripheral>)
        requires
            self@.selects_a_peripheral(),
        ensures
            r == self@.handle_interrupt(),
    {
        let channel_num: usize = self.registers.peripheral_select;
        match DMAPeripheral::from_code(channel_num) {
            Some(channel) => {
                if self.client {
                    Some(channel)
                } else {
                    None
                }
            },
            None => unreached(),
        }
    }

    /// Starts the transfer that was programmed. The hardware carries it out
    /// by itself.
    pub fn start_xfer(&mut self)
        ensures
            final(self)@ == old(self)@.start_xfer(),
    {
        self.write(DmaRegister::Control, 0x1);
    }

    /// Programs a transfer of `len` bytes between `buf` and `pid`, of all of
    /// `buf` where `len` is more than it holds, and keeps `buf`. A buffer
    /// that the channel held before is handed back.
    pub fn prepare_xfer(&mut self, pid: DMAPeripheral, buf: Buffer, len: usize)
        -> (displaced: Option<Buffer>)
        ensures
            final(self)@ == old(self)@.prepare_xfer(pid, buf@, len),
            opt_view(displaced) == old(self)@.buffer,
    {
        let mut len: usize = len;
        if len > buf.len() {
            len = buf.len();
        }
        self.write(DmaRegister::PeripheralSelect, pid.code());
        self.write(DmaRegister::MemoryAddressReload, buf.address());
        self.write(DmaRegister::TransferCounterReload, len);
        self.write(DmaRegister::InterruptEnable, 0x2);
        let displaced = self.buffer.take();
        self.buffer = Some(buf);
        displaced
    }

    /// Programs a transfer as [`Self::prepare_xfer`] does and starts it.
    pub fn do_xfer(&mut self, pid: DMAPeripheral, buf: Buffer, len: usize)
        -> (displaced: Option<Buffer>)
        ensures
            final(self)@ == old(self)@.do_xfer(pid, buf@, len),
            opt_view(displaced) == old(self)@.buffer,
    {
        let displaced = self.prepare_xfer(pid, buf, len);
        self.start_xfer();
        displaced
    }

    /// Aborts the transfer: silences the channel's interrupt sources, puts
    /// the transfer counter at zero and hands back the buffer that the
    /// channel held, if it held one. What the hardware had moved before is
    /// not undone.
    pub fn abort_xfer(&mut self) -> (buf: Option<Buffer>)
        ensures
            final(self)@ == old(self)@.abort_xfer(),
            opt_view(buf) == old(self)@.buffer,
    {
        self.write(DmaRegister::InterruptDisable, usize::MAX);
        self.write(DmaRegister::TransferCounter, 0);
        self.buffer.take()
    }

    /// How many bytes the transfer still has to move, as the transfer
    /// counter has it.
    pub fn transfer_counter(&self) -> (n: usize)
        ensures
            n == self@.registers.transfer_counter,
    {
        self.registers.transfer_counter
    }
}

/// A transfer that is programmed and at once aborted gives back the very
/// buffer it was programmed with, and leaves the transfer counter at zero
/// and the channel without a buffer.
pub proof fn prepare_then_abort_returns_buffer(
    c: ChannelView,
    pid: DMAPeripheral,
    buf: BufferView,
    len: usize,
)
    ensures
        c.prepare_xfer(pid, buf, len).buffer == Some(buf),
        c.prepare_xfer(pid, buf, len).abort_xfer().buffer is None,
        c.prepare_xfer(pid, buf, len).abort_xfer().registers.transfer_counter == 0,
{
}

/// A programmed transfer never counts more bytes than its buffer holds.
pub proof fn programmed_count_fits_buffer(
    c: ChannelView,
    pid: DMAPeripheral,
    buf: BufferView,
    len: usize,
)
    ensures
        c.prepare_xfer(pid, buf, len).registers.transfer_counter_reload <= buf.bytes.len(),
        c.prepare_xfer(pid, buf, len).registers.transfer_counter_reload <= len,
        len <= buf.bytes.len() ==> c.prepare_xfer(
            pid,
            buf,
            len,
        ).registers.transfer_counter_reload == len,
        c.prepare_xfer(pid, buf, len).registers.memory_address_reload == buf.address,
{
}

/// An interrupt on a channel whose peripheral select register holds the code
/// of `p` can be served, and is reported to the registered client as `p` and
/// as nothing else.
pub proof fn interrupt_reports_selected_peripheral(c: ChannelView, p: DMAPeripheral)
    requires
        c.registers.peripheral_select == p.spec_code(),
    ensures
        c.selects_a_peripheral(),
        c.client ==> c.handle_interrupt() == Some(p),
        !c.client ==> c.handle_interrupt() is None,
{
    DMAPeripheral::code_round_trip(p);
}

/// The values of the peripheral select register on which an interrupt cannot
/// be served are 13 and everything above 38, and no others.
pub proof fn unserved_selector_values(c: ChannelView)
    ensures
        !c.selects_a_peripheral() <==> c.registers.peripheral_select == 13
            || c.registers.peripheral_select > 38,
{
    let code = c.registers.peripheral_select;
    if code == 13 || code > 38 {
        assert forall|p: DMAPeripheral| p.spec_code() != code by {
            DMAPeripheral::code_is_assigned(p);
        }
    } else {
        DMAPeripheral::every_other_code_is_assigned(code);
    }
}

/// An interrupt that follows a programmed transfer is reported as the
/// request line that the transfer was programmed for.
pub proof fn programmed_transfer_reports_its_peripheral(
    c: ChannelView,
    pid: DMAPeripheral,
    buf: BufferView,
    len: usize,
)
    requires
        c.client,
    ensures
        c.do_xfer(pid, buf, len).selects_a_peripheral(),
        c.do_xfer(pid, buf, len).handle_interrupt() == Some(pid),
        c.do_xfer(pid, buf, len).registers.control == 0x1,
{
    interrupt_reports_selected_peripheral(c.do_xfer(pid, buf, len), pid);
}

} // verus!
