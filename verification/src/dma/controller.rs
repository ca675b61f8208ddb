//! The controller: the owner of the sixteen channels and of the count of
//! enabled channels that gates their clock.

use vstd::prelude::*;
use crate::buffer::{opt_view, Buffer};
use crate::dma::channel::{ChannelView, DMAChannel, DmaClock};
use crate::dma::peripheral::{DMAChannelNum, DMAPeripheral};
use crate::dma::registers::{DmaEffect, DmaRegister, DMA_CHANNELS};

verus! {

/// Somebody who hears of completed transfers.
pub trait DMAClient: Sized {
    /// What the client has to say once it has heard.
    type Event;

    /// What hearing of a completed transfer on `pid` amounts to for this
    /// client: how the client and the controller are afterwards, and what
    /// the client has to say. A client that says nothing of itself promises
    /// nothing.
    open spec fn heard(
        before: &Self,
        dma_before: DmaView,
        pid: DMAPeripheral,
        after: &Self,
        dma_after: DmaView,
        event: &Self::Event,
    ) -> bool {
        true
    }

    /// Hears that a transfer on the request line `pid` is complete. The
    /// channel still holds the buffer: to take it back is up to the client.
    fn xfer_done(&mut self, dma: &mut Dma, pid: DMAPeripheral) -> (event: Self::Event)
        requires
            old(dma).wf(),
        ensures
            final(dma).wf(),
            Self::heard(old(self), old(dma)@, pid, final(self), final(dma)@, &event),
    ;
}

/// How many of `channels` are enabled.
pub open spec fn enabled_count(channels: Seq<ChannelView>) -> nat
    decreases channels.len(),
{
    if channels.len() == 0 {
        0
    } else {
        enabled_count(channels.drop_last()) + if channels.last().enabled {
            1nat
        } else {
            0nat
        }
    }
}

/// No more channels are enabled than there are.
pub proof fn enabled_count_bounded(channels: Seq<ChannelView>)
    ensures
        enabled_count(channels) <= channels.len(),
    decreases channels.len(),
{
    if channels.len() > 0 {
        enabled_count_bounded(channels.drop_last());
    }
}

/// Where no channel is enabled the count is zero.
pub proof fn enabled_count_of_disabled(channels: Seq<ChannelView>)
    requires
        forall|i: int| 0 <= i < channels.len() ==> !(#[trigger] channels[i]).enabled,
    ensures
        enabled_count(channels) == 0,
    decreases channels.len(),
{
    if channels.len() > 0 {
        enabled_count_of_disabled(channels.drop_last());
    }
}

/// Replacing one channel changes the count by what that channel adds to it.
pub proof fn enabled_count_update(channels: Seq<ChannelView>, i: int, c: ChannelView)
    requires
        0 <= i < channels.len(),
    ensures
        enabled_count(channels.update(i, c)) + (if channels[i].enabled {
            1nat
        } else {
            0nat
        }) == enabled_count(channels) + (if c.enabled {
            1nat
        } else {
            0nat
        }),
    decreases channels.len(),
{
    let updated = channels.update(i, c);
    if i == channels.len() - 1 {
        assert(updated.drop_last() =~= channels.drop_last());
    } else {
        enabled_count_update(channels.drop_last(), i, c);
        assert(updated.drop_last() =~= channels.drop_last().update(i, c));
    }
}

/// What the controller is, mathematically: its channels, in order, and the
/// count by which its clock is gated.
pub struct DmaView {
    pub channels: Seq<ChannelView>,
    pub active: int,
}

impl DmaView {
    /// The controller has its sixteen channels, each in its place and bound
    /// to its own interrupt line, and counts exactly the enabled ones.
    pub open spec fn wf(self) -> bool {
        &&& self.channels.len() == DMA_CHANNELS
        &&& forall|i: int|
            0 <= i < self.channels.len() ==> {
                &&& (#[trigger] self.channels[i]).num.spec_index() == i
                &&& self.channels[i].nvic == self.channels[i].num.spec_interrupt()
            }
        &&& self.active == enabled_count(self.channels)
    }

    /// Whether the clock of the controller runs.
    pub open spec fn running(self) -> bool {
        self.active > 0
    }

    /// The channel `ch`.
    pub open spec fn channel(self, ch: DMAChannelNum) -> ChannelView {
        self.channels[ch.spec_index() as int]
    }

    /// The controller with `c` in the place of channel `ch`.
    pub open spec fn with_channel(self, ch: DMAChannelNum, c: ChannelView) -> DmaView {
        DmaView { channels: self.channels.update(ch.spec_index() as int, c), ..self }
    }

    /// The controller after channel `ch` was enabled.
    pub open spec fn enable(self, ch: DMAChannelNum) -> DmaView {
        DmaView {
            channels: self.channels.update(
                ch.spec_index() as int,
                self.channel(ch).enable(self.active),
            ),
            active: self.channel(ch).active_after_enable(self.active),
        }
    }

    /// The controller after channel `ch` was disabled.
    pub open spec fn disable(self, ch: DMAChannelNum) -> DmaView {
        DmaView {
            channels: self.channels.update(
                ch.spec_index() as int,
                self.channel(ch).disable(self.active),
            ),
            active: self.channel(ch).active_after_disable(self.active),
        }
    }

    /// In a sound controller the count leaves room for every channel that is
    /// not enabled, and is above zero while one is.
    pub proof fn count_in_range(self, ch: DMAChannelNum)
        requires
            self.wf(),
        ensures
            0 <= self.active <= DMA_CHANNELS,
            !self.channel(ch).enabled ==> self.active < DMA_CHANNELS,
            self.channel(ch).enabled ==> self.active > 0,
    {
        let i = ch.spec_index() as int;
        let c = self.channels[i];
        enabled_count_bounded(self.channels);
        let flipped = ChannelView { enabled: !c.enabled, ..c };
        enabled_count_update(self.channels, i, flipped);
        enabled_count_bounded(self.channels.update(i, flipped));
    }

    /// Replacing a channel by one with the same number, the same interrupt
    /// line and the same enabled flag keeps the controller sound.
    pub proof fn with_channel_wf(self, ch: DMAChannelNum, c: ChannelView)
        requires
            self.wf(),
            c.num == ch,
            c.nvic == self.channel(ch).nvic,
            c.enabled == self.channel(ch).enabled,
        ensures
            self.with_channel(ch, c).wf(),
    {
        enabled_count_update(self.channels, ch.spec_index() as int, c);
    }

    /// Enabling a channel keeps the controller sound.
    pub proof fn enable_wf(self, ch: DMAChannelNum)
        requires
            self.wf(),
        ensures
            self.enable(ch).wf(),
            self.enable(ch).channel(ch).enabled,
    {
        enabled_count_update(
            self.channels,
            ch.spec_index() as int,
            self.channel(ch).enable(self.active),
        );
    }

    /// Disabling a channel keeps the controller sound.
    pub proof fn disable_wf(self, ch: DMAChannelNum)
        requires
            self.wf(),
        ensures
            self.disable(ch).wf(),
            !self.disable(ch).channel(ch).enabled,
    {
        enabled_count_update(
            self.channels,
            ch.spec_index() as int,
            self.channel(ch).disable(self.active),
        );
    }
}

/// The controller: the single owner of the sixteen channels and of the count
/// that gates their clock.
#[derive(Debug, PartialEq, Eq)]
pub struct Dma {
    channels: Vec<DMAChannel>,
    clock: DmaClock,
}

impl View for Dma {
    type V = DmaView;

    closed spec fn view(&self) -> DmaView {
        DmaView {
            channels: self.channels@.map_values(|c: DMAChannel| c@),
            active: self.clock.spec_active() as int,
        }
    }
}

impl Dma {
    /// The controller is sound, as [`DmaView::wf`] has it.
    pub open spec fn wf(&self) -> bool {
        self@.wf()
    }

    /// The controller as it is after reset: sixteen channels with nothing
    /// done to them, none enabled.
    pub fn new() -> (d: Dma)
        ensures
            d.wf(),
            d@.active == 0,
            forall|ch: DMAChannelNum|
                #[trigger] d@.channel(ch) == ChannelView::fresh(ch, ch.spec_interrupt()),
    {
        let mut channels: Vec<DMAChannel> = Vec::new();
        let mut i: usize = 0;
        while i < DMA_CHANNELS
            invariant
                i <= DMA_CHANNELS,
                channels.len() == i,
                forall|j: int|
                    0 <= j < i ==> {
                        &&& (#[trigger] channels@[j])@.num.spec_index() == j
                        &&& channels@[j]@ == ChannelView::fresh(
                            channels@[j]@.num,
                            channels@[j]@.num.spec_interrupt(),
                        )
                    },
            decreases DMA_CHANNELS - i,
        {
            match DMAChannelNum::from_index(i) {
                Some(num) => {
                    channels.push(DMAChannel::new(num, num.interrupt()));
                },
                None => {},
            }
            i = i + 1;
        }
        let d = Dma { channels, clock: DmaClock::new() };
        proof {
            enabled_count_of_disabled(d@.channels);
        }
        d
    }

    /// How many channels are enabled.
    pub fn active(&self) -> (n: usize)
        ensures
            n == self@.active,
    {
        self.clock.active()
    }

    /// Whether the clock of the controller runs.
    pub fn running(&self) -> (b: bool)
        ensures
            b == self@.running(),
    {
        self.clock.running()
    }

    /// The channel `ch`, read only.
    pub fn channel(&self, ch: DMAChannelNum) -> (c: &DMAChannel)
        requires
            self.wf(),
        ensures
            c@ == self@.channel(ch),
    {
        &self.channels[ch.index()]
    }

    /// Enables channel `ch`. The channel's interrupt line is unmasked in any
    /// case. Enabling an enabled channel does nothing else. Otherwise the
    /// count goes up by one, the controller's clocks are started if no
    /// channel was enabled, and the channel's interrupt sources are
    /// silenced.
    pub fn enable(&mut self, ch: DMAChannelNum)
        requires
            old(self).wf(),
        ensures
            final(self).wf(),
            final(self)@ == old(self)@.enable(ch),
            final(self)@.channel(ch).enabled,
    {
        proof {
            self@.count_in_range(ch);
            self@.enable_wf(ch);
        }
        let i: usize = ch.index();
        self.channels[i].enable(&mut self.clock);
        assert(self@.channels =~= old(self)@.enable(ch).channels);
    }

    /// Disables channel `ch`. Disabling a disabled channel changes nothing.
    /// Otherwise the count goes down by one, the controller's clocks are
    /// stopped if no channel stays enabled, the channel's transfer is
    /// stopped and its interrupt line masked.
    pub fn disable(&mut self, ch: DMAChannelNum)
        requires
            old(self).wf(),
        ensures
            final(self).wf(),
            final(self)@ == old(self)@.disable(ch),
            !final(self)@.channel(ch).enabled,
    {
        proof {
            self@.count_in_range(ch);
            self@.disable_wf(ch);
        }
        let i: usize = ch.index();
        self.channels[i].disable(&mut self.clock);
        assert(self@.channels =~= old(self)@.disable(ch).channels);
    }

    /// The entry of the interrupt of channel `ch`, as
    /// [`DMAChannel::pdca_handler`] has it.
    pub fn pdca_handler(&mut self, ch: DMAChannelNum)
        requires
            old(self).wf(),
        ensures
            final(self).wf(),
            final(self)@ == old(self)@.with_channel(ch, old(self)@.channel(ch).pdca_handler()),
    {
        proof {
            self@.with_channel_wf(ch, self@.channel(ch).pdca_handler());
        }
        let i: usize = ch.index();
        self.channels[i].pdca_handler();
        assert(self@.channels =~= old(self)@.channels.update(
            i as int,
            old(self)@.channel(ch).pdca_handler(),
        ));
    }

    /// Whether the peripheral select register of channel `ch` holds the code
    /// of a request line, as it must for an interrupt of the channel to be
    /// served.
    pub fn selects_a_peripheral(&self, ch: DMAChannelNum) -> (b: bool)
        requires
            self.wf(),
        ensures
            b == self@.channel(ch).selects_a_peripheral(),
    {
        self.channels[ch.index()].selects_a_peripheral()
    }

    /// Says what an interrupt of channel `ch` amounts to, as
    /// [`DMAChannel::handle_interrupt`] does.
    pub fn handle_interrupt(&self, ch: DMAChannelNum) -> (r: Option<DMAPeripheral>)
        requires
            self.wf(),
            self@.channel(ch).selects_a_peripheral(),
        ensures
            r == self@.channel(ch).handle_interrupt(),
    {
        self.channels[ch.index()].handle_interrupt()
    }

    /// Serves an interrupt of channel `ch`, whose peripheral select register
    /// names a request line. Where a client is registered, `client` hears of
    /// that line, once, and what it has to say is handed on. Where no client
    /// is registered nothing happens. A register that names no request line
    /// means corrupt hardware, which nothing here recovers from: the caller
    /// has to rule it out.
    pub fn service_interrupt<C: DMAClient>(&mut self, ch: DMAChannelNum, client: &mut C)
        -> (r: Option<C::Event>)
        requires
            old(self).wf(),
            old(self)@.channel(ch).selects_a_peripheral(),
        ensures
            final(self).wf(),
            match old(self)@.channel(ch).handle_interrupt() {
                Some(pid) => r matches Some(event) && C::heard(
                    old(client),
                    old(self)@,
                    pid,
                    final(client),
                    final(self)@,
                    &event,
                ),
                None => r is None && final(self)@ == old(self)@ && *final(client) == *old(
                    client,
                ),
            },
    {
        match self.handle_interrupt(ch) {
            Some(pid) => {
                let event = client.xfer_done(self, pid);
                Some(event)
            },
            None => None,
        }
    }

    /// Starts the transfer that was programmed on channel `ch`.
    pub fn start_xfer(&mut self, ch: DMAChannelNum)
        requires
            old(self).wf(),
        ensures
            final(self).wf(),
            final(self)@ == old(self)@.with_channel(ch, old(self)@.channel(ch).start_xfer()),
    {
        proof {
            self@.with_channel_wf(ch, self@.channel(ch).start_xfer());
        }
        let i: usize = ch.index();
        self.channels[i].start_xfer();
        assert(self@.channels =~= old(self)@.channels.update(
            i as int,
            old(self)@.channel(ch).start_xfer(),
        ));
    }

    /// Programs a transfer on channel `ch`, as [`DMAChannel::prepare_xfer`]
    /// does, and hands back the buffer that the channel held before.
    pub fn prepare_xfer(&mut self, ch: DMAChannelNum, pid: DMAPeripheral, buf: Buffer, len: usize)
        -> (displaced: Option<Buffer>)
        requires
            old(self).wf(),
        ensures
            final(self).wf(),
            final(self)@ == old(self)@.with_channel(
                ch,
                old(self)@.channel(ch).prepare_xfer(pid, buf@, len),
            ),
            opt_view(displaced) == old(self)@.channel(ch).buffer,
    {
        proof {
            self@.with_channel_wf(ch, self@.channel(ch).prepare_xfer(pid, buf@, len));
        }
        let i: usize = ch.index();
        let displaced = self.channels[i].prepare_xfer(pid, buf, len);
        assert(self@.channels =~= old(self)@.channels.update(
            i as int,
            old(self)@.channel(ch).prepare_xfer(pid, buf@, len),
        ));
        displaced
    }

    /// Programs a transfer on channel `ch` and starts it, as
    /// [`DMAChannel::do_xfer`] does, and hands back the buffer that the
    /// channel held before.
    pub fn do_xfer(&mut self, ch: DMAChannelNum, pid: DMAPeripheral, buf: Buffer, len: usize)
        -> (displaced: Option<Buffer>)
        requires
            old(self).wf(),
        ensures
            final(self).wf(),
            final(self)@ == old(self)@.with_channel(
                ch,
                old(self)@.channel(ch).do_xfer(pid, buf@, len),
            ),
            opt_view(displaced) == old(self)@.channel(ch).buffer,
    {
        proof {
            self@.with_channel_wf(ch, self@.channel(ch).do_xfer(pid, buf@, len));
        }
        let i: usize = ch.index();
        let displaced = self.channels[i].do_xfer(pid, buf, len);
        assert(self@.channels =~= old(self)@.channels.update(
            i as int,
            old(self)@.channel(ch).do_xfer(pid, buf@, len),
        ));
        displaced
    }

    /// Aborts the transfer on channel `ch`, as [`DMAChannel::abort_xfer`]
    /// does, and hands back the buffer that the channel held.
    pub fn abort_xfer(&mut self, ch: DMAChannelNum) -> (buf: Option<Buffer>)
        requires
            old(self).wf(),
        ensures
            final(self).wf(),
            final(self)@ == old(self)@.with_channel(ch, old(self)@.channel(ch).abort_xfer()),
            opt_view(buf) == old(self)@.channel(ch).buffer,
    {
        proof {
            self@.with_channel_wf(ch, self@.channel(ch).abort_xfer());
        }
        let i: usize = ch.index();
        let buf = self.channels[i].abort_xfer();
        assert(self@.channels =~= old(self)@.channels.update(
            i as int,
            old(self)@.channel(ch).abort_xfer(),
        ));
        buf
    }

    /// How many bytes the transfer on channel `ch` still has to move.
    pub fn transfer_counter(&self, ch: DMAChannelNum) -> (n: usize)
        requires
            self.wf(),
        ensures
            n == self@.channel(ch).registers.transfer_counter,
    {
        self.channels[ch.index()].transfer_counter()
    }

    /// Registers or unregisters the client of channel `ch`.
    pub fn set_client(&mut self, ch: DMAChannelNum, client: bool)
        requires
            old(self).wf(),
        ensures
            final(self).wf(),
            final(self)@ == old(self)@.with_channel(
                ch,
                ChannelView { client, ..old(self)@.channel(ch) },
            ),
    {
        proof {
            self@.with_channel_wf(ch, ChannelView { client, ..self@.channel(ch) });
        }
        let i: usize = ch.index();
        self.channels[i].set_client(client);
        assert(self@.channels =~= old(self)@.channels.update(
            i as int,
            ChannelView { client, ..old(self)@.channel(ch) },
        ));
    }

    /// Records that the hardware put `value` in `register` of channel `ch`.
    pub fn latch(&mut self, ch: DMAChannelNum, register: DmaRegister, value: usize)
        requires
            old(self).wf(),
        ensures
            final(self).wf(),
            final(self)@ == old(self)@.with_channel(
                ch,
                old(self)@.channel(ch).latch(register, value),
            ),
    {
        proof {
            self@.with_channel_wf(ch, self@.channel(ch).latch(register, value));
        }
        let i: usize = ch.index();
        self.channels[i].latch(register, value);
        assert(self@.channels =~= old(self)@.channels.update(
            i as int,
            old(self)@.channel(ch).latch(register, value),
        ));
    }

    /// Hands out what channel `ch` has asked of the hardware, oldest first,
    /// and leaves nothing to collect.
    pub fn take_effects(&mut self, ch: DMAChannelNum) -> (e: Vec<DmaEffect>)
        requires
            old(self).wf(),
        ensures
            final(self).wf(),
            e@ == old(self)@.channel(ch).effects,
            final(self)@ == old(self)@.with_channel(ch, old(self)@.channel(ch).collected()),
    {
        proof {
            self@.with_channel_wf(ch, self@.channel(ch).collected());
        }
        let i: usize = ch.index();
        let e = self.channels[i].take_effects();
        assert(self@.channels =~= old(self)@.channels.update(
            i as int,
            old(self)@.channel(ch).collected(),
        ));
        e
    }
}

/// Enabling a channel that was not enabled and then disabling it leaves the
/// count of enabled channels, and with it the state of the clock, as they
/// were before.
pub proof fn enable_then_disable_restores_clock(d: DmaView, ch: DMAChannelNum)
    requires
        d.wf(),
        !d.channel(ch).enabled,
    ensures
        d.enable(ch).disable(ch).wf(),
        d.enable(ch).disable(ch).active == d.active,
        d.enable(ch).disable(ch).running() == d.running(),
        !d.enable(ch).disable(ch).channel(ch).enabled,
        forall|other: DMAChannelNum|
            other != ch ==> #[trigger] d.enable(ch).disable(ch).channel(other) == d.channel(
                other,
            ),
{
    d.enable_wf(ch);
    d.enable(ch).disable_wf(ch);
}

/// Disabling a channel that is not enabled changes nothing.
pub proof fn disable_of_disabled_changes_nothing(d: DmaView, ch: DMAChannelNum)
    requires
        d.wf(),
        !d.channel(ch).enabled,
    ensures
        d.disable(ch) == d,
{
    assert(d.disable(ch).channels =~= d.channels);
}

/// Enabling a channel twice is enabling it once, but for the journal: the
/// second time asks once more for the interrupt line to be unmasked, and
/// changes nothing else.
pub proof fn enable_is_idempotent(d: DmaView, ch: DMAChannelNum)
    requires
        d.wf(),
    ensures
        d.enable(ch).enable(ch) == d.enable(ch).with_channel(
            ch,
            d.enable(ch).channel(ch).emit(DmaEffect::EnableInterrupt(d.channel(ch).nvic)),
        ),
        d.enable(ch).enable(ch).active == d.enable(ch).active,
        d.enable(ch).enable(ch).channel(ch).collected() == d.enable(ch).channel(ch).collected(),
{
    assert(d.enable(ch).enable(ch).channels =~= d.enable(ch).with_channel(
        ch,
        d.enable(ch).channel(ch).emit(DmaEffect::EnableInterrupt(d.channel(ch).nvic)),
    ).channels);
}

/// Whenever a channel is enabled, whether it was enabled before or not, the
/// last thing asked of the hardware is that its interrupt line be unmasked.
pub proof fn enable_always_unmasks(d: DmaView, ch: DMAChannelNum)
    requires
        d.wf(),
    ensures
        d.enable(ch).channel(ch).effects.len() > d.channel(ch).effects.len(),
        d.enable(ch).channel(ch).effects.last() == DmaEffect::EnableInterrupt(
            d.channel(ch).nvic,
        ),
        d.enable(ch).channel(ch).enabled,
        d.channel(ch).enabled ==> d.enable(ch).active == d.active,
{
}

/// Disabling a channel twice is disabling it once.
pub proof fn disable_is_idempotent(d: DmaView, ch: DMAChannelNum)
    requires
        d.wf(),
    ensures
        d.disable(ch).disable(ch) == d.disable(ch),
{
    assert(d.disable(ch).disable(ch).channels =~= d.disable(ch).channels);
}

} // verus!
