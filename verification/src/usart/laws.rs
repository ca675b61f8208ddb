//! What holds of the engine whatever it is asked and whatever comes in.

use vstd::prelude::*;
use crate::buffer::BufferView;
use crate::dma::{interrupt_reports_selected_peripheral, ChannelView, DmaView};
use crate::usart::config::{ClockPhase, ClockPolarity, USARTParams, UsartMode};
use crate::usart::event::EventView;
use crate::usart::model::{filled, spi_done_event, write_done_event, UsartView};
use crate::usart::registers::{
    UsartEffect, UsartRegister, MR_CPHA, MR_CPOL, MR_OVER, MR_SPI_MASTER, SPI_DIVISOR, UART_CLOCK,
};

verus! {

/// An exchange of `len` bytes that was accepted ends with the interrupt for
/// its last byte and not before. The callback that is then due carries the
/// write buffer as it was given, the length, and the read buffer with the
/// `len` bytes that came in at its start and the rest as it was; where no
/// read buffer was given, it carries none. No interrupt before it makes a
/// callback due, and none after it does.
pub proof fn frame_completes_once(
    u: UsartView,
    write_buffer: BufferView,
    read_buffer: Option<BufferView>,
    len: usize,
    bytes: Seq<u8>,
)
    requires
        u.transfer_error(write_buffer, read_buffer, len) is None,
        bytes.len() == len,
    ensures
        forall|k: int|
            0 <= k < len - 1 ==> #[trigger] u.read_write_bytes(
                write_buffer,
                read_buffer,
                len,
            ).receive_event_at(bytes, k) == EventView::Nothing,
        u.read_write_bytes(write_buffer, read_buffer, len).receive_event_at(bytes, len - 1)
            == spi_done_event(u.client, write_buffer, filled(read_buffer, bytes, len as int), len),
        u.read_write_bytes(write_buffer, read_buffer, len).receive_all(bytes).spi is None,
        forall|byte: u8| #[trigger]
            u.read_write_bytes(write_buffer, read_buffer, len).receive_all(bytes).receive_event(
                byte,
            ) == EventView::Nothing,
{
    let started = u.read_write_bytes(write_buffer, read_buffer, len);
    assert forall|k: int| 0 <= k < len - 1 implies #[trigger] started.receive_event_at(bytes, k)
        == EventView::Nothing by {
        started.frame_progress(bytes, k);
        started.receive_all(bytes.take(k)).receive_delivers(bytes[k]);
    }
    let last = len - 1;
    started.frame_progress(bytes, last);
    let before = started.receive_all(bytes.take(last));
    before.receive_delivers(bytes[last]);
    if read_buffer is Some {
        let r = read_buffer->0;
        assert((bytes.take(last) + r.bytes.skip(last)).update(last, bytes[last]) =~= bytes.take(
            len as int,
        ) + r.bytes.skip(len as int));
    }
    assert(bytes.drop_last() =~= bytes.take(last));
    assert(bytes.last() == bytes[last]);
    let after = started.receive_all(bytes);
    assert(after == before.receive(bytes[last]));
    assert forall|byte: u8| #[trigger] after.receive_event(byte) == EventView::Nothing by {
        after.receive_delivers(byte);
    }
}

/// The bytes of the write buffer leave in order: the exchange begins by
/// shifting out the first, and the interrupt for byte `k` of the frame, if
/// it is not the last, shifts out byte `k + 1`.
pub proof fn frame_shifts_out_in_order(
    u: UsartView,
    write_buffer: BufferView,
    read_buffer: Option<BufferView>,
    len: usize,
    bytes: Seq<u8>,
    k: int,
)
    requires
        u.transfer_error(write_buffer, read_buffer, len) is None,
        bytes.len() == len,
        0 <= k < len - 1,
    ensures
        u.read_write_bytes(write_buffer, read_buffer, len).registers.thr
            == write_buffer.bytes[0] as u32,
        u.read_write_bytes(write_buffer, read_buffer, len).receive_all(
            bytes.take(k + 1),
        ).effects.last() == (UsartEffect::Write {
            register: UsartRegister::Thr,
            value: write_buffer.bytes[k + 1] as u32,
        }),
{
    let started = u.read_write_bytes(write_buffer, read_buffer, len);
    started.frame_progress(bytes, k);
    let before = started.receive_all(bytes.take(k));
    before.receive_delivers(bytes[k]);
    assert(bytes.take(k + 1).drop_last() =~= bytes.take(k));
    assert(bytes.take(k + 1).last() == bytes[k]);
}

/// A buffer that a UART sends through its DMA channel comes back exactly
/// once. The channel never counts more bytes than the buffer holds. The
/// interrupt of the channel is reported as the request line that the engine
/// is bound to. When the engine then hears that the channel is done, the
/// callback that is due carries the buffer as it was given, to the UART
/// client where one is registered; the channel is left without a buffer and
/// disabled, and hearing of it again makes no callback due.
pub proof fn sent_buffer_comes_back_once(
    u: UsartView,
    d: DmaView,
    bytes: BufferView,
    len: usize,
)
    requires
        d.wf(),
        u.send_error(d) is None,
    ensures
        u.send_bytes(d, bytes, len).wf(),
        u.send_bytes(d, bytes, len).channel(u.dma->0).registers.transfer_counter_reload
            == ChannelView::clamp(bytes, len),
        ChannelView::clamp(bytes, len) <= bytes.bytes.len(),
        u.send_bytes(d, bytes, len).channel(u.dma->0).selects_a_peripheral(),
        u.send_bytes(d, bytes, len).channel(u.dma->0).handle_interrupt() == if d.channel(
            u.dma->0,
        ).client {
            Some(u.dma_peripheral)
        } else {
            None
        },
        u.xfer_done_event(u.send_bytes(d, bytes, len)) == write_done_event(u.client, Some(bytes)),
        u.xfer_done(u.send_bytes(d, bytes, len)).wf(),
        u.xfer_done(u.send_bytes(d, bytes, len)).channel(u.dma->0).buffer is None,
        !u.xfer_done(u.send_bytes(d, bytes, len)).channel(u.dma->0).enabled,
        u.xfer_done_event(u.xfer_done(u.send_bytes(d, bytes, len))) == EventView::Nothing,
{
    let ch = u.dma->0;
    d.enable_wf(ch);
    let enabled = d.enable(ch);
    let programmed = enabled.channel(ch).do_xfer(u.dma_peripheral, bytes, len);
    enabled.with_channel_wf(ch, programmed);
    let sent = u.send_bytes(d, bytes, len);
    interrupt_reports_selected_peripheral(sent.channel(ch), u.dma_peripheral);
    let aborted = sent.with_channel(ch, sent.channel(ch).abort_xfer());
    sent.with_channel_wf(ch, sent.channel(ch).abort_xfer());
    aborted.disable_wf(ch);
}

/// The polarity that was set is the polarity that is read, and setting it
/// leaves the phase alone.
pub proof fn polarity_round_trip(u: UsartView, polarity: ClockPolarity)
    ensures
        u.set_clock(polarity).get_clock() == polarity,
        u.set_clock(polarity).registers.mr & MR_CPHA == u.registers.mr & MR_CPHA,
        u.set_clock(polarity).get_phase() == u.get_phase(),
{
    let mr = u.registers.mr;
    assert((mr & !MR_CPOL) & MR_CPOL == 0) by (bit_vector);
    assert((mr | MR_CPOL) & MR_CPOL != 0) by (bit_vector);
    assert((mr & !MR_CPOL) & MR_CPHA == mr & MR_CPHA) by (bit_vector);
    assert((mr | MR_CPOL) & MR_CPHA == mr & MR_CPHA) by (bit_vector);
}

/// The phase that was set is the phase that is read: the phase bit is set
/// for the leading edge and clear for the trailing edge. Setting it leaves
/// the polarity alone.
pub proof fn phase_round_trip(u: UsartView, phase: ClockPhase)
    ensures
        u.set_phase(phase).get_phase() == phase,
        (u.set_phase(phase).registers.mr & MR_CPHA != 0) == (phase == ClockPhase::SampleLeading),
        u.set_phase(phase).get_clock() == u.get_clock(),
{
    let mr = u.registers.mr;
    assert((mr & !MR_CPHA) & MR_CPHA == 0) by (bit_vector);
    assert((mr | MR_CPHA) & MR_CPHA != 0) by (bit_vector);
    assert((mr & !MR_CPHA) & MR_CPOL == mr & MR_CPOL) by (bit_vector);
    assert((mr | MR_CPHA) & MR_CPOL == mr & MR_CPOL) by (bit_vector);
}

/// The fields of the mode register of a UART hold what they were made from:
/// the handshake, the character length, the parity and the oversampling bit
/// do not overlap.
pub proof fn uart_mode_word_fields(params: USARTParams)
    ensures
        UsartView::uart_mode_word(params) & 0xf == params.mode.spec_code(),
        (UsartView::uart_mode_word(params) >> 6) & 0x3 == UsartView::character_length(
            params.data_bits,
        ),
        (UsartView::uart_mode_word(params) >> 9) & 0x7 == params.parity.spec_code(),
        UsartView::uart_mode_word(params) & MR_OVER == MR_OVER,
        UsartView::character_length(params.data_bits) < 4,
{
    let m = params.mode.spec_code();
    let d = ((params.data_bits - 1) as u8);
    let c = (d & 0x3) as u32;
    let p = params.parity.spec_code();
    assert(c < 4) by (bit_vector)
        requires
            c == (d & 0x3) as u32,
    ;
    let w = m | (c << 6) | (p << 9) | MR_OVER;
    assert(w & 0xf == m && (w >> 6) & 0x3 == c && (w >> 9) & 0x7 == p && w & MR_OVER == MR_OVER)
        by (bit_vector)
        requires
            w == m | (c << 6) | (p << 9) | MR_OVER,
            m < 16,
            c < 4,
            p < 8,
    ;
}

/// What the engine is used as changes only when it is set up: setting it up
/// as a UART makes it a UART, setting it up as an SPI master makes it an SPI
/// master, and nothing else that the engine does touches the mode. So an
/// engine that is in use never falls back to being unused.
pub proof fn mode_changes_only_by_setup(
    u: UsartView,
    params: USARTParams,
    byte: u8,
    write_buffer: BufferView,
    read_buffer: Option<BufferView>,
    len: usize,
    polarity: ClockPolarity,
    phase: ClockPhase,
)
    ensures
        u.configure(params).mode == UsartMode::Uart,
        u.init().mode == UsartMode::Spi,
        u.send_byte(byte).mode == u.mode,
        u.read_write_bytes(write_buffer, read_buffer, len).mode == u.mode,
        u.spi_got_byte(byte).mode == u.mode,
        u.handle_interrupt().mode == u.mode,
        u.receive(byte).mode == u.mode,
        u.enable_rx_interrupts().mode == u.mode,
        u.enable_tx_interrupts().mode == u.mode,
        u.disable_rx_interrupts().mode == u.mode,
        u.set_clock(polarity).mode == u.mode,
        u.set_phase(phase).mode == u.mode,
{
}

/// An exchange in flight stays sound through every byte that comes in, and
/// is gone exactly when its last byte has come in.
pub proof fn frame_stays_sound(u: UsartView, byte: u8)
    requires
        u.wf(),
    ensures
        u.spi_got_byte(byte).wf(),
        u.spi_got_byte(byte).spi is Some <==> u.spi is Some && !u.spi->0.at_last(),
        u.spi_got_byte_event(byte) != EventView::Nothing <==> u.spi is Some && u.spi->0.at_last(),
{
}

/// The baud rate divisor is the clock over eight times the baud rate, rounded
/// down: eight times the baud rate goes into the clock that many times and
/// not once more.
pub proof fn uart_divisor_rounds_down(baud_rate: u32)
    requires
        0 < baud_rate,
        8 * baud_rate <= u32::MAX,
    ensures
        UsartView::uart_divisor(baud_rate) * (8 * baud_rate) <= UART_CLOCK,
        UART_CLOCK < (UsartView::uart_divisor(baud_rate) + 1) * (8 * baud_rate),
{
    let c = UART_CLOCK as int;
    let d = 8 * baud_rate;
    let q = c / d;
    assert(0 <= q && q <= c && q * d <= c && c < (q + 1) * d) by (nonlinear_arith)
        requires
            c >= 0,
            d > 0,
            q == c / d,
    ;
}

/// An engine that was set up as an SPI master is an SPI master, with the
/// divisor of the bus clock, the mode of a master and no transmitter
/// timeguard, whatever it was before.
pub proof fn spi_setup_disables_timeguard(u: UsartView)
    ensures
        u.init().mode == UsartMode::Spi,
        u.init().registers.ttgr == 0,
        u.init().registers.brgr == SPI_DIVISOR,
        u.init().registers.mr == MR_SPI_MASTER,
        u.init().effects.last() == (UsartEffect::Write {
            register: UsartRegister::Ttgr,
            value: 0,
        }),
{
}

} // verus!
