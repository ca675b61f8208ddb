//! The USART, one hardware engine behind two protocols.
//!
//! As a UART it sends single bytes when the transmitter is ready, sends
//! buffers through a DMA channel, and reports every received byte on its
//! own. As an SPI master it exchanges one frame at a time, a byte per
//! receive interrupt, and hands both buffers back when the last byte of the
//! frame is in.
//!
//! The engine does not call its client. Every entry point that would have
//! something to report returns a [`UsartEvent`] that says which callback is
//! due and with what.

pub mod config;
pub mod engine;
pub mod event;
pub mod laws;
pub mod model;
pub mod registers;

pub use config::{
    ClockPhase, ClockPolarity, Location, Mode, Parity, USARTParams, UsartClient, UsartError,
    UsartMode,
};
pub use engine::{SpiTransfer, USART};
pub use event::{EventView, Rejected, UsartEvent};
pub use laws::{
    frame_completes_once, frame_shifts_out_in_order, frame_stays_sound,
    mode_changes_only_by_setup, phase_round_trip, polarity_round_trip,
    sent_buffer_comes_back_once, spi_setup_disables_timeguard, uart_divisor_rounds_down,
    uart_mode_word_fields,
};
pub use model::{filled, spi_done_event, write_done_event, SpiTransferView, UsartView};
pub use registers::{
    UsartEffect, UsartRegister, UsartRegisters, BASE_ADDRESS, CR_CS_HIGH, CR_CS_LOW, CR_RSTRX,
    CR_RXDIS, CR_RXDIS_TXDIS, CR_RXEN, CR_RXEN_TXEN, CR_TXDIS, CR_TXEN, MR_CPHA, MR_CPOL,
    MR_OVER, MR_SPI_MASTER, RXRDY, SIZE, SPI_DIVISOR, TIMEGUARD, TIMEGUARD_DISABLED, TXRDY,
    UART_CLOCK,
    WRITE_BYTE_PROBE,
};
