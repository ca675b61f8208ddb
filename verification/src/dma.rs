//! The peripheral DMA controller.
//!
//! Sixteen channels move bytes between memory and a peripheral without the
//! processor. Each channel is bound to one interrupt line, holds at most one
//! buffer while a transfer is programmed, and shares one clock with all the
//! others: the clock runs exactly while at least one channel is enabled.

pub mod channel;
pub mod controller;
pub mod peripheral;
pub mod registers;

pub use channel::{
    interrupt_reports_selected_peripheral, prepare_then_abort_returns_buffer,
    programmed_count_fits_buffer, programmed_transfer_reports_its_peripheral,
    unserved_selector_values, ChannelView, DMAChannel, DmaClock,
};
pub use controller::{
    disable_is_idempotent, disable_of_disabled_changes_nothing, enable_always_unmasks,
    enable_is_idempotent, enable_then_disable_restores_clock, enabled_count,
    enabled_count_bounded, enabled_count_of_disabled, enabled_count_update, DMAClient, Dma,
    DmaView,
};
pub use peripheral::{DMAChannelNum, DMAPeripheral};
pub use registers::{
    DMARegisters, DmaEffect, DmaRegister, DMA_BASE_ADDR, DMA_CHANNELS, DMA_CHANNEL_SIZE,
};
