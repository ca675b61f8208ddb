//! Asynchronous hardware I/O for the SAM4L: the peripheral DMA controller and
//! the USART, which serves both a byte-stream UART and a framed SPI master.
//!
//! The drivers are written against a model of the hardware. Every register
//! block is a plain value, and every store that a driver makes is also
//! appended to a journal of effects. Whoever owns the real device replays the
//! journal against it, in order, and latches what the device reports back
//! into the model before the driver is entered again. A buffer is a move-only
//! handle: it is given to a transfer by value and comes back by value. A
//! driver never calls its client: what a client is due comes back as a value
//! from the entry point that made it due.
//!
//! - [`buffer`]: the buffers that transfers take and give back.
//! - [`dma`]: the DMA controller and its sixteen channels.
//! - [`usart`]: the USART as a UART and as an SPI master.
//! - [`pm`], [`nvic`]: the clocks and interrupt lines that the drivers name.
//! - [`startup`]: the steps that bring the clocks up after reset.
//! - [`fault`]: what the processor reports when it traps.
//! - [`i2c`], [`i2c_dummy`], [`io`]: the two-wire interface of the nRF51, a
//!   scan of its bus, and the console of its development kit.

pub mod buffer;
pub mod dma;
pub mod fault;
pub mod i2c;
pub mod i2c_dummy;
pub mod io;
pub mod nvic;
pub mod pm;
pub mod startup;
pub mod usart;
