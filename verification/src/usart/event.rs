//! What the engine hands back: the callbacks that are due, and the requests
//! that it turned down.

use vstd::prelude::*;
use crate::buffer::{opt_view, Buffer, BufferView};
use crate::usart::config::UsartError;

verus! {

/// What an event is, mathematically.
pub enum EventView {
    Nothing,
    ReadDone(u8),
    WriteDone(BufferView),
    ReadWriteDone { write_buffer: BufferView, read_buffer: Option<BufferView>, len: usize },
    Unclaimed { write_buffer: BufferView, read_buffer: Option<BufferView> },
}

/// What the client of the engine is due.
#[derive(Debug, PartialEq, Eq)]
pub enum UsartEvent {
    /// No callback is due.
    Nothing,
    /// The UART received this byte: the client's callback for a received
    /// byte is due.
    ReadDone(u8),
    /// The DMA channel has sent this buffer: the client's callback for a
    /// sent buffer is due, and takes the buffer.
    WriteDone(Buffer),
    /// The SPI master has exchanged a frame of `len` bytes: the client's
    /// callback for an exchanged frame is due, and takes both buffers.
    ReadWriteDone { write_buffer: Buffer, read_buffer: Option<Buffer>, len: usize },
    /// A transfer has ended and no client of the right kind is registered:
    /// the buffers go back to whoever drives the engine.
    Unclaimed { write_buffer: Buffer, read_buffer: Option<Buffer> },
}

impl View for UsartEvent {
    type V = EventView;

    open spec fn view(&self) -> EventView {
        match *self {
            UsartEvent::Nothing => EventView::Nothing,
            UsartEvent::ReadDone(byte) => EventView::ReadDone(byte),
            UsartEvent::WriteDone(buffer) => EventView::WriteDone(buffer@),
            UsartEvent::ReadWriteDone { write_buffer, read_buffer, len } => {
                EventView::ReadWriteDone {
                    write_buffer: write_buffer@,
                    read_buffer: opt_view(read_buffer),
                    len,
                }
            },
            UsartEvent::Unclaimed { write_buffer, read_buffer } => EventView::Unclaimed {
                write_buffer: write_buffer@,
                read_buffer: opt_view(read_buffer),
            },
        }
    }
}

/// A request that the engine turned down, with the buffers that came with it.
#[derive(Debug, PartialEq, Eq)]
pub struct Rejected {
    pub error: UsartError,
    pub write_buffer: Buffer,
    pub read_buffer: Option<Buffer>,
}

} // verus!
