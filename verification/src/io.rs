//! The console of the nRF51 development kit: text goes out over the UART,
//! which is set up when the first text is written.

use vstd::prelude::*;
use vstd::slice::slice_to_vec;
use vstd::string::StringSliceAdditionalSpecFns;
use crate::usart::Parity;

verus! {

/// The baud rate of the console.
pub const CONSOLE_BAUD_RATE: u32 = 115200;

/// How many stop bits end a character.
#[derive(Clone, Copy, Debug, PartialEq, Eq, Structural)]
pub enum StopBits {
    One,
    Two,
}

/// How the UART of the console is to be set up.
#[derive(Clone, Copy, Debug, PartialEq, Eq, Structural)]
pub struct UARTParams {
    pub baud_rate: u32,
    pub stop_bits: StopBits,
    pub parity: Parity,
    pub hw_flow_control: bool,
}

/// The setup of the console: 115200 baud, one stop bit, no parity, no
/// handshake.
pub open spec fn console_params() -> UARTParams {
    UARTParams {
        baud_rate: CONSOLE_BAUD_RATE,
        stop_bits: StopBits::One,
        parity: Parity::NoParity,
        hw_flow_control: false,
    }
}

/// What the UART is to do for one piece of text.
#[derive(Debug, PartialEq, Eq)]
pub struct ConsoleOutput {
    /// How to set the UART up first, where it has not been set up yet.
    pub init: Option<UARTParams>,
    /// The bytes to send, each one as soon as the transmitter is ready.
    pub bytes: Vec<u8>,
}

/// The writer of the console. It remembers whether the UART has been set up.
#[derive(Debug, PartialEq, Eq)]
pub struct Writer {
    initialized: bool,
}

impl Writer {
    /// Whether the UART has been set up.
    pub closed spec fn spec_initialized(&self) -> bool {
        self.initialized
    }

    /// A writer whose UART has not been set up.
    pub fn new() -> (w: Writer)
        ensures
            !w.spec_initialized(),
    {
        Writer { initialized: false }
    }

    /// Whether the UART has been set up.
    #[verifier::when_used_as_spec(spec_initialized)]
    pub fn initialized(&self) -> (b: bool)
        ensures
            b == self.spec_initialized(),
    {
        self.initialized
    }

    /// Says what the UART is to do to put `s` on the console: the setup, the
    /// first time and never again, and then the bytes of `s` in order.
    pub fn write_str(&mut self, s: &str) -> (out: ConsoleOutput)
        ensures
            final(self).spec_initialized(),
            out.init == if old(self).spec_initialized() {
                None
            } else {
                Some(console_params())
            },
            out.bytes@ == s.spec_bytes(),
    {
        let init = if !self.initialized {
            self.initialized = true;
            Some(
                UARTParams {
                    baud_rate: CONSOLE_BAUD_RATE,
                    stop_bits: StopBits::One,
                    parity: Parity::NoParity,
                    hw_flow_control: false,
                },
            )
        } else {
            None
        };
        ConsoleOutput { init, bytes: slice_to_vec(s.as_bytes()) }
    }
}

} // verus!
