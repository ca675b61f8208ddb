//! A scan of the two-wire bus for slaves: every address from 1 to 127 is
//! written to in turn, and each that answers is reported.

use vstd::prelude::*;
use crate::buffer::Buffer;
use crate::i2c::Error;

verus! {

/// The address at which a scan starts.
pub const FIRST_ADDRESS: u8 = 1;

/// The address at which a scan ends.
pub const LAST_ADDRESS: u8 = 0x7f;

/// A write to be made on the bus.
#[derive(Clone, Copy, Debug, PartialEq, Eq, Structural)]
pub struct ScanCommand {
    /// The address of the slave.
    pub address: u8,
    /// How many bytes to write.
    pub len: u8,
}

/// What follows from the end of one command of a scan.
#[derive(Debug, PartialEq, Eq)]
pub struct ScanOutcome {
    /// The address that answered, if the command ended well.
    pub found: Option<u8>,
    /// The write to make next. Where there is none, the scan is over.
    pub next: Option<ScanCommand>,
    /// The buffer of the command, for the next write or to be kept.
    pub buffer: Buffer,
}

/// The client of a scan. It remembers the address that was written to last.
#[derive(Debug, PartialEq, Eq)]
pub struct ScanClient {
    dev_id: u8,
}

impl ScanClient {
    /// The address that was written to last.
    pub closed spec fn spec_dev_id(&self) -> u8 {
        self.dev_id
    }

    /// A client at the start of a scan.
    pub fn new() -> (c: ScanClient)
        ensures
            c.spec_dev_id() == FIRST_ADDRESS,
    {
        ScanClient { dev_id: FIRST_ADDRESS }
    }

    /// The address that was written to last.
    #[verifier::when_used_as_spec(spec_dev_id)]
    pub fn dev_id(&self) -> (a: u8)
        ensures
            a == self.spec_dev_id(),
    {
        self.dev_id
    }

    /// Takes the end of a command. The address that was written to is
    /// reported where the command ended well. Below the last address the
    /// scan moves on by one and writes one byte there; at the last address
    /// it is over.
    pub fn command_complete(&mut self, buffer: Buffer, error: Error) -> (out: ScanOutcome)
        ensures
            out.found == if error == Error::CommandComplete {
                Some(old(self).spec_dev_id())
            } else {
                None
            },
            old(self).spec_dev_id() < LAST_ADDRESS ==> {
                &&& final(self).spec_dev_id() == old(self).spec_dev_id() + 1
                &&& out.next == Some(ScanCommand { address: final(self).spec_dev_id(), len: 1 })
            },
            old(self).spec_dev_id() >= LAST_ADDRESS ==> {
                &&& final(self).spec_dev_id() == old(self).spec_dev_id()
                &&& out.next is None
            },
            out.buffer@ == buffer@,
    {
        let mut dev_id: u8 = self.dev_id;
        let found = match error {
            Error::CommandComplete => Some(dev_id),
            _ => None,
        };
        if dev_id < LAST_ADDRESS {
            dev_id += 1;
            self.dev_id = dev_id;
            ScanOutcome { found, next: Some(ScanCommand { address: dev_id, len: 1 }), buffer }
        } else {
            ScanOutcome { found, next: None, buffer }
        }
    }
}

/// The write that starts a scan: two bytes to the address that `client` is
/// at.
pub fn i2c_scan_slaves(client: &ScanClient) -> (first: ScanCommand)
    ensures
        first == (ScanCommand { address: client.spec_dev_id(), len: 2 }),
{
    ScanCommand { address: client.dev_id, len: 2 }
}

} // verus!
