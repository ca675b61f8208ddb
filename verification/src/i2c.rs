//! The two-wire interface of the nRF51.

use vstd::prelude::*;

verus! {

/// The bus speeds that the interface can run at.
#[derive(Clone, Copy, Debug, PartialEq, Eq, Structural)]
pub enum Speed {
    Standard100k,
    Fast400k,
}

/// How a command on the bus ended.
#[derive(Clone, Copy, Debug, PartialEq, Eq, Structural)]
pub enum Error {
    AddressNak,
    DataNak,
    ArbitrationLost,
    CommandComplete,
}

/// The two-wire peripheral. It has no registers of its own to keep track of.
#[derive(Clone, Copy, Debug, PartialEq, Eq, Structural)]
pub struct I2CHw {}

impl I2CHw {
    /// The peripheral.
    pub fn new() -> (hw: I2CHw)
        ensures
            hw == (I2CHw {  }),
    {
        I2CHw {  }
    }
}

} // verus!
