//! Clock domains of the power manager, as far as the drivers name them.

use vstd::prelude::*;

verus! {

/// Clocks on the high-speed bus.
#[derive(Clone, Copy, Debug, PartialEq, Eq, Structural)]
pub enum HSBClock {
    PDCA,
    FLASHCALWP,
}

/// Clocks on peripheral bus A.
#[derive(Clone, Copy, Debug, PartialEq, Eq, Structural)]
pub enum PBAClock {
    USART0,
    USART1,
    USART2,
    USART3,
}

/// Clocks on peripheral bus B.
#[derive(Clone, Copy, Debug, PartialEq, Eq, Structural)]
pub enum PBBClock {
    PDCA,
    HRAMC1,
}

/// The sources that the main clock can be taken from, as far as the startup
/// names them.
#[derive(Clone, Copy, Debug, PartialEq, Eq, Structural)]
pub enum MainClock {
    DFLL,
}

/// A clock that the power manager can gate.
#[derive(Clone, Copy, Debug, PartialEq, Eq, Structural)]
pub enum Clock {
    HSB(HSBClock),
    PBA(PBAClock),
    PBB(PBBClock),
}

} // verus!
