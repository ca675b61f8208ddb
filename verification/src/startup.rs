//! Bringing the clocks up after reset: the 32 kHz oscillator, the
//! frequency-locked loop at 48 MHz that is steered by it, the flash
//! controller made ready for that speed, and the main clock switched over.
//!
//! The steps are data. Whoever runs them does each in turn: a store, a load
//! whose result is handed back for the steps that follow, or a wait until
//! the hardware raises a bit.

use vstd::prelude::*;
use crate::pm::{Clock, HSBClock, MainClock, PBBClock};

verus! {

/// The control register of the cache.
pub const HCACHE_CTRL: usize = 0x400A0408;

/// The status register of the cache.
pub const HCACHE_SR: usize = 0x400A040c;

/// The unlock register of the backup system control interface.
pub const BSCIF_UNLOCK: usize = 0x400F0418;

/// The control register of the 32 kHz oscillator.
pub const BSCIF_RC32KCR: usize = 0x400F0424;

/// Where the registers of the system control interface start.
pub const SCIF_BASE: usize = 0x400E0800;

/// The power and clock status register of the system control interface.
pub const SCIF_PCLKSR: usize = 0x400E0814;

/// The unlock register of the system control interface.
pub const SCIF_UNLOCK: usize = 0x400E0818;

/// The configuration register of the frequency-locked loop.
pub const SCIF_DFLL0CONF: usize = 0x400E0828;

/// The multiplier register of the frequency-locked loop.
pub const SCIF_DFLL0MUL: usize = 0x400E0830;

/// The step register of the frequency-locked loop.
pub const SCIF_DFLL0STEP: usize = 0x400E0834;

/// The spread spectrum register of the frequency-locked loop.
pub const SCIF_DFLL0SSG: usize = 0x400E0838;

/// The synchronization register of the frequency-locked loop.
pub const SCIF_DFLL0SYNC: usize = 0x400E0840;

/// The control register of the generic clock that steers the loop.
pub const SCIF_GCCTRL0: usize = 0x400E0874;

/// The control register of the flash controller.
pub const FLASHCALW_FCR: usize = 0x400A0000;

/// The command register of the flash controller.
pub const FLASHCALW_FCMD: usize = 0x400A0004;

/// The status register of the flash controller.
pub const FLASHCALW_FSR: usize = 0x400A0008;

/// The key that goes with the offset of a register to unlock it.
pub const UNLOCK_KEY: u32 = 0xAA000000;

/// Status of the system control interface: the loop takes a new setting.
pub const PCLKSR_DFLL0RDY: u32 = 0x8;

/// Status of the system control interface: the loop has locked.
pub const PCLKSR_DFLL0LOCKF: u32 = 0x4;

/// The generic clock enabled, fed by the 32 kHz oscillator, not divided.
pub const GCCTRL0_RC32K: u32 = 0xd01;

/// Coarse and fine steps of four each.
pub const DFLL0_STEPS: u32 = 0x40004;

/// How many periods of the 32 kHz oscillator make one period of the loop.
pub const DFLL0_MULTIPLIER: u32 = 1563;

/// How many steps bringing the clocks up takes.
pub const STEPS: usize = 33;

/// A value that a step loads and later steps use.
#[derive(Clone, Copy, Debug, PartialEq, Eq, Structural)]
pub enum Slot {
    Rc32kcr,
    Dfll0conf,
    Fcr,
    Fcmd,
}

/// The values that the steps so far have loaded.
#[derive(Clone, Copy, Debug, PartialEq, Eq, Structural)]
pub struct Loaded {
    pub rc32kcr: u32,
    pub dfll0conf: u32,
    pub fcr: u32,
    pub fcmd: u32,
}

impl Loaded {
    /// The values with `value` in `slot`.
    pub open spec fn spec_with(self, slot: Slot, value: u32) -> Loaded {
        match slot {
            Slot::Rc32kcr => Loaded { rc32kcr: value, ..self },
            Slot::Dfll0conf => Loaded { dfll0conf: value, ..self },
            Slot::Fcr => Loaded { fcr: value, ..self },
            Slot::Fcmd => Loaded { fcmd: value, ..self },
        }
    }

    /// Nothing loaded yet: every slot zero.
    pub fn new() -> (l: Loaded)
        ensures
            l == (Loaded { rc32kcr: 0, dfll0conf: 0, fcr: 0, fcmd: 0 }),
    {
        Loaded { rc32kcr: 0, dfll0conf: 0, fcr: 0, fcmd: 0 }
    }

    /// The values with `value` in `slot`.
    #[verifier::when_used_as_spec(spec_with)]
    pub fn with(self, slot: Slot, value: u32) -> (l: Loaded)
        ensures
            l == self.spec_with(slot, value),
    {
        match slot {
            Slot::Rc32kcr => Loaded { rc32kcr: value, ..self },
            Slot::Dfll0conf => Loaded { dfll0conf: value, ..self },
            Slot::Fcr => Loaded { fcr: value, ..self },
            Slot::Fcmd => Loaded { fcmd: value, ..self },
        }
    }
}

/// One step of bringing the clocks up.
#[derive(Clone, Copy, Debug, PartialEq, Eq, Structural)]
pub enum Step {
    /// Let the power manager run `0`.
    EnableClock(Clock),
    /// Store `value` to the word at `address`.
    Store { address: usize, value: u32 },
    /// Load the word at `address` and keep it in `slot`.
    Load { address: usize, slot: Slot },
    /// Load the word at `address` again and again until one of the bits of
    /// `mask` is set in it.
    Await { address: usize, mask: u32 },
    /// Let the power manager take the main clock from `0`.
    SelectMainClock(MainClock),
}

/// The control register of the 32 kHz oscillator with the oscillator and its
/// 32 kHz output enabled.
pub open spec fn spec_rc32k_enabled(rc32kcr: u32) -> u32 {
    rc32kcr | 0x4 | 0x1
}

/// The control register of the 32 kHz oscillator with the oscillator and its
/// 32 kHz output enabled, and all else as in `rc32kcr`.
#[verifier::when_used_as_spec(spec_rc32k_enabled)]
pub fn rc32k_enabled(rc32kcr: u32) -> (r: u32)
    ensures
        r == spec_rc32k_enabled(rc32kcr),
        r & 0x5 == 0x5,
        r & !0x5u32 == rc32kcr & !0x5u32,
{
    assert((rc32kcr | 0x4 | 0x1) & 0x5 == 0x5) by (bit_vector);
    assert((rc32kcr | 0x4 | 0x1) & !0x5u32 == rc32kcr & !0x5u32) by (bit_vector);
    rc32kcr | 0x4 | 0x1
}

/// The configuration of the loop, enabled, in closed loop mode, in its
/// second frequency range.
pub open spec fn spec_dfll_closed_loop(dfll0conf: u32) -> u32 {
    ((dfll0conf | 0x1 | 0x2) & !0x30000u32) | 0x20000
}

/// The configuration of the loop, enabled, in closed loop mode, in its
/// second frequency range, and all else as in `dfll0conf`.
#[verifier::when_used_as_spec(spec_dfll_closed_loop)]
pub fn dfll_closed_loop(dfll0conf: u32) -> (r: u32)
    ensures
        r == spec_dfll_closed_loop(dfll0conf),
        r & 0x3 == 0x3,
        (r >> 16) & 0x3 == 0x2,
        r & !0x30003u32 == dfll0conf & !0x30003u32,
{
    assert((((dfll0conf | 0x1 | 0x2) & !0x30000u32) | 0x20000) & 0x3 == 0x3) by (bit_vector);
    assert(((((dfll0conf | 0x1 | 0x2) & !0x30000u32) | 0x20000) >> 16) & 0x3 == 0x2)
        by (bit_vector);
    assert((((dfll0conf | 0x1 | 0x2) & !0x30000u32) | 0x20000) & !0x30003u32 == dfll0conf
        & !0x30003u32) by (bit_vector);
    ((dfll0conf | 0x1 | 0x2) & !0x30000u32) | 0x20000
}

/// The control register of the flash controller with one wait state.
pub open spec fn spec_flash_wait_state(fcr: u32) -> u32 {
    fcr | 0x40
}

/// The control register of the flash controller with one wait state, and
/// all else as in `fcr`.
#[verifier::when_used_as_spec(spec_flash_wait_state)]
pub fn flash_wait_state(fcr: u32) -> (r: u32)
    ensures
        r == spec_flash_wait_state(fcr),
        r & 0x40 == 0x40,
        r & !0x40u32 == fcr & !0x40u32,
{
    assert((fcr | 0x40) & 0x40 == 0x40) by (bit_vector);
    assert((fcr | 0x40) & !0x40u32 == fcr & !0x40u32) by (bit_vector);
    fcr | 0x40
}

/// The command register of the flash controller with the command for high
/// speed reads under the key of the controller.
pub open spec fn spec_flash_high_speed(fcmd: u32) -> u32 {
    (fcmd & !0x3fu32) | 0xa5000000 | 0x10
}

/// The command register of the flash controller with the command for high
/// speed reads in the command field and the key of the controller added to
/// the key field, and the page number as in `fcmd`.
#[verifier::when_used_as_spec(spec_flash_high_speed)]
pub fn flash_high_speed(fcmd: u32) -> (r: u32)
    ensures
        r == spec_flash_high_speed(fcmd),
        r & 0x3f == 0x10,
        r & 0xa5000000 == 0xa5000000,
        r & 0x00ffffc0 == fcmd & 0x00ffffc0,
{
    assert(((fcmd & !0x3fu32) | 0xa5000000 | 0x10) & 0x3f == 0x10) by (bit_vector);
    assert(((fcmd & !0x3fu32) | 0xa5000000 | 0x10) & 0xa5000000 == 0xa5000000) by (bit_vector);
    assert(((fcmd & !0x3fu32) | 0xa5000000 | 0x10) & 0x00ffffc0 == fcmd & 0x00ffffc0)
        by (bit_vector);
    (fcmd & !0x3fu32) | 0xa5000000 | 0x10
}

/// The steps that bring the clocks up, in order, given what the steps that
/// load have loaded.
pub open spec fn script(loaded: Loaded) -> Seq<Step> {
    seq![
        Step::EnableClock(Clock::HSB(HSBClock::FLASHCALWP)),
        Step::EnableClock(Clock::PBB(PBBClock::HRAMC1)),
        Step::Store { address: HCACHE_CTRL, value: 1 },
        Step::Await { address: HCACHE_SR, mask: 0x1 },
        Step::Load { address: BSCIF_RC32KCR, slot: Slot::Rc32kcr },
        Step::Store { address: BSCIF_UNLOCK, value: 0xAA000024 },
        Step::Store { address: BSCIF_RC32KCR, value: spec_rc32k_enabled(loaded.rc32kcr) },
        Step::Await { address: BSCIF_RC32KCR, mask: 0x1 },
        Step::Store { address: SCIF_DFLL0SYNC, value: 1 },
        Step::Await { address: SCIF_PCLKSR, mask: PCLKSR_DFLL0RDY },
        Step::Load { address: SCIF_DFLL0CONF, slot: Slot::Dfll0conf },
        Step::Store { address: SCIF_GCCTRL0, value: GCCTRL0_RC32K },
        Step::Store { address: SCIF_UNLOCK, value: 0xAA000028 },
        Step::Store { address: SCIF_DFLL0CONF, value: 1 },
        Step::Await { address: SCIF_PCLKSR, mask: PCLKSR_DFLL0RDY },
        Step::Store { address: SCIF_UNLOCK, value: 0xAA000034 },
        Step::Store { address: SCIF_DFLL0STEP, value: DFLL0_STEPS },
        Step::Await { address: SCIF_PCLKSR, mask: PCLKSR_DFLL0RDY },
        Step::Store { address: SCIF_UNLOCK, value: 0xAA000030 },
        Step::Store { address: SCIF_DFLL0MUL, value: DFLL0_MULTIPLIER },
        Step::Await { address: SCIF_PCLKSR, mask: PCLKSR_DFLL0RDY },
        Step::Store { address: SCIF_UNLOCK, value: 0xAA000038 },
        Step::Store { address: SCIF_DFLL0SSG, value: 0 },
        Step::Await { address: SCIF_PCLKSR, mask: PCLKSR_DFLL0RDY },
        Step::Store { address: SCIF_UNLOCK, value: 0xAA000028 },
        Step::Store { address: SCIF_DFLL0CONF, value: spec_dfll_closed_loop(loaded.dfll0conf) },
        Step::Await { address: SCIF_PCLKSR, mask: PCLKSR_DFLL0LOCKF },
        Step::Load { address: FLASHCALW_FCR, slot: Slot::Fcr },
        Step::Store { address: FLASHCALW_FCR, value: spec_flash_wait_state(loaded.fcr) },
        Step::Load { address: FLASHCALW_FCMD, slot: Slot::Fcmd },
        Step::Store { address: FLASHCALW_FCMD, value: spec_flash_high_speed(loaded.fcmd) },
        Step::Await { address: FLASHCALW_FSR, mask: 0x1 },
        Step::SelectMainClock(MainClock::DFLL),
    ]
}

/// The step at position `step` of bringing the clocks up, `loaded` being
/// what the steps before it have loaded, or nothing where all steps are
/// done.
pub fn init(step: usize, loaded: Loaded) -> (r: Option<Step>)
    ensures
        script(loaded).len() == STEPS,
        step < STEPS ==> r == Some(script(loaded)[step as int]),
        step >= STEPS ==> r is None,
{
    match step {
        0 => Some(Step::EnableClock(Clock::HSB(HSBClock::FLASHCALWP))),
        1 => Some(Step::EnableClock(Clock::PBB(PBBClock::HRAMC1))),
        2 => Some(Step::Store { address: HCACHE_CTRL, value: 1 }),
        3 => Some(Step::Await { address: HCACHE_SR, mask: 0x1 }),
        4 => Some(Step::Load { address: BSCIF_RC32KCR, slot: Slot::Rc32kcr }),
        5 => Some(Step::Store { address: BSCIF_UNLOCK, value: 0xAA000024 }),
        6 => Some(Step::Store { address: BSCIF_RC32KCR, value: rc32k_enabled(loaded.rc32kcr) }),
        7 => Some(Step::Await { address: BSCIF_RC32KCR, mask: 0x1 }),
        8 => Some(Step::Store { address: SCIF_DFLL0SYNC, value: 1 }),
        9 => Some(Step::Await { address: SCIF_PCLKSR, mask: PCLKSR_DFLL0RDY }),
        10 => Some(Step::Load { address: SCIF_DFLL0CONF, slot: Slot::Dfll0conf }),
        11 => Some(Step::Store { address: SCIF_GCCTRL0, value: GCCTRL0_RC32K }),
        12 => Some(Step::Store { address: SCIF_UNLOCK, value: 0xAA000028 }),
        13 => Some(Step::Store { address: SCIF_DFLL0CONF, value: 1 }),
        14 => Some(Step::Await { address: SCIF_PCLKSR, mask: PCLKSR_DFLL0RDY }),
        15 => Some(Step::Store { address: SCIF_UNLOCK, value: 0xAA000034 }),
        16 => Some(Step::Store { address: SCIF_DFLL0STEP, value: DFLL0_STEPS }),
        17 => Some(Step::Await { address: SCIF_PCLKSR, mask: PCLKSR_DFLL0RDY }),
        18 => Some(Step::Store { address: SCIF_UNLOCK, value: 0xAA000030 }),
        19 => Some(Step::Store { address: SCIF_DFLL0MUL, value: DFLL0_MULTIPLIER }),
        20 => Some(Step::Await { address: SCIF_PCLKSR, mask: PCLKSR_DFLL0RDY }),
        21 => Some(Step::Store { address: SCIF_UNLOCK, value: 0xAA000038 }),
        22 => Some(Step::Store { address: SCIF_DFLL0SSG, value: 0 }),
        23 => Some(Step::Await { address: SCIF_PCLKSR, mask: PCLKSR_DFLL0RDY }),
        24 => Some(Step::Store { address: SCIF_UNLOCK, value: 0xAA000028 }),
        25 => Some(
            Step::Store { address: SCIF_DFLL0CONF, value: dfll_closed_loop(loaded.dfll0conf) },
        ),
        26 => Some(Step::Await { address: SCIF_PCLKSR, mask: PCLKSR_DFLL0LOCKF }),
        27 => Some(Step::Load { address: FLASHCALW_FCR, slot: Slot::Fcr }),
        28 => Some(Step::Store { address: FLASHCALW_FCR, value: flash_wait_state(loaded.fcr) }),
        29 => Some(Step::Load { address: FLASHCALW_FCMD, slot: Slot::Fcmd }),
        30 => Some(Step::Store { address: FLASHCALW_FCMD, value: flash_high_speed(loaded.fcmd) }),
        31 => Some(Step::Await { address: FLASHCALW_FSR, mask: 0x1 }),
        32 => Some(Step::SelectMainClock(MainClock::DFLL)),
        _ => None,
    }
}

/// Whether `step` unlocks the register at `offset` of the system control
/// interface.
pub open spec fn unlocks(step: Step, offset: usize) -> bool {
    step == (Step::Store { address: SCIF_UNLOCK, value: (UNLOCK_KEY + offset) as u32 })
}

/// A register of the system control interface that was unlocked is the
/// register that the very next step stores to: the unlock holds for one
/// store only, and none is wasted.
pub proof fn unlock_precedes_its_store(loaded: Loaded, i: int, offset: usize)
    requires
        0 <= i < STEPS,
        offset < 0x100,
        unlocks(script(loaded)[i], offset),
    ensures
        i + 1 < STEPS,
        script(loaded)[i + 1] is Store,
        script(loaded)[i + 1]->Store_address == SCIF_BASE + offset,
{
}

/// A step depends on no value that is loaded later: what a load hands back
/// changes none of the steps up to and including that load.
pub proof fn steps_wait_for_their_values(loaded: Loaded, i: int, value: u32, j: int)
    requires
        0 <= j <= i < STEPS,
        script(loaded)[i] is Load,
    ensures
        script(loaded.spec_with(script(loaded)[i]->Load_slot, value))[j] == script(loaded)[j],
{
}

} // verus!
