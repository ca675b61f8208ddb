//! The names of the channels and of the request lines that a channel can
//! serve, with the numbers that the hardware knows them by.

use vstd::prelude::*;
use crate::dma::registers::DMA_CHANNELS;
use crate::nvic::NvicIdx;

verus! {

/// The number of a channel.
#[derive(Clone, Copy, Debug, PartialEq, Eq, Structural)]
pub enum DMAChannelNum {
    DMAChannel00,
    DMAChannel01,
    DMAChannel02,
    DMAChannel03,
    DMAChannel04,
    DMAChannel05,
    DMAChannel06,
    DMAChannel07,
    DMAChannel08,
    DMAChannel09,
    DMAChannel10,
    DMAChannel11,
    DMAChannel12,
    DMAChannel13,
    DMAChannel14,
    DMAChannel15,
}

impl DMAChannelNum {
    /// The channel's position among the sixteen.
    pub open spec fn spec_index(self) -> usize {
        match self {
            DMAChannelNum::DMAChannel00 => 0,
            DMAChannelNum::DMAChannel01 => 1,
            DMAChannelNum::DMAChannel02 => 2,
            DMAChannelNum::DMAChannel03 => 3,
            DMAChannelNum::DMAChannel04 => 4,
            DMAChannelNum::DMAChannel05 => 5,
            DMAChannelNum::DMAChannel06 => 6,
            DMAChannelNum::DMAChannel07 => 7,
            DMAChannelNum::DMAChannel08 => 8,
            DMAChannelNum::DMAChannel09 => 9,
            DMAChannelNum::DMAChannel10 => 10,
            DMAChannelNum::DMAChannel11 => 11,
            DMAChannelNum::DMAChannel12 => 12,
            DMAChannelNum::DMAChannel13 => 13,
            DMAChannelNum::DMAChannel14 => 14,
            DMAChannelNum::DMAChannel15 => 15,
        }
    }

    /// The channel's position among the sixteen.
    #[verifier::when_used_as_spec(spec_index)]
    pub fn index(self) -> (i: usize)
        ensures
            i == self.spec_index(),
            i < DMA_CHANNELS,
    {
        match self {
            DMAChannelNum::DMAChannel00 => 0,
            DMAChannelNum::DMAChannel01 => 1,
            DMAChannelNum::DMAChannel02 => 2,
            DMAChannelNum::DMAChannel03 => 3,
            DMAChannelNum::DMAChannel04 => 4,
            DMAChannelNum::DMAChannel05 => 5,
            DMAChannelNum::DMAChannel06 => 6,
            DMAChannelNum::DMAChannel07 => 7,
            DMAChannelNum::DMAChannel08 => 8,
            DMAChannelNum::DMAChannel09 => 9,
            DMAChannelNum::DMAChannel10 => 10,
            DMAChannelNum::DMAChannel11 => 11,
            DMAChannelNum::DMAChannel12 => 12,
            DMAChannelNum::DMAChannel13 => 13,
            DMAChannelNum::DMAChannel14 => 14,
            DMAChannelNum::DMAChannel15 => 15,
        }
    }

    /// The channel at position `index`, if there is one.
    pub fn from_index(index: usize) -> (r: Option<DMAChannelNum>)
        ensures
            index < DMA_CHANNELS ==> r is Some && r->0.spec_index() == index,
            index >= DMA_CHANNELS ==> r is None,
    {
        match index {
            0 => Some(DMAChannelNum::DMAChannel00),
            1 => Some(DMAChannelNum::DMAChannel01),
            2 => Some(DMAChannelNum::DMAChannel02),
            3 => Some(DMAChannelNum::DMAChannel03),
            4 => Some(DMAChannelNum::DMAChannel04),
            5 => Some(DMAChannelNum::DMAChannel05),
            6 => Some(DMAChannelNum::DMAChannel06),
            7 => Some(DMAChannelNum::DMAChannel07),
            8 => Some(DMAChannelNum::DMAChannel08),
            9 => Some(DMAChannelNum::DMAChannel09),
            10 => Some(DMAChannelNum::DMAChannel10),
            11 => Some(DMAChannelNum::DMAChannel11),
            12 => Some(DMAChannelNum::DMAChannel12),
            13 => Some(DMAChannelNum::DMAChannel13),
            14 => Some(DMAChannelNum::DMAChannel14),
            15 => Some(DMAChannelNum::DMAChannel15),
            _ => None,
        }
    }

    /// The interrupt line that the channel raises.
    pub open spec fn spec_interrupt(self) -> NvicIdx {
        match self {
            DMAChannelNum::DMAChannel00 => NvicIdx::PDCA0,
            DMAChannelNum::DMAChannel01 => NvicIdx::PDCA1,
            DMAChannelNum::DMAChannel02 => NvicIdx::PDCA2,
            DMAChannelNum::DMAChannel03 => NvicIdx::PDCA3,
            DMAChannelNum::DMAChannel04 => NvicIdx::PDCA4,
            DMAChannelNum::DMAChannel05 => NvicIdx::PDCA5,
            DMAChannelNum::DMAChannel06 => NvicIdx::PDCA6,
            DMAChannelNum::DMAChannel07 => NvicIdx::PDCA7,
            DMAChannelNum::DMAChannel08 => NvicIdx::PDCA8,
            DMAChannelNum::DMAChannel09 => NvicIdx::PDCA9,
            DMAChannelNum::DMAChannel10 => NvicIdx::PDCA10,
            DMAChannelNum::DMAChannel11 => NvicIdx::PDCA11,
            DMAChannelNum::DMAChannel12 => NvicIdx::PDCA12,
            DMAChannelNum::DMAChannel13 => NvicIdx::PDCA13,
            DMAChannelNum::DMAChannel14 => NvicIdx::PDCA14,
            DMAChannelNum::DMAChannel15 => NvicIdx::PDCA15,
        }
    }

    /// The interrupt line that the channel raises.
    #[verifier::when_used_as_spec(spec_interrupt)]
    pub fn interrupt(self) -> (line: NvicIdx)
        ensures
            line == self.spec_interrupt(),
            line.spec_number() == self.spec_index() + 1,
    {
        match self {
            DMAChannelNum::DMAChannel00 => NvicIdx::PDCA0,
            DMAChannelNum::DMAChannel01 => NvicIdx::PDCA1,
            DMAChannelNum::DMAChannel02 => NvicIdx::PDCA2,
            DMAChannelNum::DMAChannel03 => NvicIdx::PDCA3,
            DMAChannelNum::DMAChannel04 => NvicIdx::PDCA4,
            DMAChannelNum::DMAChannel05 => NvicIdx::PDCA5,
            DMAChannelNum::DMAChannel06 => NvicIdx::PDCA6,
            DMAChannelNum::DMAChannel07 => NvicIdx::PDCA7,
            DMAChannelNum::DMAChannel08 => NvicIdx::PDCA8,
            DMAChannelNum::DMAChannel09 => NvicIdx::PDCA9,
            DMAChannelNum::DMAChannel10 => NvicIdx::PDCA10,
            DMAChannelNum::DMAChannel11 => NvicIdx::PDCA11,
            DMAChannelNum::DMAChannel12 => NvicIdx::PDCA12,
            DMAChannelNum::DMAChannel13 => NvicIdx::PDCA13,
            DMAChannelNum::DMAChannel14 => NvicIdx::PDCA14,
            DMAChannelNum::DMAChannel15 => NvicIdx::PDCA15,
        }
    }
}

/// One direction of one peripheral's transfer request line. `_RX` moves data
/// from the peripheral to memory, `_TX` from memory to the peripheral.
#[allow(non_camel_case_types)]
#[derive(Clone, Copy, Debug, PartialEq, Eq, Structural)]
pub enum DMAPeripheral {
    USART0_RX,
    USART1_RX,
    USART2_RX,
    USART3_RX,
    SPI_RX,
    TWIM0_RX,
    TWIM1_RX,
    TWIM2_RX,
    TWIM3_RX,
    TWIS0_RX,
    TWIS1_RX,
    ADCIFE_RX,
    CATB_RX,
    IISC_CH0_RX,
    IISC_CH1_RX,
    PARC_RX,
    AESA_RX,
    USART0_TX,
    USART1_TX,
    USART2_TX,
    USART3_TX,
    SPI_TX,
    TWIM0_TX,
    TWIM1_TX,
    TWIM2_TX,
    TWIM3_TX,
    TWIS0_TX,
    TWIS1_TX,
    ADCIFE_TX,
    CATB_TX,
    ABDACB_SDR0_TX,
    ABDACB_SDR1_TX,
    IISC_CH0_TX,
    IISC_CH1_TX,
    DACC_TX,
    AESA_TX,
    LCDCA_ACMDR_TX,
    LCDCA_ABMDR_TX,
}

impl DMAPeripheral {
    /// The value of the peripheral select register that stands for this
    /// request line. The hardware fixes these numbers; 13 stands for nothing.
    pub open spec fn spec_code(self) -> usize {
        match self {
            DMAPeripheral::USART0_RX => 0,
            DMAPeripheral::USART1_RX => 1,
            DMAPeripheral::USART2_RX => 2,
            DMAPeripheral::USART3_RX => 3,
            DMAPeripheral::SPI_RX => 4,
            DMAPeripheral::TWIM0_RX => 5,
            DMAPeripheral::TWIM1_RX => 6,
            DMAPeripheral::TWIM2_RX => 7,
            DMAPeripheral::TWIM3_RX => 8,
            DMAPeripheral::TWIS0_RX => 9,
            DMAPeripheral::TWIS1_RX => 10,
            DMAPeripheral::ADCIFE_RX => 11,
            DMAPeripheral::CATB_RX => 12,
            DMAPeripheral::IISC_CH0_RX => 14,
            DMAPeripheral::IISC_CH1_RX => 15,
            DMAPeripheral::PARC_RX => 16,
            DMAPeripheral::AESA_RX => 17,
            DMAPeripheral::USART0_TX => 18,
            DMAPeripheral::USART1_TX => 19,
            DMAPeripheral::USART2_TX => 20,
            DMAPeripheral::USART3_TX => 21,
            DMAPeripheral::SPI_TX => 22,
            DMAPeripheral::TWIM0_TX => 23,
            DMAPeripheral::TWIM1_TX => 24,
            DMAPeripheral::TWIM2_TX => 25,
            DMAPeripheral::TWIM3_TX => 26,
            DMAPeripheral::TWIS0_TX => 27,
            DMAPeripheral::TWIS1_TX => 28,
            DMAPeripheral::ADCIFE_TX => 29,
            DMAPeripheral::CATB_TX => 30,
            DMAPeripheral::ABDACB_SDR0_TX => 31,
            DMAPeripheral::ABDACB_SDR1_TX => 32,
            DMAPeripheral::IISC_CH0_TX => 33,
            DMAPeripheral::IISC_CH1_TX => 34,
            DMAPeripheral::DACC_TX => 35,
            DMAPeripheral::AESA_TX => 36,
            DMAPeripheral::LCDCA_ACMDR_TX => 37,
            DMAPeripheral::LCDCA_ABMDR_TX => 38,
        }
    }

    /// The value of the peripheral select register that stands for this
    /// request line.
    #[verifier::when_used_as_spec(spec_code)]
    pub fn code(self) -> (c: usize)
        ensures
            c == self.spec_code(),
            c <= 38,
            c != 13,
    {
        match self {
            DMAPeripheral::USART0_RX => 0,
            DMAPeripheral::USART1_RX => 1,
            DMAPeripheral::USART2_RX => 2,
            DMAPeripheral::USART3_RX => 3,
            DMAPeripheral::SPI_RX => 4,
            DMAPeripheral::TWIM0_RX => 5,
            DMAPeripheral::TWIM1_RX => 6,
            DMAPeripheral::TWIM2_RX => 7,
            DMAPeripheral::TWIM3_RX => 8,
            DMAPeripheral::TWIS0_RX => 9,
            DMAPeripheral::TWIS1_RX => 10,
            DMAPeripheral::ADCIFE_RX => 11,
            DMAPeripheral::CATB_RX => 12,
            DMAPeripheral::IISC_CH0_RX => 14,
            DMAPeripheral::IISC_CH1_RX => 15,
            DMAPeripheral::PARC_RX => 16,
            DMAPeripheral::AESA_RX => 17,
            DMAPeripheral::USART0_TX => 18,
            DMAPeripheral::USART1_TX => 19,
            DMAPeripheral::USART2_TX => 20,
            DMAPeripheral::USART3_TX => 21,
            DMAPeripheral::SPI_TX => 22,
            DMAPeripheral::TWIM0_TX => 23,
            DMAPeripheral::TWIM1_TX => 24,
            DMAPeripheral::TWIM2_TX => 25,
            DMAPeripheral::TWIM3_TX => 26,
            DMAPeripheral::TWIS0_TX => 27,
            DMAPeripheral::TWIS1_TX => 28,
            DMAPeripheral::ADCIFE_TX => 29,
            DMAPeripheral::CATB_TX => 30,
            DMAPeripheral::ABDACB_SDR0_TX => 31,
            DMAPeripheral::ABDACB_SDR1_TX => 32,
            DMAPeripheral::IISC_CH0_TX => 33,
            DMAPeripheral::IISC_CH1_TX => 34,
            DMAPeripheral::DACC_TX => 35,
            DMAPeripheral::AESA_TX => 36,
            DMAPeripheral::LCDCA_ACMDR_TX => 37,
            DMAPeripheral::LCDCA_ABMDR_TX => 38,
        }
    }

    /// Whether some request line has the code `code`.
    pub open spec fn is_code(code: usize) -> bool {
        exists|p: DMAPeripheral| p.spec_code() == code
    }

    /// The request line whose code is `code`. It is meaningful only where
    /// [`Self::is_code`] holds.
    pub open spec fn with_code(code: usize) -> DMAPeripheral {
        choose|p: DMAPeripheral| p.spec_code() == code
    }

    /// The request line that `code` stands for, or nothing where the
    /// hardware assigns `code` to none.
    pub fn from_code(code: usize) -> (r: Option<DMAPeripheral>)
        ensures
            r is Some <==> Self::is_code(code),
            r is Some ==> r->0.spec_code() == code && r->0 == Self::with_code(code),
    {
        let r = match code {
            0 => Some(DMAPeripheral::USART0_RX),
            1 => Some(DMAPeripheral::USART1_RX),
            2 => Some(DMAPeripheral::USART2_RX),
            3 => Some(DMAPeripheral::USART3_RX),
            4 => Some(DMAPeripheral::SPI_RX),
            5 => Some(DMAPeripheral::TWIM0_RX),
            6 => Some(DMAPeripheral::TWIM1_RX),
            7 => Some(DMAPeripheral::TWIM2_RX),
            8 => Some(DMAPeripheral::TWIM3_RX),
            9 => Some(DMAPeripheral::TWIS0_RX),
            10 => Some(DMAPeripheral::TWIS1_RX),
            11 => Some(DMAPeripheral::ADCIFE_RX),
            12 => Some(DMAPeripheral::CATB_RX),
            14 => Some(DMAPeripheral::IISC_CH0_RX),
            15 => Some(DMAPeripheral::IISC_CH1_RX),
            16 => Some(DMAPeripheral::PARC_RX),
            17 => Some(DMAPeripheral::AESA_RX),
            18 => Some(DMAPeripheral::USART0_TX),
            19 => Some(DMAPeripheral::USART1_TX),
            20 => Some(DMAPeripheral::USART2_TX),
            21 => Some(DMAPeripheral::USART3_TX),
            22 => Some(DMAPeripheral::SPI_TX),
            23 => Some(DMAPeripheral::TWIM0_TX),
            24 => Some(DMAPeripheral::TWIM1_TX),
            25 => Some(DMAPeripheral::TWIM2_TX),
            26 => Some(DMAPeripheral::TWIM3_TX),
            27 => Some(DMAPeripheral::TWIS0_TX),
            28 => Some(DMAPeripheral::TWIS1_TX),
            29 => Some(DMAPeripheral::ADCIFE_TX),
            30 => Some(DMAPeripheral::CATB_TX),
            31 => Some(DMAPeripheral::ABDACB_SDR0_TX),
            32 => Some(DMAPeripheral::ABDACB_SDR1_TX),
            33 => Some(DMAPeripheral::IISC_CH0_TX),
            34 => Some(DMAPeripheral::IISC_CH1_TX),
            35 => Some(DMAPeripheral::DACC_TX),
            36 => Some(DMAPeripheral::AESA_TX),
            37 => Some(DMAPeripheral::LCDCA_ACMDR_TX),
            38 => Some(DMAPeripheral::LCDCA_ABMDR_TX),
            _ => None,
        };
        proof {
            if r is Some {
                assert(r->0.spec_code() == code);
                Self::codes_are_distinct(r->0, Self::with_code(code));
            } else {
                assert forall|p: DMAPeripheral| p.spec_code() != code by {
                    Self::code_is_assigned(p);
                }
            }
        }
        r
    }

    /// No two request lines share a code.
    pub proof fn codes_are_distinct(p: DMAPeripheral, q: DMAPeripheral)
        requires
            p.spec_code() == q.spec_code(),
        ensures
            p == q,
    {
    }

    /// Every code is at most 38 and none is 13.
    pub proof fn code_is_assigned(p: DMAPeripheral)
        ensures
            p.spec_code() <= 38,
            p.spec_code() != 13,
    {
    }

    /// Every value up to 38 but 13 is the code of a request line.
    pub proof fn every_other_code_is_assigned(code: usize)
        requires
            code <= 38,
            code != 13,
        ensures
            Self::is_code(code),
    {
        let p = if code == 0 {
            DMAPeripheral::USART0_RX
        } else if code == 1 {
            DMAPeripheral::USART1_RX
        } else if code == 2 {
            DMAPeripheral::USART2_RX
        } else if code == 3 {
            DMAPeripheral::USART3_RX
        } else if code == 4 {
            DMAPeripheral::SPI_RX
        } else if code == 5 {
            DMAPeripheral::TWIM0_RX
        } else if code == 6 {
            DMAPeripheral::TWIM1_RX
        } else if code == 7 {
            DMAPeripheral::TWIM2_RX
        } else if code == 8 {
            DMAPeripheral::TWIM3_RX
        } else if code == 9 {
            DMAPeripheral::TWIS0_RX
        } else if code == 10 {
            DMAPeripheral::TWIS1_RX
        } else if code == 11 {
            DMAPeripheral::ADCIFE_RX
        } else if code == 12 {
            DMAPeripheral::CATB_RX
        } else if code == 14 {
            DMAPeripheral::IISC_CH0_RX
        } else if code == 15 {
            DMAPeripheral::IISC_CH1_RX
        } else if code == 16 {
            DMAPeripheral::PARC_RX
        } else if code == 17 {
            DMAPeripheral::AESA_RX
        } else if code == 18 {
            DMAPeripheral::USART0_TX
        } else if code == 19 {
            DMAPeripheral::USART1_TX
        } else if code == 20 {
            DMAPeripheral::USART2_TX
        } else if code == 21 {
            DMAPeripheral::USART3_TX
        } else if code == 22 {
            DMAPeripheral::SPI_TX
        } else if code == 23 {
            DMAPeripheral::TWIM0_TX
        } else if code == 24 {
            DMAPeripheral::TWIM1_TX
        } else if code == 25 {
            DMAPeripheral::TWIM2_TX
        } else if code == 26 {
            DMAPeripheral::TWIM3_TX
        } else if code == 27 {
            DMAPeripheral::TWIS0_TX
        } else if code == 28 {
            DMAPeripheral::TWIS1_TX
        } else if code == 29 {
            DMAPeripheral::ADCIFE_TX
        } else if code == 30 {
            DMAPeripheral::CATB_TX
        } else if code == 31 {
            DMAPeripheral::ABDACB_SDR0_TX
        } else if code == 32 {
            DMAPeripheral::ABDACB_SDR1_TX
        } else if code == 33 {
            DMAPeripheral::IISC_CH0_TX
        } else if code == 34 {
            DMAPeripheral::IISC_CH1_TX
        } else if code == 35 {
            DMAPeripheral::DACC_TX
        } else if code == 36 {
            DMAPeripheral::AESA_TX
        } else if code == 37 {
            DMAPeripheral::LCDCA_ACMDR_TX
        } else {
            DMAPeripheral::LCDCA_ABMDR_TX
        };
        assert(p.spec_code() == code);
    }

    /// The code of a request line leads back to that line and to no other.
    pub proof fn code_round_trip(p: DMAPeripheral)
        ensures
            Self::is_code(p.spec_code()),
            Self::with_code(p.spec_code()) == p,
    {
        Self::codes_are_distinct(p, Self::with_code(p.spec_code()));
    }
}

} // verus!
