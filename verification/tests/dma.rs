use sam4l::buffer::Buffer;
use sam4l::dma::{
    DMAChannel, DMAChannelNum, DMAPeripheral, DMARegisters, Dma, DmaClock, DmaEffect,
    DmaRegister, DMA_BASE_ADDR, DMA_CHANNELS, DMA_CHANNEL_SIZE,
};
use sam4l::nvic::NvicIdx;
use sam4l::pm::{Clock, HSBClock, PBBClock};

const ALL_PERIPHERALS: [(DMAPeripheral, usize); 38] = [
    (DMAPeripheral::USART0_RX, 0),
    (DMAPeripheral::USART1_RX, 1),
    (DMAPeripheral::USART2_RX, 2),
    (DMAPeripheral::USART3_RX, 3),
    (DMAPeripheral::SPI_RX, 4),
    (DMAPeripheral::TWIM0_RX, 5),
    (DMAPeripheral::TWIM1_RX, 6),
    (DMAPeripheral::TWIM2_RX, 7),
    (DMAPeripheral::TWIM3_RX, 8),
    (DMAPeripheral::TWIS0_RX, 9),
    (DMAPeripheral::TWIS1_RX, 10),
    (DMAPeripheral::ADCIFE_RX, 11),
    (DMAPeripheral::CATB_RX, 12),
    (DMAPeripheral::IISC_CH0_RX, 14),
    (DMAPeripheral::IISC_CH1_RX, 15),
    (DMAPeripheral::PARC_RX, 16),
    (DMAPeripheral::AESA_RX, 17),
    (DMAPeripheral::USART0_TX, 18),
    (DMAPeripheral::USART1_TX, 19),
    (DMAPeripheral::USART2_TX, 20),
    (DMAPeripheral::USART3_TX, 21),
    (DMAPeripheral::SPI_TX, 22),
    (DMAPeripheral::TWIM0_TX, 23),
    (DMAPeripheral::TWIM1_TX, 24),
    (DMAPeripheral::TWIM2_TX, 25),
    (DMAPeripheral::TWIM3_TX, 26),
    (DMAPeripheral::TWIS0_TX, 27),
    (DMAPeripheral::TWIS1_TX, 28),
    (DMAPeripheral::ADCIFE_TX, 29),
    (DMAPeripheral::CATB_TX, 30),
    (DMAPeripheral::ABDACB_SDR0_TX, 31),
    (DMAPeripheral::ABDACB_SDR1_TX, 32),
    (DMAPeripheral::IISC_CH0_TX, 33),
    (DMAPeripheral::IISC_CH1_TX, 34),
    (DMAPeripheral::DACC_TX, 35),
    (DMAPeripheral::AESA_TX, 36),
    (DMAPeripheral::LCDCA_ACMDR_TX, 37),
    (DMAPeripheral::LCDCA_ABMDR_TX, 38),
];

fn all_channels() -> Vec<DMAChannelNum> {
    (0..DMA_CHANNELS).map(|i| DMAChannelNum::from_index(i).unwrap()).collect()
}

#[test]
fn peripheral_codes_match_the_hardware() {
    for (peripheral, code) in ALL_PERIPHERALS {
        assert_eq!(peripheral.code(), code);
        assert_eq!(DMAPeripheral::from_code(code), Some(peripheral));
    }
}

#[test]
fn unassigned_codes_name_no_peripheral() {
    assert_eq!(DMAPeripheral::from_code(13), None);
    assert_eq!(DMAPeripheral::from_code(39), None);
    assert_eq!(DMAPeripheral::from_code(usize::MAX), None);
    let assigned = (0..=64usize).filter(|c| DMAPeripheral::from_code(*c).is_some()).count();
    assert_eq!(assigned, 38);
}

#[test]
fn channel_numbers_and_interrupt_lines() {
    let channels = all_channels();
    assert_eq!(channels.len(), 16);
    for (i, ch) in channels.iter().enumerate() {
        assert_eq!(ch.index(), i);
        assert_eq!(ch.interrupt().number() as usize, i + 1);
    }
    assert_eq!(DMAChannelNum::from_index(16), None);
    assert_eq!(DMAChannelNum::DMAChannel05.interrupt(), NvicIdx::PDCA5);
    assert_eq!(DMAChannelNum::DMAChannel15.interrupt(), NvicIdx::PDCA15);
}

#[test]
fn register_blocks_are_laid_out_as_the_hardware_has_them() {
    assert_eq!(DMA_BASE_ADDR, 0x400A2000);
    assert_eq!(DMA_CHANNEL_SIZE, 0x40);
    let dma = Dma::new();
    assert_eq!(dma.channel(DMAChannelNum::DMAChannel00).base_address(), 0x400A2000);
    assert_eq!(dma.channel(DMAChannelNum::DMAChannel05).base_address(), 0x400A2140);
    assert_eq!(dma.channel(DMAChannelNum::DMAChannel15).base_address(), 0x400A23C0);
    assert_eq!(DmaRegister::MemoryAddress.offset(), 0x00);
    assert_eq!(DmaRegister::PeripheralSelect.offset(), 0x04);
    assert_eq!(DmaRegister::TransferCounter.offset(), 0x08);
    assert_eq!(DmaRegister::MemoryAddressReload.offset(), 0x0c);
    assert_eq!(DmaRegister::TransferCounterReload.offset(), 0x10);
    assert_eq!(DmaRegister::Control.offset(), 0x14);
    assert_eq!(DmaRegister::Mode.offset(), 0x18);
    assert_eq!(DmaRegister::Status.offset(), 0x1c);
    assert_eq!(DmaRegister::InterruptEnable.offset(), 0x20);
    assert_eq!(DmaRegister::InterruptDisable.offset(), 0x24);
    assert_eq!(DmaRegister::InterruptMask.offset(), 0x28);
    assert_eq!(DmaRegister::InterruptStatus.offset(), 0x2c);
    assert_eq!(DmaRegister::Version.offset(), 0x30);
}

#[test]
fn registers_hold_what_was_put_in_them() {
    let mut regs = DMARegisters::new();
    let all = [
        DmaRegister::MemoryAddress,
        DmaRegister::PeripheralSelect,
        DmaRegister::TransferCounter,
        DmaRegister::MemoryAddressReload,
        DmaRegister::TransferCounterReload,
        DmaRegister::Control,
        DmaRegister::Mode,
        DmaRegister::Status,
        DmaRegister::InterruptEnable,
        DmaRegister::InterruptDisable,
        DmaRegister::InterruptMask,
        DmaRegister::InterruptStatus,
        DmaRegister::Version,
    ];
    for (i, r) in all.iter().enumerate() {
        assert_eq!(regs.get(*r), 0);
        regs.set(*r, 100 + i);
    }
    for (i, r) in all.iter().enumerate() {
        assert_eq!(regs.get(*r), 100 + i);
    }
    assert_eq!(regs.transfer_counter, 102);
    assert_eq!(regs.version, 112);
}

#[test]
fn a_fresh_controller_has_nothing_enabled() {
    let dma = Dma::new();
    assert_eq!(dma.active(), 0);
    assert!(!dma.running());
    for ch in all_channels() {
        let c = dma.channel(ch);
        assert_eq!(c.num(), ch);
        assert_eq!(c.nvic(), ch.interrupt());
        assert!(!c.is_enabled());
        assert!(!c.has_client());
        assert!(!c.holds_buffer());
        assert_eq!(c.registers(), DMARegisters::new());
        assert!(c.effects().is_empty());
    }
}

#[test]
fn first_enable_starts_the_clocks() {
    let mut dma = Dma::new();
    let ch = DMAChannelNum::DMAChannel05;
    dma.enable(ch);
    assert_eq!(dma.active(), 1);
    assert!(dma.running());
    assert!(dma.channel(ch).is_enabled());
    assert_eq!(dma.channel(ch).registers().interrupt_disable, 0xffff_ffff);
    assert_eq!(
        dma.take_effects(ch),
        vec![
            DmaEffect::EnableClock(Clock::HSB(HSBClock::PDCA)),
            DmaEffect::EnableClock(Clock::PBB(PBBClock::PDCA)),
            DmaEffect::Write { register: DmaRegister::InterruptDisable, value: 0xffff_ffff },
            DmaEffect::EnableInterrupt(NvicIdx::PDCA5),
        ]
    );
    assert!(dma.channel(ch).effects().is_empty());
}

#[test]
fn second_channel_leaves_the_clocks_alone() {
    let mut dma = Dma::new();
    dma.enable(DMAChannelNum::DMAChannel05);
    dma.enable(DMAChannelNum::DMAChannel07);
    assert_eq!(dma.active(), 2);
    assert_eq!(
        dma.take_effects(DMAChannelNum::DMAChannel07),
        vec![
            DmaEffect::Write { register: DmaRegister::InterruptDisable, value: 0xffff_ffff },
            DmaEffect::EnableInterrupt(NvicIdx::PDCA7),
        ]
    );
    dma.disable(DMAChannelNum::DMAChannel05);
    assert_eq!(dma.active(), 1);
    assert!(dma.running());
    dma.take_effects(DMAChannelNum::DMAChannel05);
    dma.disable(DMAChannelNum::DMAChannel07);
    assert_eq!(dma.active(), 0);
    assert!(!dma.running());
    assert_eq!(
        dma.take_effects(DMAChannelNum::DMAChannel07),
        vec![
            DmaEffect::DisableClock(Clock::HSB(HSBClock::PDCA)),
            DmaEffect::DisableClock(Clock::PBB(PBBClock::PDCA)),
            DmaEffect::Write { register: DmaRegister::Control, value: 0x2 },
            DmaEffect::DisableInterrupt(NvicIdx::PDCA7),
        ]
    );
}

#[test]
fn enable_is_idempotent() {
    let ch = DMAChannelNum::DMAChannel03;
    let mut once = Dma::new();
    once.enable(ch);
    let mut twice = Dma::new();
    twice.enable(ch);
    twice.enable(ch);
    assert_eq!(twice.active(), 1);
    assert!(twice.running());
    assert!(twice.channel(ch).is_enabled());
    assert_eq!(twice.channel(ch).registers(), once.channel(ch).registers());
    let first = once.take_effects(ch);
    let both = twice.take_effects(ch);
    assert_eq!(both.len(), first.len() + 1);
    assert_eq!(both[..first.len()], first[..]);
    assert_eq!(both[first.len()], DmaEffect::EnableInterrupt(NvicIdx::PDCA3));
    assert_eq!(once, twice);
}

#[test]
fn enable_always_unmasks_the_line() {
    let ch = DMAChannelNum::DMAChannel03;
    let mut dma = Dma::new();
    dma.enable(ch);
    dma.take_effects(ch);
    dma.enable(ch);
    assert_eq!(dma.take_effects(ch), vec![DmaEffect::EnableInterrupt(NvicIdx::PDCA3)]);
    assert_eq!(dma.active(), 1);
    dma.enable(ch);
    dma.enable(ch);
    assert_eq!(
        dma.take_effects(ch),
        vec![
            DmaEffect::EnableInterrupt(NvicIdx::PDCA3),
            DmaEffect::EnableInterrupt(NvicIdx::PDCA3)
        ]
    );
    assert_eq!(dma.active(), 1);
}

#[test]
fn disable_is_idempotent() {
    let mut once = Dma::new();
    once.enable(DMAChannelNum::DMAChannel03);
    once.disable(DMAChannelNum::DMAChannel03);
    let mut twice = Dma::new();
    twice.enable(DMAChannelNum::DMAChannel03);
    twice.disable(DMAChannelNum::DMAChannel03);
    twice.disable(DMAChannelNum::DMAChannel03);
    assert_eq!(once, twice);
}

#[test]
fn enable_then_disable_restores_the_count_for_every_channel() {
    for ch in all_channels() {
        let mut dma = Dma::new();
        dma.enable(DMAChannelNum::DMAChannel00);
        dma.enable(DMAChannelNum::DMAChannel09);
        if dma.channel(ch).is_enabled() {
            continue;
        }
        let (count, running) = (dma.active(), dma.running());
        dma.enable(ch);
        assert_eq!(dma.active(), count + 1);
        dma.disable(ch);
        assert_eq!(dma.active(), count);
        assert_eq!(dma.running(), running);
        assert!(!dma.channel(ch).is_enabled());
    }
    for ch in all_channels() {
        let mut dma = Dma::new();
        dma.enable(ch);
        dma.disable(ch);
        assert_eq!(dma.active(), 0);
        assert!(!dma.running());
    }
}

#[test]
fn disable_without_enable_does_nothing() {
    for ch in all_channels() {
        let mut dma = Dma::new();
        dma.enable(DMAChannelNum::DMAChannel00);
        dma.take_effects(DMAChannelNum::DMAChannel00);
        if ch == DMAChannelNum::DMAChannel00 {
            continue;
        }
        let mut same = Dma::new();
        same.enable(DMAChannelNum::DMAChannel00);
        same.take_effects(DMAChannelNum::DMAChannel00);
        dma.disable(ch);
        assert_eq!(dma, same);
    }
}

#[test]
fn all_sixteen_channels_can_be_enabled() {
    let mut dma = Dma::new();
    for ch in all_channels() {
        dma.enable(ch);
    }
    assert_eq!(dma.active(), 16);
    for ch in all_channels() {
        dma.disable(ch);
    }
    assert_eq!(dma.active(), 0);
    assert!(!dma.running());
}

#[test]
fn a_lone_channel_counts_against_its_own_clock() {
    let mut clock = DmaClock::new();
    let mut channel = DMAChannel::new(DMAChannelNum::DMAChannel02, NvicIdx::PDCA2);
    channel.enable(&mut clock);
    assert_eq!(clock.active(), 1);
    assert!(clock.running());
    channel.enable(&mut clock);
    assert_eq!(clock.active(), 1);
    assert_eq!(channel.effects().len(), 5);
    channel.disable(&mut clock);
    assert_eq!(clock.active(), 0);
    assert!(!clock.running());
    channel.disable(&mut clock);
    assert_eq!(clock.active(), 0);
}

#[test]
fn prepare_programs_the_registers() {
    let mut dma = Dma::new();
    let ch = DMAChannelNum::DMAChannel01;
    let buf = Buffer::new(0x2000_0400, vec![1, 2, 3, 4, 5]);
    assert_eq!(dma.prepare_xfer(ch, DMAPeripheral::USART3_TX, buf, 3), None);
    let regs = dma.channel(ch).registers();
    assert_eq!(regs.peripheral_select, 21);
    assert_eq!(regs.memory_address_reload, 0x2000_0400);
    assert_eq!(regs.transfer_counter_reload, 3);
    assert_eq!(regs.interrupt_enable, 2);
    assert_eq!(regs.control, 0);
    assert!(dma.channel(ch).holds_buffer());
    assert_eq!(
        dma.take_effects(ch),
        vec![
            DmaEffect::Write { register: DmaRegister::PeripheralSelect, value: 21 },
            DmaEffect::Write { register: DmaRegister::MemoryAddressReload, value: 0x2000_0400 },
            DmaEffect::Write { register: DmaRegister::TransferCounterReload, value: 3 },
            DmaEffect::Write { register: DmaRegister::InterruptEnable, value: 2 },
        ]
    );
}

#[test]
fn prepare_clamps_the_length_to_the_buffer() {
    let mut dma = Dma::new();
    let ch = DMAChannelNum::DMAChannel01;
    let buf = Buffer::new(0x2000_0400, vec![0; 8]);
    dma.prepare_xfer(ch, DMAPeripheral::USART3_TX, buf, 100);
    assert_eq!(dma.channel(ch).registers().transfer_counter_reload, 8);
    dma.abort_xfer(ch);
    let buf = Buffer::new(0x2000_0400, vec![0; 8]);
    dma.prepare_xfer(ch, DMAPeripheral::USART3_TX, buf, usize::MAX);
    assert_eq!(dma.channel(ch).registers().transfer_counter_reload, 8);
    dma.abort_xfer(ch);
    let buf = Buffer::new(0x2000_0400, vec![0; 8]);
    dma.prepare_xfer(ch, DMAPeripheral::USART3_TX, buf, 8);
    assert_eq!(dma.channel(ch).registers().transfer_counter_reload, 8);
}

#[test]
fn an_empty_buffer_programs_no_bytes() {
    let mut dma = Dma::new();
    let ch = DMAChannelNum::DMAChannel01;
    let buf = Buffer::new(0x2000_0400, Vec::new());
    assert_eq!(dma.prepare_xfer(ch, DMAPeripheral::USART3_TX, buf, 4), None);
    assert_eq!(dma.channel(ch).registers().transfer_counter_reload, 0);
    assert_eq!(dma.abort_xfer(ch), Some(Buffer::new(0x2000_0400, Vec::new())));
}

#[test]
fn prepare_then_abort_returns_the_buffer() {
    let mut dma = Dma::new();
    let ch = DMAChannelNum::DMAChannel11;
    let buf = Buffer::new(0x2000_1000, vec![9, 8, 7]);
    dma.prepare_xfer(ch, DMAPeripheral::SPI_TX, buf, 3);
    dma.latch(ch, DmaRegister::TransferCounter, 2);
    assert_eq!(dma.transfer_counter(ch), 2);
    let back = dma.abort_xfer(ch).unwrap();
    assert_eq!(back.address(), 0x2000_1000);
    assert_eq!(back.bytes(), &vec![9, 8, 7]);
    assert_eq!(dma.transfer_counter(ch), 0);
    assert_eq!(dma.channel(ch).registers().interrupt_disable, usize::MAX);
    assert!(!dma.channel(ch).holds_buffer());
    assert_eq!(dma.abort_xfer(ch), None);
}

#[test]
fn abort_of_an_idle_channel_returns_nothing() {
    let mut dma = Dma::new();
    let ch = DMAChannelNum::DMAChannel11;
    assert_eq!(dma.abort_xfer(ch), None);
    assert_eq!(
        dma.take_effects(ch),
        vec![
            DmaEffect::Write { register: DmaRegister::InterruptDisable, value: usize::MAX },
            DmaEffect::Write { register: DmaRegister::TransferCounter, value: 0 },
        ]
    );
}

#[test]
fn a_second_transfer_displaces_the_first_buffer() {
    let mut dma = Dma::new();
    let ch = DMAChannelNum::DMAChannel04;
    let first = Buffer::new(0x2000_0000, vec![1; 4]);
    let second = Buffer::new(0x2000_0040, vec![2; 6]);
    assert_eq!(dma.prepare_xfer(ch, DMAPeripheral::USART0_TX, first, 4), None);
    let displaced = dma.do_xfer(ch, DMAPeripheral::USART1_TX, second, 6);
    assert_eq!(displaced, Some(Buffer::new(0x2000_0000, vec![1; 4])));
    assert_eq!(dma.channel(ch).registers().peripheral_select, 19);
    assert_eq!(dma.abort_xfer(ch), Some(Buffer::new(0x2000_0040, vec![2; 6])));
}

#[test]
fn do_xfer_programs_and_starts() {
    let mut dma = Dma::new();
    let ch = DMAChannelNum::DMAChannel04;
    let buf = Buffer::new(0x2000_0000, vec![1; 4]);
    dma.do_xfer(ch, DMAPeripheral::USART0_TX, buf, 4);
    assert_eq!(dma.channel(ch).registers().control, 1);
    let effects = dma.take_effects(ch);
    assert_eq!(effects.len(), 5);
    assert_eq!(effects[4], DmaEffect::Write { register: DmaRegister::Control, value: 1 });

    let mut two_calls = Dma::new();
    let buf = Buffer::new(0x2000_0000, vec![1; 4]);
    two_calls.prepare_xfer(ch, DMAPeripheral::USART0_TX, buf, 4);
    two_calls.start_xfer(ch);
    two_calls.take_effects(ch);
    assert_eq!(dma, two_calls);
}

#[test]
fn channel_five_reports_twim1_tx() {
    let mut dma = Dma::new();
    let ch = DMAChannelNum::DMAChannel05;
    dma.set_client(ch, true);
    let buf = Buffer::new(0x2000_0100, vec![0u8; 8]);
    assert!(dma.prepare_xfer(ch, DMAPeripheral::TWIM1_TX, buf, 8).is_none());
    dma.start_xfer(ch);
    assert_eq!(DMAPeripheral::TWIM1_TX.code(), 24);
    assert_eq!(dma.channel(ch).registers().peripheral_select, 24);
    assert_eq!(dma.channel(ch).registers().transfer_counter_reload, 8);
    assert!(dma.selects_a_peripheral(ch));
    assert_eq!(dma.handle_interrupt(ch), Some(DMAPeripheral::TWIM1_TX));
    assert_eq!(dma.handle_interrupt(ch), Some(DMAPeripheral::TWIM1_TX));
    assert!(dma.channel(ch).holds_buffer());
    for other in all_channels() {
        if other != ch {
            assert!(dma.selects_a_peripheral(other));
            assert_eq!(dma.handle_interrupt(other), None);
        }
    }
}

#[test]
fn an_interrupt_reports_exactly_the_selected_peripheral() {
    for (peripheral, code) in ALL_PERIPHERALS {
        let mut dma = Dma::new();
        let ch = DMAChannelNum::DMAChannel08;
        dma.set_client(ch, true);
        dma.latch(ch, DmaRegister::PeripheralSelect, code);
        assert!(dma.selects_a_peripheral(ch));
        assert_eq!(dma.handle_interrupt(ch), Some(peripheral));
        assert!(dma.channel(ch).effects().is_empty());
    }
}

#[test]
fn an_interrupt_without_a_client_reports_nothing() {
    let mut dma = Dma::new();
    let ch = DMAChannelNum::DMAChannel08;
    dma.latch(ch, DmaRegister::PeripheralSelect, 24);
    assert_eq!(dma.handle_interrupt(ch), None);
    dma.set_client(ch, true);
    assert_eq!(dma.handle_interrupt(ch), Some(DMAPeripheral::TWIM1_TX));
    dma.set_client(ch, false);
    assert_eq!(dma.handle_interrupt(ch), None);
}

#[test]
fn a_corrupt_selector_is_told_apart() {
    let mut dma = Dma::new();
    let ch = DMAChannelNum::DMAChannel08;
    dma.set_client(ch, true);
    for code in 0..=64usize {
        dma.latch(ch, DmaRegister::PeripheralSelect, code);
        let corrupt = code == 13 || code > 38;
        assert_eq!(dma.selects_a_peripheral(ch), !corrupt);
        assert_eq!(dma.channel(ch).selects_a_peripheral(), !corrupt);
    }
    dma.latch(ch, DmaRegister::PeripheralSelect, usize::MAX);
    assert!(!dma.selects_a_peripheral(ch));
    assert!(dma.channel(ch).effects().is_empty());
    assert!(dma.selects_a_peripheral(DMAChannelNum::DMAChannel09));
}

#[test]
fn latching_is_not_an_effect() {
    let mut channel = DMAChannel::new(DMAChannelNum::DMAChannel00, NvicIdx::PDCA0);
    channel.latch(DmaRegister::Status, 1);
    assert_eq!(channel.registers().status, 1);
    assert!(channel.effects().is_empty());
    assert!(channel.take_effects().is_empty());
}

#[test]
fn the_interrupt_entry_silences_the_channel() {
    let mut dma = Dma::new();
    let ch = DMAChannelNum::DMAChannel06;
    dma.pdca_handler(ch);
    assert_eq!(dma.channel(ch).registers().interrupt_disable, 0xffff_ffff);
    assert_eq!(
        dma.take_effects(ch),
        vec![DmaEffect::Write { register: DmaRegister::InterruptDisable, value: 0xffff_ffff }]
    );
    let mut channel = DMAChannel::new(DMAChannelNum::DMAChannel06, NvicIdx::PDCA6);
    channel.pdca_handler();
    assert_eq!(channel.registers(), dma.channel(ch).registers());
}

#[test]
fn registers_have_their_addresses() {
    let dma = Dma::new();
    let c = dma.channel(DMAChannelNum::DMAChannel05);
    assert_eq!(c.register_address(DmaRegister::MemoryAddress), 0x400A2140);
    assert_eq!(c.register_address(DmaRegister::PeripheralSelect), 0x400A2144);
    assert_eq!(c.register_address(DmaRegister::Version), 0x400A2170);
}
