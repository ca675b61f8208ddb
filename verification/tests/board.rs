use sam4l::buffer::Buffer;
use sam4l::fault::{hard_fault_handler, unhandled_interrupt, HardFault};
use sam4l::i2c::{Error, I2CHw, Speed};
use sam4l::i2c_dummy::{i2c_scan_slaves, ScanClient, ScanCommand};
use sam4l::io::{ConsoleOutput, StopBits, UARTParams, Writer};
use sam4l::nvic::NvicIdx;
use sam4l::pm::{Clock, HSBClock, MainClock, PBBClock};
use sam4l::startup::{
    dfll_closed_loop, flash_high_speed, flash_wait_state, init, rc32k_enabled, Loaded, Slot, Step,
    STEPS,
};
use sam4l::usart::Parity;

#[test]
fn buffer_keeps_address_and_bytes() {
    let mut b = Buffer::new(0x2000_0010, vec![1, 2, 3]);
    assert_eq!(b.address(), 0x2000_0010);
    assert_eq!(b.len(), 3);
    assert_eq!(b.get(0), 1);
    assert_eq!(b.get(2), 3);
    b.set(1, 9);
    assert_eq!(b.bytes(), &vec![1, 9, 3]);
    assert_eq!(b.address(), 0x2000_0010);
    assert_eq!(b.into_bytes(), vec![1, 9, 3]);
    assert_eq!(Buffer::new(5, Vec::new()).len(), 0);
}

#[test]
fn interrupt_lines_are_numbered_as_the_vector_table_has_them() {
    assert_eq!(NvicIdx::PDCA0.number(), 1);
    assert_eq!(NvicIdx::PDCA5.number(), 6);
    assert_eq!(NvicIdx::PDCA15.number(), 16);
    assert_eq!(NvicIdx::USART0.number(), 65);
    assert_eq!(NvicIdx::USART1.number(), 66);
    assert_eq!(NvicIdx::USART2.number(), 67);
    assert_eq!(NvicIdx::USART3.number(), 68);
}

#[test]
fn unhandled_interrupt_keeps_nine_bits() {
    assert_eq!(unhandled_interrupt(0), 0);
    assert_eq!(unhandled_interrupt(3), 3);
    assert_eq!(unhandled_interrupt(0x1ff), 0x1ff);
    assert_eq!(unhandled_interrupt(0x200), 0);
    assert_eq!(unhandled_interrupt(0xffff_fe05), 5);
    assert_eq!(unhandled_interrupt(0x6100_0051), 0x51);
}

#[test]
fn hard_fault_reads_the_stacked_frame() {
    let frame = [10, 11, 12, 13, 14, 15, 16, 17];
    let fault = hard_fault_handler(true, 0x2000_ff00, &frame, 0x1, 0x2, 0x4000_0000);
    assert_eq!(
        fault,
        HardFault {
            kernel_stack: true,
            r0: 10,
            r1: 11,
            r2: 12,
            r3: 13,
            r12: 14,
            lr: 15,
            pc: 16,
            prs: 17,
            sp: 0x2000_ff00,
            shcsr: 0x1,
            cfsr: 0x2,
            hfsr: 0x4000_0000,
        }
    );
    assert_eq!(fault.mode_str(), "Kernel");
    let fault = hard_fault_handler(false, 0, &frame, 0, 0, 0);
    assert_eq!(fault.mode_str(), "Process");
    assert_eq!(fault.pc, 16);
}

#[test]
fn the_console_is_set_up_once() {
    let mut w = Writer::new();
    assert!(!w.initialized());
    assert_eq!(
        w.write_str("hi\n"),
        ConsoleOutput {
            init: Some(UARTParams {
                baud_rate: 115200,
                stop_bits: StopBits::One,
                parity: Parity::NoParity,
                hw_flow_control: false,
            }),
            bytes: vec![b'h', b'i', b'\n'],
        }
    );
    assert!(w.initialized());
    assert_eq!(w.write_str(""), ConsoleOutput { init: None, bytes: Vec::new() });
    assert_eq!(
        w.write_str("\u{e9}"),
        ConsoleOutput { init: None, bytes: vec![0xc3, 0xa9] }
    );
    assert!(w.initialized());
}

#[test]
fn a_scan_walks_the_addresses() {
    let mut client = ScanClient::new();
    assert_eq!(client.dev_id(), 1);
    assert_eq!(i2c_scan_slaves(&client), ScanCommand { address: 1, len: 2 });
    let mut buffer = Buffer::new(0x3000, vec![0; 255]);
    let mut found = Vec::new();
    let mut writes = vec![1u8];
    loop {
        let error = if client.dev_id() == 0x20 || client.dev_id() == 0x7f {
            Error::CommandComplete
        } else {
            Error::AddressNak
        };
        let out = client.command_complete(buffer, error);
        if let Some(address) = out.found {
            found.push(address);
        }
        buffer = out.buffer;
        match out.next {
            Some(command) => {
                assert_eq!(command.len, 1);
                assert_eq!(command.address, client.dev_id());
                writes.push(command.address);
            }
            None => break,
        }
    }
    assert_eq!(found, vec![0x20, 0x7f]);
    assert_eq!(writes, (1..=0x7fu8).collect::<Vec<u8>>());
    assert_eq!(client.dev_id(), 0x7f);
    assert_eq!(buffer, Buffer::new(0x3000, vec![0; 255]));
}

#[test]
fn a_scan_reports_only_commands_that_completed() {
    for error in [Error::AddressNak, Error::DataNak, Error::ArbitrationLost] {
        let mut client = ScanClient::new();
        let out = client.command_complete(Buffer::new(0, vec![0]), error);
        assert_eq!(out.found, None);
        assert_eq!(out.next, Some(ScanCommand { address: 2, len: 1 }));
    }
    let mut client = ScanClient::new();
    let out = client.command_complete(Buffer::new(0, vec![0]), Error::CommandComplete);
    assert_eq!(out.found, Some(1));
    assert_eq!(client.dev_id(), 2);
}

#[test]
fn the_two_wire_peripheral_of_the_nrf51() {
    assert_eq!(I2CHw::new(), I2CHw {});
    assert_ne!(Speed::Standard100k, Speed::Fast400k);
}

#[test]
fn startup_values() {
    assert_eq!(rc32k_enabled(0), 0x5);
    assert_eq!(rc32k_enabled(0xffff_0000), 0xffff_0005);
    assert_eq!(dfll_closed_loop(0), 0x20003);
    assert_eq!(dfll_closed_loop(0xffff_ffff), 0xfffe_ffff);
    assert_eq!(dfll_closed_loop(0x0001_0000), 0x0002_0003);
    assert_eq!(flash_wait_state(0), 0x40);
    assert_eq!(flash_wait_state(0x81), 0xc1);
    assert_eq!(flash_high_speed(0), 0xa500_0010);
    assert_eq!(flash_high_speed(0x0012_34ff), 0xa512_34d0);
}

#[test]
fn startup_steps_in_order() {
    let loaded = Loaded::new()
        .with(Slot::Rc32kcr, 0x100)
        .with(Slot::Dfll0conf, 0x1_0000)
        .with(Slot::Fcr, 0x1)
        .with(Slot::Fcmd, 0x3f);
    assert_eq!(loaded, Loaded { rc32kcr: 0x100, dfll0conf: 0x1_0000, fcr: 0x1, fcmd: 0x3f });
    let store = |address, value| Some(Step::Store { address, value });
    let wait = |address, mask| Some(Step::Await { address, mask });
    let load = |address, slot| Some(Step::Load { address, slot });
    let expected = vec![
        Some(Step::EnableClock(Clock::HSB(HSBClock::FLASHCALWP))),
        Some(Step::EnableClock(Clock::PBB(PBBClock::HRAMC1))),
        store(0x400A0408, 1),
        wait(0x400A040c, 1),
        load(0x400F0424, Slot::Rc32kcr),
        store(0x400F0418, 0xAA000024),
        store(0x400F0424, 0x105),
        wait(0x400F0424, 1),
        store(0x400E0840, 1),
        wait(0x400E0814, 1 << 3),
        load(0x400E0828, Slot::Dfll0conf),
        store(0x400E0874, 1 | (13 << 8)),
        store(0x400E0818, 0xAA000028),
        store(0x400E0828, 1),
        wait(0x400E0814, 1 << 3),
        store(0x400E0818, 0xAA000034),
        store(0x400E0834, 4 | (4 << 16)),
        wait(0x400E0814, 1 << 3),
        store(0x400E0818, 0xAA000030),
        store(0x400E0830, 1563),
        wait(0x400E0814, 1 << 3),
        store(0x400E0818, 0xAA000038),
        store(0x400E0838, 0),
        wait(0x400E0814, 1 << 3),
        store(0x400E0818, 0xAA000028),
        store(0x400E0828, 0x2_0003),
        wait(0x400E0814, 1 << 2),
        load(0x400A0000, Slot::Fcr),
        store(0x400A0000, 0x41),
        load(0x400A0004, Slot::Fcmd),
        store(0x400A0004, 0xa500_0010),
        wait(0x400A0008, 1),
        Some(Step::SelectMainClock(MainClock::DFLL)),
    ];
    assert_eq!(expected.len(), STEPS);
    for (i, step) in expected.iter().enumerate() {
        assert_eq!(init(i, loaded), *step);
    }
    assert_eq!(init(STEPS, loaded), None);
    assert_eq!(init(usize::MAX, loaded), None);
}
