use rustsbi_hpm::pin::{IocBlock, PadOp, Pin, PinState, Pins, Pull, PORT_A, PORT_B, PORT_Y};

#[test]
fn gpio_writes_use_port_bank_and_pin_bit() {
    let pin = Pin::new(PORT_B, 5, 12);
    assert_eq!(pin.set_high(), PadOp::OutputHigh { bank: 1, mask: 1 << 5 });
    assert_eq!(pin.set_low(), PadOp::OutputLow { bank: 1, mask: 1 << 5 });
    assert_eq!(pin.toggle(), PadOp::OutputToggle { bank: 1, mask: 1 << 5 });
    assert_eq!(pin.set_bool(true), pin.set_high());
    assert_eq!(pin.set_bool(false), pin.set_low());
    assert_eq!(pin.output_enable(true), PadOp::OutputEnable { bank: 1, mask: 1 << 5 });
    assert_eq!(pin.output_enable(false), PadOp::OutputDisable { bank: 1, mask: 1 << 5 });
}

#[test]
fn power_domain_port_maps_to_bank_fourteen() {
    let pin = Pin::new(PORT_Y, 6, 2);
    assert_eq!(pin.set_high(), PadOp::OutputHigh { bank: 14, mask: 1 << 6 });
    assert_eq!(
        pin.set_mode_alternate(),
        vec![
            PadOp::AltSelect { block: IocBlock::Main, pad: 14 * 32 + 6, alt: 2 },
            PadOp::AltSelect { block: IocBlock::Power, pad: 14 * 32 + 6, alt: 3 },
        ]
    );
}

#[test]
fn input_level_reads_the_pin_bit() {
    let pin = Pin::new(PORT_A, 7, 0);
    assert_eq!(pin.get_state(1 << 7), PinState::High);
    assert_eq!(pin.get_state(!(1u32 << 7)), PinState::Low);
    assert!(pin.is_high(0x80));
    assert!(pin.is_low(0x7f));
}

#[test]
fn pad_configuration_writes() {
    let pin = Pin::new(PORT_A, 7, 0);
    assert_eq!(pin.set_open_drain(), PadOp::OpenDrain { pad: 7, on: true });
    assert_eq!(pin.set_push_pull(), PadOp::OpenDrain { pad: 7, on: false });
    assert_eq!(pin.set_pull(Pull::Floating), PadOp::PullDisable { pad: 7 });
    assert_eq!(pin.set_pull_up(), PadOp::PullEnable { pad: 7, down: false });
    assert_eq!(pin.set_pull_down(), PadOp::PullEnable { pad: 7, down: true });
    assert_eq!(pin.set_pull_floating(), PadOp::PullDisable { pad: 7 });
    assert_eq!(pin.set_loop_back(true), PadOp::LoopBack { pad: 7, on: true });
    assert_eq!(
        pin.set_mode_output(),
        vec![
            PadOp::OutputEnable { bank: 0, mask: 1 << 7 },
            PadOp::AltSelect { block: IocBlock::Main, pad: 7, alt: 0 },
        ]
    );
    assert_eq!(
        pin.set_mode_input(),
        vec![
            PadOp::OutputDisable { bank: 0, mask: 1 << 7 },
            PadOp::AltSelect { block: IocBlock::Main, pad: 7, alt: 0 },
        ]
    );
}

#[test]
fn board_setup_sequence() {
    let ops = Pins::new().setup();
    // three LED writes, two for each UART pin, one per SDRAM pin
    assert_eq!(ops.len(), 3 + 2 + 2 + 39);
    assert_eq!(ops[0], PadOp::OutputEnable { bank: 0, mask: 1 << 7 });
    assert_eq!(ops[1], PadOp::OpenDrain { pad: 7, on: true });
    assert_eq!(ops[2], PadOp::OutputLow { bank: 0, mask: 1 << 7 });
    assert_eq!(ops[3], PadOp::AltSelect { block: IocBlock::Main, pad: 14 * 32 + 6, alt: 2 });
    assert_eq!(ops[7], PadOp::AltSelect { block: IocBlock::Main, pad: 25, alt: 12 });
    assert_eq!(ops[14], PadOp::AltSelect { block: IocBlock::Main, pad: 32, alt: 12 });
    assert_eq!(ops[45], PadOp::AltSelect { block: IocBlock::Main, pad: 32 + 31, alt: 12 });
}
