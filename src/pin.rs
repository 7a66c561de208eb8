//! Pin multiplexing and GPIO as register operations.
//!
//! A pin's methods do not touch the hardware: each says which write to the
//! GPIO or IO-control block it needs, and the caller carries that write out.
use vstd::prelude::*;

verus! {

/// ASCII code of port letter `A`.
pub const PORT_A: u8 = 65;

/// ASCII code of port letter `B`.
pub const PORT_B: u8 = 66;

/// ASCII code of port letter `Y`, the power-domain port.
pub const PORT_Y: u8 = 89;

/// Level of an input pin.
#[derive(Clone, Copy, Debug, PartialEq, Eq, Structural)]
pub enum PinState {
    Low,
    High,
}

/// Pull resistor setting of a pad.
#[derive(Clone, Copy, Debug, PartialEq, Eq, Structural)]
pub enum Pull {
    PullDown,
    PullUp,
    Floating,
}

/// The IO-control block that owns a pad's function selection.
#[derive(Clone, Copy, Debug, PartialEq, Eq, Structural)]
pub enum IocBlock {
    /// The main IO controller.
    Main,
    /// The power-domain IO controller, which also routes port `Y`.
    Power,
}

/// One register write to the GPIO or IO-control blocks. `bank` is a GPIO
/// port's register index and `mask` selects its pins; `pad` is a pad index
/// (`bank * 32 + pin`).
#[derive(Clone, Copy, Debug, PartialEq, Eq, Structural)]
pub enum PadOp {
    /// Set bits in the output-enable register.
    OutputEnable { bank: usize, mask: u32 },
    /// Clear bits in the output-enable register.
    OutputDisable { bank: usize, mask: u32 },
    /// Set bits in the data-out register.
    OutputHigh { bank: usize, mask: u32 },
    /// Clear bits in the data-out register.
    OutputLow { bank: usize, mask: u32 },
    /// Toggle bits in the data-out register.
    OutputToggle { bank: usize, mask: u32 },
    /// Select alternate function `alt` for the pad.
    AltSelect { block: IocBlock, pad: usize, alt: u8 },
    /// Switch the pad's input loop-back.
    LoopBack { pad: usize, on: bool },
    /// Select open-drain (`true`) or push-pull output.
    OpenDrain { pad: usize, on: bool },
    /// Disconnect the pull resistor.
    PullDisable { pad: usize },
    /// Connect the pull resistor, pulling down when `down`, else up.
    PullEnable { pad: usize, down: bool },
}

/// GPIO register index of port `port` (an ASCII letter): ports `A` to `N`
/// count from 0, ports from `O` on share the index range after `D`, so that
/// `Y` (the power-domain port) is 14.
pub open spec fn bank_of(port: u8) -> int {
    let n = port - 65;
    if n > 13 {
        n - 10
    } else {
        n
    }
}

/// One pin: its port letter, its number within the port and the alternate
/// function it takes for its peripheral.
#[derive(Clone, Copy, Debug)]
pub struct Pin {
    port: u8,
    pin: u8,
    alt: u8,
}

impl Pin {
    #[verifier::type_invariant]
    spec fn inv(self) -> bool {
        65 <= self.port <= 90 && self.pin < 32 && self.alt < 32
    }

    pub closed spec fn port_spec(self) -> u8 {
        self.port
    }

    pub closed spec fn pin_spec(self) -> u8 {
        self.pin
    }

    pub closed spec fn alt_spec(self) -> u8 {
        self.alt
    }

    /// GPIO register index of this pin's port.
    pub open spec fn bank(self) -> int {
        bank_of(self.port_spec())
    }

    /// Pad index of this pin.
    pub open spec fn pad(self) -> int {
        self.bank() * 32 + self.pin_spec()
    }

    /// Bit of this pin within its port's registers.
    pub open spec fn mask(self) -> u32 {
        1u32 << self.pin_spec()
    }

    /// Pin `pin` of port `port` (an ASCII letter from `A` to `Z`), whose peripheral function is `alt`.
    pub fn new(port: u8, pin: u8, alt: u8) -> (r: Self)
        requires
            65 <= port <= 90,
            pin < 32,
            alt < 32,
        ensures
            r.port_spec() == port,
            r.pin_spec() == pin,
            r.alt_spec() == alt,
    {
        Pin { port, pin, alt }
    }

    fn base_n(&self) -> (r: usize)
        ensures
            r == self.bank(),
            r <= 15,
    {
        proof {
            use_type_invariant(self);
        }
        let mut n = (self.port - 65u8) as usize;
        if n > 13 {
            n = n - 10;
        }
        n
    }

    fn pad_index(&self) -> (r: usize)
        ensures
            r == self.pad(),
    {
        proof {
            use_type_invariant(self);
        }
        self.base_n() * 32 + self.pin as usize
    }

    fn bit(&self) -> (r: u32)
        ensures
            r == self.mask(),
    {
        proof {
            use_type_invariant(self);
        }
        1u32 << self.pin
    }

    /// Enables (`true`) or disables the pin's output driver.
    pub fn output_enable(&self, enable: bool) -> (r: PadOp)
        ensures
            r == (if enable {
                PadOp::OutputEnable { bank: self.bank() as usize, mask: self.mask() }
            } else {
                PadOp::OutputDisable { bank: self.bank() as usize, mask: self.mask() }
            }),
    {
        if enable {
            PadOp::OutputEnable { bank: self.base_n(), mask: self.bit() }
        } else {
            PadOp::OutputDisable { bank: self.base_n(), mask: self.bit() }
        }
    }

    /// Drives the pin high.
    pub fn set_high(&self) -> (r: PadOp)
        ensures
            r == (PadOp::OutputHigh { bank: self.bank() as usize, mask: self.mask() }),
    {
        PadOp::OutputHigh { bank: self.base_n(), mask: self.bit() }
    }

    /// Drives the pin low.
    pub fn set_low(&self) -> (r: PadOp)
        ensures
            r == (PadOp::OutputLow { bank: self.bank() as usize, mask: self.mask() }),
    {
        PadOp::OutputLow { bank: self.base_n(), mask: self.bit() }
    }

    /// Drives the pin high for `true`, low for `false`.
    pub fn set_bool(&self, state: bool) -> (r: PadOp)
        ensures
            r == (if state {
                PadOp::OutputHigh { bank: self.bank() as usize, mask: self.mask() }
            } else {
                PadOp::OutputLow { bank: self.bank() as usize, mask: self.mask() }
            }),
    {
        if state {
            self.set_high()
        } else {
            self.set_low()
        }
    }

    /// Inverts the pin's output.
    pub fn toggle(&self) -> (r: PadOp)
        ensures
            r == (PadOp::OutputToggle { bank: self.bank() as usize, mask: self.mask() }),
    {
        PadOp::OutputToggle { bank: self.base_n(), mask: self.bit() }
    }

    /// Level of the pin, given the value `input` of its port's data-in register.
    pub fn get_state(&self, input: u32) -> (r: PinState)
        ensures
            r == (if (input >> self.pin_spec()) & 1 == 1 {
                PinState::High
            } else {
                PinState::Low
            }),
    {
        proof {
            use_type_invariant(self);
        }
        if (input >> self.pin) & 1 == 1 {
            PinState::High
        } else {
            PinState::Low
        }
    }

    /// Whether the pin reads high, given its port's data-in register value.
    pub fn is_high(&self, input: u32) -> (r: bool)
        ensures
            r == ((input >> self.pin_spec()) & 1 == 1),
    {
        match self.get_state(input) {
            PinState::Low => false,
            PinState::High => true,
        }
    }

    /// Whether the pin reads low, given its port's data-in register value.
    pub fn is_low(&self, input: u32) -> (r: bool)
        ensures
            r == ((input >> self.pin_spec()) & 1 != 1),
    {
        match self.get_state(input) {
            PinState::Low => true,
            PinState::High => false,
        }
    }

    /// Selects alternate function `alt` for the pad; a port `Y` pad is also
    /// routed through the power-domain controller (its function 3).
    pub fn set_af(&self, alt: u8) -> (r: Vec<PadOp>)
        requires
            alt < 32,
        ensures
            r@ == af_ops(*self, alt),
    {
        let pad = self.pad_index();
        let mut r: Vec<PadOp> = Vec::new();
        r.push(PadOp::AltSelect { block: IocBlock::Main, pad, alt });
        if self.port == PORT_Y {
            r.push(PadOp::AltSelect { block: IocBlock::Power, pad, alt: 3 });
        }
        r
    }

    /// Switches the pad's input loop-back.
    pub fn set_loop_back(&self, on: bool) -> (r: PadOp)
        ensures
            r == (PadOp::LoopBack { pad: self.pad() as usize, on }),
    {
        PadOp::LoopBack { pad: self.pad_index(), on }
    }

    /// Makes the pin a GPIO output.
    pub fn set_mode_output(&self) -> (r: Vec<PadOp>)
        ensures
            r@ == seq![PadOp::OutputEnable { bank: self.bank() as usize, mask: self.mask() }] + af_ops(*self, 0),
    {
        let mut r: Vec<PadOp> = Vec::new();
        r.push(self.output_enable(true));
        let mut af = self.set_af(0);
        r.append(&mut af);
        r
    }

    /// Makes the pin a GPIO input.
    pub fn set_mode_input(&self) -> (r: Vec<PadOp>)
        ensures
            r@ == seq![PadOp::OutputDisable { bank: self.bank() as usize, mask: self.mask() }] + af_ops(*self, 0),
    {
        let mut r: Vec<PadOp> = Vec::new();
        r.push(self.output_enable(false));
        let mut af = self.set_af(0);
        r.append(&mut af);
        r
    }

    /// Gives the pin to its peripheral.
    pub fn set_mode_alternate(&self) -> (r: Vec<PadOp>)
        ensures
            r@ == af_ops(*self, self.alt_spec()),
    {
        proof {
            use_type_invariant(self);
        }
        self.set_af(self.alt)
    }

    /// Push-pull output stage.
    pub fn set_push_pull(&self) -> (r: PadOp)
        ensures
            r == (PadOp::OpenDrain { pad: self.pad() as usize, on: false }),
    {
        PadOp::OpenDrain { pad: self.pad_index(), on: false }
    }

    /// Open-drain output stage.
    pub fn set_open_drain(&self) -> (r: PadOp)
        ensures
            r == (PadOp::OpenDrain { pad: self.pad() as usize, on: true }),
    {
        PadOp::OpenDrain { pad: self.pad_index(), on: true }
    }

    /// Sets the pull resistor.
    pub fn set_pull(&self, pull: Pull) -> (r: PadOp)
        ensures
            r == pull_op(*self, pull),
    {
        let pad = self.pad_index();
        match pull {
            Pull::Floating => PadOp::PullDisable { pad },
            _ => PadOp::PullEnable { pad, down: pull == Pull::PullDown },
        }
    }

    /// Pulls the pad down.
    pub fn set_pull_down(&self) -> (r: PadOp)
        ensures
            r == (PadOp::PullEnable { pad: self.pad() as usize, down: true }),
    {
        self.set_pull(Pull::PullDown)
    }

    /// Pulls the pad up.
    pub fn set_pull_up(&self) -> (r: PadOp)
        ensures
            r == (PadOp::PullEnable { pad: self.pad() as usize, down: false }),
    {
        self.set_pull(Pull::PullUp)
    }

    /// Leaves the pad floating.
    pub fn set_pull_floating(&self) -> (r: PadOp)
        ensures
            r == (PadOp::PullDisable { pad: self.pad() as usize }),
    {
        self.set_pull(Pull::Floating)
    }
}

/// Writes that select function `alt` for pin `p`.
pub open spec fn af_ops(p: Pin, alt: u8) -> Seq<PadOp> {
    let main = seq![PadOp::AltSelect { block: IocBlock::Main, pad: p.pad() as usize, alt }];
    if p.port_spec() == PORT_Y {
        main.push(PadOp::AltSelect { block: IocBlock::Power, pad: p.pad() as usize, alt: 3 })
    } else {
        main
    }
}

/// The write that sets pin `p`'s pull resistor to `pull`.
pub open spec fn pull_op(p: Pin, pull: Pull) -> PadOp {
    match pull {
        Pull::Floating => PadOp::PullDisable { pad: p.pad() as usize },
        Pull::PullDown => PadOp::PullEnable { pad: p.pad() as usize, down: true },
        Pull::PullUp => PadOp::PullEnable { pad: p.pad() as usize, down: false },
    }
}

/// Writes that give each of the first `n` pins of `pins` to its peripheral, in order.
pub open spec fn alternate_ops(pins: Seq<Pin>, n: int) -> Seq<PadOp>
    decreases n,
{
    if n <= 0 {
        seq![]
    } else {
        alternate_ops(pins, n - 1) + af_ops(pins[n - 1], pins[n - 1].alt_spec())
    }
}

/// The pins this board uses: a status LED, the console UART and the SDRAM bus.
pub struct Pins {
    pub led: Pin,
    pub uart0_tx: Pin,
    pub uart0_rx: Pin,
    pub sdram: [Pin; 39],
}

impl Pins {
    /// The board's pin table: the LED on `PA07`, the console on `PY06`/`PY07`
    /// (function 2), and the SDRAM bus on `PA25`..`PA31` and `PB00`..`PB31`
    /// (function 12).
    pub fn new() -> (r: Self)
        ensures
            r.led.port_spec() == PORT_A && r.led.pin_spec() == 7 && r.led.alt_spec() == 0,
            r.uart0_tx.port_spec() == PORT_Y && r.uart0_tx.pin_spec() == 6
                && r.uart0_tx.alt_spec() == 2,
            r.uart0_rx.port_spec() == PORT_Y && r.uart0_rx.pin_spec() == 7
                && r.uart0_rx.alt_spec() == 2,
            forall|i: int|
                0 <= i < 7 ==> #[trigger] r.sdram@[i].port_spec() == PORT_A && r.sdram@[i].pin_spec()
                    == 25 + i && r.sdram@[i].alt_spec() == 12,
            forall|i: int|
                7 <= i < 39 ==> #[trigger] r.sdram@[i].port_spec() == PORT_B && r.sdram@[i].pin_spec()
                    == i - 7 && r.sdram@[i].alt_spec() == 12,
    {
        Pins {
            led: Pin::new(PORT_A, 7, 0),
            uart0_tx: Pin::new(PORT_Y, 6, 2),
            uart0_rx: Pin::new(PORT_Y, 7, 2),
            sdram: [
                Pin::new(PORT_A, 25, 12),
                Pin::new(PORT_A, 26, 12),
                Pin::new(PORT_A, 27, 12),
                Pin::new(PORT_A, 28, 12),
                Pin::new(PORT_A, 29, 12),
                Pin::new(PORT_A, 30, 12),
                Pin::new(PORT_A, 31, 12),
                Pin::new(PORT_B, 0, 12),
                Pin::new(PORT_B, 1, 12),
                Pin::new(PORT_B, 2, 12),
                Pin::new(PORT_B, 3, 12),
                Pin::new(PORT_B, 4, 12),
                Pin::new(PORT_B, 5, 12),
                Pin::new(PORT_B, 6, 12),
                Pin::new(PORT_B, 7, 12),
                Pin::new(PORT_B, 8, 12),
                Pin::new(PORT_B, 9, 12),
                Pin::new(PORT_B, 10, 12),
                Pin::new(PORT_B, 11, 12),
                Pin::new(PORT_B, 12, 12),
                Pin::new(PORT_B, 13, 12),
                Pin::new(PORT_B, 14, 12),
                Pin::new(PORT_B, 15, 12),
                Pin::new(PORT_B, 16, 12),
                Pin::new(PORT_B, 17, 12),
                Pin::new(PORT_B, 18, 12),
                Pin::new(PORT_B, 19, 12),
                Pin::new(PORT_B, 20, 12),
                Pin::new(PORT_B, 21, 12),
                Pin::new(PORT_B, 22, 12),
                Pin::new(PORT_B, 23, 12),
                Pin::new(PORT_B, 24, 12),
                Pin::new(PORT_B, 25, 12),
                Pin::new(PORT_B, 26, 12),
                Pin::new(PORT_B, 27, 12),
                Pin::new(PORT_B, 28, 12),
                Pin::new(PORT_B, 29, 12),
                Pin::new(PORT_B, 30, 12),
                Pin::new(PORT_B, 31, 12),
            ],
        }
    }

    /// Pin setup at boot: the LED becomes an open-drain output driven low,
    /// then the UART and SDRAM pins are given to their peripherals.
    pub fn setup(&self) -> (r: Vec<PadOp>)
        ensures
            r@ == seq![
                PadOp::OutputEnable { bank: self.led.bank() as usize, mask: self.led.mask() },
                PadOp::OpenDrain { pad: self.led.pad() as usize, on: true },
                PadOp::OutputLow { bank: self.led.bank() as usize, mask: self.led.mask() },
            ] + af_ops(self.uart0_tx, self.uart0_tx.alt_spec()) + af_ops(
                self.uart0_rx,
                self.uart0_rx.alt_spec(),
            ) + alternate_ops(self.sdram@, 39),
    {
        let mut r: Vec<PadOp> = Vec::new();
        r.push(self.led.output_enable(true));
        r.push(self.led.set_open_drain());
        r.push(self.led.set_low());
        let mut tx = self.uart0_tx.set_mode_alternate();
        r.append(&mut tx);
        let mut rx = self.uart0_rx.set_mode_alternate();
        r.append(&mut rx);
        let ghost head = r@;
        let mut i: usize = 0;
        while i < 39
            invariant
                i <= 39,
                r@ == head + alternate_ops(self.sdram@, i as int),
            decreases 39 - i,
        {
            let mut ops = self.sdram[i].set_mode_alternate();
            r.append(&mut ops);
            proof {
                let p = self.sdram@[i as int];
                assert(head + alternate_ops(self.sdram@, i as int) + af_ops(p, p.alt_spec()) =~= head
                    + alternate_ops(self.sdram@, i as int + 1));
            }
            i = i + 1;
        }
        r
    }
}

} // verus!
