use vstd::prelude::*;
use crate::bits::{field1, field2, field4, set_field1, set_field2, set_field4};

verus! {

/// A GPIO bank of the chip.
#[derive(Clone, Copy, Debug, PartialEq, Eq, Structural)]
pub enum Bank {
    A,
    B,
    C,
}

/// Pull resistor configuration of a pin.
#[derive(Clone, Copy, Debug, PartialEq, Eq, Structural)]
pub enum Pull {
    Floating,
    PullUp,
    PullDown,
}

/// Output driver of a pin.
#[derive(Clone, Copy, Debug, PartialEq, Eq, Structural)]
pub enum OutputType {
    PushPull,
    OpenDrain,
}

/// Drive speed of a pin's output stage.
#[derive(Clone, Copy, Debug, PartialEq, Eq, Structural)]
pub enum PinSpeed {
    Low,
    Medium,
    High,
    VeryHigh,
}

/// The electrical mode a pin handle is in.
#[derive(Clone, Copy, Debug, PartialEq, Eq, Structural)]
pub enum Mode {
    Analog,
    Input(Pull),
    Output(OutputType, Pull),
    /// Routed to an on-chip peripheral through alternate function `k` (0..16).
    AltFun(u32),
}

pub open spec fn mode_bits(m: Mode) -> u32 {
    match m {
        Mode::Input(_) => 0,
        Mode::Output(_, _) => 1,
        Mode::AltFun(_) => 2,
        Mode::Analog => 3,
    }
}

pub open spec fn pull_bits(p: Pull) -> u32 {
    match p {
        Pull::Floating => 0,
        Pull::PullUp => 1,
        Pull::PullDown => 2,
    }
}

pub open spec fn otype_bit(o: OutputType) -> u32 {
    match o {
        OutputType::PushPull => 0,
        OutputType::OpenDrain => 1,
    }
}

pub open spec fn speed_bits(s: PinSpeed) -> u32 {
    match s {
        PinSpeed::Low => 0,
        PinSpeed::Medium => 1,
        PinSpeed::High => 2,
        PinSpeed::VeryHigh => 3,
    }
}

fn pull_code(p: Pull) -> (r: u32)
    ensures
        r == pull_bits(p),
{
    match p {
        Pull::Floating => 0,
        Pull::PullUp => 1,
        Pull::PullDown => 2,
    }
}

fn otype_code(o: OutputType) -> (r: u32)
    ensures
        r == otype_bit(o),
{
    match o {
        OutputType::PushPull => 0,
        OutputType::OpenDrain => 1,
    }
}

fn speed_code(s: PinSpeed) -> (r: u32)
    ensures
        r == speed_bits(s),
{
    match s {
        PinSpeed::Low => 0,
        PinSpeed::Medium => 1,
        PinSpeed::High => 2,
        PinSpeed::VeryHigh => 3,
    }
}

/// The register fields that belong to one pin of a bank.
#[derive(Clone, Copy, Debug, PartialEq, Eq, Structural)]
pub struct PinRegs {
    pub mode: u32,
    pub otype: u32,
    pub speed: u32,
    pub pull: u32,
    pub af: u32,
    pub out: u32,
}

/// An image of one GPIO bank's configuration registers.
#[derive(Clone, Copy, Debug, PartialEq, Eq, Structural)]
pub struct GpioPort {
    pub bank: Bank,
    pub moder: u32,
    pub otyper: u32,
    pub ospeedr: u32,
    pub pupdr: u32,
    pub afrl: u32,
    pub afrh: u32,
    pub odr: u32,
    pub idr: u32,
}

/// Bank A's debug pins (13 and 14) leave reset routed to the debug port.
pub open spec fn is_debug_pin(bank: Bank, j: u32) -> bool {
    bank == Bank::A && (j == 13 || j == 14)
}

proof fn lemma_reset_a(j: u32)
    by (bit_vector)
    requires
        j < 16,
        j != 13,
        j != 14,
    ensures
        (0xEBFF_FFFFu32 >> (2 * j)) & 3 == 3,
        (0x2400_0000u32 >> (2 * j)) & 3 == 0,
{
}

proof fn lemma_reset_other(j: u32)
    by (bit_vector)
    requires
        j < 16,
    ensures
        (0xFFFF_FFFFu32 >> (2 * j)) & 3 == 3,
        (0u32 >> (2 * j)) & 3 == 0,
{
}

impl GpioPort {
    /// The fields of pin `j` (0..16).
    pub open spec fn pin_regs(self, j: u32) -> PinRegs {
        PinRegs {
            mode: field2(self.moder, j),
            otype: field1(self.otyper, j),
            speed: field2(self.ospeedr, j),
            pull: field2(self.pupdr, j),
            af: if j < 8 { field4(self.afrl, j) } else { field4(self.afrh, (j - 8) as u32) },
            out: field1(self.odr, j),
        }
    }

    /// Every pin other than `i` keeps its fields from `old`.
    pub open spec fn others_kept(self, old: GpioPort, i: u32) -> bool {
        &&& self.bank == old.bank
        &&& self.idr == old.idr
        &&& forall|j: u32| j < 16 && j != i ==> #[trigger] self.pin_regs(j) == old.pin_regs(j)
    }

    /// Puts pin `i` in output mode with the given driver and pull.
    pub fn configure_output(&mut self, i: u32, otype: OutputType, pull: Pull)
        requires
            i < 16,
        ensures
            final(self).others_kept(*old(self), i),
            final(self).pin_regs(i) == (PinRegs {
                mode: 1,
                otype: otype_bit(otype),
                pull: pull_bits(pull),
                ..old(self).pin_regs(i)
            }),
    {
        self.moder = set_field2(self.moder, i, 1);
        self.pupdr = set_field2(self.pupdr, i, pull_code(pull));
        self.otyper = set_field1(self.otyper, i, otype_code(otype));
    }

    /// Puts pin `i` in input mode with the given pull.
    pub fn configure_input(&mut self, i: u32, pull: Pull)
        requires
            i < 16,
        ensures
            final(self).others_kept(*old(self), i),
            final(self).pin_regs(i) == (PinRegs { mode: 0, pull: pull_bits(pull), ..old(self).pin_regs(i) }),
    {
        self.moder = set_field2(self.moder, i, 0);
        self.pupdr = set_field2(self.pupdr, i, pull_code(pull));
    }

    /// Routes pin `i` to alternate function `af`.
    pub fn configure_alt_fun(&mut self, i: u32, af: u32)
        requires
            i < 16,
            af < 16,
        ensures
            final(self).others_kept(*old(self), i),
            final(self).pin_regs(i) == (PinRegs { mode: 2, af: af, ..old(self).pin_regs(i) }),
    {
        self.moder = set_field2(self.moder, i, 2);
        if i < 8 {
            self.afrl = set_field4(self.afrl, i, af);
        } else {
            self.afrh = set_field4(self.afrh, i - 8, af);
        }
    }

    /// Sets the drive speed of pin `i`.
    pub fn configure_speed(&mut self, i: u32, spd: PinSpeed)
        requires
            i < 16,
        ensures
            final(self).others_kept(*old(self), i),
            final(self).pin_regs(i) == (PinRegs { speed: speed_bits(spd), ..old(self).pin_regs(i) }),
    {
        self.ospeedr = set_field2(self.ospeedr, i, speed_code(spd));
    }

    /// Sets the output level of pin `i` (1 high, 0 low).
    pub fn drive(&mut self, i: u32, level: u32)
        requires
            i < 16,
            level < 2,
        ensures
            final(self).others_kept(*old(self), i),
            final(self).pin_regs(i) == (PinRegs { out: level, ..old(self).pin_regs(i) }),
    {
        self.odr = set_field1(self.odr, i, level);
    }

    /// The registers of `bank` as they stand after reset.
    pub fn reset(bank: Bank) -> (r: GpioPort)
        ensures
            r == (match bank {
                Bank::A => GpioPort {
                    bank,
                    moder: 0xEBFF_FFFF,
                    otyper: 0,
                    ospeedr: 0x0C00_0000,
                    pupdr: 0x2400_0000,
                    afrl: 0,
                    afrh: 0,
                    odr: 0,
                    idr: 0,
                },
                _ => GpioPort {
                    bank,
                    moder: 0xFFFF_FFFF,
                    otyper: 0,
                    ospeedr: 0,
                    pupdr: 0,
                    afrl: 0,
                    afrh: 0,
                    odr: 0,
                    idr: 0,
                },
            }),
            forall|j: u32|
                j < 16 && !is_debug_pin(bank, j) ==> (#[trigger] r.pin_regs(j)).mode == 3
                    && r.pin_regs(j).pull == 0,
    {
        let (moder, ospeedr, pupdr) = match bank {
            Bank::A => (0xEBFF_FFFFu32, 0x0C00_0000u32, 0x2400_0000u32),
            _ => (0xFFFF_FFFFu32, 0u32, 0u32),
        };
        let r = GpioPort {
            bank,
            moder,
            otyper: 0,
            ospeedr,
            pupdr,
            afrl: 0,
            afrh: 0,
            odr: 0,
            idr: 0,
        };
        assert forall|j: u32| j < 16 && !is_debug_pin(bank, j) implies (#[trigger] r.pin_regs(
            j,
        )).mode == 3 && r.pin_regs(j).pull == 0 by {
            if bank == Bank::A {
                lemma_reset_a(j);
            } else {
                lemma_reset_other(j);
            }
        }
        r
    }
}

/// What a pin handle stands for: one physical pin and the mode it is in.
pub struct PinView {
    pub bank: Bank,
    pub index: u32,
    pub mode: Mode,
}

/// The one live handle of a physical pin. Handles are only made by the bank
/// allocator; every mode change consumes the handle and returns a new one.
pub struct Pin {
    bank: Bank,
    index: u32,
    mode: Mode,
}

impl View for Pin {
    type V = PinView;

    closed spec fn view(&self) -> PinView {
        PinView { bank: self.bank, index: self.index, mode: self.mode }
    }
}

impl Pin {
    #[verifier::type_invariant]
    closed spec fn inv(self) -> bool {
        self.index < 16
    }

    /// A fresh handle in analog mode, as a bank leaves reset.
    pub(crate) fn analog(bank: Bank, index: u32) -> (r: Pin)
        requires
            index < 16,
        ensures
            r@ == (PinView { bank, index, mode: Mode::Analog }),
    {
        Pin { bank, index, mode: Mode::Analog }
    }

    pub fn bank(&self) -> (r: Bank)
        ensures
            r == self@.bank,
    {
        self.bank
    }

    pub fn index(&self) -> (r: u32)
        ensures
            r == self@.index,
            r < 16,
    {
        proof {
            use_type_invariant(self);
        }
        self.index
    }

    pub fn mode(&self) -> (r: Mode)
        ensures
            r == self@.mode,
    {
        self.mode
    }

    /// Turns the pin, in whatever mode, into a digital output.
    pub fn into_output(self, port: &mut GpioPort, otype: OutputType, pull: Pull) -> (r: Pin)
        requires
            old(port).bank == self@.bank,
        ensures
            r@ == (PinView { mode: Mode::Output(otype, pull), ..self@ }),
            final(port).others_kept(*old(port), self@.index),
            final(port).pin_regs(self@.index) == (PinRegs {
                mode: 1,
                otype: otype_bit(otype),
                pull: pull_bits(pull),
                ..old(port).pin_regs(self@.index)
            }),
    {
        proof {
            use_type_invariant(&self);
        }
        let i = self.index;
        port.configure_output(i, otype, pull);
        Pin { bank: self.bank, index: i, mode: Mode::Output(otype, pull) }
    }

    /// Turns the pin, in whatever mode, into a digital input.
    pub fn into_input(self, port: &mut GpioPort, pull: Pull) -> (r: Pin)
        requires
            old(port).bank == self@.bank,
        ensures
            r@ == (PinView { mode: Mode::Input(pull), ..self@ }),
            final(port).others_kept(*old(port), self@.index),
            final(port).pin_regs(self@.index) == (PinRegs {
                mode: 0,
                pull: pull_bits(pull),
                ..old(port).pin_regs(self@.index)
            }),
    {
        proof {
            use_type_invariant(&self);
        }
        let i = self.index;
        port.configure_input(i, pull);
        Pin { bank: self.bank, index: i, mode: Mode::Input(pull) }
    }

    /// Routes a digital pin to alternate function `af`.
    pub fn into_alt_fun(self, port: &mut GpioPort, af: u32) -> (r: Pin)
        requires
            self@.mode is Output || self@.mode is Input,
            af < 16,
            old(port).bank == self@.bank,
        ensures
            r@ == (PinView { mode: Mode::AltFun(af), ..self@ }),
            final(port).others_kept(*old(port), self@.index),
            final(port).pin_regs(self@.index) == (PinRegs {
                mode: 2,
                af: af,
                ..old(port).pin_regs(self@.index)
            }),
    {
        proof {
            use_type_invariant(&self);
        }
        let i = self.index;
        port.configure_alt_fun(i, af);
        Pin { bank: self.bank, index: i, mode: Mode::AltFun(af) }
    }

    /// Sets the drive speed of an output or alternate-function pin.
    pub fn set_pin_speed(&self, port: &mut GpioPort, spd: PinSpeed)
        requires
            self@.mode is Output || self@.mode is AltFun,
            old(port).bank == self@.bank,
        ensures
            final(port).others_kept(*old(port), self@.index),
            final(port).pin_regs(self@.index) == (PinRegs {
                speed: speed_bits(spd),
                ..old(port).pin_regs(self@.index)
            }),
    {
        proof {
            use_type_invariant(self);
        }
        port.configure_speed(self.index, spd);
    }

    /// Drives an output pin to `level` (1 high, 0 low).
    fn set_level(&self, port: &mut GpioPort, level: u32)
        requires
            self@.mode is Output,
            old(port).bank == self@.bank,
            level < 2,
        ensures
            final(port).others_kept(*old(port), self@.index),
            final(port).pin_regs(self@.index) == (PinRegs {
                out: level,
                ..old(port).pin_regs(self@.index)
            }),
    {
        proof {
            use_type_invariant(self);
        }
        port.drive(self.index, level);
    }

    /// Drives an output pin high.
    pub fn set_high(&self, port: &mut GpioPort)
        requires
            self@.mode is Output,
            old(port).bank == self@.bank,
        ensures
            final(port).others_kept(*old(port), self@.index),
            final(port).pin_regs(self@.index) == (PinRegs {
                out: 1,
                ..old(port).pin_regs(self@.index)
            }),
    {
        self.set_level(port, 1);
    }

    /// Drives an output pin low.
    pub fn set_low(&self, port: &mut GpioPort)
        requires
            self@.mode is Output,
            old(port).bank == self@.bank,
        ensures
            final(port).others_kept(*old(port), self@.index),
            final(port).pin_regs(self@.index) == (PinRegs {
                out: 0,
                ..old(port).pin_regs(self@.index)
            }),
    {
        self.set_level(port, 0);
    }

    /// Whether an output pin is currently driven low.
    pub fn is_set_low(&self, port: &GpioPort) -> (r: bool)
        requires
            self@.mode is Output,
            port.bank == self@.bank,
        ensures
            r == (port.pin_regs(self@.index).out == 0),
    {
        proof {
            use_type_invariant(self);
        }
        (port.odr >> self.index) & 1 == 0
    }

    /// Whether an input pin reads high.
    pub fn is_high(&self, port: &GpioPort) -> (r: bool)
        requires
            self@.mode is Input,
            port.bank == self@.bank,
        ensures
            r == (field1(port.idr, self@.index) == 1),
    {
        proof {
            use_type_invariant(self);
        }
        (port.idr >> self.index) & 1 == 1
    }
}

} // verus!
