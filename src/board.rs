use vstd::prelude::*;
use crate::bits::{field1, set_field1};
use crate::clock::{
    context_of, freeze_plan, wait_states, ClockConfig, MsiFreq, SysClkSource,
    VCoreRange,
};
use crate::gpio::{
    otype_bit, pull_bits, Bank, GpioPort, Mode, OutputType, Pin, PinRegs, PinSpeed, PinView, Pull,
};
use crate::periph::{i2c_bound, serial_bound, usart_clk, I2c, I2cClkSrc, Serial, USARTClkSource};
use crate::rcc::{Flash, Power, Rcc};
use stm32l0x1_hal::stm32l0x1::{FLASH, GPIOA, GPIOB, GPIOC, I2C1, PWR, RCC, USART2};

verus! {

/// The pins of connectors CN3 and CN4, named by their silkscreen labels.
pub struct Pins {
    pub d1: Pin,
    pub d0: Pin,
    pub d2: Pin,
    pub d3: Pin,
    pub d4: Pin,
    pub d5: Pin,
    pub d6: Pin,
    pub d7: Pin,
    pub d8: Pin,
    pub d9: Pin,
    pub d10: Pin,
    pub d11: Pin,
    pub d12: Pin,
    pub d13: Pin,
    pub a0: Pin,
    pub a1: Pin,
    pub a2: Pin,
    pub a3: Pin,
    pub a4: Pin,
    pub a5: Pin,
    pub a6: Pin,
    pub a7: Pin,
}

/// Bank and index of each connector position, in the field order of `Pins`.
pub open spec fn connector_layout() -> Seq<(Bank, u32)> {
    seq![
        (Bank::A, 9), (Bank::A, 10), (Bank::A, 12), (Bank::B, 0), (Bank::B, 7), (Bank::B, 6),
        (Bank::B, 1), (Bank::C, 14), (Bank::C, 15), (Bank::A, 8), (Bank::A, 11), (Bank::B, 5),
        (Bank::B, 4), (Bank::B, 3), (Bank::A, 0), (Bank::A, 1), (Bank::A, 3), (Bank::A, 4),
        (Bank::A, 5), (Bank::A, 6), (Bank::A, 7), (Bank::A, 2),
    ]
}

/// The pin that receives from the debugger's virtual serial port; it is not on a connector.
pub open spec fn vcp_rx_pin() -> (Bank, u32) {
    (Bank::A, 15)
}

impl Pins {
    /// The handles, in field order.
    pub open spec fn views(&self) -> Seq<PinView> {
        seq![
            self.d1@, self.d0@, self.d2@, self.d3@, self.d4@, self.d5@, self.d6@, self.d7@,
            self.d8@, self.d9@, self.d10@, self.d11@, self.d12@, self.d13@, self.a0@, self.a1@,
            self.a2@, self.a3@, self.a4@, self.a5@, self.a6@, self.a7@,
        ]
    }
}

/// Every connector position names a different physical pin, and none of them
/// is the virtual serial port's receive pin: so a pin set holds each of its
/// pins exactly once.
pub proof fn lemma_layout_distinct()
    ensures
        connector_layout().len() == 22,
        forall|a: int, b: int|
            0 <= a < b < 22 ==> #[trigger] connector_layout()[a] != #[trigger] connector_layout()[b],
        forall|k: int| 0 <= k < 22 ==> #[trigger] connector_layout()[k] != vcp_rx_pin(),
{
    let l = connector_layout();
    assert(l.len() == 22);
    // one number per pin: 16 * bank + index
    let code = |p: (Bank, u32)|
        (match p.0 {
            Bank::A => 0int,
            Bank::B => 16int,
            Bank::C => 32int,
        }) + p.1 as int;
    assert(code(l[0]) == 9 && code(l[1]) == 10 && code(l[2]) == 12 && code(l[3]) == 16
        && code(l[4]) == 23 && code(l[5]) == 22 && code(l[6]) == 17 && code(l[7]) == 46
        && code(l[8]) == 47 && code(l[9]) == 8 && code(l[10]) == 11 && code(l[11]) == 21
        && code(l[12]) == 20 && code(l[13]) == 19 && code(l[14]) == 0 && code(l[15]) == 1
        && code(l[16]) == 3 && code(l[17]) == 4 && code(l[18]) == 5 && code(l[19]) == 6
        && code(l[20]) == 7 && code(l[21]) == 2);
}

/// SysTick clock: the core clock, or the external reference.
#[derive(Clone, Copy, Debug, PartialEq, Eq, Structural)]
pub enum SystClkSource {
    Core,
    External,
}

/// Largest value of the 24-bit SysTick reload register.
pub const SYST_RELOAD_MAX: u32 = 0x00FF_FFFF;

/// Registers of the SysTick timer.
#[derive(Clone, Copy, Debug, PartialEq, Eq, Structural)]
pub struct Syst {
    pub csr: u32,
    pub rvr: u32,
    pub cvr: u32,
}

impl Syst {
    /// The registers once started: clock source `src`, reload value `ticks`,
    /// counter cleared, counting with its interrupt enabled; the other control
    /// bits are kept.
    pub fn started(self, src: SystClkSource, ticks: u32) -> (r: Syst)
        requires
            ticks <= SYST_RELOAD_MAX,
        ensures
            r.rvr == ticks,
            r.cvr == 0,
            field1(r.csr, 0) == 1,
            field1(r.csr, 1) == 1,
            field1(r.csr, 2) == (if src == SystClkSource::Core { 1u32 } else { 0u32 }),
            forall|j: u32| 3 <= j < 32 ==> #[trigger] field1(r.csr, j) == field1(self.csr, j),
    {
        let clk: u32 = match src {
            SystClkSource::Core => 1,
            SystClkSource::External => 0,
        };
        let csr = set_field1(self.csr, 2, clk);
        let csr = set_field1(csr, 0, 1);
        Syst { csr: set_field1(csr, 1, 1), rvr: ticks, cvr: 0 }
    }
}

/// The clock configuration that the board is brought up with: the multi-speed
/// oscillator at 2.097 MHz drives every bus, and the 16 MHz oscillator runs for
/// the peripherals.
pub open spec fn board_config() -> ClockConfig {
    ClockConfig {
        msi_on: true,
        msi_freq: MsiFreq::Hz_2_097_000,
        hsi16_on: true,
        hclk_fclk: 2_097_000,
        pclk1: 2_097_000,
        pclk2: 2_097_000,
        sysclk_src: SysClkSource::MSI,
    }
}

/// The L031K6-Nucleo: its power, flash and clock controllers once brought up,
/// and the register blocks it has claimed.
pub struct Board {
    pub pwr: Power,
    pub flash: Flash,
    pub rcc: Rcc,
    pub claims: Claims,
}

/// The virtual serial port's receive pin, held by the board until the port takes it.
pub struct HeldRx {
    pin: Option<Pin>,
}

impl HeldRx {
    #[verifier::type_invariant]
    closed spec fn inv(self) -> bool {
        match self.pin {
            Some(p) => p@ == PinView { bank: Bank::A, index: 15, mode: Mode::Analog },
            None => true,
        }
    }

    pub closed spec fn view(&self) -> Option<PinView> {
        match self.pin {
            Some(p) => Some(p@),
            None => None,
        }
    }

    fn take(&mut self) -> (p: Pin)
        requires
            old(self).view() is Some,
        ensures
            p@ == (PinView { bank: Bank::A, index: 15, mode: Mode::Analog }),
            final(self).view() is None,
    {
        proof {
            use_type_invariant(&*self);
        }
        let mut held = HeldRx { pin: None };
        std::mem::swap(self, &mut held);
        proof {
            use_type_invariant(&held);
        }
        let HeldRx { pin } = held;
        match pin {
            Some(p) => p,
            None => Pin::analog(Bank::A, 15),
        }
    }
}

/// The register blocks that the board has taken ownership of.
pub struct Claims {
    pwr: PWR,
    flash: FLASH,
    rcc: RCC,
    banks: Option<(GPIOA, GPIOB, GPIOC)>,
    vcp_rx: HeldRx,
}

impl Claims {
    /// The virtual serial port's receive pin, while the board holds it.
    pub closed spec fn vcp_rx(&self) -> Option<PinView> {
        self.vcp_rx.view()
    }
}

/// Brings the power, flash and clock controllers up under core voltage range
/// `vcore`: high supply and RTC domain off, the range selected, the
/// oscillators and buses configured, and the clock tree frozen.
pub fn bring_up(vcore: VCoreRange) -> (r: (Power, Flash, Rcc))
    ensures
        r.0 == (Power { vdd_high: true, vcore, target: vcore, rtc_enabled: false }),
        r.1.latency == wait_states(vcore, 2_097_000),
        r.2.cfgr == board_config(),
        r.2.clocks == Some(context_of(board_config())),
        r.2.plan@ == freeze_plan(board_config(), 0, VCoreRange::Range2, vcore),
        r.2.iopenr == 0,
        r.2.apb1enr == 0,
        r.2.ccipr == 0,
{
    let pwr = Power::constrain();
    let mut pwr = pwr.into_vcore_range(vcore);
    let mut flash = Flash::constrain();
    let mut rcc = Rcc::constrain();
    rcc.cfgr.msi_on = true;
    rcc.cfgr.msi_freq = MsiFreq::Hz_2_097_000;
    rcc.cfgr.hsi16_on = true;
    rcc.cfgr.hclk_fclk = 2_097_000;
    rcc.cfgr.pclk1 = 2_097_000;
    rcc.cfgr.pclk2 = 2_097_000;
    rcc.cfgr.sysclk_src = SysClkSource::MSI;
    rcc.freeze(&mut flash, &mut pwr);
    (pwr, flash, rcc)
}

/// Initializes the chip and the board: takes the power, flash and clock
/// controllers' register blocks and brings them up under range `vcore`.
/// The blocks are moved into the board, so only one board can exist.
pub fn init(pwr: PWR, flash: FLASH, rcc: RCC, vcore: VCoreRange) -> (b: Board)
    ensures
        (b.pwr, b.flash, b.rcc.cfgr, b.rcc.clocks, b.rcc.plan@, b.rcc.iopenr, b.rcc.apb1enr, b.rcc.ccipr)
            == (bring_up_power(vcore), Flash { latency: wait_states(vcore, 2_097_000) }, board_config(),
            Some(context_of(board_config())), freeze_plan(board_config(), 0, VCoreRange::Range2, vcore),
            0u32, 0u32, 0u32),
        b.vcp_rx() is None,
{
    let (p, f, r) = bring_up(vcore);
    Board {
        pwr: p,
        flash: f,
        rcc: r,
        claims: Claims { pwr, flash, rcc, banks: None, vcp_rx: HeldRx { pin: None } },
    }
}

/// The power controller as the board leaves it: high supply, range `vcore`
/// in effect, RTC domain off.
pub open spec fn bring_up_power(vcore: VCoreRange) -> Power {
    Power { vdd_high: true, vcore, target: vcore, rtc_enabled: false }
}

/// What `init` yields: a 2.097 MHz system clock with no flash wait states, in
/// every voltage range.
pub proof fn lemma_init_clocks(vcore: VCoreRange)
    ensures
        context_of(board_config()).sysclk == 2_097_000,
        context_of(board_config()).hclk_fclk == 2_097_000,
        context_of(board_config()).apb1 == 2_097_000,
        context_of(board_config()).apb2 == 2_097_000,
        context_of(board_config()).hsi16 == Some(16_000_000u32),
        wait_states(vcore, 2_097_000) == 0,
{
    let c = board_config();
    assert(c.hclk_fclk / c.hclk_fclk == 1) by (nonlinear_arith)
        requires
            c.hclk_fclk == 2_097_000,
    ;
    assert(2_097_000u32 / 1u32 == 2_097_000) by (nonlinear_arith);
}


/// The board's controllers are the same in `a` and `b`.
pub open spec fn controllers_kept(a: &Board, b: &Board) -> bool {
    &&& a.pwr == b.pwr
    &&& a.flash == b.flash
    &&& a.rcc.cfgr == b.rcc.cfgr
    &&& a.rcc.clocks == b.rcc.clocks
    &&& a.rcc.iopenr == b.rcc.iopenr
    &&& a.rcc.apb1enr == b.rcc.apb1enr
    &&& a.rcc.ccipr == b.rcc.ccipr
    &&& a.rcc.plan@ == b.rcc.plan@
}

/// Routes a pin, in whatever mode, to alternate function `af` through a
/// digital output with the given driver and pull, and sets its drive speed to
/// the fastest.
pub fn route_to_alt_fun(pin: Pin, port: &mut GpioPort, otype: OutputType, pull: Pull, af: u32) -> (r:
    Pin)
    requires
        old(port).bank == pin@.bank,
        af < 16,
    ensures
        r@ == (PinView { mode: Mode::AltFun(af), ..pin@ }),
        final(port).others_kept(*old(port), pin@.index),
        final(port).pin_regs(pin@.index) == (PinRegs {
            mode: 2,
            otype: otype_bit(otype),
            pull: pull_bits(pull),
            speed: 3,
            af: af,
            out: old(port).pin_regs(pin@.index).out,
        }),
{
    let out = pin.into_output(port, otype, pull);
    let r = out.into_alt_fun(port, af);
    r.set_pin_speed(port, PinSpeed::VeryHigh);
    r
}

/// Serial speed of the virtual serial port that `main` uses, in bits per second.
pub const VCP_BAUD: u32 = 115_200;

/// Timing register value for I2C1 at 100 kHz on the 16 MHz oscillator.
pub const I2C1_TIMING: u32 = 0x0030_3D5B;

impl Board {
    /// The virtual serial port's receive pin, while the board holds it.
    pub open spec fn vcp_rx(&self) -> Option<PinView> {
        self.claims.vcp_rx()
    }

    /// Claims banks A, B and C: enables their clocks and hands out every
    /// connector pin in analog mode. The bank blocks are moved into the board,
    /// so they cannot be claimed again.
    pub fn pins(&mut self, gpioa: GPIOA, gpiob: GPIOB, gpioc: GPIOC) -> (p: Pins)
        ensures
            forall|k: int|
                0 <= k < 22 ==> #[trigger] p.views()[k] == (PinView {
                    bank: connector_layout()[k].0,
                    index: connector_layout()[k].1,
                    mode: Mode::Analog,
                }),
            final(self).vcp_rx() == Some(PinView { bank: Bank::A, index: 15, mode: Mode::Analog }),
            final(self).rcc.iopenr == old(self).rcc.iopenr | 7,
            final(self).rcc.cfgr == old(self).rcc.cfgr,
            final(self).rcc.clocks == old(self).rcc.clocks,
            final(self).rcc.apb1enr == old(self).rcc.apb1enr,
            final(self).rcc.ccipr == old(self).rcc.ccipr,
            final(self).rcc.plan@ == old(self).rcc.plan@,
            final(self).pwr == old(self).pwr,
            final(self).flash == old(self).flash,
    {
        self.rcc.iopenr = self.rcc.iopenr | 7;
        self.claims.banks = Some((gpioa, gpiob, gpioc));
        self.claims.vcp_rx = HeldRx { pin: Some(Pin::analog(Bank::A, 15)) };
        let p = Pins {
            d1: Pin::analog(Bank::A, 9),
            d0: Pin::analog(Bank::A, 10),
            d2: Pin::analog(Bank::A, 12),
            d3: Pin::analog(Bank::B, 0),
            d4: Pin::analog(Bank::B, 7),
            d5: Pin::analog(Bank::B, 6),
            d6: Pin::analog(Bank::B, 1),
            d7: Pin::analog(Bank::C, 14),
            d8: Pin::analog(Bank::C, 15),
            d9: Pin::analog(Bank::A, 8),
            d10: Pin::analog(Bank::A, 11),
            d11: Pin::analog(Bank::B, 5),
            d12: Pin::analog(Bank::B, 4),
            d13: Pin::analog(Bank::B, 3),
            a0: Pin::analog(Bank::A, 0),
            a1: Pin::analog(Bank::A, 1),
            a2: Pin::analog(Bank::A, 3),
            a3: Pin::analog(Bank::A, 4),
            a4: Pin::analog(Bank::A, 5),
            a5: Pin::analog(Bank::A, 6),
            a6: Pin::analog(Bank::A, 7),
            a7: Pin::analog(Bank::A, 2),
        };
        assert forall|k: int| 0 <= k < 22 implies #[trigger] p.views()[k] == (PinView {
            bank: connector_layout()[k].0,
            index: connector_layout()[k].1,
            mode: Mode::Analog,
        }) by {
            let v = p.views();
            let l = connector_layout();
            assert(v[k] == PinView { bank: l[k].0, index: l[k].1, mode: Mode::Analog });
        }
        p
    }

    /// Starts SysTick: clock source `src`, reload value `ticks`, counter
    /// cleared, counting with its interrupt enabled.
    pub fn systick_start(&mut self, syst: &mut Syst, src: SystClkSource, ticks: u32)
        requires
            ticks <= SYST_RELOAD_MAX,
        ensures
            final(syst).rvr == ticks,
            final(syst).cvr == 0,
            field1(final(syst).csr, 0) == 1,
            field1(final(syst).csr, 1) == 1,
            field1(final(syst).csr, 2) == (if src == SystClkSource::Core { 1u32 } else { 0u32 }),
            forall|j: u32| 3 <= j < 32 ==> #[trigger] field1(final(syst).csr, j) == field1(old(syst).csr, j),
            controllers_kept(&*final(self), &*old(self)),
            final(self).vcp_rx() == old(self).vcp_rx(),
    {
        *syst = syst.started(src, ticks);
    }

    /// Makes pin D13, in whatever mode, a push-pull output to drive the user LED LD3.
    pub fn user_led(&mut self, port: &mut GpioPort, d13: Pin) -> (led: Pin)
        requires
            d13@.bank == Bank::B,
            d13@.index == 3,
            old(port).bank == Bank::B,
        ensures
            led@ == (PinView {
                bank: Bank::B,
                index: 3,
                mode: Mode::Output(OutputType::PushPull, Pull::Floating),
            }),
            final(port).others_kept(*old(port), 3),
            final(port).pin_regs(3) == (PinRegs {
                mode: 1,
                otype: 0,
                pull: 0,
                ..old(port).pin_regs(3)
            }),
            controllers_kept(&*final(self), &*old(self)),
            final(self).vcp_rx() == old(self).vcp_rx(),
    {
        d13.into_output(port, OutputType::PushPull, Pull::Floating)
    }

    /// Binds USART2 to the debugger's virtual serial port: pin A7 (PA2), in
    /// whatever mode, transmits and the board's held receive pin (PA15)
    /// receives, both on alternate function 4 at the fastest drive speed, at
    /// `baud` bits per second from `clk_src`.
    pub fn vcp_usart(
        &mut self,
        usart: USART2,
        gpioa: &mut GpioPort,
        tx_pin_a7: Pin,
        baud: u32,
        clk_src: USARTClkSource,
    ) -> (s: Serial)
        requires
            tx_pin_a7@.bank == Bank::A,
            tx_pin_a7@.index == 2,
            old(gpioa).bank == Bank::A,
            old(self).vcp_rx() is Some,
            old(self).rcc.clocks is Some,
            baud > 0,
            usart_clk(old(self).rcc.clocks->0, clk_src) is Some,
            usart_clk(old(self).rcc.clocks->0, clk_src)->0 / baud >= 16,
        ensures
            serial_bound(
                s,
                PinView { bank: Bank::A, index: 2, mode: Mode::AltFun(4) },
                PinView { bank: Bank::A, index: 15, mode: Mode::AltFun(4) },
                baud,
                usart_clk(old(self).rcc.clocks->0, clk_src)->0,
                clk_src,
                old(self).rcc,
                final(self).rcc,
            ),
            final(gpioa).bank == Bank::A,
            final(gpioa).idr == old(gpioa).idr,
            forall|j: u32|
                j < 16 && j != 2 && j != 15 ==> #[trigger] final(gpioa).pin_regs(j) == old(
                    gpioa,
                ).pin_regs(j),
            forall|j: u32|
                j == 2 || j == 15 ==> #[trigger] final(gpioa).pin_regs(j) == (PinRegs {
                    mode: 2,
                    otype: 0,
                    pull: 0,
                    speed: 3,
                    af: 4,
                    out: old(gpioa).pin_regs(j).out,
                }),
            final(self).vcp_rx() is None,
            final(self).pwr == old(self).pwr,
            final(self).flash == old(self).flash,
    {
        let rx_pin = self.claims.vcp_rx.take();
        let vcp_tx = route_to_alt_fun(tx_pin_a7, gpioa, OutputType::PushPull, Pull::Floating, 4);
        let vcp_rx = route_to_alt_fun(rx_pin, gpioa, OutputType::PushPull, Pull::Floating, 4);
        Serial::rs232(usart, vcp_tx, vcp_rx, baud, clk_src, &mut self.rcc)
    }

    /// Binds I2C1 to pins D5 (PB6, clock) and D4 (PB7, data), in whatever
    /// mode: both open-drain with pull-up on alternate function 1 at the
    /// fastest drive speed, clocked from `clk_src`, with timing register value `timing`.
    pub fn i2c1(
        &mut self,
        i2c1: I2C1,
        gpiob: &mut GpioPort,
        pins: (Pin, Pin),
        clk_src: I2cClkSrc,
        timing: u32,
    ) -> (b: I2c)
        requires
            pins.0@.bank == Bank::B,
            pins.0@.index == 6,
            pins.1@.bank == Bank::B,
            pins.1@.index == 7,
            old(gpiob).bank == Bank::B,
        ensures
            i2c_bound(
                b,
                PinView { bank: Bank::B, index: 6, mode: Mode::AltFun(1) },
                PinView { bank: Bank::B, index: 7, mode: Mode::AltFun(1) },
                timing,
                clk_src,
                old(self).rcc,
                final(self).rcc,
            ),
            final(gpiob).bank == Bank::B,
            final(gpiob).idr == old(gpiob).idr,
            forall|j: u32|
                j < 16 && j != 6 && j != 7 ==> #[trigger] final(gpiob).pin_regs(j) == old(
                    gpiob,
                ).pin_regs(j),
            forall|j: u32|
                j == 6 || j == 7 ==> #[trigger] final(gpiob).pin_regs(j) == (PinRegs {
                    mode: 2,
                    otype: 1,
                    pull: 1,
                    speed: 3,
                    af: 1,
                    out: old(gpiob).pin_regs(j).out,
                }),
            final(self).vcp_rx() == old(self).vcp_rx(),
            final(self).pwr == old(self).pwr,
            final(self).flash == old(self).flash,
    {
        let (scl, sda) = pins;
        let i2c_sda = route_to_alt_fun(sda, gpiob, OutputType::OpenDrain, Pull::PullUp, 1);
        let i2c_scl = route_to_alt_fun(scl, gpiob, OutputType::OpenDrain, Pull::PullUp, 1);
        I2c::i2c1(i2c1, i2c_scl, i2c_sda, clk_src, timing, &mut self.rcc)
    }
}

} // verus!
