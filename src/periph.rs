use vstd::prelude::*;
use crate::bits::{field2, set_field2};
use crate::clock::ClockContext;
use crate::gpio::{Mode, Pin, PinView};
use crate::rcc::Rcc;
use stm32l0x1_hal::stm32l0x1::{I2C1, USART2};

verus! {

/// Clock that drives the serial port's baud-rate generator.
#[derive(Clone, Copy, Debug, PartialEq, Eq, Structural)]
pub enum USARTClkSource {
    PCLK,
    SYSCLK,
    HSI16,
    LSE,
}

/// Frequency of `src` under `ctx`, if that clock runs (the low-speed external
/// oscillator is never started by this board).
pub open spec fn usart_clk(ctx: ClockContext, src: USARTClkSource) -> Option<u32> {
    match src {
        USARTClkSource::PCLK => Some(ctx.apb1),
        USARTClkSource::SYSCLK => Some(ctx.sysclk),
        USARTClkSource::HSI16 => ctx.hsi16,
        USARTClkSource::LSE => None,
    }
}

pub open spec fn usart_sel(src: USARTClkSource) -> u32 {
    match src {
        USARTClkSource::PCLK => 0,
        USARTClkSource::SYSCLK => 1,
        USARTClkSource::HSI16 => 2,
        USARTClkSource::LSE => 3,
    }
}

/// Bits of CR1 that configuring the port clears: 8-bit words (M0, M1), no
/// parity, 16x oversampling.
pub const USART_CR1_CLEARED: u32 = 0x1000_9400;

/// Bits of CR1 that configuring the port sets: enabled, receiver and transmitter on.
pub const USART_CR1_SET: u32 = 0b1101;

/// The stop-bit field of CR2; cleared for one stop bit.
pub const USART_CR2_STOP: u32 = 0x3000;

/// Enable bits in the APB1 clock-enable register.
pub const APB1_USART2EN: u32 = 17;
pub const APB1_I2C1EN: u32 = 21;

/// Slots of the 2-bit clock selection fields in CCIPR.
pub const CCIPR_USART2SEL: u32 = 1;
pub const CCIPR_I2C1SEL: u32 = 6;

/// Registers of the USART2 peripheral.
#[derive(Clone, Copy, Debug, PartialEq, Eq, Structural)]
pub struct Usart2 {
    pub cr1: u32,
    pub cr2: u32,
    pub brr: u32,
}

impl Usart2 {
    /// The registers after reset.
    pub fn reset() -> (r: Usart2)
        ensures
            r == (Usart2 { cr1: 0, cr2: 0, brr: 0 }),
    {
        Usart2 { cr1: 0, cr2: 0, brr: 0 }
    }

    /// The registers once configured for `baud` bits per second from a
    /// `clk_f` Hz clock: enabled for 8N1 framing with 16x oversampling, and the
    /// baud-rate register holding clk_f / baud.
    pub fn configured(self, clk_f: u32, baud: u32) -> (r: Usart2)
        requires
            baud > 0,
        ensures
            r == (Usart2 {
                cr1: (self.cr1 & !USART_CR1_CLEARED) | USART_CR1_SET,
                cr2: self.cr2 & !USART_CR2_STOP,
                brr: clk_f / baud,
            }),
    {
        Usart2 {
            cr1: (self.cr1 & !USART_CR1_CLEARED) | USART_CR1_SET,
            cr2: self.cr2 & !USART_CR2_STOP,
            brr: clk_f / baud,
        }
    }
}

/// A configured serial port: its register block, their contents, and the pins it owns.
pub struct Serial {
    pub block: USART2,
    pub usart: Usart2,
    pub tx: Pin,
    pub rx: Pin,
}

/// `r` with the 1-bit field `i` set and every other bit kept.
pub open spec fn with_bit(r: u32, i: u32) -> u32 {
    r | (1u32 << i)
}

fn enable_bit(r: u32, i: u32) -> (n: u32)
    requires
        i < 32,
    ensures
        n == with_bit(r, i),
{
    r | (1u32 << i)
}

/// The register effect of binding the serial port: the pins are those handed
/// in, the baud-rate register holds clock / baud, the port is enabled for
/// 8N1 framing, its clock is switched on and its clock source selected.
pub open spec fn serial_bound(
    s: Serial,
    tx: PinView,
    rx: PinView,
    baud: u32,
    clk_f: u32,
    src: USARTClkSource,
    old_rcc: Rcc,
    new_rcc: Rcc,
) -> bool {
    &&& s.tx@ == tx
    &&& s.rx@ == rx
    &&& s.usart.brr == clk_f / baud
    &&& s.usart.cr1 == USART_CR1_SET
    &&& s.usart.cr2 == 0
    &&& new_rcc.apb1enr == with_bit(old_rcc.apb1enr, APB1_USART2EN)
    &&& field2(new_rcc.ccipr, CCIPR_USART2SEL) == usart_sel(src)
    &&& forall|j: u32|
        j < 16 && j != CCIPR_USART2SEL ==> #[trigger] field2(new_rcc.ccipr, j) == field2(
            old_rcc.ccipr,
            j,
        )
    &&& new_rcc.cfgr == old_rcc.cfgr
    &&& new_rcc.clocks == old_rcc.clocks
    &&& new_rcc.iopenr == old_rcc.iopenr
    &&& new_rcc.plan@ == old_rcc.plan@
}

impl Serial {
    /// Binds USART2, from reset, to a transmit and a receive pin, both already
    /// routed to alternate function 4, for `baud` bits per second from clock `clk_src`.
    pub fn rs232(
        block: USART2,
        tx: Pin,
        rx: Pin,
        baud: u32,
        clk_src: USARTClkSource,
        rcc: &mut Rcc,
    ) -> (s: Serial)
        requires
            tx@.mode == Mode::AltFun(4),
            rx@.mode == Mode::AltFun(4),
            baud > 0,
            old(rcc).clocks is Some,
            usart_clk(old(rcc).clocks->0, clk_src) is Some,
            usart_clk(old(rcc).clocks->0, clk_src)->0 / baud >= 16,
        ensures
            serial_bound(
                s,
                tx@,
                rx@,
                baud,
                usart_clk(old(rcc).clocks->0, clk_src)->0,
                clk_src,
                *old(rcc),
                *final(rcc),
            ),
    {
        let ctx = match rcc.clocks {
            Some(c) => c,
            None => ClockContext { sysclk: 0, hclk_fclk: 0, apb1: 0, apb2: 0, msi: None, hsi16: None },
        };
        let (clk_f, sel): (u32, u32) = match clk_src {
            USARTClkSource::PCLK => (ctx.apb1, 0),
            USARTClkSource::SYSCLK => (ctx.sysclk, 1),
            USARTClkSource::HSI16 => (
                match ctx.hsi16 {
                    Some(f) => f,
                    None => 0,
                },
                2,
            ),
            USARTClkSource::LSE => (0, 3),
        };
        rcc.apb1enr = enable_bit(rcc.apb1enr, APB1_USART2EN);
        rcc.ccipr = set_field2(rcc.ccipr, CCIPR_USART2SEL, sel);
        let regs = Usart2::reset().configured(clk_f, baud);
        assert((0u32 & !USART_CR1_CLEARED) | USART_CR1_SET == USART_CR1_SET) by (bit_vector);
        assert(0u32 & !USART_CR2_STOP == 0) by (bit_vector);
        Serial { block, usart: regs, tx, rx }
    }
}

/// Clock that drives the I2C peripheral.
#[derive(Clone, Copy, Debug, PartialEq, Eq, Structural)]
pub enum I2cClkSrc {
    PCLK1,
    Sysclk,
    HSI16,
}

pub open spec fn i2c_sel(src: I2cClkSrc) -> u32 {
    match src {
        I2cClkSrc::PCLK1 => 0,
        I2cClkSrc::Sysclk => 1,
        I2cClkSrc::HSI16 => 2,
    }
}

/// NACK bit of I2C CR2.
pub const I2C_CR2_NACK: u32 = 15;

/// Registers of the I2C1 peripheral.
#[derive(Clone, Copy, Debug, PartialEq, Eq, Structural)]
pub struct I2c1 {
    pub cr1: u32,
    pub cr2: u32,
    pub timingr: u32,
}

impl I2c1 {
    /// The registers after reset.
    pub fn reset() -> (r: I2c1)
        ensures
            r == (I2c1 { cr1: 0, cr2: 0, timingr: 0 }),
    {
        I2c1 { cr1: 0, cr2: 0, timingr: 0 }
    }

    /// The registers once configured: the timing register holds `timing`
    /// exactly, NACK is set, and the peripheral is enabled with every other CR1 bit clear.
    pub fn configured(self, timing: u32) -> (r: I2c1)
        ensures
            r == (I2c1 { cr1: 1, cr2: with_bit(self.cr2, I2C_CR2_NACK), timingr: timing }),
    {
        I2c1 { cr1: 1, cr2: enable_bit(self.cr2, I2C_CR2_NACK), timingr: timing }
    }
}

/// A configured I2C bus: its register block, their contents, and the clock
/// and data pins it owns.
pub struct I2c {
    pub block: I2C1,
    pub i2c: I2c1,
    pub scl: Pin,
    pub sda: Pin,
}

/// The register effect of binding the I2C bus: the pins are those handed in,
/// the timing register holds `timing` exactly, NACK is set, the peripheral is
/// enabled with every other CR1 bit clear, its clock is on and its source selected.
pub open spec fn i2c_bound(
    b: I2c,
    scl: PinView,
    sda: PinView,
    timing: u32,
    src: I2cClkSrc,
    old_rcc: Rcc,
    new_rcc: Rcc,
) -> bool {
    &&& b.scl@ == scl
    &&& b.sda@ == sda
    &&& b.i2c.timingr == timing
    &&& b.i2c.cr1 == 1
    &&& b.i2c.cr2 == with_bit(0, I2C_CR2_NACK)
    &&& new_rcc.apb1enr == with_bit(old_rcc.apb1enr, APB1_I2C1EN)
    &&& field2(new_rcc.ccipr, CCIPR_I2C1SEL) == i2c_sel(src)
    &&& forall|j: u32|
        j < 16 && j != CCIPR_I2C1SEL ==> #[trigger] field2(new_rcc.ccipr, j) == field2(
            old_rcc.ccipr,
            j,
        )
    &&& new_rcc.cfgr == old_rcc.cfgr
    &&& new_rcc.clocks == old_rcc.clocks
    &&& new_rcc.iopenr == old_rcc.iopenr
    &&& new_rcc.plan@ == old_rcc.plan@
}

impl I2c {
    /// Binds I2C1, from reset, to clock and data pins already routed to
    /// alternate function 1, with a precomputed timing register value.
    pub fn i2c1(block: I2C1, scl: Pin, sda: Pin, clk_src: I2cClkSrc, timing: u32, rcc: &mut Rcc) -> (b:
        I2c)
        requires
            scl@.mode == Mode::AltFun(1),
            sda@.mode == Mode::AltFun(1),
        ensures
            i2c_bound(b, scl@, sda@, timing, clk_src, *old(rcc), *final(rcc)),
    {
        rcc.apb1enr = enable_bit(rcc.apb1enr, APB1_I2C1EN);
        let sel: u32 = match clk_src {
            I2cClkSrc::PCLK1 => 0,
            I2cClkSrc::Sysclk => 1,
            I2cClkSrc::HSI16 => 2,
        };
        rcc.ccipr = set_field2(rcc.ccipr, CCIPR_I2C1SEL, sel);
        let regs = I2c1::reset().configured(timing);
        I2c { block, i2c: regs, scl, sda }
    }
}

} // verus!
