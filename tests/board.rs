use nucleo_l031k6_bsp::board::{Syst, SystClkSource, I2C1_TIMING};
use nucleo_l031k6_bsp::bring_up;
use nucleo_l031k6_bsp::clock::{latency, ClockWrite, MsiFreq, SysClkSource, VCoreRange};
use nucleo_l031k6_bsp::gpio::{Bank, GpioPort, OutputType, PinSpeed, Pull};
use nucleo_l031k6_bsp::periph::{I2c1, Usart2};
use nucleo_l031k6_bsp::rcc::{Flash, Power, Rcc};

fn f2(r: u32, j: u32) -> u32 {
    (r >> (2 * j)) & 3
}

fn f1(r: u32, j: u32) -> u32 {
    (r >> j) & 1
}

fn af(p: &GpioPort, j: u32) -> u32 {
    if j < 8 {
        (p.afrl >> (4 * j)) & 15
    } else {
        (p.afrh >> (4 * (j - 8))) & 15
    }
}

fn pin_fields(p: &GpioPort, j: u32) -> (u32, u32, u32, u32, u32, u32) {
    (f2(p.moder, j), f1(p.otyper, j), f2(p.ospeedr, j), f2(p.pupdr, j), af(p, j), f1(p.odr, j))
}

#[test]
fn reset_ports_are_analog() {
    for bank in [Bank::A, Bank::B, Bank::C] {
        let p = GpioPort::reset(bank);
        for j in 0..16u32 {
            if bank == Bank::A && (j == 13 || j == 14) {
                assert_eq!(f2(p.moder, j), 2);
            } else {
                assert_eq!(f2(p.moder, j), 3);
                assert_eq!(f2(p.pupdr, j), 0);
            }
        }
    }
}

#[test]
fn wait_states_follow_range_and_frequency() {
    assert_eq!(latency(VCoreRange::Range1, 16_000_000), 0);
    assert_eq!(latency(VCoreRange::Range1, 16_000_001), 1);
    assert_eq!(latency(VCoreRange::Range1, 32_000_000), 1);
    assert_eq!(latency(VCoreRange::Range2, 8_000_000), 0);
    assert_eq!(latency(VCoreRange::Range2, 8_000_001), 1);
    assert_eq!(latency(VCoreRange::Range3, 4_200_000), 0);
    for r in [VCoreRange::Range1, VCoreRange::Range2, VCoreRange::Range3] {
        let mut last = 0;
        for f in (0..40u32).map(|k| k * 1_000_000) {
            let ws = latency(r, f);
            assert!(ws >= last);
            last = ws;
        }
    }
}

fn index_of(plan: &[ClockWrite], pred: impl Fn(&ClockWrite) -> bool) -> Vec<usize> {
    plan.iter().enumerate().filter(|(_, w)| pred(w)).map(|(i, _)| i).collect()
}

#[test]
fn freeze_raises_latency_first_and_lowers_range_after() {
    let mut rcc = Rcc::constrain();
    rcc.cfgr.msi_on = false;
    rcc.cfgr.hsi16_on = true;
    rcc.cfgr.sysclk_src = SysClkSource::HSI16;
    rcc.cfgr.hclk_fclk = 16_000_000;
    rcc.cfgr.pclk1 = 8_000_000;
    rcc.cfgr.pclk2 = 16_000_000;
    let mut flash = Flash::constrain();
    let mut pwr = Power::constrain().into_vcore_range(VCoreRange::Range2);
    pwr.vcore = VCoreRange::Range1;
    rcc.freeze(&mut flash, &mut pwr);
    assert_eq!(
        rcc.plan.as_slice(),
        &[
            ClockWrite::Hsi16On,
            ClockWrite::FlashLatency(1),
            ClockWrite::SwitchClock { sw: 1, hpre: 0, ppre1: 4, ppre2: 0 },
            ClockWrite::VCore(VCoreRange::Range2),
            ClockWrite::MsiOff,
        ]
    );
    assert_eq!(flash.latency, 1);
    assert_eq!(pwr.vcore, VCoreRange::Range2);
    let ctx = rcc.clocks.unwrap();
    assert_eq!((ctx.sysclk, ctx.hclk_fclk, ctx.apb1, ctx.apb2), (16_000_000, 16_000_000, 8_000_000, 16_000_000));
    let lat = index_of(&rcc.plan, |w| matches!(w, ClockWrite::FlashLatency(_)));
    let sw = index_of(&rcc.plan, |w| matches!(w, ClockWrite::SwitchClock { .. }));
    assert_eq!(sw.len(), 1);
    assert!(lat[0] < sw[0]);
}

#[test]
fn freeze_trims_latency_after_slowing_down() {
    let mut rcc = Rcc::constrain();
    rcc.cfgr.msi_freq = MsiFreq::Hz_1_048_000;
    rcc.cfgr.hclk_fclk = 262_000;
    rcc.cfgr.pclk1 = 262_000;
    rcc.cfgr.pclk2 = 65_500;
    let mut flash = Flash { latency: 1 };
    let mut pwr = Power::constrain().into_vcore_range(VCoreRange::Range3);
    rcc.freeze(&mut flash, &mut pwr);
    assert_eq!(
        rcc.plan.as_slice(),
        &[
            ClockWrite::MsiOn(MsiFreq::Hz_1_048_000),
            ClockWrite::SwitchClock { sw: 0, hpre: 9, ppre1: 0, ppre2: 5 },
            ClockWrite::VCore(VCoreRange::Range3),
            ClockWrite::FlashLatency(0),
            ClockWrite::Hsi16Off,
        ]
    );
    assert_eq!(flash.latency, 0);
    let ctx = rcc.clocks.unwrap();
    assert_eq!(ctx.hclk_fclk, 262_000);
    assert_eq!(ctx.apb2, 65_500);
    assert_eq!(ctx.hsi16, None);
}


#[test]
fn port_configuration_touches_only_its_pin() {
    let mut gpiob = GpioPort::reset(Bank::B);
    let before = gpiob;
    gpiob.configure_output(3, OutputType::OpenDrain, Pull::PullDown);
    assert_eq!(pin_fields(&gpiob, 3), (1, 1, 0, 2, 0, 0));
    for j in 0..16u32 {
        if j != 3 {
            assert_eq!(pin_fields(&gpiob, j), pin_fields(&before, j));
        }
    }

    let mid = gpiob;
    gpiob.configure_input(4, Pull::PullUp);
    assert_eq!(pin_fields(&gpiob, 4), (0, 0, 0, 1, 0, 0));
    for j in 0..16u32 {
        if j != 4 {
            assert_eq!(pin_fields(&gpiob, j), pin_fields(&mid, j));
        }
    }

    let mid = gpiob;
    gpiob.configure_alt_fun(3, 5);
    assert_eq!(pin_fields(&gpiob, 3), (2, 1, 0, 2, 5, 0));
    assert_eq!(gpiob.afrl, 5 << 12);
    gpiob.configure_speed(3, PinSpeed::High);
    assert_eq!(f2(gpiob.ospeedr, 3), 2);
    for j in 0..16u32 {
        if j != 3 {
            assert_eq!(pin_fields(&gpiob, j), pin_fields(&mid, j));
        }
    }
}

#[test]
fn high_pins_use_the_upper_alternate_function_register() {
    let mut gpioa = GpioPort::reset(Bank::A);
    gpioa.configure_alt_fun(9, 7);
    assert_eq!((gpioa.afrh >> 4) & 15, 7);
    assert_eq!(gpioa.afrl, 0);
    assert_eq!(f2(gpioa.moder, 9), 2);
}

#[test]
fn bring_up_range1_selects_range_and_keeps_latency() {
    let (pwr, flash, rcc) = bring_up(VCoreRange::Range1);
    assert_eq!(
        rcc.plan.as_slice(),
        &[
            ClockWrite::MsiOn(MsiFreq::Hz_2_097_000),
            ClockWrite::Hsi16On,
            ClockWrite::VCore(VCoreRange::Range1),
            ClockWrite::SwitchClock { sw: 0, hpre: 0, ppre1: 0, ppre2: 0 },
        ]
    );
    let ctx = rcc.clocks.unwrap();
    assert_eq!(ctx.sysclk, 2_097_000);
    assert_eq!(ctx.hclk_fclk, 2_097_000);
    assert_eq!(ctx.hsi16, Some(16_000_000));
    assert_eq!(ctx.msi, Some(2_097_000));
    assert_eq!(flash.latency, 0);
    assert_eq!(pwr.vcore, VCoreRange::Range1);
    assert!(pwr.vdd_high);
    assert!(!pwr.rtc_enabled);
}

#[test]
fn bring_up_range2_has_no_range_write() {
    let (_, _, rcc) = bring_up(VCoreRange::Range2);
    assert!(!rcc.plan.iter().any(|w| matches!(w, ClockWrite::VCore(_))));
    assert!(!rcc.plan.iter().any(|w| matches!(w, ClockWrite::FlashLatency(_))));
}

#[test]
fn freeze_raises_range_before_switching() {
    let mut rcc = Rcc::constrain();
    rcc.cfgr.hsi16_on = true;
    rcc.cfgr.msi_on = false;
    rcc.cfgr.sysclk_src = SysClkSource::HSI16;
    rcc.cfgr.hclk_fclk = 16_000_000;
    rcc.cfgr.pclk1 = 16_000_000;
    rcc.cfgr.pclk2 = 16_000_000;
    let mut flash = Flash::constrain();
    let mut pwr = Power::constrain().into_vcore_range(VCoreRange::Range1);
    pwr.vcore = VCoreRange::Range3;
    rcc.freeze(&mut flash, &mut pwr);
    assert_eq!(
        rcc.plan.as_slice(),
        &[
            ClockWrite::Hsi16On,
            ClockWrite::VCore(VCoreRange::Range1),
            ClockWrite::SwitchClock { sw: 1, hpre: 0, ppre1: 0, ppre2: 0 },
            ClockWrite::MsiOff,
        ]
    );
    assert_eq!(flash.latency, 0);
}

#[test]
fn serial_baud_from_hsi16_at_9600() {
    let u = Usart2::reset().configured(16_000_000, 9600);
    assert_eq!(u.brr, 16_000_000 / 9600);
    assert_eq!(u.brr, 1666);
    assert_eq!(u.cr1, 0b1101);
    assert_eq!(u.cr2, 0);
    let v = Usart2 { cr1: 0x1000_9400, cr2: 0x3000, brr: 5 }.configured(2_097_000, 115_200);
    assert_eq!(v.brr, 18);
    assert_eq!(v.cr1, 0b1101);
    assert_eq!(v.cr2, 0);
}

#[test]
fn i2c_writes_the_timing_constant() {
    let i = I2c1::reset().configured(I2C1_TIMING);
    assert_eq!(i.timingr, 0x0030_3D5B);
    assert_eq!(i.cr1, 1);
    assert_eq!(i.cr2, 1 << 15);
    let j = I2c1 { cr1: 0x10, cr2: 3, timingr: 7 }.configured(0x1234_5678);
    assert_eq!(j.timingr, 0x1234_5678);
    assert_eq!(j.cr2, (1 << 15) | 3);
    let mut gpiob = GpioPort::reset(Bank::B);
    for pin in [6u32, 7] {
        gpiob.configure_output(pin, OutputType::OpenDrain, Pull::PullUp);
        gpiob.configure_alt_fun(pin, 1);
        gpiob.configure_speed(pin, PinSpeed::VeryHigh);
        assert_eq!(pin_fields(&gpiob, pin), (2, 1, 3, 1, 1, 0));
    }
}

#[test]
fn led_level_goes_high_then_low() {
    let mut gpiob = GpioPort::reset(Bank::B);
    gpiob.configure_output(3, OutputType::PushPull, Pull::Floating);
    assert_eq!((f2(gpiob.moder, 3), f1(gpiob.otyper, 3)), (1, 0));
    assert_eq!(f1(gpiob.odr, 3), 0);
    gpiob.drive(3, 1);
    assert_eq!(gpiob.odr, 1 << 3);
    gpiob.drive(3, 0);
    assert_eq!(gpiob.odr, 0);
}

#[test]
fn systick_registers_once_started() {
    let s = Syst { csr: 0, rvr: 0, cvr: 55 }.started(SystClkSource::Core, 419_400);
    assert_eq!(s.rvr, 419_400);
    assert_eq!(s.cvr, 0);
    assert_eq!(s.csr, 0b111);
    let s = Syst { csr: 0b1_0000_0100, rvr: 0, cvr: 0 }.started(SystClkSource::External, 10);
    assert_eq!(s.csr, 0b1_0000_0011);
}
