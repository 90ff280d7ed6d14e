use vstd::prelude::*;
use crate::clock::{
    config_ok, context_of, freeze_plan, hpre, latency, osc_off_writes, osc_on_writes, plan_after,
    plan_before, ppre, switch_write, sysclk_hz, wait_states,
    ClockConfig, ClockContext, ClockWrite, MsiFreq, SysClkSource, VCoreRange, HSI16_HZ,
};

verus! {

/// The power controller: the core voltage range in effect, and the one that
/// the next clock freeze will put in effect.
#[derive(Clone, Copy, Debug, PartialEq, Eq, Structural)]
pub struct Power {
    pub vdd_high: bool,
    pub vcore: VCoreRange,
    pub target: VCoreRange,
    pub rtc_enabled: bool,
}

impl Power {
    /// The power controller as it leaves reset: high supply, range 2, RTC domain off.
    pub fn constrain() -> (r: Power)
        ensures
            r == (Power {
                vdd_high: true,
                vcore: VCoreRange::Range2,
                target: VCoreRange::Range2,
                rtc_enabled: false,
            }),
    {
        Power {
            vdd_high: true,
            vcore: VCoreRange::Range2,
            target: VCoreRange::Range2,
            rtc_enabled: false,
        }
    }

    /// Selects the core voltage range that the next freeze puts in effect.
    pub fn into_vcore_range(self, range: VCoreRange) -> (r: Power)
        requires
            self.vdd_high,
        ensures
            r == (Power { target: range, ..self }),
    {
        Power { target: range, ..self }
    }
}

/// The flash controller: the number of wait states of a flash read.
#[derive(Clone, Copy, Debug, PartialEq, Eq, Structural)]
pub struct Flash {
    pub latency: u32,
}

impl Flash {
    /// The flash controller as it leaves reset: no wait states.
    pub fn constrain() -> (r: Flash)
        ensures
            r.latency == 0,
    {
        Flash { latency: 0 }
    }
}

/// The clock controller: the requested configuration, the frequencies once it
/// is applied, the peripheral clock registers, and the bring-up writes.
pub struct Rcc {
    pub cfgr: ClockConfig,
    pub clocks: Option<ClockContext>,
    pub iopenr: u32,
    pub apb1enr: u32,
    pub ccipr: u32,
    pub plan: Vec<ClockWrite>,
}

/// The clock configuration after reset: the multi-speed oscillator at
/// 2.097 MHz drives every bus.
pub open spec fn reset_config() -> ClockConfig {
    ClockConfig {
        msi_on: true,
        msi_freq: MsiFreq::Hz_2_097_000,
        hsi16_on: false,
        hclk_fclk: 2_097_000,
        pclk1: 2_097_000,
        pclk2: 2_097_000,
        sysclk_src: SysClkSource::MSI,
    }
}

impl Rcc {
    /// The clock controller as it leaves reset, not yet frozen.
    pub fn constrain() -> (r: Rcc)
        ensures
            r.cfgr == reset_config(),
            r.clocks is None,
            r.iopenr == 0,
            r.apb1enr == 0,
            r.ccipr == 0,
            r.plan@.len() == 0,
    {
        Rcc {
            cfgr: ClockConfig {
                msi_on: true,
                msi_freq: MsiFreq::Hz_2_097_000,
                hsi16_on: false,
                hclk_fclk: 2_097_000,
                pclk1: 2_097_000,
                pclk2: 2_097_000,
                sysclk_src: SysClkSource::MSI,
            },
            clocks: None,
            iopenr: 0,
            apb1enr: 0,
            ccipr: 0,
            plan: Vec::new(),
        }
    }

    /// Applies the requested configuration: records the ordered writes that
    /// bring the chip to it, puts the target voltage range and the matching
    /// flash latency in effect, and fixes the resulting frequencies.
    pub fn freeze(&mut self, flash: &mut Flash, pwr: &mut Power)
        requires
            old(self).clocks is None,
            config_ok(old(self).cfgr, old(pwr).target),
        ensures
            final(self).cfgr == old(self).cfgr,
            final(self).clocks == Some(context_of(old(self).cfgr)),
            final(self).plan@ == freeze_plan(
                old(self).cfgr,
                old(flash).latency,
                old(pwr).vcore,
                old(pwr).target,
            ),
            final(self).iopenr == old(self).iopenr,
            final(self).apb1enr == old(self).apb1enr,
            final(self).ccipr == old(self).ccipr,
            final(flash).latency == wait_states(old(pwr).target, sysclk_hz(old(self).cfgr)),
            *final(pwr) == (Power { vcore: old(pwr).target, ..*old(pwr) }),
    {
        let c = self.cfgr;
        let target = pwr.target;
        self.plan = plan_writes(c, flash.latency, pwr.vcore, target);
        self.clocks = Some(context(c));
        flash.latency = latency(target, sysclk(c));
        pwr.vcore = target;
    }
}

fn sysclk(c: ClockConfig) -> (r: u32)
    ensures
        r == sysclk_hz(c),
{
    match c.sysclk_src {
        SysClkSource::MSI => c.msi_freq.hz(),
        SysClkSource::HSI16 => HSI16_HZ,
    }
}

fn context(c: ClockConfig) -> (r: ClockContext)
    requires
        0 < c.hclk_fclk,
        0 < c.pclk1,
        0 < c.pclk2,
    ensures
        r == context_of(c),
{
    let sys = sysclk(c);
    let (_, hpre_ratio) = hpre_for(sys / c.hclk_fclk);
    let h: u32 = sys / hpre_ratio;
    let (_, ppre1_ratio) = ppre_for(c.hclk_fclk / c.pclk1);
    let (_, ppre2_ratio) = ppre_for(c.hclk_fclk / c.pclk2);
    ClockContext {
        sysclk: sys,
        hclk_fclk: h,
        apb1: h / ppre1_ratio,
        apb2: h / ppre2_ratio,
        msi: if c.msi_on { Some(c.msi_freq.hz()) } else { None },
        hsi16: if c.hsi16_on { Some(HSI16_HZ) } else { None },
    }
}

fn switch(c: ClockConfig) -> (r: ClockWrite)
    requires
        0 < c.hclk_fclk,
        0 < c.pclk1,
        0 < c.pclk2,
    ensures
        r == switch_write(c),
{
    let (hpre_bits, _) = hpre_for(sysclk(c) / c.hclk_fclk);
    let (ppre1_bits, _) = ppre_for(c.hclk_fclk / c.pclk1);
    let (ppre2_bits, _) = ppre_for(c.hclk_fclk / c.pclk2);
    let sw: u32 = match c.sysclk_src {
        SysClkSource::MSI => 0,
        SysClkSource::HSI16 => 1,
    };
    ClockWrite::SwitchClock { sw, hpre: hpre_bits, ppre1: ppre1_bits, ppre2: ppre2_bits }
}

fn writes_before(c: ClockConfig, cur_ws: u32, cur: VCoreRange, target: VCoreRange) -> (w: Vec<
    ClockWrite,
>)
    ensures
        w@ == plan_before(c, cur_ws, cur, target),
{
    let ws = latency(target, sysclk(c));
    let mut w: Vec<ClockWrite> = Vec::new();
    if c.msi_on {
        w.push(ClockWrite::MsiOn(c.msi_freq));
    }
    if c.hsi16_on {
        w.push(ClockWrite::Hsi16On);
    }
    assert(w@ =~= osc_on_writes(c));
    if target.vos_bits() < cur.vos_bits() {
        w.push(ClockWrite::VCore(target));
    }
    if ws > cur_ws {
        w.push(ClockWrite::FlashLatency(ws));
    }
    assert(w@ =~= plan_before(c, cur_ws, cur, target));
    w
}

/// Appends the writes that follow the clock switch.
fn push_writes_after(
    w: &mut Vec<ClockWrite>,
    c: ClockConfig,
    cur_ws: u32,
    cur: VCoreRange,
    target: VCoreRange,
)
    ensures
        final(w)@ == old(w)@ + plan_after(c, cur_ws, cur, target),
{
    let ghost start = w@;
    let ws = latency(target, sysclk(c));
    if target.vos_bits() > cur.vos_bits() {
        w.push(ClockWrite::VCore(target));
    }
    if ws < cur_ws {
        w.push(ClockWrite::FlashLatency(ws));
    }
    let ghost mid = w@;
    if !c.msi_on {
        w.push(ClockWrite::MsiOff);
    }
    if !c.hsi16_on {
        w.push(ClockWrite::Hsi16Off);
    }
    assert(w@ =~= mid + osc_off_writes(c));
    assert(w@ =~= start + plan_after(c, cur_ws, cur, target));
}

fn plan_writes(c: ClockConfig, cur_ws: u32, cur: VCoreRange, target: VCoreRange) -> (w: Vec<
    ClockWrite,
>)
    requires
        0 < c.hclk_fclk,
        0 < c.pclk1,
        0 < c.pclk2,
    ensures
        w@ == freeze_plan(c, cur_ws, cur, target),
{
    let mut w = writes_before(c, cur_ws, cur, target);
    w.push(switch(c));
    push_writes_after(&mut w, c, cur_ws, cur, target);
    assert(w@ =~= freeze_plan(c, cur_ws, cur, target));
    w
}

fn hpre_for(q: u32) -> (r: (u32, u32))
    ensures
        r == hpre(q),
{
    if q <= 1 {
        (0, 1)
    } else if q == 2 {
        (8, 2)
    } else if q <= 5 {
        (9, 4)
    } else if q <= 11 {
        (10, 8)
    } else if q <= 39 {
        (11, 16)
    } else if q <= 95 {
        (12, 64)
    } else if q <= 191 {
        (13, 128)
    } else if q <= 383 {
        (14, 256)
    } else {
        (15, 512)
    }
}

fn ppre_for(q: u32) -> (r: (u32, u32))
    ensures
        r == ppre(q),
{
    if q <= 1 {
        (0, 1)
    } else if q == 2 {
        (4, 2)
    } else if q <= 5 {
        (5, 4)
    } else if q <= 11 {
        (6, 8)
    } else {
        (7, 16)
    }
}

} // verus!
