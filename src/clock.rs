use vstd::prelude::*;

verus! {

/// Core voltage range; a lower number is a higher-performance operating point.
#[derive(Clone, Copy, Debug, PartialEq, Eq, Structural)]
pub enum VCoreRange {
    Range1,
    Range2,
    Range3,
}

pub open spec fn range_number(r: VCoreRange) -> u32 {
    match r {
        VCoreRange::Range1 => 1,
        VCoreRange::Range2 => 2,
        VCoreRange::Range3 => 3,
    }
}

impl VCoreRange {
    /// The range's number, which is also its VOS field value in the power controller.
    pub fn vos_bits(self) -> (n: u32)
        ensures
            n == range_number(self),
    {
        match self {
            VCoreRange::Range1 => 1,
            VCoreRange::Range2 => 2,
            VCoreRange::Range3 => 3,
        }
    }
}

/// Highest system clock frequency that range `r` allows, in Hz.
pub open spec fn max_freq(r: VCoreRange) -> u32 {
    match r {
        VCoreRange::Range1 => 32_000_000,
        VCoreRange::Range2 => 16_000_000,
        VCoreRange::Range3 => 4_200_000,
    }
}

/// Flash wait states that range `r` needs at system clock `f` Hz.
pub open spec fn wait_states(r: VCoreRange, f: u32) -> u32 {
    match r {
        VCoreRange::Range1 => if f > 16_000_000 { 1 } else { 0 },
        VCoreRange::Range2 => if f > 8_000_000 { 1 } else { 0 },
        VCoreRange::Range3 => 0,
    }
}

/// Flash wait states for range `r` at `f` Hz.
pub fn latency(r: VCoreRange, f: u32) -> (ws: u32)
    ensures
        ws == wait_states(r, f),
{
    match r {
        VCoreRange::Range1 => if f > 16_000_000 { 1 } else { 0 },
        VCoreRange::Range2 => if f > 8_000_000 { 1 } else { 0 },
        VCoreRange::Range3 => 0,
    }
}

/// For a fixed voltage range, a faster clock never needs fewer wait states.
pub proof fn lemma_wait_states_monotone(r: VCoreRange, f1: u32, f2: u32)
    requires
        f1 <= f2,
    ensures
        wait_states(r, f1) <= wait_states(r, f2),
{
}

/// Frequencies of the multi-speed internal oscillator.
#[allow(non_camel_case_types)]
#[derive(Clone, Copy, Debug, PartialEq, Eq, Structural)]
pub enum MsiFreq {
    Hz_65_536,
    Hz_131_072,
    Hz_262_144,
    Hz_524_288,
    Hz_1_048_000,
    Hz_2_097_000,
    Hz_4_194_000,
}

pub open spec fn msi_hz(f: MsiFreq) -> u32 {
    match f {
        MsiFreq::Hz_65_536 => 65_536,
        MsiFreq::Hz_131_072 => 131_072,
        MsiFreq::Hz_262_144 => 262_144,
        MsiFreq::Hz_524_288 => 524_288,
        MsiFreq::Hz_1_048_000 => 1_048_000,
        MsiFreq::Hz_2_097_000 => 2_097_000,
        MsiFreq::Hz_4_194_000 => 4_194_000,
    }
}

pub open spec fn msi_range_bits(f: MsiFreq) -> u32 {
    match f {
        MsiFreq::Hz_65_536 => 0,
        MsiFreq::Hz_131_072 => 1,
        MsiFreq::Hz_262_144 => 2,
        MsiFreq::Hz_524_288 => 3,
        MsiFreq::Hz_1_048_000 => 4,
        MsiFreq::Hz_2_097_000 => 5,
        MsiFreq::Hz_4_194_000 => 6,
    }
}

impl MsiFreq {
    /// The MSIRANGE field value that selects this frequency.
    pub fn range_bits(self) -> (r: u32)
        ensures
            r == msi_range_bits(self),
            r < 8,
    {
        match self {
            MsiFreq::Hz_65_536 => 0,
            MsiFreq::Hz_131_072 => 1,
            MsiFreq::Hz_262_144 => 2,
            MsiFreq::Hz_524_288 => 3,
            MsiFreq::Hz_1_048_000 => 4,
            MsiFreq::Hz_2_097_000 => 5,
            MsiFreq::Hz_4_194_000 => 6,
        }
    }

    /// The frequency in Hz.
    pub fn hz(self) -> (r: u32)
        ensures
            r == msi_hz(self),
    {
        match self {
            MsiFreq::Hz_65_536 => 65_536,
            MsiFreq::Hz_131_072 => 131_072,
            MsiFreq::Hz_262_144 => 262_144,
            MsiFreq::Hz_524_288 => 524_288,
            MsiFreq::Hz_1_048_000 => 1_048_000,
            MsiFreq::Hz_2_097_000 => 2_097_000,
            MsiFreq::Hz_4_194_000 => 4_194_000,
        }
    }
}

pub const HSI16_HZ: u32 = 16_000_000;

/// Oscillator that drives the system clock.
#[derive(Clone, Copy, Debug, PartialEq, Eq, Structural)]
pub enum SysClkSource {
    MSI,
    HSI16,
}

/// The clock tree as requested, before it is applied.
#[derive(Clone, Copy, Debug, PartialEq, Eq, Structural)]
pub struct ClockConfig {
    pub msi_on: bool,
    pub msi_freq: MsiFreq,
    pub hsi16_on: bool,
    pub hclk_fclk: u32,
    pub pclk1: u32,
    pub pclk2: u32,
    pub sysclk_src: SysClkSource,
}

/// The clock frequencies in effect once the configuration is applied.
#[derive(Clone, Copy, Debug, PartialEq, Eq, Structural)]
pub struct ClockContext {
    pub sysclk: u32,
    pub hclk_fclk: u32,
    pub apb1: u32,
    pub apb2: u32,
    pub msi: Option<u32>,
    pub hsi16: Option<u32>,
}

/// One write of the bring-up sequence, in the order it is to be performed.
#[derive(Clone, Copy, Debug, PartialEq, Eq, Structural)]
pub enum ClockWrite {
    MsiOn(MsiFreq),
    MsiOff,
    Hsi16On,
    Hsi16Off,
    FlashLatency(u32),
    VCore(VCoreRange),
    /// Switch the system clock (`sw`) and set the AHB and APB dividers.
    SwitchClock { sw: u32, hpre: u32, ppre1: u32, ppre2: u32 },
}

/// Whether the configuration enables the oscillator it selects for the system clock.
pub open spec fn source_enabled(c: ClockConfig) -> bool {
    match c.sysclk_src {
        SysClkSource::MSI => c.msi_on,
        SysClkSource::HSI16 => c.hsi16_on,
    }
}

pub open spec fn sysclk_hz(c: ClockConfig) -> u32 {
    match c.sysclk_src {
        SysClkSource::MSI => msi_hz(c.msi_freq),
        SysClkSource::HSI16 => HSI16_HZ,
    }
}

pub open spec fn sw_bits(s: SysClkSource) -> u32 {
    match s {
        SysClkSource::MSI => 0,
        SysClkSource::HSI16 => 1,
    }
}

/// AHB prescaler field and ratio for a requested division `q` (at least 1).
pub open spec fn hpre(q: u32) -> (u32, u32) {
    if q <= 1 {
        (0, 1)
    } else if q == 2 {
        (8, 2)
    } else if q <= 5 {
        (9, 4)
    } else if q <= 11 {
        (10, 8)
    } else if q <= 39 {
        (11, 16)
    } else if q <= 95 {
        (12, 64)
    } else if q <= 191 {
        (13, 128)
    } else if q <= 383 {
        (14, 256)
    } else {
        (15, 512)
    }
}

/// APB prescaler field and ratio for a requested division `q` (at least 1).
pub open spec fn ppre(q: u32) -> (u32, u32) {
    if q <= 1 {
        (0, 1)
    } else if q == 2 {
        (4, 2)
    } else if q <= 5 {
        (5, 4)
    } else if q <= 11 {
        (6, 8)
    } else {
        (7, 16)
    }
}

/// What a configuration may ask for: its system clock source is enabled, the
/// resulting frequency fits the voltage range, and each bus asks for no more
/// than the bus above it.
pub open spec fn config_ok(c: ClockConfig, target: VCoreRange) -> bool {
    &&& source_enabled(c)
    &&& sysclk_hz(c) <= max_freq(target)
    &&& 0 < c.hclk_fclk <= sysclk_hz(c)
    &&& 0 < c.pclk1 <= c.hclk_fclk
    &&& 0 < c.pclk2 <= c.hclk_fclk
}

/// The frequencies that applying `c` yields.
pub open spec fn context_of(c: ClockConfig) -> ClockContext {
    let sys = sysclk_hz(c);
    let h = (sys / hpre(sys / c.hclk_fclk).1) as u32;
    ClockContext {
        sysclk: sys,
        hclk_fclk: h,
        apb1: (h / ppre(c.hclk_fclk / c.pclk1).1) as u32,
        apb2: (h / ppre(c.hclk_fclk / c.pclk2).1) as u32,
        msi: if c.msi_on { Some(msi_hz(c.msi_freq)) } else { None },
        hsi16: if c.hsi16_on { Some(HSI16_HZ) } else { None },
    }
}

pub open spec fn switch_write(c: ClockConfig) -> ClockWrite {
    let sys = sysclk_hz(c);
    ClockWrite::SwitchClock {
        sw: sw_bits(c.sysclk_src),
        hpre: hpre(sys / c.hclk_fclk).0,
        ppre1: ppre(c.hclk_fclk / c.pclk1).0,
        ppre2: ppre(c.hclk_fclk / c.pclk2).0,
    }
}

pub open spec fn osc_on_writes(c: ClockConfig) -> Seq<ClockWrite> {
    (if c.msi_on { seq![ClockWrite::MsiOn(c.msi_freq)] } else { Seq::empty() }) + (if c.hsi16_on {
        seq![ClockWrite::Hsi16On]
    } else {
        Seq::empty()
    })
}

pub open spec fn osc_off_writes(c: ClockConfig) -> Seq<ClockWrite> {
    (if !c.msi_on { seq![ClockWrite::MsiOff] } else { Seq::empty() }) + (if !c.hsi16_on {
        seq![ClockWrite::Hsi16Off]
    } else {
        Seq::empty()
    })
}

/// The voltage range write, if the target is higher-performance than the current range.
pub open spec fn range_up(cur: VCoreRange, target: VCoreRange) -> Seq<ClockWrite> {
    if range_number(target) < range_number(cur) {
        seq![ClockWrite::VCore(target)]
    } else {
        Seq::empty()
    }
}

/// The voltage range write, if the target is lower-performance than the current range.
pub open spec fn range_down(cur: VCoreRange, target: VCoreRange) -> Seq<ClockWrite> {
    if range_number(target) > range_number(cur) {
        seq![ClockWrite::VCore(target)]
    } else {
        Seq::empty()
    }
}

/// The latency write that raises the wait states to `ws`, if they go up.
pub open spec fn latency_up(cur_ws: u32, ws: u32) -> Seq<ClockWrite> {
    if ws > cur_ws { seq![ClockWrite::FlashLatency(ws)] } else { Seq::empty() }
}

/// The latency write that lowers the wait states to `ws`, if they go down.
pub open spec fn latency_down(cur_ws: u32, ws: u32) -> Seq<ClockWrite> {
    if ws < cur_ws { seq![ClockWrite::FlashLatency(ws)] } else { Seq::empty() }
}

/// The writes before the clock switch: oscillators on, then the voltage range
/// if it goes up, then the flash latency if it goes up.
pub open spec fn plan_before(
    c: ClockConfig,
    cur_ws: u32,
    cur: VCoreRange,
    target: VCoreRange,
) -> Seq<ClockWrite> {
    osc_on_writes(c) + range_up(cur, target) + latency_up(cur_ws, wait_states(target, sysclk_hz(c)))
}

/// The writes after the clock switch: the voltage range if it goes down, the
/// flash latency if it goes down, then unused oscillators off.
pub open spec fn plan_after(
    c: ClockConfig,
    cur_ws: u32,
    cur: VCoreRange,
    target: VCoreRange,
) -> Seq<ClockWrite> {
    range_down(cur, target) + latency_down(cur_ws, wait_states(target, sysclk_hz(c))) + osc_off_writes(c)
}

/// The bring-up sequence that applies `c` under voltage range `target`, from
/// flash latency `cur_ws` and enacted range `cur`.
pub open spec fn freeze_plan(
    c: ClockConfig,
    cur_ws: u32,
    cur: VCoreRange,
    target: VCoreRange,
) -> Seq<ClockWrite> {
    plan_before(c, cur_ws, cur, target) + seq![switch_write(c)] + plan_after(c, cur_ws, cur, target)
}

/// Ordering of every bring-up sequence: the clock switch happens exactly once;
/// the flash latency is written only when it changes, and then to the wait
/// states the new clock needs; it is raised strictly before the switch and
/// lowered strictly after it; and a voltage range that goes up is selected
/// before any latency write.
pub proof fn lemma_latency_before_switch(
    c: ClockConfig,
    cur_ws: u32,
    cur: VCoreRange,
    target: VCoreRange,
)
    ensures
        ({
            let p = freeze_plan(c, cur_ws, cur, target);
            let ws = wait_states(target, sysclk_hz(c));
            let j = plan_before(c, cur_ws, cur, target).len() as int;
            &&& 0 <= j < p.len()
            &&& p[j] == switch_write(c)
            &&& forall|k: int| 0 <= k < p.len() && k != j ==> !(#[trigger] p[k] is SwitchClock)
            &&& forall|k: int|
                0 <= k < p.len() && #[trigger] p[k] is FlashLatency ==> p[k]->FlashLatency_0 == ws
                    && ws != cur_ws && (k < j <==> ws > cur_ws)
            &&& ws > cur_ws ==> exists|i: int| 0 <= i < j && #[trigger] p[i] == ClockWrite::FlashLatency(ws)
            &&& range_number(target) < range_number(cur) ==> exists|v: int|
                0 <= v < j && #[trigger] p[v] == ClockWrite::VCore(target) && forall|k: int|
                    0 <= k < p.len() && #[trigger] p[k] is FlashLatency ==> v < k
        }),
{
    let p = freeze_plan(c, cur_ws, cur, target);
    let ws = wait_states(target, sysclk_hz(c));
    let on = osc_on_writes(c);
    let up = range_up(cur, target);
    let lu = latency_up(cur_ws, ws);
    let down = range_down(cur, target);
    let ld = latency_down(cur_ws, ws);
    let off = osc_off_writes(c);
    let msi_on = if c.msi_on { seq![ClockWrite::MsiOn(c.msi_freq)] } else { Seq::<ClockWrite>::empty() };
    let hsi_on = if c.hsi16_on { seq![ClockWrite::Hsi16On] } else { Seq::<ClockWrite>::empty() };
    let msi_off = if !c.msi_on { seq![ClockWrite::MsiOff] } else { Seq::<ClockWrite>::empty() };
    let hsi_off = if !c.hsi16_on { seq![ClockWrite::Hsi16Off] } else { Seq::<ClockWrite>::empty() };
    assert(on =~= msi_on + hsi_on);
    assert(off =~= msi_off + hsi_off);
    let n0 = on.len() as int;
    let n1 = n0 + up.len();
    let j = n1 + lu.len();
    let n3 = j + 1 + down.len();
    let n4 = n3 + ld.len();
    assert(plan_before(c, cur_ws, cur, target).len() == j);
    assert(p.len() == n4 + off.len());
    assert forall|k: int| 0 <= k < p.len() implies {
        &&& (k < n0 ==> p[k] == on[k])
        &&& (n0 <= k < n1 ==> p[k] == up[k - n0])
        &&& (n1 <= k < j ==> p[k] == lu[k - n1])
        &&& (k == j ==> p[k] == switch_write(c))
        &&& (j < k < n3 ==> p[k] == down[k - j - 1])
        &&& (n3 <= k < n4 ==> p[k] == ld[k - n3])
        &&& (n4 <= k ==> p[k] == off[k - n4])
    } by {
        let pre = on + up + lu;
        let post = down + ld + off;
        assert(p == pre + seq![switch_write(c)] + post);
        if k < j {
            assert(p[k] == pre[k]);
            if k < n1 {
                assert(pre[k] == (on + up)[k]);
            }
        } else if k > j {
            assert(p[k] == post[k - j - 1]);
            if k < n4 {
                assert(post[k - j - 1] == (down + ld)[k - j - 1]);
            }
        }
    }
    assert forall|k: int| 0 <= k < p.len() && k != j implies !(#[trigger] p[k] is SwitchClock) by {
        if k < n0 {
            if k < msi_on.len() {
                assert(on[k] == msi_on[k]);
            } else {
                assert(on[k] == hsi_on[k - msi_on.len()]);
            }
        } else if n4 <= k {
            if k - n4 < msi_off.len() {
                assert(off[k - n4] == msi_off[k - n4]);
            } else {
                assert(off[k - n4] == hsi_off[k - n4 - msi_off.len()]);
            }
        }
    }
    assert forall|k: int|
        0 <= k < p.len() && #[trigger] p[k] is FlashLatency implies p[k]->FlashLatency_0 == ws
        && ws != cur_ws && (k < j <==> ws > cur_ws) by {
        if k < n0 {
            if k < msi_on.len() {
                assert(on[k] == msi_on[k]);
            } else {
                assert(on[k] == hsi_on[k - msi_on.len()]);
            }
        } else if n4 <= k {
            if k - n4 < msi_off.len() {
                assert(off[k - n4] == msi_off[k - n4]);
            } else {
                assert(off[k - n4] == hsi_off[k - n4 - msi_off.len()]);
            }
        }
    }
    if ws > cur_ws {
        assert(p[n1] == ClockWrite::FlashLatency(ws));
    }
    if range_number(target) < range_number(cur) {
        assert(p[n0] == ClockWrite::VCore(target));
    }
}

} // verus!
