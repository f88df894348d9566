//! Clock timing: from a source clock and a target bus frequency to the values
//! of the period, hold, setup and timeout registers.

use vstd::prelude::*;
use vstd::arithmetic::power2::{lemma2_to64, lemma_pow2_strictly_increases, lemma_pow2_unfold, pow2};
use crate::config::BusTimeout;
use crate::error::ConfigError;
use crate::registers::RegisterWrite;
use crate::variant::Variant;

verus! {

/// Bus frequency from which the later families shorten the wait-high phase.
pub const WAIT_HIGH_BOUNDARY: u32 = 80_000;

/// Timing of the bus in cycles of the functional clock, as the registers
/// take it.
#[derive(Debug, Clone, Copy, PartialEq, Eq, Structural)]
pub struct ClockTimings {
    /// Divider from source clock to functional clock; 0 where the controller
    /// has none.
    pub sclk_div: u32,
    pub scl_low_period: u32,
    pub scl_high_period: u32,
    pub scl_wait_high_period: u32,
    pub sda_hold_time: u32,
    pub sda_sample_time: u32,
    pub scl_rstart_setup_time: u32,
    pub scl_stop_setup_time: u32,
    pub scl_start_hold_time: u32,
    pub scl_stop_hold_time: u32,
    /// The timeout as the register counts it: `Disabled`, or `BusCycles` with
    /// the register value.
    pub timeout: BusTimeout,
}

/// Divider from source clock to functional clock. It keeps the functional
/// clock below 1024 times the bus frequency.
pub open spec fn clock_divider(variant: Variant, source_clk: u32, bus_freq: u32) -> int {
    if variant.fifo_limited() {
        1
    } else {
        source_clk as int / (bus_freq as int * 1024) + 1
    }
}

/// Frequency of the clock that the period registers count.
pub open spec fn functional_clock(variant: Variant, source_clk: u32, bus_freq: u32) -> int {
    source_clk as int / clock_divider(variant, source_clk, bus_freq)
}

/// Half of the bus period, in cycles of the functional clock, rounded down.
pub open spec fn half_cycle(variant: Variant, source_clk: u32, bus_freq: u32) -> int {
    functional_clock(variant, source_clk, bus_freq) / (bus_freq as int) / 2
}

/// Least half cycle from which every register value of the family is
/// non-negative.
pub open spec fn min_half_cycle(variant: Variant) -> int {
    match variant {
        Variant::Esp32 => 13,
        Variant::Esp32S2 => 3,
        _ => 4,
    }
}

/// Least exponent `e` with `2^e >= n`, for `n >= 1`.
pub open spec fn ceil_log2(n: int) -> int
    decreases n,
{
    if n <= 1 {
        0
    } else {
        1 + ceil_log2((n + 1) / 2)
    }
}

/// Cycles of the functional clock in `cycles` bus cycles.
pub open spec fn timeout_cycles(cycles: u32, half_cycle: int) -> int {
    cycles as int * 2 * half_cycle
}

/// What the timeout register would have to hold for `cycles` bus cycles: the
/// cycles of the functional clock on the two oldest families, on the others
/// the exponent of the least power of two that is no shorter.
pub open spec fn timeout_register_value(variant: Variant, cycles: u32, half_cycle: int) -> int {
    let wanted = timeout_cycles(cycles, half_cycle);
    if variant.fifo_limited() {
        wanted
    } else {
        ceil_log2(if wanted >= 1 { wanted } else { 1 })
    }
}

/// The timeout as the register of the family counts it, or `None` where the
/// register cannot hold it.
pub open spec fn derived_timeout(variant: Variant, timeout: BusTimeout, half_cycle: int) -> Option<
    BusTimeout,
> {
    match timeout {
        BusTimeout::Maximum => Some(BusTimeout::BusCycles(variant.timeout_max())),
        BusTimeout::Disabled => if variant.fifo_limited() {
            None
        } else {
            Some(BusTimeout::Disabled)
        },
        BusTimeout::BusCycles(cycles) => {
            let value = timeout_register_value(variant, cycles, half_cycle);
            if value <= variant.timeout_max() {
                Some(BusTimeout::BusCycles(value as u32))
            } else {
                None
            }
        },
    }
}

/// Wait-high phase of the later families.
pub open spec fn wait_high(bus_freq: u32, half_cycle: int) -> int {
    if bus_freq >= WAIT_HIGH_BOUNDARY {
        half_cycle / 2 - 2
    } else {
        half_cycle / 4
    }
}

/// Register values of a family for a half cycle of at least
/// `min_half_cycle`.
pub open spec fn derived_timings(
    variant: Variant,
    bus_freq: u32,
    divider: int,
    half_cycle: int,
    timeout: BusTimeout,
) -> ClockTimings {
    let hc = half_cycle;
    match variant {
        Variant::Esp32 => ClockTimings {
            sclk_div: 0,
            scl_low_period: (hc - 1) as u32,
            scl_high_period: (hc - 13) as u32,
            scl_wait_high_period: 0,
            sda_hold_time: (hc / 2) as u32,
            sda_sample_time: (hc / 2) as u32,
            scl_rstart_setup_time: hc as u32,
            scl_stop_setup_time: hc as u32,
            scl_start_hold_time: hc as u32,
            scl_stop_hold_time: hc as u32,
            timeout,
        },
        Variant::Esp32S2 => ClockTimings {
            sclk_div: 0,
            scl_low_period: (hc - 1) as u32,
            scl_high_period: (hc / 2 + 2) as u32,
            scl_wait_high_period: (hc - (hc / 2 + 2)) as u32,
            sda_hold_time: (hc / 2) as u32,
            sda_sample_time: (hc / 2 - 1) as u32,
            scl_rstart_setup_time: hc as u32,
            scl_stop_setup_time: hc as u32,
            scl_start_hold_time: (hc - 1) as u32,
            scl_stop_hold_time: hc as u32,
            timeout,
        },
        _ => {
            let wh = wait_high(bus_freq, hc);
            ClockTimings {
                sclk_div: divider as u32,
                scl_low_period: (hc - 1) as u32,
                scl_high_period: (hc - wh) as u32,
                scl_wait_high_period: wh as u32,
                sda_hold_time: (hc / 4 - 1) as u32,
                sda_sample_time: (hc / 2 + wh - 1) as u32,
                scl_rstart_setup_time: (hc - 1) as u32,
                scl_stop_setup_time: (hc - 1) as u32,
                scl_start_hold_time: (hc - 1) as u32,
                scl_stop_hold_time: (hc - 1) as u32,
                timeout,
            }
        },
    }
}

/// What [`bus_timings`] returns.
///
/// A bus frequency of zero is invalid. Then the timeout is derived, and
/// rejected where its register cannot hold it. Then a half cycle under the
/// family's minimum is an invalid frequency.
pub open spec fn bus_timings_spec(
    variant: Variant,
    source_clk: u32,
    bus_freq: u32,
    timeout: BusTimeout,
) -> Result<ClockTimings, ConfigError> {
    if bus_freq == 0 {
        Err(ConfigError::FrequencyInvalid)
    } else {
        let hc = half_cycle(variant, source_clk, bus_freq);
        match derived_timeout(variant, timeout, hc) {
            None => Err(ConfigError::TimeoutInvalid),
            Some(counted) => if hc < min_half_cycle(variant) {
                Err(ConfigError::FrequencyInvalid)
            } else {
                Ok(
                    derived_timings(
                        variant,
                        bus_freq,
                        clock_divider(variant, source_clk, bus_freq),
                        hc,
                        counted,
                    ),
                )
            },
        }
    }
}

/// `Ok(v)` where `v` is at most `max`, else `TimeoutInvalid`.
pub fn check_timeout(v: u32, max: u32) -> (r: Result<u32, ConfigError>)
    ensures
        r == if v <= max {
            Ok::<u32, ConfigError>(v)
        } else {
            Err::<u32, ConfigError>(ConfigError::TimeoutInvalid)
        },
{
    if v <= max {
        Ok(v)
    } else {
        Err(ConfigError::TimeoutInvalid)
    }
}

/// The least exponent is the only one that reaches `n` while the one below
/// it does not.
pub proof fn lemma_ceil_log2_is_least(n: int, e: nat)
    requires
        n >= 1,
        pow2(e) >= n,
        e > 0 ==> pow2((e - 1) as nat) < n,
    ensures
        ceil_log2(n) == e,
    decreases e,
{
    lemma2_to64();
    if n <= 1 {
        if e > 0 {
            lemma_pow2_strictly_increases(0, e);
            if e > 1 {
                lemma_pow2_strictly_increases(0, (e - 1) as nat);
            }
        }
    } else {
        assert(e > 0);
        lemma_pow2_unfold(e);
        let m = (n + 1) / 2;
        let d = (e - 1) as nat;
        if d > 0 {
            lemma_pow2_unfold(d);
        }
        lemma_ceil_log2_is_least(m, d);
    }
}

/// The timeout exponent rounds up: two to its power is never less than the
/// cycles asked for, and the exponent below it would be.
pub proof fn lemma_ceil_log2_rounds_up(n: int)
    requires
        n >= 1,
    ensures
        ceil_log2(n) >= 0,
        pow2(ceil_log2(n) as nat) >= n,
        ceil_log2(n) > 0 ==> pow2((ceil_log2(n) - 1) as nat) < n,
    decreases n,
{
    lemma2_to64();
    if n > 1 {
        let m = (n + 1) / 2;
        lemma_ceil_log2_rounds_up(m);
        let d = ceil_log2(m) as nat;
        lemma_pow2_unfold(d + 1);
        if d > 0 {
            lemma_pow2_unfold(d);
        }
    }
}

/// The least exponent `e` with `2^e >= cycles`, for `cycles` up to `2^31`.
fn timeout_exponent(cycles: u64) -> (e: u32)
    requires
        1 <= cycles <= 0x8000_0000,
    ensures
        e == ceil_log2(cycles as int),
        e <= 31,
{
    let mut e: u32 = 0;
    let mut power: u64 = 1;
    proof {
        lemma2_to64();
    }
    while power < cycles
        invariant
            1 <= cycles <= 0x8000_0000,
            power == pow2(e as nat),
            e <= 31,
            e > 0 ==> pow2((e - 1) as nat) < cycles,
            power <= 0x8000_0000,
        decreases 0x1_0000_0000 - power,
    {
        proof {
            lemma_pow2_unfold((e + 1) as nat);
            lemma2_to64();
            if e >= 31 {
                lemma_pow2_strictly_increases(31, e as nat + 1);
            }
        }
        power = power * 2;
        e = e + 1;
    }
    proof {
        lemma_ceil_log2_is_least(cycles as int, e as nat);
    }
    e
}

/// The timeout as the register of the family counts it.
fn derive_timeout(variant: Variant, timeout: BusTimeout, half_cycle: u32) -> (r: Option<
    BusTimeout,
>)
    requires
        half_cycle <= 0x7FFF_FFFF,
    ensures
        r == derived_timeout(variant, timeout, half_cycle as int),
{
    match timeout {
        BusTimeout::Maximum => Some(BusTimeout::BusCycles(variant.timeout_max())),
        BusTimeout::Disabled => if variant.fifo_limited() {
            None
        } else {
            Some(BusTimeout::Disabled)
        },
        BusTimeout::BusCycles(cycles) => {
            let doubled: u64 = cycles as u64 * 2;
            assert(doubled * half_cycle <= 0x1_FFFF_FFFE * 0x7FFF_FFFF) by (nonlinear_arith)
                requires
                    doubled <= 0x1_FFFF_FFFE,
                    half_cycle <= 0x7FFF_FFFF,
            ;
            let wanted: u64 = doubled * half_cycle as u64;
            if variant.fifo_limited() {
                if wanted <= variant.timeout_max() as u64 {
                    Some(BusTimeout::BusCycles(wanted as u32))
                } else {
                    None
                }
            } else {
                let wanted: u64 = if wanted >= 1 {
                    wanted
                } else {
                    1
                };
                if wanted > 0x8000_0000 {
                    proof {
                        lemma_ceil_log2_rounds_up(wanted as int);
                        lemma2_to64();
                        let e = ceil_log2(wanted as int);
                        if e <= 31 {
                            if e < 31 {
                                lemma_pow2_strictly_increases(e as nat, 31);
                            }
                        }
                    }
                    None
                } else {
                    Some(BusTimeout::BusCycles(timeout_exponent(wanted)))
                }
            }
        },
    }
}

/// Computes the register values for a bus frequency.
///
/// `source_clk` and `bus_freq` are in hertz. The result is the one that
/// [`bus_timings_spec`] describes: the values of the family's formulas, or
/// `FrequencyInvalid` where a formula has no value, or `TimeoutInvalid`
/// where the timeout does not fit its register.
pub fn bus_timings(variant: Variant, source_clk: u32, bus_freq: u32, timeout: BusTimeout) -> (r:
    Result<ClockTimings, ConfigError>)
    ensures
        r == bus_timings_spec(variant, source_clk, bus_freq, timeout),
{
    if bus_freq == 0 {
        return Err(ConfigError::FrequencyInvalid);
    }
    let sclk_div: u32 = if variant.fifo_limited() {
        1
    } else {
        let scaled: u64 = bus_freq as u64 * 1024;
        let quotient: u64 = source_clk as u64 / scaled;
        assert(quotient * 1024 <= source_clk) by (nonlinear_arith)
            requires
                scaled >= 1024,
                quotient == source_clk as int / scaled as int,
        ;
        (quotient + 1) as u32
    };
    let sclk_freq: u32 = source_clk / sclk_div;
    let half_cycle: u32 = sclk_freq / bus_freq / 2;
    assert(sclk_div == clock_divider(variant, source_clk, bus_freq));
    assert(half_cycle == self::half_cycle(variant, source_clk, bus_freq));
    let counted = match derive_timeout(variant, timeout, half_cycle) {
        Some(counted) => counted,
        None => {
            return Err(ConfigError::TimeoutInvalid);
        },
    };
    match variant {
        Variant::Esp32 => {
            if half_cycle < 13 {
                return Err(ConfigError::FrequencyInvalid);
            }
            Ok(
                ClockTimings {
                    sclk_div: 0,
                    scl_low_period: half_cycle - 1,
                    // The filter threshold is always 7, for which the
                    // hardware adds 7 + 6 cycles to the high period.
                    scl_high_period: half_cycle - 13,
                    scl_wait_high_period: 0,
                    sda_hold_time: half_cycle / 2,
                    sda_sample_time: half_cycle / 2,
                    scl_rstart_setup_time: half_cycle,
                    scl_stop_setup_time: half_cycle,
                    scl_start_hold_time: half_cycle,
                    scl_stop_hold_time: half_cycle,
                    timeout: counted,
                },
            )
        },
        Variant::Esp32S2 => {
            if half_cycle < 3 {
                return Err(ConfigError::FrequencyInvalid);
            }
            // scl_wait_high < scl_high, and scl_wait_high < sda_sample <= scl_high
            let scl_high: u32 = half_cycle / 2 + 2;
            Ok(
                ClockTimings {
                    sclk_div: 0,
                    scl_low_period: half_cycle - 1,
                    scl_high_period: scl_high,
                    scl_wait_high_period: half_cycle - scl_high,
                    sda_hold_time: half_cycle / 2,
                    sda_sample_time: half_cycle / 2 - 1,
                    scl_rstart_setup_time: half_cycle,
                    scl_stop_setup_time: half_cycle,
                    scl_start_hold_time: half_cycle - 1,
                    scl_stop_hold_time: half_cycle,
                    timeout: counted,
                },
            )
        },
        _ => {
            if half_cycle < 4 {
                return Err(ConfigError::FrequencyInvalid);
            }
            // At low frequencies a long wait-high phase makes the bus run
            // fast, so below the boundary it is a quarter of the half cycle.
            let scl_wait_high: u32 = if bus_freq >= WAIT_HIGH_BOUNDARY {
                half_cycle / 2 - 2
            } else {
                half_cycle / 4
            };
            Ok(
                ClockTimings {
                    sclk_div,
                    scl_low_period: half_cycle - 1,
                    scl_high_period: half_cycle - scl_wait_high,
                    scl_wait_high_period: scl_wait_high,
                    sda_hold_time: half_cycle / 4 - 1,
                    sda_sample_time: half_cycle / 2 + scl_wait_high - 1,
                    scl_rstart_setup_time: half_cycle - 1,
                    scl_stop_setup_time: half_cycle - 1,
                    scl_start_hold_time: half_cycle - 1,
                    scl_stop_hold_time: half_cycle - 1,
                    timeout: counted,
                },
            )
        },
    }
}

/// Whether the register fields can hold the timings: the divider field
/// holds `sclk_div - 1` in 8 bits, the wait-high field has 8 bits where there
/// is a divider and 16 where there is none, and every other field has 16.
pub open spec fn registers_fit(variant: Variant, t: ClockTimings) -> bool {
    &&& !variant.fifo_limited() ==> 1 <= t.sclk_div <= 256
    &&& t.scl_low_period <= 0xFFFF
    &&& t.scl_high_period <= 0xFFFF
    &&& !variant.fifo_limited() ==> t.scl_wait_high_period <= 0xFF
    &&& variant is Esp32S2 ==> t.scl_wait_high_period <= 0xFFFF
    &&& t.sda_hold_time <= 0xFFFF
    &&& t.sda_sample_time <= 0xFFFF
    &&& t.scl_rstart_setup_time <= 0xFFFF
    &&& t.scl_stop_setup_time <= 0xFFFF
    &&& t.scl_start_hold_time <= 0xFFFF
    &&& t.scl_stop_hold_time <= 0xFFFF
}

/// Whether the timeout register can hold the timeout.
pub open spec fn timeout_fits(variant: Variant, timeout: BusTimeout) -> bool {
    match timeout {
        BusTimeout::Maximum => true,
        BusTimeout::Disabled => !variant.fifo_limited(),
        BusTimeout::BusCycles(cycles) => cycles <= variant.timeout_max(),
    }
}

/// The register writes that program the timings, in the order in which
/// [`configure_clock`] queues them.
pub open spec fn clock_registers(variant: Variant, t: ClockTimings) -> Seq<RegisterWrite> {
    let divider = if variant.fifo_limited() {
        Seq::<RegisterWrite>::empty()
    } else {
        seq![RegisterWrite::ClockDivider((t.sclk_div - 1) as u8)]
    };
    let high = if variant is Esp32 {
        RegisterWrite::SclHighPeriod(t.scl_high_period as u16)
    } else {
        RegisterWrite::SclHighWaitPeriod {
            period: t.scl_high_period as u16,
            wait_high: t.scl_wait_high_period as u16,
        }
    };
    let timeout = if variant is Esp32 {
        RegisterWrite::TimeoutCycles(t.timeout.cycles(variant))
    } else {
        RegisterWrite::Timeout { enable: t.timeout.is_set(), value: t.timeout.cycles(variant) }
    };
    divider + seq![
        RegisterWrite::SclLowPeriod(t.scl_low_period as u16),
        high,
        RegisterWrite::SdaHold(t.sda_hold_time as u16),
        RegisterWrite::SdaSample(t.sda_sample_time as u16),
        RegisterWrite::SclRstartSetup(t.scl_rstart_setup_time as u16),
        RegisterWrite::SclStopSetup(t.scl_stop_setup_time as u16),
        RegisterWrite::SclStartHold(t.scl_start_hold_time as u16),
        RegisterWrite::SclStopHold(t.scl_stop_hold_time as u16),
        timeout,
    ]
}

/// What [`configure_clock`] returns.
pub open spec fn configure_clock_spec(variant: Variant, t: ClockTimings) -> Result<
    Seq<RegisterWrite>,
    ConfigError,
> {
    if !registers_fit(variant, t) {
        Err(ConfigError::FrequencyInvalid)
    } else if !timeout_fits(variant, t.timeout) {
        Err(ConfigError::TimeoutInvalid)
    } else {
        Ok(clock_registers(variant, t))
    }
}

/// Queues the writes that program the clock and timing registers.
///
/// Timings that a register field cannot hold are rejected with
/// `FrequencyInvalid`, a timeout that its register cannot hold with
/// `TimeoutInvalid`; in both cases nothing is queued.
pub fn configure_clock(variant: Variant, regs: &mut Vec<RegisterWrite>, timings: &ClockTimings) -> (r:
    Result<(), ConfigError>)
    ensures
        match configure_clock_spec(variant, *timings) {
            Ok(writes) => r is Ok && final(regs)@ == old(regs)@ + writes,
            Err(e) => r == Err::<(), ConfigError>(e) && final(regs)@ == old(regs)@,
        },
{
    let t = timings;
    let limited = variant.fifo_limited();
    if !limited && (t.sclk_div < 1 || t.sclk_div > 256 || t.scl_wait_high_period > 0xFF) {
        return Err(ConfigError::FrequencyInvalid);
    }
    if variant.is_esp32s2() && t.scl_wait_high_period > 0xFFFF {
        return Err(ConfigError::FrequencyInvalid);
    }
    if t.scl_low_period > 0xFFFF || t.scl_high_period > 0xFFFF || t.sda_hold_time > 0xFFFF
        || t.sda_sample_time > 0xFFFF || t.scl_rstart_setup_time > 0xFFFF || t.scl_stop_setup_time
        > 0xFFFF || t.scl_start_hold_time > 0xFFFF || t.scl_stop_hold_time > 0xFFFF {
        return Err(ConfigError::FrequencyInvalid);
    }
    match t.timeout {
        BusTimeout::Maximum => {},
        BusTimeout::Disabled => {
            if limited {
                return Err(ConfigError::TimeoutInvalid);
            }
        },
        BusTimeout::BusCycles(cycles) => {
            if cycles > variant.timeout_max() {
                return Err(ConfigError::TimeoutInvalid);
            }
        },
    }
    let ghost before = regs@;
    if !limited {
        regs.push(RegisterWrite::ClockDivider((t.sclk_div - 1) as u8));
    }
    let ghost divided = regs@;
    regs.push(RegisterWrite::SclLowPeriod(t.scl_low_period as u16));
    if variant.is_esp32() {
        regs.push(RegisterWrite::SclHighPeriod(t.scl_high_period as u16));
    } else {
        regs.push(
            RegisterWrite::SclHighWaitPeriod {
                period: t.scl_high_period as u16,
                wait_high: t.scl_wait_high_period as u16,
            },
        );
    }
    regs.push(RegisterWrite::SdaHold(t.sda_hold_time as u16));
    regs.push(RegisterWrite::SdaSample(t.sda_sample_time as u16));
    regs.push(RegisterWrite::SclRstartSetup(t.scl_rstart_setup_time as u16));
    regs.push(RegisterWrite::SclStopSetup(t.scl_stop_setup_time as u16));
    regs.push(RegisterWrite::SclStartHold(t.scl_start_hold_time as u16));
    regs.push(RegisterWrite::SclStopHold(t.scl_stop_hold_time as u16));
    // The first family has no enable flag for the timeout.
    if variant.is_esp32() {
        regs.push(RegisterWrite::TimeoutCycles(t.timeout.cycles(variant)));
    } else {
        regs.push(
            RegisterWrite::Timeout { enable: t.timeout.is_set(), value: t.timeout.cycles(variant) },
        );
    }
    assert(regs@ =~= before + clock_registers(variant, *timings));
    Ok(())
}

/// What setting a bus frequency queues or fails with: the timings of
/// [`bus_timings`], programmed by [`configure_clock`].
pub open spec fn set_frequency_spec(
    variant: Variant,
    source_clk: u32,
    bus_freq: u32,
    timeout: BusTimeout,
) -> Result<Seq<RegisterWrite>, ConfigError> {
    match bus_timings_spec(variant, source_clk, bus_freq, timeout) {
        Ok(timings) => configure_clock_spec(variant, timings),
        Err(e) => Err(e),
    }
}

/// Whether every register value that a pair of frequencies derives exists
/// and fits its field.
pub open spec fn frequency_fits(variant: Variant, source_clk: u32, bus_freq: u32) -> bool {
    let hc = half_cycle(variant, source_clk, bus_freq);
    &&& bus_freq > 0
    &&& hc >= min_half_cycle(variant)
    &&& registers_fit(
        variant,
        derived_timings(
            variant,
            bus_freq,
            clock_divider(variant, source_clk, bus_freq),
            hc,
            BusTimeout::Maximum,
        ),
    )
}

/// Length of one SCL period in cycles of the functional clock: the low
/// period, which the hardware extends by one cycle, then the high and
/// wait-high periods and what the input filter adds to them.
pub open spec fn scl_period(variant: Variant, t: ClockTimings) -> int {
    t.scl_low_period + 1 + t.scl_high_period + t.scl_wait_high_period + variant.filter_latency()
}

/// A derived timeout always fits the timeout register.
pub proof fn lemma_derived_timeout_fits(variant: Variant, timeout: BusTimeout, half_cycle: int)
    requires
        derived_timeout(variant, timeout, half_cycle) is Some,
        half_cycle >= 0,
    ensures
        timeout_fits(variant, derived_timeout(variant, timeout, half_cycle)->Some_0),
{
    if let BusTimeout::BusCycles(cycles) = timeout {
        let wanted = timeout_cycles(cycles, half_cycle);
        assert(wanted >= 0) by (nonlinear_arith)
            requires
                wanted == cycles as int * 2 * half_cycle,
                half_cycle >= 0,
        ;
        if !variant.fifo_limited() {
            lemma_ceil_log2_rounds_up(if wanted >= 1 { wanted } else { 1 });
        }
    }
}

/// Setting a frequency succeeds for every pair of source clock and bus
/// frequency whose derived register values fit, with any timeout that its
/// register can hold.
pub proof fn lemma_fitting_frequency_is_accepted(
    variant: Variant,
    source_clk: u32,
    bus_freq: u32,
    timeout: BusTimeout,
)
    requires
        frequency_fits(variant, source_clk, bus_freq),
        derived_timeout(variant, timeout, half_cycle(variant, source_clk, bus_freq)) is Some,
    ensures
        bus_timings_spec(variant, source_clk, bus_freq, timeout) is Ok,
        set_frequency_spec(variant, source_clk, bus_freq, timeout) is Ok,
{
    let hc = half_cycle(variant, source_clk, bus_freq);
    lemma_derived_timeout_fits(variant, timeout, hc);
}

/// The programmed bus frequency is within rounding of the request: one SCL
/// period takes twice the half cycle, and the requested period, measured in
/// cycles of the functional clock, lies from that up to less than two cycles
/// more.
pub proof fn lemma_programmed_period_is_within_rounding(
    variant: Variant,
    source_clk: u32,
    bus_freq: u32,
    timeout: BusTimeout,
)
    requires
        bus_timings_spec(variant, source_clk, bus_freq, timeout) is Ok,
    ensures
        ({
            let timings = bus_timings_spec(variant, source_clk, bus_freq, timeout)->Ok_0;
            let period = scl_period(variant, timings);
            let clock = functional_clock(variant, source_clk, bus_freq);
            &&& period == 2 * half_cycle(variant, source_clk, bus_freq)
            &&& period * bus_freq <= clock < (period + 2) * bus_freq
        }),
{
    let clock = functional_clock(variant, source_clk, bus_freq);
    let hc = half_cycle(variant, source_clk, bus_freq);
    let per_bus = clock / (bus_freq as int);
    assert(clock >= 0) by (nonlinear_arith)
        requires
            clock == source_clk as int / clock_divider(variant, source_clk, bus_freq),
            clock_divider(variant, source_clk, bus_freq) >= 1,
    ;
    assert(per_bus * bus_freq <= clock < (per_bus + 1) * bus_freq) by (nonlinear_arith)
        requires
            per_bus == clock / (bus_freq as int),
            bus_freq > 0,
    ;
    assert(2 * hc <= per_bus < 2 * hc + 2);
    assert(2 * hc * bus_freq <= per_bus * bus_freq) by (nonlinear_arith)
        requires
            2 * hc <= per_bus,
            bus_freq > 0,
    ;
    assert((per_bus + 1) * bus_freq <= (2 * hc + 2) * bus_freq) by (nonlinear_arith)
        requires
            per_bus + 1 <= 2 * hc + 2,
            bus_freq > 0,
    ;
}

/// A timeout in bus cycles is rejected exactly if what its register would
/// have to hold exceeds the register's maximum.
pub proof fn lemma_timeout_is_rejected_above_maximum(
    variant: Variant,
    source_clk: u32,
    bus_freq: u32,
    cycles: u32,
)
    requires
        bus_freq > 0,
    ensures
        ({
            let timeout = BusTimeout::BusCycles(cycles);
            let value = timeout_register_value(
                variant,
                cycles,
                half_cycle(variant, source_clk, bus_freq),
            );
            let rejected = Err::<Seq<RegisterWrite>, ConfigError>(ConfigError::TimeoutInvalid);
            &&& value > variant.timeout_max() ==> set_frequency_spec(
                variant,
                source_clk,
                bus_freq,
                timeout,
            ) == rejected
            &&& value <= variant.timeout_max() ==> set_frequency_spec(
                variant,
                source_clk,
                bus_freq,
                timeout,
            ) != rejected
            &&& value <= variant.timeout_max() && frequency_fits(variant, source_clk, bus_freq)
                ==> set_frequency_spec(variant, source_clk, bus_freq, timeout) is Ok
        }),
{
    let hc = half_cycle(variant, source_clk, bus_freq);
    let timeout = BusTimeout::BusCycles(cycles);
    let clock = functional_clock(variant, source_clk, bus_freq);
    assert(clock >= 0) by (nonlinear_arith)
        requires
            clock == source_clk as int / clock_divider(variant, source_clk, bus_freq),
            clock_divider(variant, source_clk, bus_freq) >= 1,
    ;
    assert(clock / (bus_freq as int) >= 0) by (nonlinear_arith)
        requires
            clock >= 0,
            bus_freq > 0,
    ;
    if derived_timeout(variant, timeout, hc) is Some {
        lemma_derived_timeout_fits(variant, timeout, hc);
    }
}

} // verus!
