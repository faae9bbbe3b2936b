//! Bit timing: the division of one bit period into time quanta.
//!
//! One bit lasts `1 + seg1 + seg2` quanta: a synchronisation quantum, the
//! segment before the sample point and the segment after it. One quantum
//! lasts `prescaler` periods of the peripheral clock, so the bit rate is
//! `clock / (prescaler * (1 + seg1 + seg2))`.

use vstd::prelude::*;
use vstd::arithmetic::div_mod::lemma_fundamental_div_mod_converse;

verus! {

/// Largest nominal prescaler the controller's register can hold.
pub const MAX_PRESCALER: u16 = 512;

/// Largest nominal segment before the sample point, in quanta.
pub const MAX_SEG1: u8 = 16;

/// Largest nominal segment after the sample point, in quanta.
pub const MAX_SEG2: u8 = 8;

/// Largest number of quanta in one nominal bit.
pub const MAX_QUANTA: u16 = 25;

/// Largest data-phase prescaler.
pub const MAX_DATA_PRESCALER: u16 = 32;

/// Largest data-phase segment before the sample point, in quanta.
pub const MAX_DATA_SEG1: u8 = 32;

/// Largest data-phase segment after the sample point, in quanta.
pub const MAX_DATA_SEG2: u8 = 16;

/// Largest number of quanta in one data-phase bit.
pub const MAX_DATA_QUANTA: u16 = 49;

/// Sample point the calculator aims for when the caller names none, in
/// thousandths of the bit period.
pub const DEFAULT_SAMPLE_POINT: u16 = 875;

/// Why a bit timing was refused.
#[derive(Clone, Copy, Debug, PartialEq, Eq, Structural)]
pub enum TimingError {
    /// No register setting within the hardware's limits gives the timing.
    Unachievable,
}

/// The rule both phases share: every field at least one and at most its
/// register's maximum, the jump width no wider than the second segment, and
/// the bit no longer than `max_quanta`.
pub open spec fn within_limits(
    sync_jump_width: int,
    prescaler: int,
    seg1: int,
    seg2: int,
    max_prescaler: int,
    max_seg1: int,
    max_seg2: int,
    max_quanta: int,
) -> bool {
    &&& 1 <= sync_jump_width <= seg2
    &&& 1 <= prescaler <= max_prescaler
    &&& 1 <= seg1 <= max_seg1
    &&& 1 <= seg2 <= max_seg2
    &&& 1 + seg1 + seg2 <= max_quanta
}

/// Bit timing of the arbitration phase.
#[derive(Clone, Copy, Debug, PartialEq, Eq, Structural)]
pub struct NominalBitTiming {
    /// Most quanta by which a resynchronisation may move the sample point.
    pub sync_jump_width: u8,
    /// Clock periods per quantum.
    pub prescaler: u16,
    /// Quanta between the synchronisation quantum and the sample point.
    pub seg1: u8,
    /// Quanta after the sample point.
    pub seg2: u8,
}

impl NominalBitTiming {
    /// Quanta in one bit.
    pub open spec fn quanta(self) -> int {
        1 + self.seg1 + self.seg2
    }

    /// The timing can be written to the controller as it stands.
    pub open spec fn valid(self) -> bool {
        within_limits(
            self.sync_jump_width as int,
            self.prescaler as int,
            self.seg1 as int,
            self.seg2 as int,
            MAX_PRESCALER as int,
            MAX_SEG1 as int,
            MAX_SEG2 as int,
            MAX_QUANTA as int,
        )
    }

    /// Accepts the timing exactly when it is `valid`; nothing is clamped.
    pub fn validate(&self) -> (r: Result<(), TimingError>)
        ensures
            r is Ok <==> self.valid(),
            r is Err ==> r == Err::<(), TimingError>(TimingError::Unachievable),
    {
        if check_limits(
            self.sync_jump_width,
            self.prescaler,
            self.seg1,
            self.seg2,
            MAX_PRESCALER,
            MAX_SEG1,
            MAX_SEG2,
            MAX_QUANTA,
        ) {
            Ok(())
        } else {
            Err(TimingError::Unachievable)
        }
    }
}

/// Bit timing of the data phase of a flexible-data-rate frame.
#[derive(Clone, Copy, Debug, PartialEq, Eq, Structural)]
pub struct DataBitTiming {
    /// Most quanta by which a resynchronisation may move the sample point.
    pub sync_jump_width: u8,
    /// Clock periods per quantum.
    pub prescaler: u16,
    /// Quanta between the synchronisation quantum and the sample point.
    pub seg1: u8,
    /// Quanta after the sample point.
    pub seg2: u8,
}

impl DataBitTiming {
    /// Quanta in one bit.
    pub open spec fn quanta(self) -> int {
        1 + self.seg1 + self.seg2
    }

    /// The timing can be written to the controller as it stands.
    pub open spec fn valid(self) -> bool {
        within_limits(
            self.sync_jump_width as int,
            self.prescaler as int,
            self.seg1 as int,
            self.seg2 as int,
            MAX_DATA_PRESCALER as int,
            MAX_DATA_SEG1 as int,
            MAX_DATA_SEG2 as int,
            MAX_DATA_QUANTA as int,
        )
    }

    /// Accepts the timing exactly when it is `valid`; nothing is clamped.
    pub fn validate(&self) -> (r: Result<(), TimingError>)
        ensures
            r is Ok <==> self.valid(),
            r is Err ==> r == Err::<(), TimingError>(TimingError::Unachievable),
    {
        if check_limits(
            self.sync_jump_width,
            self.prescaler,
            self.seg1,
            self.seg2,
            MAX_DATA_PRESCALER,
            MAX_DATA_SEG1,
            MAX_DATA_SEG2,
            MAX_DATA_QUANTA,
        ) {
            Ok(())
        } else {
            Err(TimingError::Unachievable)
        }
    }
}

fn check_limits(
    sync_jump_width: u8,
    prescaler: u16,
    seg1: u8,
    seg2: u8,
    max_prescaler: u16,
    max_seg1: u8,
    max_seg2: u8,
    max_quanta: u16,
) -> (ok: bool)
    ensures
        ok == within_limits(
            sync_jump_width as int,
            prescaler as int,
            seg1 as int,
            seg2 as int,
            max_prescaler as int,
            max_seg1 as int,
            max_seg2 as int,
            max_quanta as int,
        ),
{
    let quanta: u16 = 1 + seg1 as u16 + seg2 as u16;
    1 <= sync_jump_width && sync_jump_width <= seg2 && 1 <= prescaler && prescaler
        <= max_prescaler && 1 <= seg1 && seg1 <= max_seg1 && 1 <= seg2 && seg2 <= max_seg2
        && quanta <= max_quanta
}

/// `timing` is valid and divides `clock_hz` into bits of exactly `bit_rate`
/// per second.
pub open spec fn hits(clock_hz: int, bit_rate: int, timing: NominalBitTiming) -> bool {
    timing.valid() && timing.prescaler * timing.quanta() * bit_rate == clock_hz
}

/// Some valid timing gives exactly `bit_rate` from `clock_hz`.
pub open spec fn achievable(clock_hz: int, bit_rate: int) -> bool {
    bit_rate >= 1 && exists|timing: NominalBitTiming| hits(clock_hz, bit_rate, timing)
}

/// How far the sample point of a bit of `quanta` quanta, `seg2` of them after
/// the sample point, lies from `target` thousandths of the bit, in
/// thousandths of a quantum.
pub open spec fn split_error(quanta: int, seg2: int, target: int) -> int {
    let d = 1000 * (quanta - seg2) - target * quanta;
    if d >= 0 {
        d
    } else {
        -d
    }
}

/// `split_error` of a timing.
pub open spec fn sample_point_error(timing: NominalBitTiming, target: int) -> int {
    split_error(timing.quanta(), timing.seg2 as int, target)
}

/// The sample point a request stands for: the one it names, or the default.
pub open spec fn target_of(sample_point: Option<u16>) -> int {
    match sample_point {
        Some(p) => p as int,
        None => DEFAULT_SAMPLE_POINT as int,
    }
}

/// `timing` is the one the calculator picks for the request: among the
/// timings that hit the bit rate it has the most quanta per bit; among those,
/// its sample point is nearest the target, the later one where two are
/// equally near; and its jump width is one quantum.
pub open spec fn is_best(
    clock_hz: int,
    bit_rate: int,
    target: int,
    timing: NominalBitTiming,
) -> bool {
    &&& hits(clock_hz, bit_rate, timing)
    &&& timing.sync_jump_width == 1
    &&& forall|other: NominalBitTiming| #[trigger]
        hits(clock_hz, bit_rate, other) ==> {
            &&& other.quanta() <= timing.quanta()
            &&& other.quanta() == timing.quanta() ==> {
                &&& sample_point_error(timing, target) <= sample_point_error(other, target)
                &&& sample_point_error(timing, target) == sample_point_error(other, target)
                    ==> timing.seg2 <= other.seg2
            }
        }
}

/// A timing whose fields do not exceed their registers is valid exactly
/// when every field is at least one, the jump width is no wider than the
/// second segment, and the bit is no longer than `MAX_QUANTA`.
pub proof fn lemma_validation_rule(timing: NominalBitTiming)
    requires
        timing.prescaler <= MAX_PRESCALER,
        timing.seg1 <= MAX_SEG1,
        timing.seg2 <= MAX_SEG2,
    ensures
        timing.valid() <==> {
            &&& timing.sync_jump_width >= 1
            &&& timing.sync_jump_width <= timing.seg2
            &&& timing.prescaler >= 1
            &&& timing.seg1 >= 1
            &&& timing.seg2 >= 1
            &&& timing.quanta() <= MAX_QUANTA
        },
{
}

/// A timing that hits a bit rate gives exactly that rate: the clock
/// divided by the clock periods in one bit.
pub proof fn lemma_hit_is_exact(clock_hz: int, bit_rate: int, timing: NominalBitTiming)
    requires
        bit_rate >= 1,
        hits(clock_hz, bit_rate, timing),
    ensures
        timing.prescaler * (1 + timing.seg1 + timing.seg2) >= 1,
        clock_hz / (timing.prescaler * (1 + timing.seg1 + timing.seg2)) == bit_rate,
        clock_hz % (timing.prescaler * (1 + timing.seg1 + timing.seg2)) == 0,
{
    let periods = timing.prescaler * timing.quanta();
    assert(periods >= 1) by (nonlinear_arith)
        requires
            periods == timing.prescaler * timing.quanta(),
            timing.prescaler >= 1,
            timing.quanta() >= 1,
    ;
    assert(clock_hz == bit_rate * periods + 0) by (nonlinear_arith)
        requires
            periods * bit_rate == clock_hz,
    ;
    lemma_fundamental_div_mod_converse(clock_hz, periods, bit_rate, 0);
}

/// The calculator's choice is determined: two timings that are both best
/// for one request are the same timing.
pub proof fn lemma_best_is_unique(
    clock_hz: int,
    bit_rate: int,
    target: int,
    a: NominalBitTiming,
    b: NominalBitTiming,
)
    requires
        bit_rate >= 1,
        is_best(clock_hz, bit_rate, target, a),
        is_best(clock_hz, bit_rate, target, b),
    ensures
        a == b,
{
    assert(hits(clock_hz, bit_rate, a));
    assert(hits(clock_hz, bit_rate, b));
    assert(a.quanta() == b.quanta());
    assert(a.seg2 == b.seg2);
    assert(a.seg1 == b.seg1);
    assert(exact(clock_hz, bit_rate, a.prescaler as int, a.quanta()));
    assert(exact(clock_hz, bit_rate, b.prescaler as int, a.quanta()));
    lemma_exact_division(clock_hz, bit_rate, a.prescaler as int, a.quanta());
    lemma_exact_division(clock_hz, bit_rate, b.prescaler as int, a.quanta());
}

spec fn exact(clock_hz: int, bit_rate: int, prescaler: int, quanta: int) -> bool {
    prescaler * quanta * bit_rate == clock_hz
}

proof fn lemma_exact_division(clock_hz: int, bit_rate: int, prescaler: int, quanta: int)
    requires
        bit_rate >= 1,
        quanta >= 1,
        prescaler >= 1,
        exact(clock_hz, bit_rate, prescaler, quanta),
    ensures
        clock_hz % (bit_rate * quanta) == 0,
        clock_hz / (bit_rate * quanta) == prescaler,
        prescaler * quanta >= 1,
        clock_hz / (prescaler * quanta) == bit_rate,
{
    assert(prescaler * quanta * bit_rate == prescaler * (bit_rate * quanta) + 0)
        by (nonlinear_arith);
    assert(bit_rate * quanta >= 1) by (nonlinear_arith)
        requires
            bit_rate >= 1,
            quanta >= 1,
    ;
    lemma_fundamental_div_mod_converse(clock_hz, bit_rate * quanta, prescaler, 0);
    assert(prescaler * quanta >= 1) by (nonlinear_arith)
        requires
            prescaler >= 1,
            quanta >= 1,
    ;
    assert(prescaler * quanta * bit_rate == bit_rate * (prescaler * quanta) + 0)
        by (nonlinear_arith);
    lemma_fundamental_div_mod_converse(clock_hz, prescaler * quanta, bit_rate, 0);
}

proof fn lemma_divisible_is_exact(clock_hz: int, bit_rate: int, quanta: int)
    requires
        bit_rate >= 1,
        quanta >= 1,
        clock_hz >= 0,
        clock_hz % (bit_rate * quanta) == 0,
    ensures
        exact(clock_hz, bit_rate, clock_hz / (bit_rate * quanta), quanta),
{
    let d = bit_rate * quanta;
    let p = clock_hz / d;
    assert(d >= 1) by (nonlinear_arith)
        requires
            d == bit_rate * quanta,
            bit_rate >= 1,
            quanta >= 1,
    ;
    vstd::arithmetic::div_mod::lemma_fundamental_div_mod(clock_hz, d);
    assert(p * quanta * bit_rate == d * p) by (nonlinear_arith)
        requires
            d == bit_rate * quanta,
    ;
}

/// Finds register values for a wanted bit rate.
#[derive(Clone, Copy, Debug, PartialEq, Eq, Structural)]
pub struct BitTimingCalculator {
    /// Frequency of the clock that feeds the controller, in hertz.
    pub clock_hz: u32,
}

impl BitTimingCalculator {
    /// A calculator for a controller clocked at `clock_hz`.
    pub fn new(clock_hz: u32) -> (calculator: Self)
        ensures
            calculator.clock_hz == clock_hz,
    {
        BitTimingCalculator { clock_hz }
    }

    /// The nominal timing for `bit_rate` bits per second, with the sample
    /// point as near as the segments allow to `sample_point` thousandths of
    /// the bit (to `DEFAULT_SAMPLE_POINT` where none is named).
    ///
    /// Succeeds exactly when the rate is `achievable`, and then returns the
    /// one timing that `is_best`.
    pub fn nominal(&self, bit_rate: u32, sample_point: Option<u16>) -> (r: Result<
        NominalBitTiming,
        TimingError,
    >)
        ensures
            r is Ok <==> achievable(self.clock_hz as int, bit_rate as int),
            r is Err ==> r == Err::<NominalBitTiming, TimingError>(TimingError::Unachievable),
            r matches Ok(timing) ==> {
                &&& is_best(self.clock_hz as int, bit_rate as int, target_of(sample_point), timing)
                &&& self.clock_hz as int / (timing.prescaler * (1 + timing.seg1 + timing.seg2))
                    == bit_rate
            },
    {
        let ghost clock = self.clock_hz as int;
        let ghost rate = bit_rate as int;
        if bit_rate == 0 {
            return Err(TimingError::Unachievable);
        }
        let target: u32 = match sample_point {
            Some(p) => p as u32,
            None => DEFAULT_SAMPLE_POINT as u32,
        };
        let mut quanta: u32 = MAX_QUANTA as u32;
        let mut prescaler: u32 = 0;
        while quanta >= 3
            invariant_except_break
                prescaler == 0,
            invariant
                2 <= quanta <= MAX_QUANTA,
                rate == bit_rate >= 1,
                clock == self.clock_hz,
                forall|p: int, q: int|
                    quanta < q <= MAX_QUANTA && 1 <= p <= MAX_PRESCALER ==> !#[trigger] exact(
                        clock,
                        rate,
                        p,
                        q,
                    ),
            ensures
                3 <= quanta <= MAX_QUANTA ==> 1 <= prescaler <= MAX_PRESCALER && exact(
                    clock,
                    rate,
                    prescaler as int,
                    quanta as int,
                ),
                quanta < 3 ==> quanta == 2 && prescaler == 0,
                quanta <= MAX_QUANTA,
                forall|p: int, q: int|
                    quanta < q <= MAX_QUANTA && 1 <= p <= MAX_PRESCALER ==> !#[trigger] exact(
                        clock,
                        rate,
                        p,
                        q,
                    ),
            decreases quanta,
        {
            assert(1 <= bit_rate * quanta <= 0xffff_ffff * 25) by (nonlinear_arith)
                requires
                    1 <= bit_rate <= 0xffff_ffff,
                    3 <= quanta <= 25,
            ;
            let per_bit: u64 = bit_rate as u64 * quanta as u64;
            if self.clock_hz as u64 % per_bit == 0 {
                let p: u64 = self.clock_hz as u64 / per_bit;
                if 1 <= p && p <= MAX_PRESCALER as u64 {
                    proof {
                        lemma_divisible_is_exact(clock, rate, quanta as int);
                    }
                    prescaler = p as u32;
                    break ;
                }
            }
            proof {
                assert forall|p: int| 1 <= p <= MAX_PRESCALER implies !#[trigger] exact(
                    clock,
                    rate,
                    p,
                    quanta as int,
                ) by {
                    if exact(clock, rate, p, quanta as int) {
                        lemma_exact_division(clock, rate, p, quanta as int);
                    }
                }
            }
            quanta = quanta - 1;
        }

        if quanta < 3 {
            proof {
                assert forall|timing: NominalBitTiming| !hits(clock, rate, timing) by {
                    if hits(clock, rate, timing) {
                        assert(exact(clock, rate, timing.prescaler as int, timing.quanta()));
                    }
                }
            }
            return Err(TimingError::Unachievable);
        }
        // The second segment may take any length that leaves the first one
        // within its own limits.
        let lowest: u32 = if quanta > MAX_SEG1 as u32 + 2 {
            quanta - 1 - MAX_SEG1 as u32
        } else {
            1
        };
        let highest: u32 = if quanta - 2 < MAX_SEG2 as u32 {
            quanta - 2
        } else {
            MAX_SEG2 as u32
        };
        let mut seg2: u32 = lowest;
        let mut least: u32 = error_of(quanta, lowest, target);
        let mut candidate: u32 = lowest + 1;
        while candidate <= highest
            invariant
                3 <= quanta <= MAX_QUANTA,
                1 <= lowest <= seg2 < candidate <= highest + 1,
                highest <= MAX_SEG2,
                highest <= quanta - 2,
                target <= u16::MAX,
                least == split_error(quanta as int, seg2 as int, target as int),
                forall|s: int|
                    lowest <= s < candidate ==> {
                        &&& least <= #[trigger] split_error(quanta as int, s, target as int)
                        &&& least == split_error(quanta as int, s, target as int) ==> seg2 <= s
                    },
            decreases highest + 1 - candidate,
        {
            let e: u32 = error_of(quanta, candidate, target);
            if e < least {
                least = e;
                seg2 = candidate;
            }
            candidate = candidate + 1;
        }
        let timing = NominalBitTiming {
            sync_jump_width: 1,
            prescaler: prescaler as u16,
            seg1: (quanta - 1 - seg2) as u8,
            seg2: seg2 as u8,
        };
        proof {
            assert(timing.quanta() == quanta);
            assert(hits(clock, rate, timing));
            lemma_exact_division(clock, rate, prescaler as int, quanta as int);
            assert forall|other: NominalBitTiming| #[trigger]
                hits(clock, rate, other) implies {
                &&& other.quanta() <= timing.quanta()
                &&& other.quanta() == timing.quanta() ==> {
                    &&& sample_point_error(timing, target as int) <= sample_point_error(
                        other,
                        target as int,
                    )
                    &&& sample_point_error(timing, target as int) == sample_point_error(
                        other,
                        target as int,
                    ) ==> timing.seg2 <= other.seg2
                }
            } by {
                assert(exact(clock, rate, other.prescaler as int, other.quanta()));
                if other.quanta() == timing.quanta() {
                    assert(lowest <= other.seg2 <= highest);
                    assert(least <= split_error(quanta as int, other.seg2 as int, target as int));
                }
            }
        }
        Ok(timing)
    }
}

fn error_of(quanta: u32, seg2: u32, target: u32) -> (e: u32)
    requires
        seg2 < quanta <= MAX_QUANTA,
        target <= u16::MAX,
    ensures
        e == split_error(quanta as int, seg2 as int, target as int),
{
    let before: u32 = 1000 * (quanta - seg2);
    assert(target * quanta <= 65535 * 25) by (nonlinear_arith)
        requires
            target <= 65535,
            quanta <= 25,
    ;
    let wanted: u32 = target * quanta;
    if before >= wanted {
        before - wanted
    } else {
        wanted - before
    }
}

} // verus!
