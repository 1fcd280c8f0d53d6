//! Stream time, played time and the conversions between them.
use vstd::prelude::*;

verus! {

/// Nanoseconds in a second.
pub const NANOS_PER_SECOND: i64 = 1_000_000_000;

/// Nanoseconds in one unit of the demuxer's global time base, a microsecond.
pub const NANOS_PER_AV_TICK: i64 = 1_000;

/// A fraction as a demuxer reports it: a time base or a frame rate.
#[derive(Clone, Copy, Debug, PartialEq, Eq, Structural)]
pub struct Rational {
    pub num: i32,
    pub den: i32,
}

impl Rational {
    /// The fraction itself if its denominator is positive, else `fallback`.
    pub open spec fn spec_or(self, fallback: Rational) -> Rational {
        if self.den > 0 {
            self
        } else {
            fallback
        }
    }

    /// The fraction itself if its denominator is positive, else `fallback`.
    pub fn or(self, fallback: Rational) -> (r: Rational)
        ensures
            r == self.spec_or(fallback),
    {
        if self.den > 0 {
            self
        } else {
            fallback
        }
    }

    /// The unit of a stream's ticks: nothing, where the stream reports no
    /// positive denominator.
    pub open spec fn spec_time_base(self) -> Rational {
        self.spec_or(Rational { num: 0, den: 1 })
    }

    /// The unit of a stream's ticks: nothing, where the stream reports no
    /// positive denominator.
    pub fn time_base(self) -> (r: Rational)
        ensures
            r == self.spec_time_base(),
    {
        self.or(Rational { num: 0, den: 1 })
    }
}

/// The integer of 64 bits nearest to `x`.
pub open spec fn nearest_i64(x: int) -> i64 {
    if x > i64::MAX {
        i64::MAX
    } else if x < i64::MIN {
        i64::MIN
    } else {
        x as i64
    }
}

/// The integer of 64 bits nearest to `x`.
pub fn saturate(x: i128) -> (r: i64)
    ensures
        r == nearest_i64(x as int),
{
    if x > i64::MAX as i128 {
        i64::MAX
    } else if x < i64::MIN as i128 {
        i64::MIN
    } else {
        x as i64
    }
}

/// A time or a length of a stream: so many ticks of a unit.
#[derive(Clone, Copy, Debug, PartialEq, Eq, Structural)]
pub struct StreamSpan {
    pub ticks: i64,
    pub unit: Rational,
}

/// A reading of the clock: whole nanoseconds and a rest. The rest counts parts
/// of a nanosecond; there are as many parts as the device plays frames of sound
/// in a second, so that the time of any number of frames is exact.
#[derive(Clone, Copy, Debug, PartialEq, Eq, Structural)]
pub struct Moment {
    pub nanos: i64,
    pub rest: u32,
}

/// `amount` divided by `rate` and rounded down. A rate of zero counts as one.
pub open spec fn share(amount: int, rate: u32) -> int {
    if rate == 0 {
        amount
    } else {
        amount / (rate as int)
    }
}

/// What `share` leaves over.
pub open spec fn share_rest(amount: int, rate: u32) -> int {
    if rate == 0 {
        0
    } else {
        amount % (rate as int)
    }
}

impl Moment {
    /// A whole number of nanoseconds.
    pub open spec fn spec_at(nanos: i64) -> Moment {
        Moment { nanos, rest: 0 }
    }

    /// A whole number of nanoseconds.
    pub fn at(nanos: i64) -> (moment: Moment)
        ensures
            moment == Moment::spec_at(nanos),
    {
        Moment { nanos, rest: 0 }
    }

    /// Later by the time that `frames` frames of sound take at `rate` frames a
    /// second.
    pub open spec fn spec_after_frames(self, frames: u64, rate: u32) -> Moment {
        let parts = self.rest + frames * NANOS_PER_SECOND;
        Moment {
            nanos: nearest_i64(self.nanos + share(parts, rate)),
            rest: share_rest(parts, rate) as u32,
        }
    }

    /// Later by the time that `frames` frames of sound take at `rate` frames a
    /// second.
    pub fn after_frames(self, frames: u64, rate: u32) -> (moment: Moment)
        ensures
            moment == self.spec_after_frames(frames, rate),
    {
        assert(NANOS_PER_SECOND as i128 == 1_000_000_000);
        let parts: i128 = self.rest as i128 + frames as i128 * NANOS_PER_SECOND as i128;
        if rate == 0 {
            Moment { nanos: saturate(self.nanos as i128 + parts), rest: 0 }
        } else {
            let whole: i128 = parts / rate as i128;
            let rest: i128 = parts % rate as i128;
            proof {
                lemma_quotient_bound(parts as int, rate as int);
                vstd::arithmetic::div_mod::lemma_mod_bound(parts as int, rate as int);
            }
            Moment { nanos: saturate(self.nanos as i128 + whole), rest: rest as u32 }
        }
    }

    /// Later by so many nanoseconds.
    pub open spec fn spec_after_nanos(self, nanos: u64) -> Moment {
        Moment { nanos: nearest_i64(self.nanos + nanos), ..self }
    }

    /// Later by so many nanoseconds.
    pub fn after_nanos(self, nanos: u64) -> (moment: Moment)
        ensures
            moment == self.spec_after_nanos(nanos),
    {
        Moment { nanos: saturate(self.nanos as i128 + nanos as i128), rest: self.rest }
    }
}

impl StreamSpan {
    /// How far the span reaches past the whole nanoseconds of `moment`, in
    /// nanoseconds times the denominator of the unit.
    pub open spec fn past(self, moment: Moment) -> int {
        let base = self.unit.spec_time_base();
        self.ticks * base.num * NANOS_PER_SECOND - moment.nanos * base.den
    }

    /// The rest of `moment`, in parts of a nanosecond times the denominator of
    /// the unit.
    pub open spec fn scaled_rest(self, moment: Moment) -> int {
        moment.rest * self.unit.spec_time_base().den
    }

    /// The span is over at `moment`, or just ends.
    pub open spec fn over_at(self, moment: Moment, rate: u32) -> bool {
        self.past(moment) <= share(self.scaled_rest(moment), rate)
    }

    /// At `moment` the span has been over for more than `delay` nanoseconds.
    pub open spec fn long_over_at(self, delay: i64, moment: Moment, rate: u32) -> bool {
        self.past(moment) + delay * self.unit.spec_time_base().den < -share(
            -self.scaled_rest(moment),
            rate,
        )
    }

    /// Whether the span is over at `moment`, or just ends.
    pub fn is_over_at(&self, moment: Moment, rate: u32) -> (r: bool)
        ensures
            r == self.over_at(moment, rate),
    {
        let base = self.unit.time_base();
        proof {
            lemma_triple_product_bound(self.ticks as int, base.num as int, NANOS_PER_SECOND as int);
            lemma_triple_product_bound(moment.nanos as int, base.den as int, 1);
            lemma_triple_product_bound(moment.rest as int, base.den as int, 1);
            lemma_product_not_negative(moment.rest as int, base.den as int);
        }
        let past: i128 = self.ticks as i128 * base.num as i128 * (NANOS_PER_SECOND as i128)
            - moment.nanos as i128 * base.den as i128;
        let rest: i128 = moment.rest as i128 * base.den as i128;
        if rate == 0 {
            past <= rest
        } else {
            past <= rest / rate as i128
        }
    }

    /// Whether at `moment` the span has been over for more than `delay`
    /// nanoseconds.
    pub fn is_long_over_at(&self, delay: i64, moment: Moment, rate: u32) -> (r: bool)
        ensures
            r == self.long_over_at(delay, moment, rate),
    {
        let base = self.unit.time_base();
        proof {
            lemma_triple_product_bound(self.ticks as int, base.num as int, NANOS_PER_SECOND as int);
            lemma_triple_product_bound(moment.nanos as int, base.den as int, 1);
            lemma_triple_product_bound(moment.rest as int, base.den as int, 1);
            lemma_triple_product_bound(delay as int, base.den as int, 1);
            lemma_product_not_negative(moment.rest as int, base.den as int);
        }
        let past: i128 = self.ticks as i128 * base.num as i128 * (NANOS_PER_SECOND as i128)
            - moment.nanos as i128 * base.den as i128;
        let late: i128 = past + delay as i128 * base.den as i128;
        let rest: i128 = moment.rest as i128 * base.den as i128;
        if rate == 0 {
            late < rest
        } else {
            proof {
                lemma_quotient_bound(rest as int, rate as int);
                lemma_rounding_up(rest as int, rate as int);
            }
            let down: i128 = rest / rate as i128;
            if rest % rate as i128 == 0 {
                late < down
            } else {
                late < down + 1
            }
        }
    }
}

proof fn lemma_product_not_negative(a: int, b: int)
    by (nonlinear_arith)
    requires
        a >= 0,
        b >= 0,
    ensures
        a * b >= 0,
{
}

proof fn lemma_rounding_up(a: int, b: int)
    requires
        b > 0,
    ensures
        -((-a) / b) == if a % b == 0 {
            a / b
        } else {
            a / b + 1
        },
{
    let q = a / b;
    vstd::arithmetic::div_mod::lemma_fundamental_div_mod(a, b);
    vstd::arithmetic::div_mod::lemma_mod_bound(a, b);
    assert(b * q == q * b) by (nonlinear_arith);
    if a % b == 0 {
        assert((-q) * b == -(q * b)) by (nonlinear_arith);
        vstd::arithmetic::div_mod::lemma_fundamental_div_mod_converse(-a, b, -q, 0);
    } else {
        assert((-(q + 1)) * b == -(q * b) - b) by (nonlinear_arith);
        vstd::arithmetic::div_mod::lemma_fundamental_div_mod_converse(
            -a,
            b,
            -(q + 1),
            b - a % b,
        );
    }
}

proof fn lemma_triple_product_bound(a: int, b: int, c: int)
    by (nonlinear_arith)
    requires
        -0x1_0000_0000_0000_0000 <= a <= 0x1_0000_0000_0000_0000,
        -0x8000_0000 <= b <= 0x8000_0000,
        0 <= c <= 0x4000_0000,
    ensures
        -0x8000_0000_0000_0000_0000_0000 <= a * b <= 0x8000_0000_0000_0000_0000_0000,
        -0x2000_0000_0000_0000_0000_0000_0000_0000 <= a * b * c
            <= 0x2000_0000_0000_0000_0000_0000_0000_0000,
{
}

/// Nanoseconds as ticks of the demuxer's global time base, cut off towards
/// zero.
pub open spec fn spec_av_time_base_ts(nanos: i64) -> i64 {
    if nanos >= 0 {
        (nanos as int / NANOS_PER_AV_TICK as int) as i64
    } else {
        (-((-nanos) / NANOS_PER_AV_TICK as int)) as i64
    }
}

/// The timestamp that the demuxer is asked to seek to when no stream is
/// named: microseconds, cut off towards zero.
pub fn av_time_base_ts(nanos: i64) -> (timestamp: i64)
    ensures
        timestamp == spec_av_time_base_ts(nanos),
{
    if nanos >= 0 {
        nanos / NANOS_PER_AV_TICK
    } else {
        let ticks: i128 = (-(nanos as i128)) / NANOS_PER_AV_TICK as i128;
        -(ticks as i64)
    }
}

/// The integer nearest to `a / b` for a positive `b`; one half goes away from
/// zero.
pub open spec fn round_div(a: int, b: int) -> int {
    if a >= 0 {
        if 2 * (a % b) < b {
            a / b
        } else {
            a / b + 1
        }
    } else {
        if 2 * ((-a) % b) < b {
            -((-a) / b)
        } else {
            -((-a) / b + 1)
        }
    }
}

/// The tick of a stream with time base `unit` that is nearest to `nanos`.
/// Without a time base every time but zero lies infinitely far away.
pub open spec fn spec_stream_ticks(nanos: i64, unit: Rational) -> i64 {
    let base = unit.spec_time_base();
    if base.num == 0 {
        if nanos > 0 {
            i64::MAX
        } else if nanos < 0 {
            i64::MIN
        } else {
            0
        }
    } else if base.num > 0 {
        nearest_i64(round_div(nanos * base.den, base.num * NANOS_PER_SECOND))
    } else {
        nearest_i64(round_div(-(nanos * base.den), -(base.num * NANOS_PER_SECOND)))
    }
}

/// The tick of a stream with time base `unit` that is nearest to `nanos`.
pub fn stream_ticks(nanos: i64, unit: Rational) -> (ticks: i64)
    ensures
        ticks == spec_stream_ticks(nanos, unit),
{
    let base = unit.time_base();
    if base.num == 0 {
        if nanos > 0 {
            i64::MAX
        } else if nanos < 0 {
            i64::MIN
        } else {
            0
        }
    } else {
        proof {
            lemma_triple_product_bound(nanos as int, base.den as int, 1);
            lemma_triple_product_bound(1, base.num as int, NANOS_PER_SECOND as int);
        }
        let a: i128 = nanos as i128 * base.den as i128;
        let b: i128 = base.num as i128 * NANOS_PER_SECOND as i128;
        if b > 0 {
            saturate(rounded_quotient(a, b))
        } else {
            saturate(rounded_quotient(-a, -b))
        }
    }
}

/// The integer nearest to `a / b`; one half goes away from zero.
fn rounded_quotient(a: i128, b: i128) -> (q: i128)
    requires
        -0x1000_0000_0000_0000_0000_0000_0000_0000 <= a
            <= 0x1000_0000_0000_0000_0000_0000_0000_0000,
        0 < b <= 0x1000_0000_0000_0000_0000_0000_0000_0000,
    ensures
        q == round_div(a as int, b as int),
{
    let size: i128 = if a >= 0 {
        a
    } else {
        -a
    };
    let down: i128 = size / b;
    let rest: i128 = size % b;
    proof {
        lemma_quotient_bound(size as int, b as int);
        vstd::arithmetic::div_mod::lemma_mod_bound(size as int, b as int);
    }
    let nearest: i128 = if 2 * rest < b {
        down
    } else {
        down + 1
    };
    if a >= 0 {
        nearest
    } else {
        -nearest
    }
}

proof fn lemma_quotient_bound(a: int, b: int)
    by (nonlinear_arith)
    requires
        0 <= a,
        0 < b,
    ensures
        0 <= a / b <= a,
{
}

/// Where a stream counts forward, a time that has come has also come for all
/// earlier ticks.
pub proof fn law_earlier_ticks_come_earlier(
    t1: i64,
    t2: i64,
    unit: Rational,
    delay: i64,
    moment: Moment,
    rate: u32,
)
    requires
        t1 <= t2,
        unit.spec_time_base().num >= 0,
    ensures
        (StreamSpan { ticks: t2, unit }).over_at(moment, rate) ==> (StreamSpan {
            ticks: t1,
            unit,
        }).over_at(moment, rate),
        (StreamSpan { ticks: t2, unit }).long_over_at(delay, moment, rate) ==> (StreamSpan {
            ticks: t1,
            unit,
        }).long_over_at(delay, moment, rate),
{
    let base = unit.spec_time_base();
    assert(t1 * base.num <= t2 * base.num) by (nonlinear_arith)
        requires
            t1 <= t2,
            base.num >= 0,
    ;
}

/// Spans are compared with the clock without rounding: with both sides
/// multiplied by the denominator of the unit and by the rate, the span is over
/// exactly if it is not the longer one, and long over exactly if it is the
/// shorter one even with the delay. A unit without a positive denominator makes
/// every span empty, and a rate of zero counts as one.
pub proof fn law_times_are_compared_exactly(
    span: StreamSpan,
    delay: i64,
    moment: Moment,
    rate: u32,
)
    ensures
        ({
            let num = if span.unit.den > 0 {
                span.unit.num as int
            } else {
                0
            };
            let den = if span.unit.den > 0 {
                span.unit.den as int
            } else {
                1
            };
            let parts = if rate == 0 {
                1
            } else {
                rate as int
            };
            let length = span.ticks * num * 1_000_000_000 * parts;
            let reading = (moment.nanos * parts + moment.rest) * den;
            &&& span.over_at(moment, rate) <==> length <= reading
            &&& span.long_over_at(delay, moment, rate) <==> length + delay * parts * den < reading
        }),
{
    let base = span.unit.spec_time_base();
    let r = if rate == 0 {
        1
    } else {
        rate as int
    };
    let ticks = span.ticks * base.num * NANOS_PER_SECOND;
    let rest = span.scaled_rest(moment);
    let past = span.past(moment);
    assert(ticks * r - (moment.nanos * r + moment.rest) * base.den == past * r - rest)
        by (nonlinear_arith)
        requires
            past == ticks - moment.nanos * base.den,
            rest == moment.rest * base.den,
    ;
    lemma_floor_decides(past, rest, r);
    let late = past + delay * base.den;
    assert(late * r == past * r + delay * r * base.den) by (nonlinear_arith)
        requires
            late == past + delay * base.den,
    ;
    lemma_floor_decides(-late, -rest, r);
    assert((-late) * r == -(late * r)) by (nonlinear_arith);
}

proof fn lemma_floor_decides(x: int, y: int, r: int)
    requires
        r > 0,
    ensures
        x <= y / r <==> x * r <= y,
{
    vstd::arithmetic::div_mod::lemma_fundamental_div_mod(y, r);
    vstd::arithmetic::div_mod::lemma_mod_bound(y, r);
    let q = y / r;
    assert(r * q == q * r) by (nonlinear_arith);
    if x <= q {
        assert(x * r <= q * r) by (nonlinear_arith)
            requires
                x <= q,
                r > 0,
        ;
    } else {
        assert(x * r >= q * r + r) by (nonlinear_arith)
            requires
                x >= q + 1,
                r > 0,
        ;
    }
}

/// No sound takes no time: it leaves a whole number of nanoseconds as it is,
/// and also what any sound led to.
pub proof fn law_no_sound_takes_no_time(moment: Moment, frames: u64, rate: u32)
    ensures
        Moment::spec_at(moment.nanos).spec_after_frames(0, rate) == Moment::spec_at(moment.nanos),
        moment.spec_after_frames(frames, rate).spec_after_frames(0, rate)
            == moment.spec_after_frames(frames, rate),
{
    assert(0 * NANOS_PER_SECOND == 0);
    let parts = moment.rest + frames * NANOS_PER_SECOND;
    if rate > 0 {
        vstd::arithmetic::div_mod::lemma_mod_bound(parts, rate as int);
        let rest = parts % (rate as int);
        vstd::arithmetic::div_mod::lemma_small_mod(rest as nat, rate as nat);
        vstd::arithmetic::div_mod::lemma_basic_div(rest, rate as int);
        vstd::arithmetic::div_mod::lemma_small_mod(0, rate as nat);
    }
}

/// More frames of sound take no less time.
pub proof fn law_more_sound_takes_more_time(moment: Moment, f1: u64, f2: u64, rate: u32)
    requires
        f1 <= f2,
    ensures
        moment.nanos <= moment.spec_after_frames(f1, rate).nanos
            <= moment.spec_after_frames(f2, rate).nanos,
{
    if rate > 0 {
        let p1 = moment.rest + f1 * NANOS_PER_SECOND;
        let p2 = moment.rest + f2 * NANOS_PER_SECOND;
        vstd::arithmetic::div_mod::lemma_div_is_ordered(p1, p2, rate as int);
        lemma_quotient_bound(p1, rate as int);
    }
}

/// The demuxer is asked for the microsecond that holds the wanted time: never
/// past it as seen from zero, and by less than a microsecond short of it.
pub proof fn law_av_time_base_ts_holds_the_time(nanos: i64)
    ensures
        nanos >= 0 ==> 0 <= nanos - spec_av_time_base_ts(nanos) * 1_000 < 1_000,
        nanos <= 0 ==> 0 <= spec_av_time_base_ts(nanos) * 1_000 - nanos < 1_000,
{
}

/// Later times are asked for with timestamps that are not earlier, and a whole
/// number of seconds with exactly a million times that number.
pub proof fn law_av_time_base_ts_keeps_order(a: i64, b: i64, seconds: i64)
    requires
        a <= b,
        -9_000_000_000 <= seconds <= 9_000_000_000,
    ensures
        spec_av_time_base_ts(a) <= spec_av_time_base_ts(b),
        spec_av_time_base_ts((seconds * 1_000_000_000) as i64) == seconds * 1_000_000,
{
}

/// No tick of the stream is nearer to a time than the one that is chosen for
/// it, where the stream has a time base and the tick fits.
pub proof fn law_stream_ticks_is_nearest(nanos: i64, unit: Rational, other: i64)
    requires
        unit.spec_time_base().num > 0,
        i64::MIN < spec_stream_ticks(nanos, unit) < i64::MAX,
    ensures
        ({
            let base = unit.spec_time_base();
            let exact = nanos * base.den;
            let step = base.num * NANOS_PER_SECOND;
            let chosen = spec_stream_ticks(nanos, unit);
            &&& -step <= 2 * (chosen * step - exact) <= step
            &&& vstd::math::abs(chosen * step - exact) <= vstd::math::abs(other * step - exact)
        }),
{
    let base = unit.spec_time_base();
    let exact = nanos * base.den;
    let step = base.num * NANOS_PER_SECOND;
    let chosen = spec_stream_ticks(nanos, unit);
    assert(chosen == round_div(exact, step));
    lemma_round_div_is_nearest(exact, step);
    if other > chosen {
        assert(other * step >= chosen * step + step) by (nonlinear_arith)
            requires
                other >= chosen + 1,
                step > 0,
        ;
    } else if other < chosen {
        assert(other * step <= chosen * step - step) by (nonlinear_arith)
            requires
                other <= chosen - 1,
                step > 0,
        ;
    }
}

/// The time of a tick leads back to that tick.
pub proof fn law_time_of_a_tick_leads_back(ticks: i64, nanos: i64, unit: Rational)
    requires
        unit.spec_time_base().num > 0,
        nanos * unit.spec_time_base().den == ticks * (unit.spec_time_base().num
            * NANOS_PER_SECOND),
    ensures
        spec_stream_ticks(nanos, unit) == ticks,
{
    let base = unit.spec_time_base();
    let exact = nanos * base.den;
    let step = base.num * NANOS_PER_SECOND;
    if ticks >= 0 {
        assert(exact >= 0) by (nonlinear_arith)
            requires
                exact == ticks * step,
                ticks >= 0,
                step > 0,
        ;
        vstd::arithmetic::div_mod::lemma_fundamental_div_mod_converse(
            exact,
            step,
            ticks as int,
            0,
        );
    } else {
        assert(-exact == (-ticks) * step) by (nonlinear_arith)
            requires
                exact == ticks * step,
        ;
        assert(exact < 0) by (nonlinear_arith)
            requires
                exact == ticks * step,
                ticks < 0,
                step > 0,
        ;
        vstd::arithmetic::div_mod::lemma_fundamental_div_mod_converse(-exact, step, -ticks, 0);
    }
}

proof fn lemma_round_div_is_nearest(a: int, b: int)
    requires
        b > 0,
    ensures
        -b <= 2 * (round_div(a, b) * b - a) <= b,
{
    let size = if a >= 0 {
        a
    } else {
        -a
    };
    let q = size / b;
    vstd::arithmetic::div_mod::lemma_fundamental_div_mod(size, b);
    vstd::arithmetic::div_mod::lemma_mod_bound(size, b);
    assert(q * b == b * q) by (nonlinear_arith);
    assert((q + 1) * b == b * q + b) by (nonlinear_arith);
    assert((-q) * b == -(b * q)) by (nonlinear_arith);
    assert((-(q + 1)) * b == -(b * q + b)) by (nonlinear_arith);
}

/// A fraction counts as it is exactly if its denominator is positive; else the
/// fallback counts, which for a time base is nothing.
pub proof fn law_fraction_needs_a_positive_denominator(fraction: Rational, fallback: Rational)
    ensures
        fraction.den > 0 ==> fraction.spec_or(fallback) == fraction && fraction.spec_time_base()
            == fraction,
        fraction.den <= 0 ==> fraction.spec_or(fallback) == fallback
            && fraction.spec_time_base().num == 0 && fraction.spec_time_base().den == 1,
{
}

/// A number that fits into 64 bits stays, and no other number of 64 bits is
/// nearer to one that does not fit.
pub proof fn law_nearest_number_is_nearest(x: int, other: i64)
    ensures
        i64::MIN <= x <= i64::MAX ==> nearest_i64(x) == x,
        x > i64::MAX ==> nearest_i64(x) == 0x7fff_ffff_ffff_ffff,
        x < i64::MIN ==> nearest_i64(x) == -0x8000_0000_0000_0000,
        vstd::math::abs(x - nearest_i64(x)) <= vstd::math::abs(x - other),
{
}

/// A whole number of nanoseconds has no rest.
pub proof fn law_whole_nanoseconds_have_no_rest(nanos: i64)
    ensures
        Moment::spec_at(nanos).nanos == nanos,
        Moment::spec_at(nanos).rest == 0,
{
}

/// Sound takes exactly its time: counted in parts of a nanosecond, of which
/// there are as many as frames in a second, the clock moves by a thousand
/// million for each frame, and the rest stays below a nanosecond. Only the
/// latest moment there is stops it.
pub proof fn law_sound_takes_exactly_its_time(moment: Moment, frames: u64, rate: u32)
    ensures
        ({
            let parts = if rate == 0 {
                1
            } else {
                rate as int
            };
            let total = moment.nanos * parts + moment.rest + frames * 1_000_000_000;
            let after = moment.spec_after_frames(frames, rate);
            &&& after.rest < parts
            &&& total < 0x8000_0000_0000_0000 * parts ==> after.nanos * parts + after.rest == total
            &&& total >= 0x8000_0000_0000_0000 * parts ==> after.nanos == i64::MAX
        }),
{
    let parts = if rate == 0 {
        1
    } else {
        rate as int
    };
    let sum = moment.rest + frames * NANOS_PER_SECOND;
    let q = sum / parts;
    vstd::arithmetic::div_mod::lemma_fundamental_div_mod(sum, parts);
    vstd::arithmetic::div_mod::lemma_mod_bound(sum, parts);
    lemma_quotient_bound(sum, parts);
    assert(sum / 1 == sum && sum % 1 == 0);
    let whole = moment.nanos + q;
    let rest = sum % parts;
    assert(whole * parts + rest == moment.nanos * parts + sum) by (nonlinear_arith)
        requires
            sum == parts * q + rest,
            whole == moment.nanos + q,
    ;
    if whole >= 0x8000_0000_0000_0000 {
        assert(whole * parts >= 0x8000_0000_0000_0000 * parts) by (nonlinear_arith)
            requires
                whole >= 0x8000_0000_0000_0000,
                parts > 0,
        ;
    } else {
        assert(whole * parts + parts <= 0x8000_0000_0000_0000 * parts) by (nonlinear_arith)
            requires
                whole + 1 <= 0x8000_0000_0000_0000,
                parts > 0,
        ;
    }
}

/// Wall time moves the clock by as many nanoseconds as went by, up to the
/// latest moment there is, and leaves the rest.
pub proof fn law_wall_time_takes_exactly_its_time(moment: Moment, nanos: u64)
    ensures
        ({
            let after = moment.spec_after_nanos(nanos);
            &&& after.rest == moment.rest
            &&& moment.nanos + nanos <= i64::MAX ==> after.nanos == moment.nanos + nanos
            &&& moment.nanos + nanos > i64::MAX ==> after.nanos == i64::MAX
        }),
{
}

/// The tick for a time is the whole number nearest to the time in ticks, of
/// two equally near ones the one further from zero, or where it does not fit,
/// the last one that does. Without a time base every time but zero lies beyond
/// all ticks.
pub proof fn law_stream_ticks_rounds_the_time(nanos: i64, unit: Rational, tick: int)
    requires
        ({
            let exact = nanos * unit.den;
            let step = unit.num * 1_000_000_000;
            let miss = 2 * vstd::math::abs(tick * step - exact);
            unit.den > 0 && unit.num != 0 ==> {
                ||| miss < vstd::math::abs(step)
                ||| miss == vstd::math::abs(step) && vstd::math::abs(tick * step)
                    > vstd::math::abs(exact)
            }
        }),
    ensures
        unit.den > 0 && unit.num != 0 && i64::MIN <= tick <= i64::MAX ==> spec_stream_ticks(
            nanos,
            unit,
        ) == tick,
        unit.den > 0 && unit.num != 0 && tick > i64::MAX ==> spec_stream_ticks(nanos, unit)
            == i64::MAX,
        unit.den > 0 && unit.num != 0 && tick < i64::MIN ==> spec_stream_ticks(nanos, unit)
            == i64::MIN,
        unit.den <= 0 || unit.num == 0 ==> spec_stream_ticks(nanos, unit) == if nanos > 0 {
            i64::MAX as int
        } else if nanos < 0 {
            i64::MIN as int
        } else {
            0
        },
{
    if unit.den > 0 && unit.num != 0 {
        let exact = nanos * unit.den;
        let step = unit.num * 1_000_000_000;
        if step > 0 {
            lemma_rounding_is_unique(exact, step, tick);
        } else {
            assert(tick * (-step) == -(tick * step)) by (nonlinear_arith);
            lemma_rounding_is_unique(-exact, -step, tick);
        }
    }
}

proof fn lemma_rounding_is_unique(a: int, b: int, tick: int)
    requires
        b > 0,
        ({
            let miss = 2 * vstd::math::abs(tick * b - a);
            miss < b || miss == b && vstd::math::abs(tick * b) > vstd::math::abs(a)
        }),
    ensures
        round_div(a, b) == tick,
{
    let size = vstd::math::abs(a) as int;
    let q = size / b;
    vstd::arithmetic::div_mod::lemma_fundamental_div_mod(size, b);
    vstd::arithmetic::div_mod::lemma_mod_bound(size, b);
    let t = if a >= 0 {
        tick
    } else {
        -tick
    };
    assert((-tick) * b == -(tick * b)) by (nonlinear_arith);
    let p = t * b;
    assert(q * b == b * q) by (nonlinear_arith);
    if t >= q + 2 {
        assert(t * b >= q * b + 2 * b) by (nonlinear_arith)
            requires
                t >= q + 2,
                b > 0,
        ;
    } else if t <= q - 1 {
        assert(t * b <= q * b - b) by (nonlinear_arith)
            requires
                t <= q - 1,
                b > 0,
        ;
    } else if t == q + 1 {
        assert((q + 1) * b == q * b + b) by (nonlinear_arith);
    }
}

/// A timestamp for the demuxer is the microsecond that holds the time, and a
/// tick of a stream the one that lies nearest.
pub proof fn law_calls_give_the_timestamps(nanos: i64, unit: Rational, timestamp: i64, ticks: i64)
    requires
        call_ensures(av_time_base_ts, (nanos,), timestamp),
        call_ensures(stream_ticks, (nanos, unit), ticks),
    ensures
        nanos >= 0 ==> 0 <= nanos - timestamp * 1_000 < 1_000,
        nanos <= 0 ==> 0 <= timestamp * 1_000 - nanos < 1_000,
        ticks == spec_stream_ticks(nanos, unit),
{
}

/// The calls that compare a span with the clock and that move the clock do so
/// without rounding.
pub proof fn law_calls_keep_the_time_exact(
    span: &StreamSpan,
    delay: i64,
    moment: Moment,
    rate: u32,
    over: bool,
    long_over: bool,
    frames: u64,
    nanos: u64,
    by_sound: Moment,
    by_wall: Moment,
)
    requires
        call_ensures(StreamSpan::is_over_at, (span, moment, rate), over),
        call_ensures(StreamSpan::is_long_over_at, (span, delay, moment, rate), long_over),
        call_ensures(Moment::after_frames, (moment, frames, rate), by_sound),
        call_ensures(Moment::after_nanos, (moment, nanos), by_wall),
        rate > 0,
        span.unit.den > 0,
    ensures
        ({
            let length = span.ticks * span.unit.num * 1_000_000_000 * rate;
            let reading = (moment.nanos * rate + moment.rest) * span.unit.den;
            let total = moment.nanos * rate + moment.rest + frames * 1_000_000_000;
            &&& over <==> length <= reading
            &&& long_over <==> length + delay * rate * span.unit.den < reading
            &&& total < 0x8000_0000_0000_0000 * rate ==> by_sound.nanos * rate + by_sound.rest
                == total
            &&& by_wall.nanos == if moment.nanos + nanos > i64::MAX {
                i64::MAX as int
            } else {
                moment.nanos + nanos
            }
        }),
{
    law_times_are_compared_exactly(*span, delay, moment, rate);
    law_sound_takes_exactly_its_time(moment, frames, rate);
}

} // verus!
