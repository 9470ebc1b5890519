//! Exponential-decay throughput estimator.
//!
//! One running hash total feeds several independent decaying averages, one per
//! time window.  On each update tick the instantaneous rate is folded into
//! every window average with a weight that grows with the time since the last
//! tick and shrinks with the window length, so long windows react more slowly
//! to bursts than short ones.  Each average is seeded with the first observed
//! rate rather than zero, avoiding an artificial ramp-up.

use vstd::prelude::*;

use vstd::arithmetic::div_mod::{
    lemma_div_is_ordered,
    lemma_div_is_ordered_by_denominator,
    lemma_div_multiples_vanish,
};
use vstd::arithmetic::mul::lemma_mul_inequality;
use vstd::string::StringExecFns;

use crate::clock::now_nanos;
use crate::stats::{sat_u64, spec_rate};

verus! {

/// Fixed-point scale of the decay weights: a weight of `ALPHA_SCALE` folds
/// the whole step in at once, a weight of zero not at all.
pub const ALPHA_SCALE: u64 = 1_000_000;

/// Ticks closer together than this are ignored.
pub const MIN_UPDATE_NANOS: u64 = 100_000_000;

/// The four decay windows, in nanoseconds.
pub const WINDOW_5S_NANOS: u64 = 5_000_000_000;
pub const WINDOW_1M_NANOS: u64 = 60_000_000_000;
pub const WINDOW_5M_NANOS: u64 = 300_000_000_000;
pub const WINDOW_15M_NANOS: u64 = 900_000_000_000;

/// The decay weight for a tick `dt` nanoseconds after the previous one, for
/// the given window: `dt / (dt + window)` of the full scale.  It grows with
/// `dt` and shrinks as the window grows, like `1 - exp(-dt / window)`, which
/// it stands in for.
pub open spec fn spec_alpha(dt_nanos: u64, window_nanos: u64) -> int {
    (dt_nanos as int * ALPHA_SCALE as int) / (dt_nanos as int + window_nanos as int)
}

/// One decaying-average step: the average moves toward `current` by the
/// fraction `alpha / ALPHA_SCALE` of the gap, rounded toward the old average.
pub open spec fn spec_ema(avg: u64, current: u64, alpha: u64) -> int {
    if current >= avg {
        avg + (alpha as int * (current - avg)) / ALPHA_SCALE as int
    } else {
        avg - (alpha as int * (avg - current)) / ALPHA_SCALE as int
    }
}

/// A decaying-average step that seeds an untouched average (zero) with the
/// first observed value instead of decaying from zero.
pub open spec fn spec_seeded_ema(avg: u64, current: u64, alpha: u64) -> int {
    if avg == 0 {
        current as int
    } else {
        spec_ema(avg, current, alpha)
    }
}

/// How far a value sits from a target.
pub open spec fn spec_gap(x: int, target: int) -> int {
    if x >= target {
        x - target
    } else {
        target - x
    }
}

/// The step taken in one decaying-average move never overshoots the gap.
proof fn lemma_alpha_step_bounded(alpha: u64, delta: u64)
    requires
        alpha <= ALPHA_SCALE,
    ensures
        0 <= (alpha as int * delta as int) / ALPHA_SCALE as int <= delta,
{
    lemma_mul_inequality(alpha as int, ALPHA_SCALE as int, delta as int);
    lemma_div_is_ordered(alpha as int * delta as int, ALPHA_SCALE as int * delta as int,
        ALPHA_SCALE as int);
    lemma_div_multiples_vanish(delta as int, ALPHA_SCALE as int);
    assert(ALPHA_SCALE as int * delta as int == delta as int * ALPHA_SCALE as int)
        by (nonlinear_arith);
    assert(0 <= alpha as int * delta as int) by (nonlinear_arith)
        requires
            0 <= alpha as int,
            0 <= delta as int,
    ;
    assert(0 <= (alpha as int * delta as int) / (ALPHA_SCALE as int)) by {
        vstd::arithmetic::div_mod::lemma_div_pos_is_pos(alpha as int * delta as int,
            ALPHA_SCALE as int);
    }
}

/// Law: an average that already sits at a constant rate stays exactly there,
/// whatever the decay weight; a fresh average is seeded with the rate at its
/// first tick.  Under a constant synthetic rate the estimator therefore
/// reports the true rate from the first tick on.
pub proof fn lemma_constant_rate_is_fixpoint(rate: u64, alpha: u64)
    requires
        alpha <= ALPHA_SCALE,
    ensures
        spec_ema(rate, rate, alpha) == rate,
        spec_seeded_ema(0, rate, alpha) == rate,
        spec_seeded_ema(rate, rate, alpha) == rate,
{
    lemma_alpha_step_bounded(alpha, 0);
    assert((alpha as int * 0) / ALPHA_SCALE as int == 0);
}

/// Law: one decaying-average step lands between the old average and the
/// current rate, so the estimate never overshoots and its gap to the current
/// rate never grows.
pub proof fn lemma_ema_never_overshoots(avg: u64, current: u64, alpha: u64)
    requires
        alpha <= ALPHA_SCALE,
    ensures
        avg <= current ==> avg <= spec_ema(avg, current, alpha) <= current,
        current <= avg ==> current <= spec_ema(avg, current, alpha) <= avg,
        spec_gap(spec_ema(avg, current, alpha), current as int) <= spec_gap(
            avg as int,
            current as int,
        ),
{
    if current >= avg {
        lemma_alpha_step_bounded(alpha, (current - avg) as u64);
    } else {
        lemma_alpha_step_bounded(alpha, (avg - current) as u64);
    }
}

/// Law: one tick closes the gap to the current rate by exactly the decay
/// fraction of it (rounded down), so a positive weight shrinks any gap of at
/// least the scale's worth, tick after tick, until the estimate meets the
/// rate.
pub proof fn lemma_ema_gap_contracts(avg: u64, current: u64, alpha: u64)
    requires
        alpha <= ALPHA_SCALE,
    ensures
        spec_gap(spec_ema(avg, current, alpha), current as int) == spec_gap(
            avg as int,
            current as int,
        ) - (alpha as int * spec_gap(avg as int, current as int)) / ALPHA_SCALE as int,
{
    if current >= avg {
        lemma_alpha_step_bounded(alpha, (current - avg) as u64);
    } else {
        lemma_alpha_step_bounded(alpha, (avg - current) as u64);
    }
}

/// Law: for one step change, the heavier decay weight ends at least as close
/// to the new rate as the lighter one: short windows converge faster.
pub proof fn lemma_heavier_weight_converges_faster(
    avg: u64,
    current: u64,
    alpha_light: u64,
    alpha_heavy: u64,
)
    requires
        alpha_light <= alpha_heavy <= ALPHA_SCALE,
    ensures
        spec_gap(spec_ema(avg, current, alpha_heavy), current as int) <= spec_gap(
            spec_ema(avg, current, alpha_light),
            current as int,
        ),
{
    let delta: u64 = if current >= avg {
        (current - avg) as u64
    } else {
        (avg - current) as u64
    };
    lemma_alpha_step_bounded(alpha_light, delta);
    lemma_alpha_step_bounded(alpha_heavy, delta);
    lemma_mul_inequality(alpha_light as int, alpha_heavy as int, delta as int);
    lemma_div_is_ordered(alpha_light as int * delta as int, alpha_heavy as int * delta as int,
        ALPHA_SCALE as int);
}

/// Law: the decay weight of a longer window never exceeds that of a shorter
/// one for the same tick, so the long-window average reacts more slowly to
/// the same step change.
pub proof fn lemma_longer_window_decays_slower(dt_nanos: u64, w_short: u64, w_long: u64)
    requires
        1 <= w_short <= w_long,
    ensures
        spec_alpha(dt_nanos, w_long) <= spec_alpha(dt_nanos, w_short),
        0 <= spec_alpha(dt_nanos, w_short) <= ALPHA_SCALE,
{
    let x: int = dt_nanos as int * ALPHA_SCALE as int;
    assert(0 <= x) by (nonlinear_arith)
        requires
            x == dt_nanos as int * ALPHA_SCALE as int,
            0 <= dt_nanos as int,
    ;
    {
        lemma_div_is_ordered_by_denominator(x, dt_nanos as int + w_short as int,
            dt_nanos as int + w_long as int);
        vstd::arithmetic::div_mod::lemma_div_pos_is_pos(x, dt_nanos as int + w_short as int);
        lemma_mul_inequality(dt_nanos as int, dt_nanos as int + w_short as int,
            ALPHA_SCALE as int);
        assert(x <= (dt_nanos as int + w_short as int) * ALPHA_SCALE as int);
        assert((dt_nanos as int + w_short as int) * ALPHA_SCALE as int == ALPHA_SCALE as int * (
        dt_nanos as int + w_short as int)) by (nonlinear_arith);
        lemma_div_is_ordered(x, (dt_nanos as int + w_short as int) * ALPHA_SCALE as int,
            dt_nanos as int + w_short as int);
        lemma_div_multiples_vanish(ALPHA_SCALE as int, dt_nanos as int + w_short as int);
    }
}

/// Executes one decaying-average step.
fn ema_step(avg: u64, current: u64, alpha: u64) -> (r: u64)
    requires
        alpha <= ALPHA_SCALE,
    ensures
        r as int == spec_ema(avg, current, alpha),
{
    if current >= avg {
        let delta: u64 = current - avg;
        proof {
            lemma_alpha_step_bounded(alpha, delta);
        }
        let step_wide: u128 = (alpha as u128) * (delta as u128) / (ALPHA_SCALE as u128);
        avg + (step_wide as u64)
    } else {
        let delta: u64 = avg - current;
        proof {
            lemma_alpha_step_bounded(alpha, delta);
        }
        let step_wide: u128 = (alpha as u128) * (delta as u128) / (ALPHA_SCALE as u128);
        avg - (step_wide as u64)
    }
}

/// Computes the decay weight for a tick of `dt_nanos` and the given window.
fn alpha_for(dt_nanos: u64, window_nanos: u64) -> (r: u64)
    requires
        1 <= window_nanos,
    ensures
        r as int == spec_alpha(dt_nanos, window_nanos),
        r <= ALPHA_SCALE,
{
    proof {
        lemma_longer_window_decays_slower(dt_nanos, window_nanos, window_nanos);
    }
    let wide: u128 = (dt_nanos as u128) * (ALPHA_SCALE as u128) / ((dt_nanos as u128)
        + (window_nanos as u128));
    wide as u64
}

/// Tracks one worker's throughput: a raw hash total plus decaying averages
/// over four windows, and share counters.
pub struct HashrateTracker {
    pub total_hashes: u64,
    pub start_time_nanos: u64,
    pub last_update_nanos: u64,
    /// Decaying averages in hashes per second; zero until first seeded.
    pub avg_5s: u64,
    pub avg_1m: u64,
    pub avg_5m: u64,
    pub avg_15m: u64,
    pub accepted_shares: u64,
    pub rejected_shares: u64,
    pub hardware_errors: u64,
}

impl HashrateTracker {
    /// Whether a tick at `now` changes the tracker at all: time must have
    /// passed since the start and at least the minimum granularity since the
    /// last tick.
    pub open spec fn tick_applies(self, now: u64) -> bool {
        &&& now > self.last_update_nanos
        &&& now - self.last_update_nanos >= MIN_UPDATE_NANOS
        &&& now > self.start_time_nanos
    }

    /// The instantaneous rate at `now`: total hashes over total elapsed time,
    /// capped at `u64::MAX`.
    pub open spec fn spec_current_rate(self, now: u64) -> int {
        sat_u64(spec_rate(self.total_hashes, self.start_time_nanos, now))
    }

    /// The tracker after a tick at `now` that applies: every window average
    /// folds in the instantaneous rate with its own decay weight.
    pub open spec fn spec_ticked(self, now: u64) -> HashrateTracker {
        let dt: u64 = (now - self.last_update_nanos) as u64;
        let cur: u64 = self.spec_current_rate(now) as u64;
        HashrateTracker {
            avg_5s: spec_seeded_ema(self.avg_5s, cur, spec_alpha(dt, WINDOW_5S_NANOS) as u64) as u64,
            avg_1m: spec_seeded_ema(self.avg_1m, cur, spec_alpha(dt, WINDOW_1M_NANOS) as u64) as u64,
            avg_5m: spec_seeded_ema(self.avg_5m, cur, spec_alpha(dt, WINDOW_5M_NANOS) as u64) as u64,
            avg_15m: spec_seeded_ema(self.avg_15m, cur, spec_alpha(dt, WINDOW_15M_NANOS) as u64)
                as u64,
            last_update_nanos: now,
            ..self
        }
    }

    /// A fresh tracker: zero counters, unseeded averages, clock stamps equal.
    pub fn new() -> (t: HashrateTracker)
        ensures
            t.total_hashes == 0,
            t.avg_5s == 0,
            t.avg_1m == 0,
            t.avg_5m == 0,
            t.avg_15m == 0,
            t.accepted_shares == 0,
            t.rejected_shares == 0,
            t.hardware_errors == 0,
            t.start_time_nanos == t.last_update_nanos,
    {
        let now: u64 = now_nanos();
        HashrateTracker {
            total_hashes: 0,
            start_time_nanos: now,
            last_update_nanos: now,
            avg_5s: 0,
            avg_1m: 0,
            avg_5m: 0,
            avg_15m: 0,
            accepted_shares: 0,
            rejected_shares: 0,
            hardware_errors: 0,
        }
    }

    /// Adds hashes to the running total; the hot loop calls this and nothing
    /// else, so its cost stays minimal.
    pub fn add_hashes(&mut self, hashes: u64)
        requires
            old(self).total_hashes + hashes <= u64::MAX,
        ensures
            *final(self) == (HashrateTracker {
                total_hashes: (old(self).total_hashes + hashes) as u64,
                ..*old(self)
            }),
    {
        self.total_hashes = self.total_hashes + hashes;
    }

    /// Folds the instantaneous rate into every window average, as of `now`.
    /// Ticks that come too soon, or with a clock that did not advance, change
    /// nothing.
    pub fn update_averages_at(&mut self, now: u64)
        ensures
            !old(self).tick_applies(now) ==> *final(self) == *old(self),
            old(self).tick_applies(now) ==> *final(self) == old(self).spec_ticked(now),
    {
        if now <= self.last_update_nanos {
            return ;
        }
        let dt: u64 = now - self.last_update_nanos;
        if dt < MIN_UPDATE_NANOS {
            return ;
        }
        if now <= self.start_time_nanos {
            return ;
        }
        let elapsed: u64 = now - self.start_time_nanos;
        let rate_wide: u128 = (self.total_hashes as u128) * 1_000_000_000u128 / (elapsed as u128);
        let cur: u64 = if rate_wide > u64::MAX as u128 {
            u64::MAX
        } else {
            rate_wide as u64
        };
        proof {
            assert(cur as int == old(self).spec_current_rate(now));
        }
        let a5: u64 = alpha_for(dt, WINDOW_5S_NANOS);
        let a1m: u64 = alpha_for(dt, WINDOW_1M_NANOS);
        let a5m: u64 = alpha_for(dt, WINDOW_5M_NANOS);
        let a15m: u64 = alpha_for(dt, WINDOW_15M_NANOS);
        self.avg_5s = if self.avg_5s == 0 {
            cur
        } else {
            ema_step(self.avg_5s, cur, a5)
        };
        self.avg_1m = if self.avg_1m == 0 {
            cur
        } else {
            ema_step(self.avg_1m, cur, a1m)
        };
        self.avg_5m = if self.avg_5m == 0 {
            cur
        } else {
            ema_step(self.avg_5m, cur, a5m)
        };
        self.avg_15m = if self.avg_15m == 0 {
            cur
        } else {
            ema_step(self.avg_15m, cur, a15m)
        };
        self.last_update_nanos = now;
    }

    /// Folds the instantaneous rate into every window average as of now.
    pub fn update_averages(&mut self)
        ensures
            exists|now: u64|
                {
                    ||| !old(self).tick_applies(now) && *final(self) == *old(self)
                    ||| old(self).tick_applies(now) && *final(self) == old(self).spec_ticked(now)
                },
    {
        let now: u64 = now_nanos();
        self.update_averages_at(now);
        proof {
            assert(!old(self).tick_applies(now) && *final(self) == *old(self) || old(
                self,
            ).tick_applies(now) && *final(self) == old(self).spec_ticked(now));
        }
    }

    /// Counts one accepted share.
    pub fn increment_accepted(&mut self)
        requires
            old(self).accepted_shares < u64::MAX,
        ensures
            *final(self) == (HashrateTracker {
                accepted_shares: (old(self).accepted_shares + 1) as u64,
                ..*old(self)
            }),
    {
        self.accepted_shares = self.accepted_shares + 1;
    }

    /// Counts one rejected share.
    pub fn increment_rejected(&mut self)
        requires
            old(self).rejected_shares < u64::MAX,
        ensures
            *final(self) == (HashrateTracker {
                rejected_shares: (old(self).rejected_shares + 1) as u64,
                ..*old(self)
            }),
    {
        self.rejected_shares = self.rejected_shares + 1;
    }

    /// Counts one hardware error.
    pub fn increment_hardware_error(&mut self)
        requires
            old(self).hardware_errors < u64::MAX,
        ensures
            *final(self) == (HashrateTracker {
                hardware_errors: (old(self).hardware_errors + 1) as u64,
                ..*old(self)
            }),
    {
        self.hardware_errors = self.hardware_errors + 1;
    }
}

/// Relies on `String::push`: appends one character.
#[verifier::external_body]
fn string_push(s: &mut String, c: char)
    ensures
        final(s)@ == old(s)@.push(c),
{
    s.push(c);
}

/// The character for one decimal digit.
pub open spec fn digit_char(d: nat) -> char {
    ((0x30 + d) as u8) as char
}

/// The decimal digits of a number, most significant first.
pub open spec fn spec_digits(n: nat) -> Seq<char>
    decreases n,
{
    if n < 10 {
        seq![digit_char(n)]
    } else {
        spec_digits(n / 10).push(digit_char(n % 10))
    }
}

/// A rate in hashes per second shown in mega-hashes with two decimals,
/// truncated: whole part, a point, then hundredths.
pub open spec fn spec_fixed2_mega(rate: u64) -> Seq<char> {
    spec_digits((rate / 1_000_000) as nat).push(digit_char(((rate / 100_000) % 10) as nat)).push(
        digit_char(((rate / 10_000) % 10) as nat),
    ).insert(spec_digits((rate / 1_000_000) as nat).len() as int, '.')
}

/// Appends one decimal digit.
fn push_digit(s: &mut String, d: u64)
    requires
        d < 10,
    ensures
        final(s)@ == old(s)@.push(digit_char(d as nat)),
{
    let c: char = (48 + d as u8) as char;
    proof {
        assert(c == digit_char(d as nat));
    }
    string_push(s, c);
}

/// Appends the decimal digits of a number, most significant first.
fn push_u64(s: &mut String, n: u64)
    ensures
        final(s)@ == old(s)@ + spec_digits(n as nat),
    decreases n,
{
    if n < 10 {
        push_digit(s, n);
        proof {
            assert(old(s)@.push(digit_char(n as nat)) =~= old(s)@ + spec_digits(n as nat));
        }
    } else {
        push_u64(s, n / 10);
        push_digit(s, n % 10);
        proof {
            assert((old(s)@ + spec_digits((n / 10) as nat)).push(digit_char((n % 10) as nat))
                =~= old(s)@ + spec_digits(n as nat));
        }
    }
}

/// Appends a rate shown in mega-hashes with two truncated decimals.
fn push_fixed2_mega(s: &mut String, rate: u64)
    ensures
        final(s)@ == old(s)@ + spec_fixed2_mega(rate),
{
    push_u64(s, rate / 1_000_000);
    string_push(s, '.');
    push_digit(s, (rate / 100_000) % 10);
    push_digit(s, (rate / 10_000) % 10);
    proof {
        assert(final(s)@ =~= old(s)@ + spec_fixed2_mega(rate));
    }
}

impl HashrateTracker {
    /// The status line reported for this tracker: the four window averages
    /// and the overall average in mega-hashes per second, then the share and
    /// error counters.
    pub open spec fn spec_hashrate_line(self, avg_total: u64) -> Seq<char> {
        "(5s):"@ + spec_fixed2_mega(self.avg_5s) + "M (1m):"@ + spec_fixed2_mega(self.avg_1m)
            + "M (5m):"@ + spec_fixed2_mega(self.avg_5m) + "M (15m):"@ + spec_fixed2_mega(
            self.avg_15m,
        ) + "M (avg):"@ + spec_fixed2_mega(avg_total) + "Mh/s A:"@ + spec_digits(
            self.accepted_shares as nat,
        ) + " R:"@ + spec_digits(self.rejected_shares as nat) + " HW:"@ + spec_digits(
            self.hardware_errors as nat,
        )
    }

    /// Builds the status line with the overall average taken at `now`.
    pub fn hashrate_string_at(&self, now: u64) -> (r: String)
        ensures
            r@ == self.spec_hashrate_line(self.spec_current_rate(now) as u64),
    {
        let avg_total: u64 = if now > self.start_time_nanos {
            let elapsed: u64 = now - self.start_time_nanos;
            let wide: u128 = (self.total_hashes as u128) * 1_000_000_000u128 / (elapsed as u128);
            if wide > u64::MAX as u128 {
                u64::MAX
            } else {
                wide as u64
            }
        } else {
            0
        };
        proof {
            assert(avg_total as int == self.spec_current_rate(now));
        }
        let mut out: String = String::new();
        out.append("(5s):");
        push_fixed2_mega(&mut out, self.avg_5s);
        out.append("M (1m):");
        push_fixed2_mega(&mut out, self.avg_1m);
        out.append("M (5m):");
        push_fixed2_mega(&mut out, self.avg_5m);
        out.append("M (15m):");
        push_fixed2_mega(&mut out, self.avg_15m);
        out.append("M (avg):");
        push_fixed2_mega(&mut out, avg_total);
        out.append("Mh/s A:");
        push_u64(&mut out, self.accepted_shares);
        out.append(" R:");
        push_u64(&mut out, self.rejected_shares);
        out.append(" HW:");
        push_u64(&mut out, self.hardware_errors);
        proof {
            assert(out@ =~= self.spec_hashrate_line(avg_total));
        }
        out
    }

    /// Builds the status line with the overall average as of now.
    pub fn get_cgminer_hashrate_string(&self) -> (r: String)
        ensures
            exists|now: u64| r@ == self.spec_hashrate_line(#[trigger] self.spec_current_rate(now) as u64),
    {
        let now: u64 = now_nanos();
        let r: String = self.hashrate_string_at(now);
        proof {
            assert(r@ == self.spec_hashrate_line(self.spec_current_rate(now) as u64));
        }
        r
    }
}

} // verus!
