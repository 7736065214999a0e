//! The motor model: an empirical thrust curve interpolated to the
//! simulation step size, consumed as burn time elapses.
//!
//! The motor is a one-way state machine: unlit, then lit after an
//! ignition delay, then burning until the table is exhausted, then inert.
//! Thrust requested before ignition or after burnout is zero, never an
//! error.

use vstd::prelude::*;

use crate::fx::{sat, sat_i128, spec_abs_int, spec_add, spec_div, spec_mul, tdiv, SCALE};
use crate::rng::gen_range_i64;

verus! {

/// Bound on the magnitude of every time and thrust entry of a curve,
/// chosen so that all intermediate products fit in an `i128`.
pub const CURVE_LIMIT: i64 = 1_000_000_000_000_000_000;

/// Bound on the number of interpolated table entries.
pub const TABLE_LIMIT: i64 = 100_000_000;

/// A well-formed raw thrust curve: at least one sample, every time
/// positive and strictly increasing, every entry within `CURVE_LIMIT`.
pub open spec fn raw_ok(s: Seq<(i64, i64)>) -> bool {
    &&& s.len() >= 1
    &&& forall|i: int|
        0 <= i < s.len() ==> 0 < (#[trigger] s[i]).0 <= CURVE_LIMIT
            && -CURVE_LIMIT <= s[i].1 <= CURVE_LIMIT
    &&& forall|i: int| 0 <= i < s.len() - 1 ==> (#[trigger] s[i]).0 < s[i + 1].0
}

/// A well-formed sample list for interpolation: nonnegative, strictly
/// increasing times and bounded entries.
pub open spec fn curve_ok(s: Seq<(i64, i64)>) -> bool {
    &&& forall|i: int|
        0 <= i < s.len() ==> 0 <= (#[trigger] s[i]).0 <= CURVE_LIMIT
            && -CURVE_LIMIT <= s[i].1 <= CURVE_LIMIT
    &&& forall|i: int| 0 <= i < s.len() - 1 ==> (#[trigger] s[i]).0 < s[i + 1].0
}

/// A raw curve with the implicit ignition point at time zero, thrust
/// zero, prepended.
pub open spec fn spec_with_origin(raw: Seq<(i64, i64)>) -> Seq<(i64, i64)> {
    seq![(0i64, 0i64)] + raw
}

/// Linear interpolation between two samples, truncated and saturated.
/// Meaningful only for `p.0 < q.0`.
pub open spec fn spec_lerp(p: (i64, i64), q: (i64, i64), t: int) -> int {
    sat(p.1 as int + tdiv((q.1 as int - p.1 as int) * (t - p.0 as int), q.0 as int - p.0 as int))
}

/// The curve value at time `t`, scanning the samples from index `i`:
/// the sample value at or before its own time, the linear blend inside a
/// segment, and zero past the last sample.
pub open spec fn curve_at_from(s: Seq<(i64, i64)>, i: int, t: int) -> int
    decreases s.len() - i,
{
    if i < 0 || i >= s.len() {
        0
    } else if i == s.len() - 1 {
        if t <= s[i].0 as int {
            s[i].1 as int
        } else {
            0
        }
    } else if t <= s[i].0 as int {
        s[i].1 as int
    } else if t < s[i + 1].0 as int {
        spec_lerp(s[i], s[i + 1], t)
    } else {
        curve_at_from(s, i + 1, t)
    }
}

/// The curve value at time `t`.
pub open spec fn spec_curve_at(s: Seq<(i64, i64)>, t: int) -> int {
    curve_at_from(s, 0, t)
}

/// Sample times increase across any pair of indices, not only
/// consecutive ones.
proof fn lemma_times_increasing(s: Seq<(i64, i64)>, a: int, b: int)
    requires
        curve_ok(s),
        0 <= a < b < s.len(),
    ensures
        (s[a].0 as int) < s[b].0 as int,
    decreases b - a,
{
    if a + 1 < b {
        lemma_times_increasing(s, a + 1, b);
    }
}

/// Scanning from an earlier index than the sample hit does not change
/// the value read at that sample's own time.
proof fn lemma_curve_from_exact(s: Seq<(i64, i64)>, j: int, i: int)
    requires
        curve_ok(s),
        0 <= j <= i < s.len(),
    ensures
        curve_at_from(s, j, s[i].0 as int) == s[i].1 as int,
    decreases i - j,
{
    if j < i {
        lemma_times_increasing(s, j, i);
        if j + 1 < i {
            lemma_times_increasing(s, j + 1, i);
        }
        lemma_curve_from_exact(s, j + 1, i);
    }
}

/// The curve read exactly at a stored sample time reproduces that
/// sample's thrust exactly.
pub proof fn lemma_curve_exact_at_sample(s: Seq<(i64, i64)>, i: int)
    requires
        curve_ok(s),
        0 <= i < s.len(),
    ensures
        spec_curve_at(s, s[i].0 as int) == s[i].1 as int,
{
    lemma_curve_from_exact(s, 0, i);
}

/// A well-formed raw curve stays well formed with the origin prepended.
pub proof fn lemma_with_origin_ok(raw: Seq<(i64, i64)>)
    requires
        raw_ok(raw),
    ensures
        curve_ok(spec_with_origin(raw)),
        spec_with_origin(raw).len() == raw.len() + 1,
        forall|i: int| 0 <= i < raw.len() ==> spec_with_origin(raw)[i + 1] == raw[i],
{
    let s = spec_with_origin(raw);
    assert forall|i: int| 0 <= i < s.len() - 1 implies (#[trigger] s[i]).0 < s[i + 1].0 by {
        if i == 0 {
            assert(s[1] == raw[0]);
        } else {
            assert(s[i] == raw[i - 1]);
            assert(s[i + 1] == raw[i]);
        }
    }
}

/// The curve value at time `t`, read from a sample list.
fn curve_value(s: &Vec<(i64, i64)>, t: i64) -> (r: i64)
    requires
        curve_ok(s@),
    ensures
        r as int == spec_curve_at(s@, t as int),
{
    let n = s.len();
    if n == 0 {
        return 0;
    }
    let mut i: usize = 0;
    loop
        invariant
            0 <= i < n,
            n == s@.len(),
            curve_ok(s@),
            curve_at_from(s@, 0, t as int) == curve_at_from(s@, i as int, t as int),
        decreases n - i,
    {
        let (ti, yi) = s[i];
        if i == n - 1 {
            if t <= ti {
                return yi;
            } else {
                return 0;
            }
        }
        if t <= ti {
            return yi;
        }
        let (tn, yn) = s[i + 1];
        if t < tn {
            proof {
                assert((yn as int - yi as int) * (t as int - ti as int)
                    <= 0x4000_0000_0000_0000_0000_0000_0000_0000 && (yn as int - yi as int) * (
                t as int - ti as int) >= -0x4000_0000_0000_0000_0000_0000_0000_0000)
                    by (nonlinear_arith)
                    requires
                        -0x8000_0000_0000_0000 <= yn as int - yi as int <= 0x8000_0000_0000_0000,
                        -0x8000_0000_0000_0000 <= t as int - ti as int <= 0x8000_0000_0000_0000,
                ;
            }
            let num: i128 = ((yn as i128) - (yi as i128)) * ((t as i128) - (ti as i128));
            let den: i128 = (tn as i128) - (ti as i128);
            proof {
                crate::fx::lemma_tdiv_magnitude(num as int, den as int);
            }
            let q: i128 = match num.checked_div(den) {
                Some(v) => v,
                None => {
                    proof {
                        assert(false);
                    }
                    0
                },
            };
            return sat_i128((yi as i128) + q);
        }
        i = i + 1;
    }
}

/// Steps in an interpolated table: the last sample time divided by the
/// step, truncated.
pub open spec fn spec_table_len(raw: Seq<(i64, i64)>, step: int) -> int {
    tdiv(raw.last().0 as int, step)
}

/// An interpolated table is well formed when read back as a sample list:
/// entry `k` is the curve value at time `(k+1) * step`.
pub open spec fn spec_interp_entry(raw: Seq<(i64, i64)>, step: int, k: int) -> int {
    spec_curve_at(spec_with_origin(raw), (k + 1) * step)
}

/// Build the per-step thrust table from a raw curve: entry `k` holds the
/// step length and the piecewise-linear curve value at time
/// `(k+1) * step`.
pub fn interpolate_thrust(raw: &Vec<(i64, i64)>, interpolated_step: i64) -> (r: Vec<(i64, i64)>)
    requires
        raw_ok(raw@),
        0 < interpolated_step <= CURVE_LIMIT,
        spec_table_len(raw@, interpolated_step as int) <= TABLE_LIMIT,
    ensures
        r@.len() == spec_table_len(raw@, interpolated_step as int),
        forall|k: int|
            0 <= k < r@.len() ==> (#[trigger] r@[k]).0 == interpolated_step && r@[k].1 as int
                == spec_interp_entry(raw@, interpolated_step as int, k),
{
    proof {
        lemma_with_origin_ok(raw@);
    }
    let mut samples: Vec<(i64, i64)> = Vec::new();
    samples.push((0, 0));
    let mut j: usize = 0;
    while j < raw.len()
        invariant
            0 <= j <= raw@.len(),
            samples@.len() == j + 1,
            samples@[0] == (0i64, 0i64),
            forall|i: int| 0 <= i < j ==> samples@[i + 1] == raw@[i],
        decreases raw@.len() - j,
    {
        samples.push(raw[j]);
        j = j + 1;
    }
    proof {
        assert(samples@ =~= spec_with_origin(raw@));
    }
    let t_last = raw[raw.len() - 1].0;
    proof {
        assert(raw@.last() == raw@[raw@.len() - 1]);
    }
    let n_i64: i64 = match t_last.checked_div(interpolated_step) {
        Some(v) => v,
        None => {
            proof {
                assert(false);
            }
            0
        },
    };
    let n: usize = n_i64 as usize;
    let mut table: Vec<(i64, i64)> = Vec::new();
    let mut k: usize = 0;
    while k < n
        invariant
            0 <= k <= n,
            n == spec_table_len(raw@, interpolated_step as int),
            n <= TABLE_LIMIT,
            0 < interpolated_step <= CURVE_LIMIT,
            0 < t_last <= CURVE_LIMIT,
            t_last as int == raw@.last().0 as int,
            curve_ok(samples@),
            samples@ == spec_with_origin(raw@),
            table@.len() == k,
            forall|i: int|
                0 <= i < k ==> (#[trigger] table@[i]).0 == interpolated_step && table@[i].1 as int
                    == spec_interp_entry(raw@, interpolated_step as int, i),
        decreases n - k,
    {
        proof {
            assert((k + 1) * interpolated_step as int <= t_last as int) by (nonlinear_arith)
                requires
                    0 <= k as int,
                    (k as int) < tdiv(t_last as int, interpolated_step as int),
                    0 < interpolated_step as int,
                    0 < t_last as int,
                    tdiv(t_last as int, interpolated_step as int) == (t_last as int) / (
                    interpolated_step as int),
            ;
            assert((k + 1) * interpolated_step as int >= 1) by (nonlinear_arith)
                requires
                    0 <= k as int,
                    0 < interpolated_step as int,
            ;
        }
        let time: i64 = ((k as i64) + 1) * interpolated_step;
        let v = curve_value(&samples, time);
        table.push((interpolated_step, v));
        k = k + 1;
    }
    table
}

/// A motor: the interpolated thrust segments still to burn, the ignition
/// state, and the dry and fuel masses.
pub struct Motor {
    forces: Vec<(i64, i64)>,
    original_forces_len: usize,
    lit: bool,
    delay_left: i64,
    dry_weight: i64,
    fuel_weight: i64,
}

/// The mathematical state of a motor.
pub ghost struct MotorV {
    pub forces: Seq<(i64, i64)>,
    pub original_forces_len: int,
    pub lit: bool,
    pub delay_left: int,
    pub dry_weight: int,
    pub fuel_weight: int,
}

impl View for Motor {
    type V = MotorV;

    closed spec fn view(&self) -> MotorV {
        MotorV {
            forces: self.forces@,
            original_forces_len: self.original_forces_len as int,
            lit: self.lit,
            delay_left: self.delay_left as int,
            dry_weight: self.dry_weight as int,
            fuel_weight: self.fuel_weight as int,
        }
    }
}

/// A well-formed segment list: positive durations and bounded entries.
pub open spec fn segments_ok(s: Seq<(i64, i64)>) -> bool {
    forall|i: int|
        0 <= i < s.len() ==> 0 < (#[trigger] s[i]).0 <= CURVE_LIMIT && -CURVE_LIMIT <= s[i].1
            <= CURVE_LIMIT
}

/// The motor's structural invariant: a nonempty original table bound,
/// the remaining segments well formed and no more numerous than the
/// original table, masses nonnegative, and a nonnegative ignition delay.
pub open spec fn motor_wf(m: MotorV) -> bool {
    &&& 1 <= m.original_forces_len <= TABLE_LIMIT
    &&& m.forces.len() <= m.original_forces_len
    &&& segments_ok(m.forces)
    &&& m.delay_left >= 0
    &&& m.dry_weight >= 0
    &&& m.fuel_weight >= 0
}

/// Burn `dt` of time off the segment list: the remaining list, the sum
/// of the thrusts of the touched segments, and their count.
pub open spec fn spec_consume(s: Seq<(i64, i64)>, dt: int) -> (Seq<(i64, i64)>, int, int)
    decreases s.len(),
{
    if dt <= 0 || s.len() == 0 {
        (s, 0, 0)
    } else if s[0].0 as int > dt {
        (
            s.update(0, ((s[0].0 as int - dt) as i64, s[0].1)),
            s[0].1 as int,
            1,
        )
    } else {
        let rest = spec_consume(s.drop_first(), dt - s[0].0 as int);
        (rest.0, rest.1 + s[0].1 as int, rest.2 + 1)
    }
}

/// The motor state after burning `dt` of time.
pub open spec fn spec_motor_after(m: MotorV, dt: int) -> MotorV {
    if m.forces.len() == 0 {
        m
    } else if !m.lit {
        m
    } else if m.delay_left >= dt {
        MotorV { delay_left: m.delay_left - dt, ..m }
    } else {
        let c = spec_consume(m.forces, dt - m.delay_left);
        MotorV { forces: c.0, delay_left: 0, ..m }
    }
}

/// The thrust yielded by burning `dt` of time: zero once the table is
/// exhausted, zero before ignition and during the ignition delay, and
/// otherwise the truncated mean of the touched segments.  Querying past
/// exhaustion is never an error.
pub open spec fn spec_motor_thrust(m: MotorV, dt: int) -> i64 {
    if m.forces.len() == 0 {
        0i64
    } else if !m.lit {
        0i64
    } else if m.delay_left >= dt {
        0i64
    } else {
        let c = spec_consume(m.forces, dt - m.delay_left);
        sat(tdiv(c.1, c.2)) as i64
    }
}

/// The motor's current mass: dry mass plus the fuel mass scaled by the
/// unburnt fraction of the table.
pub open spec fn spec_motor_weight(m: MotorV) -> int {
    spec_add(
        spec_mul(spec_div(m.forces.len() as int, m.original_forces_len), m.fuel_weight),
        m.dry_weight,
    )
}

/// A well-formed motor never has negative mass.
pub proof fn lemma_weight_nonneg(m: MotorV)
    requires
        motor_wf(m),
    ensures
        spec_motor_weight(m) >= 0,
{
    let len = m.forces.len() as int;
    let orig = m.original_forces_len;
    assert((len * 1_000_000) >= 0 && (len * 1_000_000) / orig >= 0) by (nonlinear_arith)
        requires
            len >= 0,
            orig >= 1,
    ;
    let pct = spec_div(len, orig);
    assert(pct >= 0);
    assert(pct * m.fuel_weight >= 0) by (nonlinear_arith)
        requires
            pct >= 0,
            m.fuel_weight >= 0,
    ;
    if pct * m.fuel_weight > 0 {
        assert((pct * m.fuel_weight) / 1_000_000 >= 0) by (nonlinear_arith)
            requires
                pct * m.fuel_weight > 0,
        ;
    }
}

/// A truncating quotient of nonnegative values grows with its dividend.
pub proof fn lemma_tdiv_monotone_nonneg(a1: int, a2: int, b: int)
    requires
        0 <= a1 <= a2,
        b >= 1,
    ensures
        0 <= tdiv(a1, b) <= tdiv(a2, b),
{
    assert(0 <= a1 / b && a1 / b <= a2 / b) by (nonlinear_arith)
        requires
            0 <= a1 <= a2,
            b >= 1,
    ;
}

/// Once burning starts, the motor's mass never grows: burning any
/// stretch of time leaves the mass at or below what it was.
pub proof fn lemma_weight_monotone(m: MotorV, dt: int)
    requires
        motor_wf(m),
    ensures
        spec_motor_weight(spec_motor_after(m, dt)) <= spec_motor_weight(m),
{
    let after = spec_motor_after(m, dt);
    lemma_consume_shape(m.forces, dt - m.delay_left);
    let len1 = after.forces.len() as int;
    let len2 = m.forces.len() as int;
    assert(len1 <= len2);
    let orig = m.original_forces_len;
    lemma_tdiv_monotone_nonneg(len1 * SCALE as int, len2 * SCALE as int, orig);
    let p1 = spec_div(len1, orig);
    let p2 = spec_div(len2, orig);
    assert(0 <= p1 <= p2);
    assert(p1 * m.fuel_weight <= p2 * m.fuel_weight) by (nonlinear_arith)
        requires
            p1 <= p2,
            m.fuel_weight >= 0,
    ;
    assert(0 <= p1 * m.fuel_weight) by (nonlinear_arith)
        requires
            0 <= p1,
            m.fuel_weight >= 0,
    ;
    lemma_tdiv_monotone_nonneg(p1 * m.fuel_weight, p2 * m.fuel_weight, SCALE as int);
}

/// The count of touched segments is never negative.
pub proof fn lemma_consume_count_nonneg(s: Seq<(i64, i64)>, dt: int)
    ensures
        spec_consume(s, dt).2 >= 0,
    decreases s.len(),
{
    if dt <= 0 || s.len() == 0 {
    } else if s[0].0 as int > dt {
    } else {
        lemma_consume_count_nonneg(s.drop_first(), dt - s[0].0 as int);
    }
}

/// Burning touches at least one segment when there is time and a
/// segment to burn.
pub proof fn lemma_consume_count_pos(s: Seq<(i64, i64)>, dt: int)
    requires
        s.len() > 0,
        dt > 0,
    ensures
        spec_consume(s, dt).2 >= 1,
{
    if s[0].0 as int > dt {
    } else {
        lemma_consume_count_nonneg(s.drop_first(), dt - s[0].0 as int);
    }
}

/// Burning never grows the segment list, keeps it well formed, and
/// bounds the touched thrusts by the count times the curve limit.
pub proof fn lemma_consume_shape(s: Seq<(i64, i64)>, dt: int)
    requires
        segments_ok(s),
    ensures
        spec_consume(s, dt).0.len() <= s.len(),
        segments_ok(spec_consume(s, dt).0),
        0 <= spec_consume(s, dt).2 <= s.len(),
        spec_abs_int(spec_consume(s, dt).1) <= spec_consume(s, dt).2 * (CURVE_LIMIT as int),
    decreases s.len(),
{
    if dt <= 0 || s.len() == 0 {
    } else if s[0].0 as int > dt {
        let u = s.update(0, ((s[0].0 as int - dt) as i64, s[0].1));
        assert forall|i: int| 0 <= i < u.len() implies 0 < (#[trigger] u[i]).0 <= CURVE_LIMIT
            && -CURVE_LIMIT <= u[i].1 <= CURVE_LIMIT by {
            if i > 0 {
                assert(u[i] == s[i]);
            }
        }
    } else {
        lemma_consume_shape(s.drop_first(), dt - s[0].0 as int);
        let rest = spec_consume(s.drop_first(), dt - s[0].0 as int);
        assert((rest.2 + 1) * (CURVE_LIMIT as int) == rest.2 * (CURVE_LIMIT as int)
            + CURVE_LIMIT as int) by (nonlinear_arith);
    }
}

impl Motor {
    /// Build a motor from a raw thrust curve, interpolating it at the
    /// given step.  Returns nothing when the curve, the step, the masses
    /// or the resulting table size are out of shape: malformed input is
    /// rejected before any state exists.
    pub fn new(raw_forces: &Vec<(i64, i64)>, interp_step: i64, dry_weight: i64, fuel_weight: i64)
        -> (r: Option<Motor>)
        ensures
            r is Some <==> raw_ok(raw_forces@) && 0 < interp_step <= CURVE_LIMIT && dry_weight >= 0
                && fuel_weight >= 0 && 1 <= spec_table_len(raw_forces@, interp_step as int)
                <= TABLE_LIMIT,
            r is Some ==> {
                let m = r->Some_0@;
                &&& motor_wf(m)
                &&& m.forces.len() == spec_table_len(raw_forces@, interp_step as int)
                &&& forall|k: int|
                    0 <= k < m.forces.len() ==> (#[trigger] m.forces[k]).0 == interp_step
                        && m.forces[k].1 as int == spec_interp_entry(
                        raw_forces@,
                        interp_step as int,
                        k,
                    )
                &&& m.original_forces_len == m.forces.len()
                &&& !m.lit
                &&& m.delay_left == 0
                &&& m.dry_weight == dry_weight as int
                &&& m.fuel_weight == fuel_weight as int
            },
    {
        if !(interp_step > 0 && interp_step <= CURVE_LIMIT) {
            return None;
        }
        if dry_weight < 0 || fuel_weight < 0 {
            return None;
        }
        if !check_raw(raw_forces) {
            return None;
        }
        let t_last = raw_forces[raw_forces.len() - 1].0;
        proof {
            assert(raw_forces@.last() == raw_forces@[raw_forces@.len() - 1]);
        }
        let n: i64 = match t_last.checked_div(interp_step) {
            Some(v) => v,
            None => {
                proof {
                    assert(false);
                }
                0
            },
        };
        if n < 1 || n > TABLE_LIMIT {
            return None;
        }
        let table = interpolate_thrust(raw_forces, interp_step);
        proof {
            lemma_interp_segments_ok(raw_forces@, interp_step as int, table@);
        }
        Some(
            Motor {
                original_forces_len: table.len(),
                forces: table,
                lit: false,
                delay_left: 0,
                dry_weight,
                fuel_weight,
            },
        )
    }

    /// Build a motor directly from an already interpolated segment
    /// list.  Returns nothing when the list is empty, oversized, holds an
    /// entry out of bounds, or a mass is negative.
    pub fn from_interpolated(interpolated_forces: Vec<(i64, i64)>, dry_weight: i64, fuel_weight: i64)
        -> (r: Option<Motor>)
        ensures
            r is Some <==> segments_ok(interpolated_forces@) && 1 <= interpolated_forces@.len()
                <= TABLE_LIMIT && dry_weight >= 0 && fuel_weight >= 0,
            r is Some ==> {
                let m = r->Some_0@;
                &&& motor_wf(m)
                &&& m.forces == interpolated_forces@
                &&& m.original_forces_len == interpolated_forces@.len()
                &&& !m.lit
                &&& m.delay_left == 0
                &&& m.dry_weight == dry_weight as int
                &&& m.fuel_weight == fuel_weight as int
            },
    {
        if dry_weight < 0 || fuel_weight < 0 {
            return None;
        }
        if interpolated_forces.len() < 1 || interpolated_forces.len() > TABLE_LIMIT as usize {
            return None;
        }
        if !check_segments(&interpolated_forces) {
            return None;
        }
        Some(
            Motor {
                original_forces_len: interpolated_forces.len(),
                forces: interpolated_forces,
                lit: false,
                delay_left: 0,
                dry_weight,
                fuel_weight,
            },
        )
    }

    /// Whether the table is exhausted.
    pub fn burnt_out(&self) -> (r: bool)
        ensures
            r == (self@.forces.len() == 0),
    {
        self.forces.len() == 0
    }

    /// Whether the motor has been lit.
    pub fn lit(&self) -> (r: bool)
        ensures
            r == self@.lit,
    {
        self.lit
    }

    /// Light the motor with the given ignition delay.  Lighting an
    /// already lit or burnt-out motor is a no-op.
    pub fn light(&mut self, delay: i64)
        requires
            delay >= 0,
        ensures
            !old(self)@.lit && old(self)@.forces.len() > 0 ==> final(self)@ == (MotorV {
                lit: true,
                delay_left: delay as int,
                ..old(self)@
            }),
            old(self)@.lit || old(self)@.forces.len() == 0 ==> final(self)@ == old(self)@,
            motor_wf(old(self)@) ==> motor_wf(final(self)@),
    {
        if !self.lit && self.forces.len() > 0 {
            self.lit = true;
            self.delay_left = delay;
        }
    }

    /// Light the motor with an ignition delay drawn at random between
    /// eighty and one hundred percent of the given maximum.  Whatever
    /// the draw, the delay lies between eighty percent of the maximum,
    /// rounded down, and the maximum itself.
    pub fn light_random(&mut self, max_delay: i64)
        requires
            max_delay >= 0,
        ensures
            !old(self)@.lit && old(self)@.forces.len() > 0 ==> {
                &&& final(self)@.lit
                &&& tdiv(max_delay as int * 80, 100) <= final(self)@.delay_left <= max_delay as int
                &&& final(self)@ == (MotorV {
                    lit: true,
                    delay_left: final(self)@.delay_left,
                    ..old(self)@
                })
            },
            old(self)@.lit || old(self)@.forces.len() == 0 ==> final(self)@ == old(self)@,
            motor_wf(old(self)@) ==> motor_wf(final(self)@),
    {
        let pct = gen_range_i64(80, 100);
        proof {
            crate::fx::lemma_i64_mul_bound(max_delay as int, pct as int);
            assert(0 <= (max_delay as int) * 80 <= (max_delay as int) * (pct as int) <= (
            max_delay as int) * 100) by (nonlinear_arith)
                requires
                    max_delay as int >= 0,
                    80 <= pct as int <= 100,
            ;
            assert(0 <= ((max_delay as int) * (pct as int)) / 100 <= max_delay as int)
                by (nonlinear_arith)
                requires
                    0 <= (max_delay as int) * (pct as int) <= (max_delay as int) * 100,
                    max_delay as int >= 0,
            ;
            lemma_tdiv_monotone_nonneg(
                max_delay as int * 80,
                max_delay as int * (pct as int),
                100,
            );
        }
        let wide: i128 = (max_delay as i128) * (pct as i128);
        let scaled: i128 = match wide.checked_div(100) {
            Some(v) => v,
            None => {
                proof {
                    assert(false);
                }
                0
            },
        };
        let delay: i64 = scaled as i64;
        self.light(delay);
    }

    /// Burn `dt` of time: consume segments from the head of the list and
    /// return the mean thrust of the touched segments.  An unlit or
    /// exhausted motor yields zero thrust, never an error; the ignition
    /// delay is served first and yields zero thrust too.
    #[verifier::loop_isolation(false)]
    pub fn thrust_for(&mut self, dt: i64) -> (r: i64)
        requires
            dt >= 0,
            motor_wf(old(self)@),
        ensures
            motor_wf(final(self)@),
            final(self)@ == spec_motor_after(old(self)@, dt as int),
            r == spec_motor_thrust(old(self)@, dt as int),
    {
        if self.forces.len() == 0 {
            return 0;
        }
        if !self.lit {
            return 0;
        }
        let mut rem: i64 = dt;
        if self.delay_left >= rem {
            self.delay_left = self.delay_left - rem;
            return 0;
        }
        rem = rem - self.delay_left;
        self.delay_left = 0;
        let ghost s0 = self.forces@;
        let ghost burn = rem as int;
        let mut sum: i128 = 0;
        let mut count: i64 = 0;
        proof {
            lemma_consume_count_pos(s0, burn);
            lemma_consume_shape(s0, burn);
        }
        loop
            invariant
                self@ == (MotorV { forces: self.forces@, delay_left: 0, ..old(self)@ }),
                segments_ok(self.forces@),
                self.forces@.len() <= s0.len(),
                0 <= rem,
                rem as int <= burn,
                0 <= count,
                spec_abs_int(sum as int) <= (count as int) * (CURVE_LIMIT as int),
                spec_consume(s0, burn).0 == spec_consume(self.forces@, rem as int).0,
                spec_consume(s0, burn).1 == sum as int + spec_consume(self.forces@, rem as int).1,
                spec_consume(s0, burn).2 == count as int + spec_consume(self.forces@, rem as int).2,
            decreases self.forces@.len(),
        {
            if self.forces.len() == 0 || rem == 0 {
                break;
            }
            let ghost s_prev = self.forces@;
            proof {
                lemma_consume_count_nonneg(s_prev.drop_first(), rem as int - s_prev[0].0 as int);
                lemma_consume_count_nonneg(s_prev, rem as int);
                lemma_consume_count_pos(s_prev, rem as int);
            }
            let (t0, y0) = self.forces[0];
            if t0 > rem {
                let updated = (t0 - rem, y0);
                self.forces.remove(0);
                self.forces.insert(0, updated);
                proof {
                    assert(self.forces@ =~= s_prev.update(
                        0,
                        ((s_prev[0].0 as int - rem as int) as i64, s_prev[0].1),
                    ));
                }
                sum = sum + (y0 as i128);
                count = count + 1;
                proof {
                    assert((count as int) * (CURVE_LIMIT as int) == (count as int - 1) * (
                    CURVE_LIMIT as int) + CURVE_LIMIT as int) by (nonlinear_arith);
                }
                rem = 0;
                break;
            } else {
                self.forces.remove(0);
                proof {
                    assert(self.forces@ =~= s_prev.drop_first());
                }
                sum = sum + (y0 as i128);
                count = count + 1;
                proof {
                    assert((count as int) * (CURVE_LIMIT as int) == (count as int - 1) * (
                    CURVE_LIMIT as int) + CURVE_LIMIT as int) by (nonlinear_arith);
                }
                rem = rem - t0;
            }
        }
        proof {
            assert(count as int == spec_consume(s0, burn).2);
            assert(count >= 1);
            assert((count as int) * (CURVE_LIMIT as int)
                <= 0x4000_0000_0000_0000_0000_0000_0000_0000) by (nonlinear_arith)
                requires
                    0 <= count as int <= 0x7fff_ffff_ffff_ffff,
            ;
            crate::fx::lemma_tdiv_magnitude(sum as int, count as int);
        }
        let mean: i128 = match sum.checked_div(count as i128) {
            Some(v) => v,
            None => {
                proof {
                    assert(false);
                }
                0
            },
        };
        sat_i128(mean)
    }

    /// The fraction of the original table still unburnt, as a
    /// fixed-point scalar.
    pub fn precentage_done(&self) -> (r: i64)
        requires
            motor_wf(self@),
        ensures
            r as int == spec_div(self@.forces.len() as int, self@.original_forces_len),
    {
        proof {
            crate::fx::lemma_i64_mul_bound(self@.forces.len() as int, SCALE as int);
            crate::fx::lemma_tdiv_magnitude(
                self@.forces.len() as int * SCALE as int,
                self@.original_forces_len,
            );
        }
        let len: i64 = self.forces.len() as i64;
        let orig: i64 = self.original_forces_len as i64;
        crate::fx::fx_div(len, orig)
    }

    /// The current mass: the dry mass plus the fuel mass scaled by the
    /// unburnt fraction of the table.
    pub fn weight(&self) -> (r: i64)
        requires
            motor_wf(self@),
        ensures
            r as int == spec_motor_weight(self@),
    {
        let pct = self.precentage_done();
        crate::fx::fx_add(crate::fx::fx_mul(pct, self.fuel_weight), self.dry_weight)
    }

    /// How much ignition delay is still to serve.
    pub fn delay_left(&self) -> (r: i64)
        ensures
            r as int == self@.delay_left,
    {
        self.delay_left
    }

    /// How many segments are still unburnt.
    pub fn segments_left(&self) -> (r: usize)
        ensures
            r == self@.forces.len(),
    {
        self.forces.len()
    }
}

/// Check a raw curve for well-formedness.
fn check_raw(raw: &Vec<(i64, i64)>) -> (r: bool)
    ensures
        r == raw_ok(raw@),
{
    if raw.len() < 1 {
        return false;
    }
    let mut i: usize = 0;
    while i < raw.len()
        invariant
            0 <= i <= raw@.len(),
            forall|j: int|
                0 <= j < i ==> 0 < (#[trigger] raw@[j]).0 <= CURVE_LIMIT && -CURVE_LIMIT
                    <= raw@[j].1 <= CURVE_LIMIT,
            forall|j: int|
                0 <= j < i && j + 1 < raw@.len() ==> (#[trigger] raw@[j]).0 < raw@[j + 1].0,
        decreases raw@.len() - i,
    {
        let (t, y) = raw[i];
        if !(t > 0 && t <= CURVE_LIMIT && y >= -CURVE_LIMIT && y <= CURVE_LIMIT) {
            return false;
        }
        if i + 1 < raw.len() {
            if !(t < raw[i + 1].0) {
                return false;
            }
        }
        i = i + 1;
    }
    true
}

/// Check an interpolated segment list for well-formedness.
fn check_segments(s: &Vec<(i64, i64)>) -> (r: bool)
    ensures
        r == segments_ok(s@),
{
    let mut i: usize = 0;
    while i < s.len()
        invariant
            0 <= i <= s@.len(),
            forall|j: int|
                0 <= j < i ==> 0 < (#[trigger] s@[j]).0 <= CURVE_LIMIT && -CURVE_LIMIT <= s@[j].1
                    <= CURVE_LIMIT,
        decreases s@.len() - i,
    {
        let (t, y) = s[i];
        if !(t > 0 && t <= CURVE_LIMIT && y >= -CURVE_LIMIT && y <= CURVE_LIMIT) {
            return false;
        }
        i = i + 1;
    }
    true
}

/// Interpolated tables are well-formed segment lists: the step is the
/// positive duration of each entry and every curve value stays inside
/// the curve limit.
proof fn lemma_interp_segments_ok(raw: Seq<(i64, i64)>, step: int, table: Seq<(i64, i64)>)
    requires
        raw_ok(raw),
        0 < step <= CURVE_LIMIT,
        forall|k: int|
            0 <= k < table.len() ==> (#[trigger] table[k]).0 == step && table[k].1 as int
                == spec_interp_entry(raw, step, k),
    ensures
        segments_ok(table),
{
    lemma_with_origin_ok(raw);
    assert forall|k: int|
        0 <= k < table.len() implies 0 < (#[trigger] table[k]).0 <= CURVE_LIMIT && -CURVE_LIMIT
        <= table[k].1 <= CURVE_LIMIT by {
        lemma_curve_in_limit(spec_with_origin(raw), 0, (k + 1) * step);
    }
}

/// Every value the curve takes lies inside the curve limit.
proof fn lemma_curve_in_limit(s: Seq<(i64, i64)>, i: int, t: int)
    requires
        curve_ok(s),
    ensures
        -3 * (CURVE_LIMIT as int) <= curve_at_from(s, i, t) <= 3 * (CURVE_LIMIT as int),
        -(CURVE_LIMIT as int) <= curve_at_from(s, i, t) <= CURVE_LIMIT as int,
    decreases s.len() - i,
{
    if i < 0 || i >= s.len() {
    } else if i == s.len() - 1 {
    } else if t <= s[i].0 as int {
    } else if t < s[i + 1].0 as int {
        let p = s[i];
        let q = s[i + 1];
        let dy = q.1 as int - p.1 as int;
        let dtp = t - p.0 as int;
        let seg = q.0 as int - p.0 as int;
        lemma_lerp_between(p.1 as int, q.1 as int, dtp, seg);
    } else {
        lemma_curve_in_limit(s, i + 1, t);
    }
}

/// A truncated linear blend of two values lies between them.
proof fn lemma_lerp_between(y0: int, y1: int, dtp: int, seg: int)
    requires
        0 < dtp < seg,
        -(CURVE_LIMIT as int) <= y0 <= CURVE_LIMIT as int,
        -(CURVE_LIMIT as int) <= y1 <= CURVE_LIMIT as int,
    ensures
        -(CURVE_LIMIT as int) <= sat(y0 + tdiv((y1 - y0) * dtp, seg)) <= CURVE_LIMIT as int,
{
    let dy = y1 - y0;
    let a = dy * dtp;
    if dy >= 0 {
        assert(0 <= a && a <= dy * seg) by (nonlinear_arith)
            requires
                a == dy * dtp,
                dy >= 0,
                0 < dtp < seg,
        ;
        lemma_tdiv_quotient_le(a, seg, dy);
        if a > 0 {
            assert(a / seg >= 0) by (nonlinear_arith)
                requires
                    a > 0,
                    seg > 0,
            ;
        }
        assert(0 <= tdiv(a, seg) <= dy);
    } else {
        assert(a < 0 && a * -1 <= (dy * -1) * seg) by (nonlinear_arith)
            requires
                a == dy * dtp,
                dy < 0,
                0 < dtp < seg,
        ;
        lemma_tdiv_quotient_le(a, seg, dy * -1);
        assert((a * -1) / seg >= 0) by (nonlinear_arith)
            requires
                a < 0,
                seg > 0,
        ;
        assert(dy <= tdiv(a, seg) <= 0);
    }
}

/// A quotient whose dividend magnitude is at most `c` times the positive
/// divisor has magnitude at most `c`.
pub proof fn lemma_tdiv_quotient_le(a: int, b: int, c: int)
    requires
        b > 0,
        c >= 0,
        spec_abs_int(a) <= c * b,
    ensures
        spec_abs_int(tdiv(a, b)) <= c,
{
    if a == 0 {
    } else if a > 0 {
        assert(a / b <= c) by (nonlinear_arith)
            requires
                b > 0,
                c >= 0,
                0 < a <= c * b,
        ;
        assert(a / b >= 0) by (nonlinear_arith)
            requires
                a > 0,
                b > 0,
        ;
    } else {
        assert((a * -1) / b <= c) by (nonlinear_arith)
            requires
                b > 0,
                c >= 0,
                0 < a * -1 <= c * b,
        ;
        assert((a * -1) / b >= 0) by (nonlinear_arith)
            requires
                a * -1 > 0,
                b > 0,
        ;
    }
}

} // verus!
