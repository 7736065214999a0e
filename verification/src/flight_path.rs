//! The flight-path follower: piecewise-linear interpolation over a
//! time-ordered setpoint sequence.
//!
//! A query before the first sample returns the first sample; a query
//! past the last sample holds the last one.  A query exactly at a stored
//! sample time returns that sample's coordinates exactly.

use vstd::prelude::*;

use crate::fx::{sat, sat_i128, tdiv};
use crate::motor::{spec_lerp, CURVE_LIMIT};
use crate::vec3::Vec3;

verus! {

/// One flight-path row: a timestamp and the target coordinates.
#[derive(Clone, Copy, PartialEq, Eq, Structural, Debug)]
pub struct Setpoint {
    pub t: i64,
    pub x: i64,
    pub y: i64,
    pub z: i64,
}

/// A well-formed setpoint sequence: strictly increasing times, all
/// entries bounded.
pub open spec fn path_ok(s: Seq<Setpoint>) -> bool {
    &&& forall|i: int|
        0 <= i < s.len() ==> 0 <= (#[trigger] s[i]).t <= CURVE_LIMIT && -CURVE_LIMIT <= s[i].x
            <= CURVE_LIMIT && -CURVE_LIMIT <= s[i].y <= CURVE_LIMIT && -CURVE_LIMIT <= s[i].z
            <= CURVE_LIMIT
    &&& forall|i: int| 0 <= i < s.len() - 1 ==> (#[trigger] s[i]).t < s[i + 1].t
}

/// The coordinates of a setpoint as a vector.
pub open spec fn spec_setpoint_vec(p: Setpoint) -> Vec3 {
    Vec3 { x: p.x, y: p.y, z: p.z }
}

/// The interpolated target at time `t`, scanning from index `i`.
pub open spec fn path_at_from(s: Seq<Setpoint>, i: int, t: int) -> Vec3
    decreases s.len() - i,
{
    if i < 0 || i >= s.len() {
        Vec3 { x: 0i64, y: 0i64, z: 0i64 }
    } else if i == s.len() - 1 {
        spec_setpoint_vec(s[i])
    } else if t <= s[i].t as int {
        spec_setpoint_vec(s[i])
    } else if t < s[i + 1].t as int {
        Vec3 {
            x: spec_lerp((s[i].t, s[i].x), (s[i + 1].t, s[i + 1].x), t) as i64,
            y: spec_lerp((s[i].t, s[i].y), (s[i + 1].t, s[i + 1].y), t) as i64,
            z: spec_lerp((s[i].t, s[i].z), (s[i + 1].t, s[i + 1].z), t) as i64,
        }
    } else {
        path_at_from(s, i + 1, t)
    }
}

/// The interpolated target at time `t`.
pub open spec fn spec_path_at(s: Seq<Setpoint>, t: int) -> Vec3 {
    path_at_from(s, 0, t)
}

/// Setpoint times increase across any pair of indices.
proof fn lemma_path_times_increasing(s: Seq<Setpoint>, a: int, b: int)
    requires
        path_ok(s),
        0 <= a < b < s.len(),
    ensures
        (s[a].t as int) < s[b].t as int,
    decreases b - a,
{
    if a + 1 < b {
        lemma_path_times_increasing(s, a + 1, b);
    }
}

/// Scanning from an earlier index does not change the value read at a
/// stored sample time.
proof fn lemma_path_from_exact(s: Seq<Setpoint>, j: int, i: int)
    requires
        path_ok(s),
        0 <= j <= i < s.len(),
    ensures
        path_at_from(s, j, s[i].t as int) == spec_setpoint_vec(s[i]),
    decreases i - j,
{
    if j < i {
        lemma_path_times_increasing(s, j, i);
        if j + 1 < i {
            lemma_path_times_increasing(s, j + 1, i);
        }
        lemma_path_from_exact(s, j + 1, i);
    }
}

/// The path queried exactly at a stored sample time returns that
/// sample's coordinates exactly.
pub proof fn lemma_path_exact_at_sample(s: Seq<Setpoint>, i: int)
    requires
        path_ok(s),
        0 <= i < s.len(),
    ensures
        spec_path_at(s, s[i].t as int) == spec_setpoint_vec(s[i]),
{
    lemma_path_from_exact(s, 0, i);
}

/// The path queried before the first sample time returns the first
/// sample.
pub proof fn lemma_path_before_first(s: Seq<Setpoint>, t: int)
    requires
        path_ok(s),
        s.len() > 0,
        t <= s[0].t as int,
    ensures
        spec_path_at(s, t) == spec_setpoint_vec(s[0]),
{
}

/// The flight path: the loaded setpoints and the last interpolated
/// target, cached so repeated queries are idempotent.
pub struct FlightPath {
    setpoints: Vec<Setpoint>,
    current_setpoint: Vec3,
}

/// The mathematical state of the flight path.
pub ghost struct FlightPathV {
    pub setpoints: Seq<Setpoint>,
    pub current_setpoint: Vec3,
}

impl View for FlightPath {
    type V = FlightPathV;

    closed spec fn view(&self) -> FlightPathV {
        FlightPathV { setpoints: self.setpoints@, current_setpoint: self.current_setpoint }
    }
}

impl FlightPath {
    /// Load a setpoint sequence.  A sequence whose times are not
    /// strictly increasing, or with an entry out of bounds, is malformed
    /// and rejected before any state exists.
    pub fn new(setpoints: Vec<Setpoint>) -> (r: Option<FlightPath>)
        ensures
            r is Some <==> path_ok(setpoints@),
            r is Some ==> r->Some_0@ == (FlightPathV {
                setpoints: setpoints@,
                current_setpoint: Vec3 { x: 0i64, y: 0i64, z: 0i64 },
            }),
    {
        if !check_path(&setpoints) {
            return None;
        }
        Some(FlightPath { setpoints, current_setpoint: Vec3 { x: 0, y: 0, z: 0 } })
    }

    /// The interpolated target for a query time: the latest sample at or
    /// before the time blended with the earliest sample after it.  The
    /// result is cached; with no samples loaded the previous cache is
    /// returned unchanged.
    pub fn get_next_setpoint(&mut self, time: i64) -> (r: Vec3)
        requires
            path_ok(old(self)@.setpoints),
        ensures
            old(self)@.setpoints.len() == 0 ==> final(self)@ == old(self)@ && r == old(
                self,
            )@.current_setpoint,
            old(self)@.setpoints.len() > 0 ==> {
                &&& r == spec_path_at(old(self)@.setpoints, time as int)
                &&& final(self)@ == (FlightPathV { current_setpoint: r, ..old(self)@ })
            },
            path_ok(final(self)@.setpoints),
    {
        if self.setpoints.len() == 0 {
            return self.current_setpoint;
        }
        let v = path_value(&self.setpoints, time);
        self.current_setpoint = v;
        v
    }

    /// The cached target of the last query.
    pub fn current_setpoint(&self) -> (r: Vec3)
        ensures
            r == self@.current_setpoint,
    {
        self.current_setpoint
    }

    /// How many setpoints are loaded.
    pub fn len(&self) -> (r: usize)
        ensures
            r == self@.setpoints.len(),
    {
        self.setpoints.len()
    }
}

/// The interpolated target at a query time, read from the samples.
fn path_value(s: &Vec<Setpoint>, t: i64) -> (r: Vec3)
    requires
        path_ok(s@),
        s@.len() > 0,
    ensures
        r == spec_path_at(s@, t as int),
{
    let n = s.len();
    let mut i: usize = 0;
    loop
        invariant
            0 <= i < n,
            n == s@.len(),
            path_ok(s@),
            path_at_from(s@, 0, t as int) == path_at_from(s@, i as int, t as int),
        decreases n - i,
    {
        let p = s[i];
        if i == n - 1 {
            return Vec3 { x: p.x, y: p.y, z: p.z };
        }
        if t <= p.t {
            return Vec3 { x: p.x, y: p.y, z: p.z };
        }
        let q = s[i + 1];
        if t < q.t {
            return Vec3 {
                x: lerp_coord(p.t, p.x, q.t, q.x, t),
                y: lerp_coord(p.t, p.y, q.t, q.y, t),
                z: lerp_coord(p.t, p.z, q.t, q.z, t),
            };
        }
        i = i + 1;
    }
}

/// One coordinate blended linearly between two samples.
fn lerp_coord(t0: i64, v0: i64, t1: i64, v1: i64, t: i64) -> (r: i64)
    requires
        -CURVE_LIMIT <= v0 <= CURVE_LIMIT,
        -CURVE_LIMIT <= v1 <= CURVE_LIMIT,
        0 <= t0,
        t1 <= CURVE_LIMIT,
        t0 < t < t1,
    ensures
        r as int == spec_lerp((t0, v0), (t1, v1), t as int),
{
    proof {
        assert((v1 as int - v0 as int) * (t as int - t0 as int)
            <= 0x4000_0000_0000_0000_0000_0000_0000_0000 && (v1 as int - v0 as int) * (t as int
            - t0 as int) >= -0x4000_0000_0000_0000_0000_0000_0000_0000) by (nonlinear_arith)
            requires
                -0x8000_0000_0000_0000 <= v1 as int - v0 as int <= 0x8000_0000_0000_0000,
                -0x8000_0000_0000_0000 <= t as int - t0 as int <= 0x8000_0000_0000_0000,
        ;
    }
    let num: i128 = ((v1 as i128) - (v0 as i128)) * ((t as i128) - (t0 as i128));
    let den: i128 = (t1 as i128) - (t0 as i128);
    proof {
        crate::fx::lemma_tdiv_magnitude(num as int, den as int);
    }
    let q: i128 = match num.checked_div(den) {
        Some(v) => v,
        None => {
            proof {
                assert(false);
            }
            0
        },
    };
    sat_i128((v0 as i128) + q)
}

/// Check a setpoint sequence for well-formedness.
fn check_path(s: &Vec<Setpoint>) -> (r: bool)
    ensures
        r == path_ok(s@),
{
    let mut i: usize = 0;
    while i < s.len()
        invariant
            0 <= i <= s@.len(),
            forall|j: int|
                0 <= j < i ==> 0 <= (#[trigger] s@[j]).t <= CURVE_LIMIT && -CURVE_LIMIT <= s@[j].x
                    <= CURVE_LIMIT && -CURVE_LIMIT <= s@[j].y <= CURVE_LIMIT && -CURVE_LIMIT
                    <= s@[j].z <= CURVE_LIMIT,
            forall|j: int|
                0 <= j < i && j + 1 < s@.len() ==> (#[trigger] s@[j]).t < s@[j + 1].t,
        decreases s@.len() - i,
    {
        let p = s[i];
        if !(p.t >= 0 && p.t <= CURVE_LIMIT && p.x >= -CURVE_LIMIT && p.x <= CURVE_LIMIT && p.y
            >= -CURVE_LIMIT && p.y <= CURVE_LIMIT && p.z >= -CURVE_LIMIT && p.z <= CURVE_LIMIT) {
            return false;
        }
        if i + 1 < s.len() {
            if !(p.t < s[i + 1].t) {
                return false;
            }
        }
        i = i + 1;
    }
    true
}

} // verus!
