//! Procedural terrain: a height-field polyline over x with flattened
//! landing-pad runs, and the collision test of the lander's legs against
//! its segments.

use vstd::prelude::*;
use vstd::arithmetic::div_mod::{
    lemma_multiply_divide_le,
    lemma_div_pos_is_pos, lemma_div_is_ordered, lemma_div_plus_one, lemma_div_multiples_vanish,
    lemma_div_denominator,
};
use crate::fxp::{MilliPoint, ATAN_ARG_LIMIT, atan2_mrad_spec, atan2_mrad, floor_div};
use crate::lander::LunarLander;
use crate::rng::{rand_range_i64, rand_range_usize};

verus! {

/// One sample of the height-field, in milli-units.
#[derive(Clone, Copy, PartialEq, Eq, Structural, Debug)]
pub struct TerrainPoint {
    pub x: i64,
    pub y: i64,
    pub is_landing_pad: bool,
}

/// Why terrain generation refused its parameters.
#[derive(Clone, Copy, PartialEq, Eq, Structural, Debug)]
pub enum TerrainError {
    /// Fewer than two points cannot form a polyline.
    TooFewPoints,
    /// The screen is empty, too large for the fixed-point range, or too
    /// narrow to give each point its own x.
    InvalidScreen,
    /// A pad of the requested width cannot be placed strictly inside the
    /// point sequence.
    PadOutOfRange,
}

/// The terrain: an immutable polyline of samples with strictly
/// increasing x.
#[derive(Debug)]
pub struct Terrain {
    pub points: Vec<TerrainPoint>,
}

impl Terrain {
    /// Shape every generated terrain has: at least two points, strictly
    /// increasing x, all coordinates within the fixed-point range.
    pub open spec fn wf(self) -> bool {
        &&& self.points@.len() >= 2
        &&& forall|i: int|
            0 <= i < self.points@.len() - 1 ==> (#[trigger] self.points@[i]).x < self.points@[
                i + 1
            ].x
        &&& forall|i: int|
            0 <= i < self.points@.len() ==> 0 <= (#[trigger] self.points@[i]).x
                <= ATAN_ARG_LIMIT && 0 <= self.points@[i].y <= ATAN_ARG_LIMIT
    }
}

/// Whether a leg point touches terrain segment `i`..`i+1`: its x falls in
/// the segment's span and its y is at or below the linearly interpolated
/// surface (y grows downward on screen).
pub open spec fn point_in_segment_spec(point: MilliPoint, p1: TerrainPoint, p2: TerrainPoint) -> bool {
    &&& p1.x <= point.x <= p2.x
    &&& point.y >= p1.y + (point.x - p1.x) * (p2.y - p1.y) / (p2.x - p1.x)
}

/// Whether a leg point touches terrain segment `i`..`i+1`.
pub fn point_in_segment(point: MilliPoint, p1: TerrainPoint, p2: TerrainPoint) -> (r: bool)
    requires
        p1.x < p2.x,
        0 <= p1.x <= ATAN_ARG_LIMIT,
        0 <= p2.x <= ATAN_ARG_LIMIT,
        -ATAN_ARG_LIMIT <= p1.y <= ATAN_ARG_LIMIT,
        -ATAN_ARG_LIMIT <= p2.y <= ATAN_ARG_LIMIT,
    ensures
        r == point_in_segment_spec(point, p1, p2),
{
    if point.x < p1.x || point.x > p2.x {
        return false;
    }
    let ghost run = point.x - p1.x;
    let ghost rise = p2.y - p1.y;
    proof {
        assert(-400_000_000_000_000 <= run * rise <= 400_000_000_000_000) by (nonlinear_arith)
            requires
                0 <= run <= 20_000_000,
                -20_000_000 <= rise <= 20_000_000,
        ;
    }
    let num = (point.x - p1.x) * (p2.y - p1.y);
    let interpolated = p1.y + floor_div(num, p2.x - p1.x);
    point.y >= interpolated
}

/// The slope angle of segment `i`..`i+1`, in milli-radians.
pub open spec fn surface_angle_of(points: Seq<TerrainPoint>, i: int) -> int {
    atan2_mrad_spec(points[i + 1].y - points[i].y, points[i + 1].x - points[i].x)
}

/// The first segment index at or after `i` that the leg touches, in
/// ascending index order.
pub open spec fn first_hit_from(points: Seq<TerrainPoint>, leg: MilliPoint, i: int) -> Option<int>
    decreases points.len() - i,
{
    if i + 1 >= points.len() {
        None
    } else if point_in_segment_spec(leg, points[i], points[i + 1]) {
        Some(i)
    } else {
        first_hit_from(points, leg, i + 1)
    }
}

/// The first collision in leg-major order: all segments are tried for the
/// left leg, then for the right; the result pairs the leg index with the
/// segment index.
pub open spec fn spec_collision(points: Seq<TerrainPoint>, leg0: MilliPoint, leg1: MilliPoint) -> Option<(int, int)> {
    match first_hit_from(points, leg0, 0) {
        Some(i) => Some((0int, i)),
        None => match first_hit_from(points, leg1, 0) {
            Some(i) => Some((1int, i)),
            None => None,
        },
    }
}

proof fn lemma_first_hit_skip(points: Seq<TerrainPoint>, leg: MilliPoint, i: int)
    requires
        0 <= i,
        forall|j: int|
            0 <= j < i && j + 1 < points.len() ==> !(#[trigger] point_in_segment_spec(
                leg,
                points[j],
                points[j + 1],
            )),
    ensures
        first_hit_from(points, leg, 0) == first_hit_from(points, leg, i),
    decreases i,
{
    if i > 0 {
        lemma_first_hit_skip(points, leg, i - 1);
    }
}

impl Terrain {
    /// Test both legs against the terrain in leg-major order. On the
    /// first touching segment the lander's landing verdict is taken (a
    /// no-op if already taken) against that segment's slope, and the
    /// call reports true; with no touch the lander is left unchanged.
    pub fn check_collision(&self, lander: &mut LunarLander) -> (r: bool)
        requires
            self.wf(),
            old(lander).wf(),
        ensures
            final(lander).wf(),
            ({
                let leg0 = old(lander).local_point_spec(-15_000, -5_000);
                let leg1 = old(lander).local_point_spec(15_000, -5_000);
                match spec_collision(self.points@, leg0, leg1) {
                    Some(hit) => r && *final(lander) == old(lander).spec_checked(
                        surface_angle_of(self.points@, hit.1),
                    ),
                    None => !r && *final(lander) == *old(lander),
                }
            }),
    {
        let legs = lander.get_legs_points();
        let n = self.points.len();
        let mut k: usize = 0;
        while k < 2
            invariant
                self.wf(),
                lander.wf(),
                *lander == *old(lander),
                legs@.len() == 2,
                legs@[0] == old(lander).local_point_spec(-15_000, -5_000),
                legs@[1] == old(lander).local_point_spec(15_000, -5_000),
                n == self.points@.len(),
                k <= 2,
                forall|l: int| 0 <= l < k ==> first_hit_from(self.points@, legs@[l], 0) is None,
            decreases 2 - k,
        {
            let leg = legs[k];
            let mut i: usize = 0;
            while i + 1 < n
                invariant
                    self.wf(),
                    lander.wf(),
                    *lander == *old(lander),
                    n == self.points@.len(),
                    i + 1 <= n,
                    leg == legs@[k as int],
                    legs@.len() == 2,
                    legs@[0] == old(lander).local_point_spec(-15_000, -5_000),
                    legs@[1] == old(lander).local_point_spec(15_000, -5_000),
                    k < 2,
                    forall|l: int| 0 <= l < k ==> first_hit_from(self.points@, legs@[l], 0) is None,
                    forall|j: int|
                        0 <= j < i ==> !(#[trigger] point_in_segment_spec(
                            leg,
                            self.points@[j],
                            self.points@[j + 1],
                        )),
                decreases n - i,
            {
                let p1 = self.points[i];
                let p2 = self.points[i + 1];
                if point_in_segment(leg, p1, p2) {
                    proof {
                        lemma_first_hit_skip(self.points@, leg, i as int);
                    }
                    let sa = atan2_mrad(p2.y - p1.y, p2.x - p1.x);
                    lander.check_landing_safety(sa);
                    return true;
                }
                i += 1;
            }
            proof {
                lemma_first_hit_skip(self.points@, leg, i as int);
            }
            k += 1;
        }
        false
    }
}

impl Terrain {
    /// The filled polygon a renderer draws for the terrain: every sample
    /// point in order, closed by the two bottom screen corners.
    pub fn polygon_points(&self, screen_width: i64, screen_height: i64) -> (v: Vec<MilliPoint>)
        ensures
            v@.len() == self.points@.len() + 2,
            forall|i: int|
                0 <= i < self.points@.len() ==> #[trigger] v@[i] == (MilliPoint {
                    x: self.points@[i].x,
                    y: self.points@[i].y,
                }),
            v@[self.points@.len() as int] == (MilliPoint { x: screen_width, y: screen_height }),
            v@[self.points@.len() as int + 1] == (MilliPoint { x: 0, y: screen_height }),
    {
        let n = self.points.len();
        let mut v: Vec<MilliPoint> = Vec::new();
        let mut i: usize = 0;
        while i < n
            invariant
                n == self.points@.len(),
                i <= n,
                v@.len() == i,
                forall|j: int|
                    0 <= j < i ==> #[trigger] v@[j] == (MilliPoint {
                        x: self.points@[j].x,
                        y: self.points@[j].y,
                    }),
            decreases n - i,
        {
            let p = self.points[i];
            v.push(MilliPoint { x: p.x, y: p.y });
            i += 1;
        }
        v.push(MilliPoint { x: screen_width, y: screen_height });
        v.push(MilliPoint { x: 0, y: screen_height });
        v
    }
}

/// The sequence with the run `start..start + width` flattened to the
/// height of its first point and flagged as a landing pad; everything
/// else is untouched.
pub open spec fn padded(s: Seq<TerrainPoint>, start: int, width: int) -> Seq<TerrainPoint> {
    Seq::new(
        s.len(),
        |i: int|
            if start <= i < start + width {
                TerrainPoint { x: s[i].x, y: s[start].y, is_landing_pad: true }
            } else {
                s[i]
            },
    )
}

/// Flatten the run `start..start + width` to the height of its first
/// point and mark it as a landing pad.
pub fn add_landing_pad(points: &mut Vec<TerrainPoint>, start: usize, width: usize)
    requires
        start + width <= old(points)@.len(),
    ensures
        final(points)@ == padded(old(points)@, start as int, width as int),
{
    if width == 0 {
        proof {
            assert(points@ =~= padded(points@, start as int, 0));
        }
        return;
    }
    let n = points.len();
    let pad_height = points[start].y;
    let stop = start + width;
    let mut k = start;
    while k < stop
        invariant
            stop == start + width,
            width >= 1,
            stop <= points@.len(),
            start <= k <= stop,
            points@.len() == old(points)@.len(),
            pad_height == old(points)@[start as int].y,
            forall|i: int|
                0 <= i < points@.len() ==> points@[i] == (if start <= i < k {
                    TerrainPoint {
                        x: old(points)@[i].x,
                        y: old(points)@[start as int].y,
                        is_landing_pad: true,
                    }
                } else {
                    old(points)@[i]
                }),
        decreases stop - k,
    {
        let x = points[k].x;
        points[k] = TerrainPoint { x, y: pad_height, is_landing_pad: true };
        k += 1;
    }
    proof {
        assert(points@ =~= padded(old(points)@, start as int, width as int));
    }
}

/// The sequence after flattening a pad run at each of `starts`, in
/// order.
pub open spec fn padded_all(s: Seq<TerrainPoint>, starts: Seq<int>, width: int) -> Seq<TerrainPoint>
    decreases starts.len(),
{
    if starts.len() == 0 {
        s
    } else {
        padded(padded_all(s, starts.drop_last(), width), starts.last(), width)
    }
}

/// Whether some pad run among `starts` covers index `i`.
pub open spec fn covered_by_pad(starts: Seq<int>, width: int, i: int) -> bool {
    exists|k: int| 0 <= k < starts.len() && #[trigger] starts[k] <= i < starts[k] + width
}

/// Pads placed at ascending starts that do not overlap come out exactly
/// as placed: each run's points all hold the height of the run's first
/// point and carry the pad flag, and every point outside all runs keeps
/// its original sample.
pub proof fn lemma_disjoint_pads(s: Seq<TerrainPoint>, starts: Seq<int>, width: int)
    requires
        width >= 1,
        forall|k: int|
            0 <= k < starts.len() ==> 0 <= #[trigger] starts[k] && starts[k] + width <= s.len(),
        forall|k: int, l: int| 0 <= k < l < starts.len() ==> #[trigger] starts[k] + width <= #[trigger] starts[l],
    ensures
        padded_all(s, starts, width).len() == s.len(),
        forall|k: int, i: int|
            0 <= k < starts.len() && #[trigger] starts[k] <= i < starts[k] + width
                ==> #[trigger] padded_all(s, starts, width)[i] == (TerrainPoint {
                x: s[i].x,
                y: s[starts[k]].y,
                is_landing_pad: true,
            }),
        forall|i: int|
            0 <= i < s.len() && !covered_by_pad(starts, width, i) ==> #[trigger] padded_all(
                s,
                starts,
                width,
            )[i] == s[i],
    decreases starts.len(),
{
    if starts.len() > 0 {
        let pre = starts.drop_last();
        let last = starts.last();
        assert(last == starts[starts.len() - 1]);
        assert forall|k: int| 0 <= k < pre.len() implies 0 <= #[trigger] pre[k] && pre[k] + width
            <= s.len() by {
            assert(pre[k] == starts[k]);
        }
        assert forall|k: int, l: int| 0 <= k < l < pre.len() implies #[trigger] pre[k] + width
            <= #[trigger] pre[l] by {
            assert(pre[k] == starts[k] && pre[l] == starts[l]);
        }
        lemma_disjoint_pads(s, pre, width);
        let r0 = padded_all(s, pre, width);
        let r = padded_all(s, starts, width);
        assert(r == padded(r0, last, width));
        assert forall|i: int| last <= i < s.len() implies r0[i] == s[i] by {
            if covered_by_pad(pre, width, i) {
                let k = choose|k: int| 0 <= k < pre.len() && #[trigger] pre[k] <= i < pre[k] + width;
                assert(pre[k] == starts[k]);
                assert(starts[k] + width <= starts[starts.len() - 1]);
                assert(false);
            }
        }
        assert forall|k: int, i: int|
            0 <= k < starts.len() && #[trigger] starts[k] <= i < starts[k]
                + width implies #[trigger] r[i] == (TerrainPoint {
            x: s[i].x,
            y: s[starts[k]].y,
            is_landing_pad: true,
        }) by {
            if k == starts.len() - 1 {
                assert(r0[i] == s[i]);
                assert(r0[last] == s[last]);
                assert(r[i] == (TerrainPoint { x: r0[i].x, y: r0[last].y, is_landing_pad: true }));
            } else {
                assert(starts[k] + width <= starts[starts.len() - 1]);
                assert(i < last);
                assert(r[i] == r0[i]);
                assert(pre[k] == starts[k]);
                assert(r0[i] == (TerrainPoint { x: s[i].x, y: s[pre[k]].y, is_landing_pad: true }));
            }
        }
        assert forall|i: int|
            0 <= i < s.len() && !covered_by_pad(starts, width, i) implies #[trigger] r[i]
            == s[i] by {
            if last <= i < last + width {
                assert(starts[starts.len() - 1] <= i < starts[starts.len() - 1] + width);
                assert(covered_by_pad(starts, width, i));
                assert(false);
            }
            if covered_by_pad(pre, width, i) {
                let k = choose|k: int| 0 <= k < pre.len() && #[trigger] pre[k] <= i < pre[k] + width;
                assert(starts[k] <= i < starts[k] + width);
                assert(covered_by_pad(starts, width, i));
                assert(false);
            }
            assert(r[i] == r0[i]);
        }
    }
}

/// Whether the `width` points from `start` on are all flagged as a
/// landing pad and flat at the height of the run's first point.
pub open spec fn flat_flagged_run(s: Seq<TerrainPoint>, start: int, width: int) -> bool {
    forall|i: int|
        start <= i < start + width ==> (#[trigger] s[i]).is_landing_pad && s[i].y == s[start].y
}

/// Whether some flat flagged run of `width` points sits strictly inside
/// the sequence.
pub open spec fn has_flat_pad_run(s: Seq<TerrainPoint>, width: int) -> bool {
    exists|start: int|
        1 <= start && start + width <= s.len() - 1 && #[trigger] flat_flagged_run(s, start, width)
}

/// The shape every successfully generated terrain has: well-formed,
/// `num_points` samples on the even x-grid from 0 to `screen_width`,
/// heights inside the band between 2/3 and 5/6 of `screen_height`.
pub open spec fn generated_shape(
    t: Terrain,
    screen_width: int,
    screen_height: int,
    num_points: int,
) -> bool {
    &&& t.wf()
    &&& t.points@.len() == num_points
    &&& forall|i: int|
        0 <= i < num_points ==> (#[trigger] t.points@[i]).x == i * screen_width / (num_points - 1)
    &&& t.points@[0].x == 0
    &&& t.points@[num_points - 1].x == screen_width
    &&& forall|i: int|
        0 <= i < num_points ==> 2 * screen_height / 3 <= (#[trigger] t.points@[i]).y <= 5
            * screen_height / 6
}

/// The reason, if any, that a set of generation parameters is refused.
pub open spec fn gen_params_error(
    screen_width: int,
    screen_height: int,
    num_points: int,
    num_pads: int,
    pad_width: int,
) -> Option<TerrainError> {
    if num_points < 2 {
        Some(TerrainError::TooFewPoints)
    } else if screen_width < 1 || screen_width > ATAN_ARG_LIMIT || screen_height < 1
        || screen_height > ATAN_ARG_LIMIT || screen_width < num_points - 1 {
        Some(TerrainError::InvalidScreen)
    } else if num_pads > 0 && (pad_width < 1 || pad_width + 2 > num_points) {
        Some(TerrainError::PadOutOfRange)
    } else {
        None
    }
}

/// Generate a terrain: `num_points` samples at even x-spacing from 0 to
/// `screen_width`, heights drawn uniformly from the band between 2/3 and
/// 5/6 of `screen_height`, then `num_pads` runs of `pad_width` points
/// flattened into landing pads at positions drawn strictly inside the
/// sequence. All quantities are in milli-units. Fails exactly on invalid
/// parameters.
pub fn generate_terrain(
    screen_width: i64,
    screen_height: i64,
    num_points: usize,
    num_pads: usize,
    pad_width: usize,
) -> (r: Result<Terrain, TerrainError>)
    ensures
        ({
            let err = gen_params_error(
                screen_width as int,
                screen_height as int,
                num_points as int,
                num_pads as int,
                pad_width as int,
            );
            match r {
                Result::Err(e) => err == Some(e),
                Result::Ok(t) => {
                    &&& err is None
                    &&& generated_shape(
                        t,
                        screen_width as int,
                        screen_height as int,
                        num_points as int,
                    )
                    &&& num_pads == 0 ==> forall|i: int|
                        0 <= i < num_points ==> !(#[trigger] t.points@[i]).is_landing_pad
                    &&& num_pads > 0 ==> has_flat_pad_run(t.points@, pad_width as int)
                    &&& forall|i: int|
                        0 <= i < num_points && (#[trigger] t.points@[i]).is_landing_pad ==> 1 <= i
                            < num_points - 1
                },
            }
        }),
{
    if num_points < 2 {
        return Err(TerrainError::TooFewPoints);
    }
    if screen_width < 1 || screen_width > ATAN_ARG_LIMIT || screen_height < 1 || screen_height
        > ATAN_ARG_LIMIT || (screen_width as usize) < num_points - 1 {
        return Err(TerrainError::InvalidScreen);
    }
    if num_pads > 0 && (pad_width < 1 || num_points - 2 < pad_width) {
        return Err(TerrainError::PadOutOfRange);
    }
    let band_lo = floor_div(2 * screen_height, 3);
    let band_hi = floor_div(5 * screen_height, 6);
    proof {
        lemma_div_denominator(4 * screen_height as int, 2, 3);
        assert((4 * screen_height as int) / 2 == 2 * screen_height as int);
        lemma_div_is_ordered(4 * screen_height as int, 5 * screen_height as int, 6);
        lemma_div_pos_is_pos(2 * screen_height as int, 3);
        lemma_div_is_ordered(5 * screen_height as int, 6 * screen_height as int, 6);
        lemma_div_multiples_vanish(screen_height as int, 6);
        assert(6 * screen_height as int == screen_height as int * 6);
    }
    let denom = (num_points - 1) as i64;
    let mut points: Vec<TerrainPoint> = Vec::new();
    let mut i: usize = 0;
    while i < num_points
        invariant
            2 <= num_points,
            denom == num_points - 1,
            denom <= screen_width <= ATAN_ARG_LIMIT,
            1 <= screen_height <= ATAN_ARG_LIMIT,
            0 <= band_lo == 2 * screen_height as int / 3,
            band_lo <= band_hi == 5 * screen_height as int / 6,
            band_hi <= screen_height,
            i <= num_points,
            points@.len() == i,
            forall|j: int|
                0 <= j < i ==> (#[trigger] points@[j]).x == j * screen_width / (num_points - 1),
            forall|j: int| 0 <= j < i ==> band_lo <= (#[trigger] points@[j]).y <= band_hi,
            forall|j: int| 0 <= j < i ==> !(#[trigger] points@[j]).is_landing_pad,
        decreases num_points - i,
    {
        proof {
            assert(0 <= i as int * screen_width as int <= ATAN_ARG_LIMIT * ATAN_ARG_LIMIT)
                by (nonlinear_arith)
                requires
                    0 <= i as int <= ATAN_ARG_LIMIT,
                    0 <= screen_width as int <= ATAN_ARG_LIMIT,
            ;
        }
        let x = floor_div((i as i64) * screen_width, denom);
        let y = rand_range_i64(band_lo, band_hi);
        points.push(TerrainPoint { x, y, is_landing_pad: false });
        i += 1;
    }
    let mut p: usize = 0;
    while p < num_pads
        invariant
            2 <= num_points,
            num_pads > 0 ==> 1 <= pad_width && pad_width + 2 <= num_points,
            p <= num_pads,
            points@.len() == num_points,
            1 <= screen_height <= ATAN_ARG_LIMIT,
            0 <= band_lo == 2 * screen_height as int / 3,
            band_lo <= band_hi == 5 * screen_height as int / 6,
            band_hi <= screen_height,
            forall|j: int|
                0 <= j < num_points ==> (#[trigger] points@[j]).x == j * screen_width / (num_points
                    - 1),
            forall|j: int| 0 <= j < num_points ==> band_lo <= (#[trigger] points@[j]).y <= band_hi,
            num_pads == 0 ==> forall|j: int|
                0 <= j < num_points ==> !(#[trigger] points@[j]).is_landing_pad,
            p > 0 ==> has_flat_pad_run(points@, pad_width as int),
            forall|j: int|
                0 <= j < num_points && (#[trigger] points@[j]).is_landing_pad ==> 1 <= j
                    < num_points - 1,
        decreases num_pads - p,
    {
        let start = rand_range_usize(1, num_points - pad_width - 1);
        let ghost before = points@;
        add_landing_pad(&mut points, start, pad_width);
        proof {
            assert forall|i: int|
                start <= i < start + pad_width implies (#[trigger] points@[i]).is_landing_pad
                && points@[i].y == points@[start as int].y by {
                assert(points@[i] == (TerrainPoint {
                    x: before[i].x,
                    y: before[start as int].y,
                    is_landing_pad: true,
                }));
            }
            assert(flat_flagged_run(points@, start as int, pad_width as int));
            assert(has_flat_pad_run(points@, pad_width as int));
            assert forall|j: int|
                0 <= j < num_points && (#[trigger] points@[j]).is_landing_pad implies 1 <= j
                < num_points - 1 by {
                if !(start <= j < start + pad_width) {
                    assert(points@[j] == before[j]);
                }
            }
        }
        p += 1;
    }
    let terrain = Terrain { points };
    proof {
        let pts = terrain.points@;
        let w = screen_width as int;
        let d = num_points as int - 1;
        assert forall|j: int| 0 <= j < num_points - 1 implies (#[trigger] pts[j]).x < pts[j
            + 1].x by {
            assert((j + 1) * w == j * w + w) by (nonlinear_arith);
            lemma_div_is_ordered(j * w + d, (j + 1) * w, d);
            lemma_div_plus_one(j * w, d);
        }
        assert forall|j: int| 0 <= j < num_points implies 0 <= (#[trigger] pts[j]).x
            <= ATAN_ARG_LIMIT by {
            lemma_div_pos_is_pos(j * w, d);
            assert(j * w <= d * ATAN_ARG_LIMIT) by (nonlinear_arith)
                requires
                    0 <= j <= d,
                    0 <= w <= ATAN_ARG_LIMIT,
            ;
            lemma_multiply_divide_le(j * w, d, ATAN_ARG_LIMIT as int);
        }
        assert(pts[0].x == 0 * w / d);
        assert(0 * w == 0) by (nonlinear_arith);
        lemma_div_pos_is_pos(0, d);
        assert(0int / d == 0) by {
            lemma_div_multiples_vanish(0, d);
        }
        assert(pts[num_points - 1].x == d * w / d);
        lemma_div_multiples_vanish(w, d);
        assert(d * w == w * d) by (nonlinear_arith);
    }
    Ok(terrain)
}

} // verus!
