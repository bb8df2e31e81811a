//! The drawing session: the curves drawn so far and the wall of each.

use crate::brick::Brick;
use crate::instanced_wall::{InstancedWall, WallData};
use crate::math::{distance_between, distance_bits};
use crate::mesh_buffer::{MeshBuffer, MeshData};
use glam::Vec3;
use vstd::prelude::*;

verus! {

/// Bit pattern of the single-precision number 0.001, the least distance that
/// a new sample must exceed from every point already on its curve.
pub const MIN_SPACING_BITS: u32 = 0x3A83_126F;

/// Bit pattern of single-precision positive infinity.
pub const INFINITY_BITS: u32 = 0x7F80_0000;

/// Fewest points of a curve that a wall can follow.
pub const MIN_CURVE_POINTS: usize = 2;

/// The bit pattern `bits` encodes a number greater than the minimum spacing.
/// Non-negative single-precision numbers are ordered as their bit patterns
/// are; patterns above that of infinity encode no number or a negative one.
pub open spec fn is_apart(bits: u32) -> bool {
    MIN_SPACING_BITS < bits <= INFINITY_BITS
}

/// Whether a distance, given as its bit pattern, exceeds the minimum spacing.
pub fn exceeds_min_spacing(bits: u32) -> (apart: bool)
    ensures
        apart == is_apart(bits),
{
    MIN_SPACING_BITS < bits && bits <= INFINITY_BITS
}

/// `sample` lies farther than the minimum spacing from every one of `points`.
pub open spec fn keeps_spacing(points: Seq<Vec3>, sample: Vec3) -> bool {
    forall|k: int| 0 <= k < points.len() ==> is_apart(#[trigger] distance_bits(sample, points[k]))
}

/// One curve of the session, as sequences.
pub struct CurveData {
    /// The samples as they were drawn.
    pub points: Seq<Vec3>,
    /// The smoothed curve handed in with the last tick.
    pub smoothed: Seq<Vec3>,
    /// The wall along the curve, once there is one.
    pub wall: Option<WallData>,
}

impl CurveData {
    /// A curve without points and without a wall.
    pub open spec fn empty() -> CurveData {
        CurveData { points: Seq::empty(), smoothed: Seq::empty(), wall: None }
    }

    /// The curve has raw points enough to be smoothed into a path.
    pub open spec fn is_drawable(self) -> bool {
        self.points.len() >= MIN_CURVE_POINTS
    }

    /// A wall, where there is one, is baked from `template`.
    pub open spec fn is_consistent(self, template: MeshData) -> bool {
        match self.wall {
            Some(wall) => wall.is_baked() && wall.template == template,
            None => true,
        }
    }
}

/// The session, as sequences. The last curve is the active one.
pub struct SessionData {
    pub template: MeshData,
    pub curves: Seq<CurveData>,
}

impl SessionData {
    /// Every curve is consistent with the session's template.
    pub open spec fn is_consistent(self) -> bool {
        forall|i: int| 0 <= i < self.curves.len() ==> (#[trigger] self.curves[i]).is_consistent(
            self.template,
        )
    }

    /// The session without any curve.
    pub open spec fn cleared(self) -> SessionData {
        SessionData { template: self.template, curves: Seq::empty() }
    }

    /// The session with a new, empty curve, which becomes the active one.
    pub open spec fn started(self) -> SessionData {
        SessionData {
            template: self.template,
            curves: self.curves.push(CurveData::empty()),
        }
    }

    /// There is an active curve, and `sample` keeps the minimum spacing from
    /// all its points.
    pub open spec fn accepts(self, sample: Vec3) -> bool {
        self.curves.len() > 0 && keeps_spacing(self.curves.last().points, sample)
    }

    /// The session after `sample` was offered to the active curve: appended
    /// where it is accepted, dropped where it is not.
    pub open spec fn sampled(self, sample: Vec3) -> SessionData {
        if self.accepts(sample) {
            SessionData {
                template: self.template,
                curves: self.curves.update(
                    self.curves.len() - 1,
                    CurveData {
                        points: self.curves.last().points.push(sample),
                        smoothed: self.curves.last().smoothed,
                        wall: self.curves.last().wall,
                    },
                ),
            }
        } else {
            self
        }
    }

    /// There is an active curve with raw points enough to be smoothed.
    pub open spec fn is_drawable(self) -> bool {
        self.curves.len() > 0 && self.curves.last().is_drawable()
    }

    /// A tick with the smoothed curve `smoothed` rebuilds the active wall:
    /// there is an active curve, and `smoothed` has points enough for a wall
    /// to follow it.
    pub open spec fn rebuilds(self, smoothed: Seq<Vec3>) -> bool {
        self.curves.len() > 0 && smoothed.len() >= MIN_CURVE_POINTS
    }

    /// The session after one frame of input: first the reset, then the start
    /// of a new curve, then the sample.
    pub open spec fn after_input(self, input: FrameInput) -> SessionData {
        let reset = if input.clear {
            self.cleared()
        } else {
            self
        };
        let begun = if input.begin {
            reset.started()
        } else {
            reset
        };
        match input.sample {
            Some(sample) => begun.sampled(sample),
            None => begun,
        }
    }
}

/// A sample that does not keep the minimum spacing from the last point of
/// the active curve leaves the session as it was: no curve gains a point.
pub proof fn lemma_close_sample_is_dropped(session: SessionData, sample: Vec3)
    requires
        session.curves.len() > 0,
        session.curves.last().points.len() > 0,
        !is_apart(distance_bits(sample, session.curves.last().points.last())),
    ensures
        !session.accepts(sample),
        session.sampled(sample) == session,
        session.sampled(sample).curves.last().points.len() == session.curves.last().points.len(),
{
    let points = session.curves.last().points;
    assert(!is_apart(distance_bits(sample, points[points.len() - 1])));
}

/// A sample offered to an empty active curve is always kept.
pub proof fn lemma_first_sample_is_kept(session: SessionData, sample: Vec3)
    requires
        session.curves.len() > 0,
        session.curves.last().points.len() == 0,
    ensures
        session.accepts(sample),
        session.sampled(sample).curves.last().points == seq![sample],
{
    assert(session.sampled(sample).curves.last().points =~= seq![sample]);
}

/// What the user did during one frame.
#[derive(Debug, Clone, Copy)]
pub struct FrameInput {
    /// The reset key went down.
    pub clear: bool,
    /// The drawing button went down.
    pub begin: bool,
    /// Where the pointer meets the scene while the drawing button is held.
    pub sample: Option<Vec3>,
}

/// What a tick did to the active curve's wall.
#[derive(Debug, Clone, Copy, PartialEq, Eq, Structural)]
pub enum WallStep {
    /// There is no active curve, or its smoothed curve is too short: no wall
    /// was touched.
    Idle,
    /// The active curve had no wall; it has one now.
    Created,
    /// The active curve's wall was baked anew.
    Updated,
}

/// One curve drawn by the user, with the wall that follows it.
#[derive(Debug)]
pub struct UserDrawnCurve {
    points: Vec<Vec3>,
    smoothed: Vec<Vec3>,
    wall: Option<InstancedWall>,
}

impl View for UserDrawnCurve {
    type V = CurveData;

    closed spec fn view(&self) -> CurveData {
        CurveData {
            points: self.points@,
            smoothed: self.smoothed@,
            wall: match self.wall {
                Some(wall) => Some(wall@),
                None => None,
            },
        }
    }
}

impl UserDrawnCurve {
    /// A curve without points and without a wall.
    pub fn new() -> (curve: Self)
        ensures
            curve@ == CurveData::empty(),
    {
        UserDrawnCurve { points: Vec::new(), smoothed: Vec::new(), wall: None }
    }

    /// The raw points, in drawing order.
    pub fn points(&self) -> (points: &Vec<Vec3>)
        ensures
            points@ == self@.points,
    {
        &self.points
    }

    /// The smoothed curve handed in with the last tick; empty before the
    /// first.
    pub fn smoothed(&self) -> (smoothed: &Vec<Vec3>)
        ensures
            smoothed@ == self@.smoothed,
    {
        &self.smoothed
    }

    /// The wall that follows this curve, once there is one.
    pub fn wall(&self) -> (wall: Option<&InstancedWall>)
        ensures
            match wall {
                Some(wall) => self@.wall == Some(wall@),
                None => self@.wall is None,
            },
    {
        self.wall.as_ref()
    }

    /// Whether `sample` lies farther than the minimum spacing from every
    /// point of this curve.
    pub fn keeps_spacing(&self, sample: Vec3) -> (apart: bool)
        ensures
            apart == keeps_spacing(self@.points, sample),
    {
        let mut k: usize = 0;
        while k < self.points.len()
            invariant
                k <= self.points@.len(),
                forall|j: int|
                    0 <= j < k ==> is_apart(#[trigger] distance_bits(sample, self.points@[j])),
            decreases self.points@.len() - k,
        {
            if !exceeds_min_spacing(distance_between(sample, self.points[k])) {
                return false;
            }
            k = k + 1;
        }
        true
    }
}

/// The drawing session. It owns the brick template, and for each curve its
/// raw points and its wall.
#[derive(Debug)]
pub struct CurveManager {
    template: MeshBuffer,
    user_curves: Vec<UserDrawnCurve>,
}

impl View for CurveManager {
    type V = SessionData;

    closed spec fn view(&self) -> SessionData {
        SessionData {
            template: self.template@,
            curves: Seq::new(self.user_curves@.len(), |i: int| self.user_curves@[i]@),
        }
    }
}

impl CurveManager {
    /// A session without curves, for walls built of `template`.
    pub fn new(template: MeshBuffer) -> (session: Self)
        ensures
            session@.template == template@,
            session@.curves.len() == 0,
            session@.is_consistent(),
    {
        CurveManager { template, user_curves: Vec::new() }
    }

    /// The brick template.
    pub fn template(&self) -> (template: &MeshBuffer)
        ensures
            template@ == self@.template,
    {
        &self.template
    }

    /// Number of curves drawn since the last reset.
    pub fn curve_count(&self) -> (count: usize)
        ensures
            count == self@.curves.len(),
    {
        self.user_curves.len()
    }

    /// Curve number `i`, in drawing order.
    pub fn curve(&self, i: usize) -> (curve: &UserDrawnCurve)
        requires
            i < self@.curves.len(),
        ensures
            curve@ == self@.curves[i as int],
    {
        &self.user_curves[i]
    }

    /// The active curve: the one started last.
    pub fn active_curve(&self) -> (curve: Option<&UserDrawnCurve>)
        ensures
            match curve {
                Some(curve) => self@.curves.len() > 0 && curve@ == self@.curves.last(),
                None => self@.curves.len() == 0,
            },
    {
        let count: usize = self.user_curves.len();
        if count == 0 {
            None
        } else {
            Some(self.curve(count - 1))
        }
    }

    /// The raw points of the active curve, where a wall can follow them.
    pub fn drawable_points(&self) -> (points: Option<&Vec<Vec3>>)
        ensures
            match points {
                Some(points) => self@.is_drawable() && points@ == self@.curves.last().points,
                None => !self@.is_drawable(),
            },
    {
        match self.active_curve() {
            Some(curve) => {
                if curve.points().len() >= MIN_CURVE_POINTS {
                    Some(curve.points())
                } else {
                    None
                }
            },
            None => None,
        }
    }

    /// Starts a new, empty curve and makes it the active one.
    pub fn start_curve(&mut self)
        requires
            old(self)@.is_consistent(),
        ensures
            final(self)@ == old(self)@.started(),
            final(self)@.is_consistent(),
    {
        self.user_curves.push(UserDrawnCurve::new());
        assert(self@.curves =~= old(self)@.started().curves);
    }

    /// Offers `sample` to the active curve. It is appended if it lies
    /// farther than the minimum spacing from every point of that curve, and
    /// dropped otherwise, or if there is no curve.
    pub fn append_point(&mut self, sample: Vec3) -> (appended: bool)
        requires
            old(self)@.is_consistent(),
        ensures
            appended == old(self)@.accepts(sample),
            final(self)@ == old(self)@.sampled(sample),
            final(self)@.is_consistent(),
    {
        let count: usize = self.user_curves.len();
        if count == 0 {
            return false;
        }
        if !self.user_curves[count - 1].keeps_spacing(sample) {
            return false;
        }
        let UserDrawnCurve { points, smoothed, wall } = self.user_curves.pop().unwrap();
        let mut points: Vec<Vec3> = points;
        points.push(sample);
        self.user_curves.push(UserDrawnCurve { points, smoothed, wall });
        assert(self@.curves =~= old(self)@.sampled(sample).curves);
        true
    }

    /// Forgets every curve and every wall. The template stays.
    pub fn clear_all(&mut self)
        ensures
            final(self)@ == old(self)@.cleared(),
            final(self)@.is_consistent(),
    {
        self.user_curves.clear();
        assert(self@.curves =~= old(self)@.cleared().curves);
    }

    /// Takes one frame of input: resets the session if asked, starts a new
    /// curve if asked, and offers the sample, if there is one, to the active
    /// curve.
    pub fn apply_input(&mut self, input: FrameInput)
        requires
            old(self)@.is_consistent(),
        ensures
            final(self)@ == old(self)@.after_input(input),
            final(self)@.is_consistent(),
    {
        if input.clear {
            self.clear_all();
        }
        if input.begin {
            self.start_curve();
        }
        match input.sample {
            Some(sample) => {
                self.append_point(sample);
            },
            None => {},
        }
    }

    /// One frame's work on the active curve. `smoothed` is the curve smoothed
    /// from its raw points and `bricks` the bricks laid out along `smoothed`.
    ///
    /// The smoothed curve is kept. If it has fewer than two points nothing
    /// else happens. Otherwise the wall of the active curve is baked from
    /// `bricks`, and created first where the curve had none. Without an
    /// active curve nothing happens at all.
    pub fn tick(&mut self, smoothed: Vec<Vec3>, bricks: Vec<Brick>) -> (step: WallStep)
        requires
            old(self)@.is_consistent(),
            old(self)@.template.can_hold(bricks@.len()),
        ensures
            final(self)@.template == old(self)@.template,
            final(self)@.curves.len() == old(self)@.curves.len(),
            final(self)@.is_consistent(),
            forall|i: int|
                0 <= i < old(self)@.curves.len() - 1 ==> final(self)@.curves[i] == old(
                    self,
                )@.curves[i],
            old(self)@.curves.len() == 0 ==> step == WallStep::Idle,
            old(self)@.curves.len() > 0 ==> {
                let before = old(self)@.curves.last();
                let after = final(self)@.curves.last();
                &&& after.points == before.points
                &&& after.smoothed == smoothed@
                &&& !old(self)@.rebuilds(smoothed@) ==> step == WallStep::Idle && after.wall
                    == before.wall
                &&& old(self)@.rebuilds(smoothed@) ==> {
                    &&& step == if before.wall is Some {
                        WallStep::Updated
                    } else {
                        WallStep::Created
                    }
                    &&& after.wall is Some
                    &&& after.wall->0.template == old(self)@.template
                    &&& after.wall->0.bricks == bricks@
                    &&& after.wall->0.is_baked()
                }
            },
    {
        let count: usize = self.user_curves.len();
        if count == 0 {
            return WallStep::Idle;
        }
        let UserDrawnCurve { points, smoothed: _, wall } = self.user_curves.pop().unwrap();
        let (wall, step) = if smoothed.len() < MIN_CURVE_POINTS {
            (wall, WallStep::Idle)
        } else {
            match wall {
                Some(wall) => {
                    let mut wall: InstancedWall = wall;
                    wall.update(bricks);
                    (Some(wall), WallStep::Updated)
                },
                None => (
                    Some(InstancedWall::new(bricks, self.template.clone())),
                    WallStep::Created,
                ),
            }
        };
        self.user_curves.push(UserDrawnCurve { points, smoothed, wall });
        proof {
            let before = old(self)@;
            let after = self@;
            assert forall|i: int| 0 <= i < after.curves.len() implies (#[trigger] after.curves[i])
                .is_consistent(after.template) by {
                if i < after.curves.len() - 1 {
                    assert(after.curves[i] == before.curves[i]);
                } else {
                    assert(before.curves[i].is_consistent(before.template));
                }
            }
        }
        step
    }
}

} // verus!
