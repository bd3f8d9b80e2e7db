//! The orbit camera: a viewpoint held in spherical coordinates around a
//! target, kept inside its bounds by every operation that changes it.
//!
//! Scalars are fixed-point (see [`crate::fixed`]): distances in millionths of
//! a world unit, angles in millionths of a radian.
use crate::fixed::{
    clamp, clamp_between, lemma_scaled_zero, narrow, saturate, saturating_sum, scaled, scaled_wide,
    SCALE,
};
use vstd::prelude::*;

verus! {

/// Smallest distance the eye may have from the target: one raw unit, the
/// least positive scalar. This floor holds whatever the configured bounds.
pub const MIN_DISTANCE: i64 = 1;

/// A quarter turn, rounded down to the raw unit below it.
pub const HALF_PI: i64 = 1_570_796;

/// Angle kept free between the pitch and either pole.
pub const PITCH_MARGIN: i64 = 10_000;

/// Largest magnitude the pitch may have: a quarter turn less the margin.
pub const PITCH_LIMIT: i64 = 1_560_796;

/// Smallest aspect ratio a camera may have: one raw unit, the least
/// positive scalar.
pub const MIN_ASPECT: i64 = 1;

/// Half a turn, in millionths of a degree: the vertical field of view lies
/// strictly below it.
pub const HALF_TURN_DEGREES: i64 = 180_000_000;

/// Vertical field of view of a new camera, in millionths of a degree.
pub const DEFAULT_FOVY: i64 = 45_000_000;

/// Near clip plane of a new camera.
pub const DEFAULT_ZNEAR: i64 = 100_000;

/// Far clip plane of a new camera.
pub const DEFAULT_ZFAR: i64 = 100_000_000;

/// A point or direction in world space.
#[derive(Clone, Copy, Debug, PartialEq, Eq, Structural)]
pub struct Vector3 {
    pub x: i64,
    pub y: i64,
    pub z: i64,
}

/// The camera's local axes in world space, as seen on screen: `right` along
/// the horizontal, `up` along the vertical.
#[derive(Clone, Copy, Debug, PartialEq, Eq, Structural)]
pub struct ViewBasis {
    pub right: Vector3,
    pub up: Vector3,
}

/// A change to a camera, as an input event calls for it.
#[derive(Clone, Copy, Debug, PartialEq, Eq, Structural)]
pub enum CameraMotion {
    /// Leave the camera as it is.
    Still,
    /// Add `delta` to the distance.
    Zoom { delta: i64 },
    /// Add `yaw` to the yaw, then `pitch` to the pitch.
    Rotate { yaw: i64, pitch: i64 },
    /// Pan by `dx` to the right and `dy` up.
    Pan { dx: i64, dy: i64 },
}

/// Limits on distance and pitch. An absent limit leaves that side to the
/// hard limits alone.
#[derive(Clone, Copy, Debug, PartialEq, Eq, Structural)]
pub struct OrbitCameraBounds {
    pub min_distance: Option<i64>,
    pub max_distance: Option<i64>,
    pub min_pitch: Option<i64>,
    pub max_pitch: Option<i64>,
}

impl OrbitCameraBounds {
    /// Lowest distance these bounds admit: the configured minimum, but never
    /// less than [`MIN_DISTANCE`].
    pub open spec fn distance_floor(self) -> int {
        match self.min_distance {
            Some(m) => if m > MIN_DISTANCE { m as int } else { MIN_DISTANCE as int },
            None => MIN_DISTANCE as int,
        }
    }

    /// Highest distance these bounds admit.
    pub open spec fn distance_ceiling(self) -> int {
        match self.max_distance {
            Some(m) => m as int,
            None => i64::MAX as int,
        }
    }

    /// Lowest pitch these bounds admit: the configured minimum brought inside
    /// the hard limits.
    pub open spec fn pitch_floor(self) -> int {
        match self.min_pitch {
            Some(m) => clamp_between(m as int, -PITCH_LIMIT, PITCH_LIMIT as int),
            None => -PITCH_LIMIT,
        }
    }

    /// Highest pitch these bounds admit: the configured maximum brought inside
    /// the hard limits.
    pub open spec fn pitch_ceiling(self) -> int {
        match self.max_pitch {
            Some(m) => clamp_between(m as int, -PITCH_LIMIT, PITCH_LIMIT as int),
            None => PITCH_LIMIT as int,
        }
    }

    /// The distance interval is not empty.
    pub open spec fn distance_valid(self) -> bool {
        self.distance_floor() <= self.distance_ceiling()
    }

    /// The pitch interval is not empty.
    pub open spec fn pitch_valid(self) -> bool {
        self.pitch_floor() <= self.pitch_ceiling()
    }

    /// The distance these bounds make of a candidate value.
    pub open spec fn bound_distance(self, candidate: int) -> int {
        clamp_between(candidate, self.distance_floor(), self.distance_ceiling())
    }

    /// The pitch these bounds make of a candidate value.
    pub open spec fn bound_pitch(self, candidate: int) -> int {
        clamp_between(candidate, self.pitch_floor(), self.pitch_ceiling())
    }

    /// Brings a candidate distance inside these bounds.
    pub fn clamp_distance(&self, candidate: i64) -> (r: i64)
        ensures
            r as int == self.bound_distance(candidate as int),
            r >= MIN_DISTANCE,
    {
        let floor: i64 = match self.min_distance {
            Some(m) => if m > MIN_DISTANCE { m } else { MIN_DISTANCE },
            None => MIN_DISTANCE,
        };
        let ceiling: i64 = match self.max_distance {
            Some(m) => m,
            None => i64::MAX,
        };
        clamp(candidate, floor, ceiling)
    }

    /// Brings a candidate pitch inside these bounds and the hard limits.
    pub fn clamp_pitch(&self, candidate: i64) -> (r: i64)
        ensures
            r as int == self.bound_pitch(candidate as int),
            -PITCH_LIMIT <= r <= PITCH_LIMIT,
    {
        let floor: i64 = match self.min_pitch {
            Some(m) => clamp(m, -PITCH_LIMIT, PITCH_LIMIT),
            None => -PITCH_LIMIT,
        };
        let ceiling: i64 = match self.max_pitch {
            Some(m) => clamp(m, -PITCH_LIMIT, PITCH_LIMIT),
            None => PITCH_LIMIT,
        };
        clamp(candidate, floor, ceiling)
    }
}

impl Default for OrbitCameraBounds {
    /// Bounds that limit nothing beyond the hard limits.
    fn default() -> (b: Self)
        ensures
            b == (OrbitCameraBounds {
                min_distance: None,
                max_distance: None,
                min_pitch: None,
                max_pitch: None,
            }),
    {
        OrbitCameraBounds { min_distance: None, max_distance: None, min_pitch: None, max_pitch: None }
    }
}

/// The spherical coordinates of the eye around the target, with the bounds
/// they are held to. Pure data: the camera that owns a state is what keeps
/// it inside its bounds.
#[derive(Clone, Copy, Debug, PartialEq, Eq, Structural)]
pub struct OrbitState {
    /// Distance from the target to the eye.
    pub distance: i64,
    /// Elevation above the horizontal plane through the target.
    pub pitch: i64,
    /// Azimuth around the vertical axis through the target.
    pub yaw: i64,
    /// The point the camera orbits and looks at.
    pub target: Vector3,
    pub bounds: OrbitCameraBounds,
}

impl OrbitState {
    /// Distance and pitch are values that the bounds leave as they are. This
    /// puts the distance at or above [`MIN_DISTANCE`] and the pitch within
    /// [`PITCH_LIMIT`] of the horizontal, and, where the bounds are valid,
    /// both inside the configured intervals.
    pub open spec fn within_bounds(self) -> bool {
        &&& self.bounds.bound_distance(self.distance as int) == self.distance
        &&& self.bounds.bound_pitch(self.pitch as int) == self.pitch
    }
}

/// Everything a renderer needs to know of a camera at one instant.
#[derive(Clone, Copy, Debug, PartialEq, Eq, Structural)]
pub struct CameraSnapshot {
    pub state: OrbitState,
    /// Width of the viewport over its height; above zero.
    pub aspect: i64,
    /// Vertical field of view, in millionths of a degree.
    pub fovy: i64,
    /// Near clip plane.
    pub znear: i64,
    /// Far clip plane.
    pub zfar: i64,
}

impl CameraSnapshot {
    /// What holds of every camera: the state is within its bounds, the
    /// aspect is above zero, the field of view is above zero and below half
    /// a turn, and the clip planes are ordered in front of the eye.
    pub open spec fn wf(self) -> bool {
        &&& self.state.within_bounds()
        &&& self.aspect >= MIN_ASPECT
        &&& 0 < self.fovy < HALF_TURN_DEGREES
        &&& 0 < self.znear < self.zfar
    }
}

/// An orbit camera. Its fields are private: every change goes through a
/// method, and every method leaves the camera well-formed.
pub struct OrbitCamera {
    state: OrbitState,
    aspect: i64,
    fovy: i64,
    znear: i64,
    zfar: i64,
}

impl View for OrbitCamera {
    type V = CameraSnapshot;

    closed spec fn view(&self) -> CameraSnapshot {
        CameraSnapshot {
            state: self.state,
            aspect: self.aspect,
            fovy: self.fovy,
            znear: self.znear,
            zfar: self.zfar,
        }
    }
}

impl OrbitCamera {
    /// Every camera is well-formed, at every moment.
    #[verifier::type_invariant]
    pub open spec fn inv(self) -> bool {
        self@.wf()
    }

    /// A camera at the given coordinates, with no configured bounds and the
    /// default projection. Distance and pitch are brought inside the hard
    /// limits, and an aspect that is not above zero is raised to
    /// [`MIN_ASPECT`].
    pub fn new(distance: i64, pitch: i64, yaw: i64, target: Vector3, aspect: i64) -> (cam: Self)
        ensures
            cam@.wf(),
            cam@ == (CameraSnapshot {
                state: OrbitState {
                    distance: clamp_between(distance as int, MIN_DISTANCE as int, i64::MAX as int) as i64,
                    pitch: clamp_between(pitch as int, -PITCH_LIMIT, PITCH_LIMIT as int) as i64,
                    yaw,
                    target,
                    bounds: OrbitCameraBounds {
                        min_distance: None,
                        max_distance: None,
                        min_pitch: None,
                        max_pitch: None,
                    },
                },
                aspect: clamp_between(aspect as int, MIN_ASPECT as int, i64::MAX as int) as i64,
                fovy: DEFAULT_FOVY,
                znear: DEFAULT_ZNEAR,
                zfar: DEFAULT_ZFAR,
            }),
    {
        let bounds = OrbitCameraBounds::default();
        OrbitCamera {
            state: OrbitState {
                distance: bounds.clamp_distance(distance),
                pitch: bounds.clamp_pitch(pitch),
                yaw,
                target,
                bounds,
            },
            aspect: clamp(aspect, MIN_ASPECT, i64::MAX),
            fovy: DEFAULT_FOVY,
            znear: DEFAULT_ZNEAR,
            zfar: DEFAULT_ZFAR,
        }
    }

    /// The camera as it stands.
    pub fn snapshot(&self) -> (snap: CameraSnapshot)
        ensures
            snap == self@,
            snap.wf(),
    {
        proof {
            use_type_invariant(self);
        }
        CameraSnapshot {
            state: self.state,
            aspect: self.aspect,
            fovy: self.fovy,
            znear: self.znear,
            zfar: self.zfar,
        }
    }

    /// Moves the eye along the line to the target: the distance becomes the
    /// sum, brought inside the bounds. A negative `delta` zooms in.
    pub fn add_distance(&mut self, delta: i64)
        ensures
            final(self)@ == (CameraSnapshot {
                state: OrbitState {
                    distance: old(self)@.state.bounds.bound_distance(old(self)@.state.distance + delta) as i64,
                    ..old(self)@.state
                },
                ..old(self)@
            }),
            final(self)@.wf(),
    {
        proof {
            use_type_invariant(&*self);
        }
        let sum: i64 = saturating_sum(self.state.distance, delta);
        self.state.distance = self.state.bounds.clamp_distance(sum);
    }

    /// Turns the eye around the vertical axis: the yaw becomes the sum. The
    /// yaw is not confined to one turn; it stops only at the ends of the
    /// `i64` range.
    pub fn add_yaw(&mut self, delta: i64)
        ensures
            final(self)@ == (CameraSnapshot {
                state: OrbitState {
                    yaw: saturate(old(self)@.state.yaw + delta) as i64,
                    ..old(self)@.state
                },
                ..old(self)@
            }),
            final(self)@.wf(),
    {
        proof {
            use_type_invariant(&*self);
        }
        self.state.yaw = saturating_sum(self.state.yaw, delta);
    }

    /// Raises or lowers the eye: the pitch becomes the sum, brought inside
    /// the bounds and the hard limits, so the eye never reaches a pole.
    pub fn add_pitch(&mut self, delta: i64)
        ensures
            final(self)@ == (CameraSnapshot {
                state: OrbitState {
                    pitch: old(self)@.state.bounds.bound_pitch(old(self)@.state.pitch + delta) as i64,
                    ..old(self)@.state
                },
                ..old(self)@
            }),
            final(self)@.wf(),
    {
        proof {
            use_type_invariant(&*self);
        }
        let sum: i64 = saturating_sum(self.state.pitch, delta);
        self.state.pitch = self.state.bounds.clamp_pitch(sum);
    }

    /// Slides the target, and the eye with it, across the screen plane:
    /// `delta.0` along `basis.right` and `delta.1` along `basis.up`. The
    /// basis is the caller's: it must be the one of the camera as it stands
    /// now, since the screen plane turns with yaw and pitch.
    pub fn pan(&mut self, basis: &ViewBasis, delta: (i64, i64))
        ensures
            final(self)@ == (CameraSnapshot {
                state: OrbitState {
                    target: panned(old(self)@.state.target, *basis, delta.0 as int, delta.1 as int),
                    ..old(self)@.state
                },
                ..old(self)@
            }),
            final(self)@.wf(),
    {
        proof {
            use_type_invariant(&*self);
        }
        let target = self.state.target;
        self.state.target = Vector3 {
            x: slide(target.x, basis.right.x, basis.up.x, delta),
            y: slide(target.y, basis.right.y, basis.up.y, delta),
            z: slide(target.z, basis.right.z, basis.up.z, delta),
        };
    }

    /// Takes the aspect ratio from a viewport of `width` by `height` pixels.
    /// A viewport without height has no ratio, and one without width, or so
    /// narrow that its ratio rounds to nothing, has none above zero: the
    /// aspect then stays as it is.
    pub fn resize_projection(&mut self, width: u32, height: u32)
        ensures
            final(self)@ == resized(old(self)@, width, height),
            height == 0 ==> final(self)@ == old(self)@,
            final(self)@.wf(),
    {
        proof {
            use_type_invariant(&*self);
        }
        if height != 0 {
            assert(width as int * SCALE as int <= 0xffff_ffff * 1_000_000) by (nonlinear_arith)
                requires
                    0 <= width <= 0xffff_ffff,
                    SCALE == 1_000_000,
            ;
            let wide: u64 = (width as u64) * (SCALE as u64);
            let ratio: u64 = wide / (height as u64);
            if ratio > 0 {
                self.aspect = ratio as i64;
            }
        }
    }

    /// Carries out a motion. A pan uses `basis`, which must be the basis of
    /// the camera as it stands now; the other motions do not read it.
    pub fn apply(&mut self, motion: &CameraMotion, basis: &ViewBasis)
        ensures
            final(self)@ == moved(old(self)@, *motion, *basis),
            final(self)@.wf(),
    {
        proof {
            use_type_invariant(&*self);
        }
        match motion {
            CameraMotion::Still => {},
            CameraMotion::Zoom { delta } => {
                self.add_distance(*delta);
            },
            CameraMotion::Rotate { yaw, pitch } => {
                self.add_yaw(*yaw);
                self.add_pitch(*pitch);
            },
            CameraMotion::Pan { dx, dy } => {
                self.pan(basis, (*dx, *dy));
            },
        }
    }

    /// Replaces the bounds, and brings distance and pitch inside the new
    /// ones.
    pub fn set_bounds(&mut self, bounds: OrbitCameraBounds)
        ensures
            final(self)@ == (CameraSnapshot {
                state: OrbitState {
                    distance: bounds.bound_distance(old(self)@.state.distance as int) as i64,
                    pitch: bounds.bound_pitch(old(self)@.state.pitch as int) as i64,
                    bounds,
                    ..old(self)@.state
                },
                ..old(self)@
            }),
            final(self)@.wf(),
    {
        proof {
            use_type_invariant(&*self);
        }
        self.state = OrbitState {
            distance: bounds.clamp_distance(self.state.distance),
            pitch: bounds.clamp_pitch(self.state.pitch),
            yaw: self.state.yaw,
            target: self.state.target,
            bounds,
        };
    }
}

/// One coordinate of a target after a pan: the coordinate plus the two
/// screen-plane steps, each the delta scaled by the axis.
pub open spec fn slid(coordinate: int, right: int, up: int, dx: int, dy: int) -> int {
    saturate(coordinate + scaled(right, dx) + scaled(up, dy))
}

/// A target after a pan by `(dx, dy)` in the screen plane of `basis`.
pub open spec fn panned(target: Vector3, basis: ViewBasis, dx: int, dy: int) -> Vector3 {
    Vector3 {
        x: slid(target.x as int, basis.right.x as int, basis.up.x as int, dx, dy) as i64,
        y: slid(target.y as int, basis.right.y as int, basis.up.y as int, dx, dy) as i64,
        z: slid(target.z as int, basis.right.z as int, basis.up.z as int, dx, dy) as i64,
    }
}

/// A camera after a motion: only the coordinates that the motion names
/// change, and distance and pitch stay inside the bounds.
pub open spec fn moved(cam: CameraSnapshot, motion: CameraMotion, basis: ViewBasis) -> CameraSnapshot {
    let state = cam.state;
    match motion {
        CameraMotion::Still => cam,
        CameraMotion::Zoom { delta } => CameraSnapshot {
            state: OrbitState {
                distance: state.bounds.bound_distance(state.distance + delta) as i64,
                ..state
            },
            ..cam
        },
        CameraMotion::Rotate { yaw, pitch } => CameraSnapshot {
            state: OrbitState {
                yaw: saturate(state.yaw + yaw) as i64,
                pitch: state.bounds.bound_pitch(state.pitch + pitch) as i64,
                ..state
            },
            ..cam
        },
        CameraMotion::Pan { dx, dy } => CameraSnapshot {
            state: OrbitState { target: panned(state.target, basis, dx as int, dy as int), ..state },
            ..cam
        },
    }
}

/// The aspect ratio of a viewport with height, rounded down.
pub open spec fn aspect_of(width: u32, height: u32) -> int
    recommends
        height != 0,
{
    (width as int * SCALE as int) / (height as int)
}

/// A camera after its viewport changed to `width` by `height` pixels: the
/// aspect follows, unless the viewport has no height or its ratio is not
/// above zero.
pub open spec fn resized(cam: CameraSnapshot, width: u32, height: u32) -> CameraSnapshot {
    if height == 0 || aspect_of(width, height) < MIN_ASPECT {
        cam
    } else {
        CameraSnapshot { aspect: aspect_of(width, height) as i64, ..cam }
    }
}

fn slide(coordinate: i64, right: i64, up: i64, delta: (i64, i64)) -> (r: i64)
    ensures
        r as int == slid(coordinate as int, right as int, up as int, delta.0 as int, delta.1 as int),
{
    let along_right: i128 = scaled_wide(right, delta.0);
    let along_up: i128 = scaled_wide(up, delta.1);
    narrow(coordinate as i128 + along_right + along_up)
}

/// The distance after a run of `add_distance` calls, one for each element
/// of `deltas` in order, from a camera at distance `start` under `bounds`.
pub open spec fn distance_after(bounds: OrbitCameraBounds, start: int, deltas: Seq<i64>) -> int
    decreases deltas.len(),
{
    if deltas.len() == 0 {
        start
    } else {
        bounds.bound_distance(distance_after(bounds, start, deltas.drop_last()) + deltas.last())
    }
}

/// The pitch after a run of `add_pitch` calls, one for each element of
/// `deltas` in order, from a camera at pitch `start` under `bounds`.
pub open spec fn pitch_after(bounds: OrbitCameraBounds, start: int, deltas: Seq<i64>) -> int
    decreases deltas.len(),
{
    if deltas.len() == 0 {
        start
    } else {
        bounds.bound_pitch(pitch_after(bounds, start, deltas.drop_last()) + deltas.last())
    }
}

/// Under valid distance bounds, any run of one or more `add_distance` calls
/// leaves the distance at or above the configured minimum, at or below the
/// configured maximum, and in any case at or above [`MIN_DISTANCE`].
pub proof fn lemma_distance_stays_in_bounds(bounds: OrbitCameraBounds, start: i64, deltas: Seq<i64>)
    requires
        bounds.distance_valid(),
        deltas.len() > 0,
    ensures
        MIN_DISTANCE <= distance_after(bounds, start as int, deltas) <= i64::MAX,
        bounds.min_distance matches Some(m) ==> m <= distance_after(bounds, start as int, deltas),
        bounds.max_distance matches Some(m) ==> distance_after(bounds, start as int, deltas) <= m,
{
}

/// Whatever the bounds, any run of one or more `add_pitch` calls leaves the
/// pitch strictly between the poles, with the margin to spare.
pub proof fn lemma_pitch_stays_clear_of_poles(bounds: OrbitCameraBounds, start: i64, deltas: Seq<i64>)
    requires
        deltas.len() > 0,
    ensures
        -HALF_PI < pitch_after(bounds, start as int, deltas) < HALF_PI,
        -PITCH_LIMIT <= pitch_after(bounds, start as int, deltas) <= PITCH_LIMIT,
{
}

/// Under valid pitch bounds, any run of one or more `add_pitch` calls
/// leaves the pitch inside the configured interval.
pub proof fn lemma_pitch_stays_in_bounds(bounds: OrbitCameraBounds, start: i64, deltas: Seq<i64>)
    requires
        bounds.pitch_valid(),
        deltas.len() > 0,
    ensures
        bounds.pitch_floor() <= pitch_after(bounds, start as int, deltas) <= bounds.pitch_ceiling(),
{
}

/// A well-formed camera has its eye off the target and off the poles, an
/// aspect above zero, and, where its bounds are valid, its eye inside them.
pub proof fn lemma_wf_ranges(snap: CameraSnapshot)
    requires
        snap.wf(),
    ensures
        snap.aspect > 0,
        snap.state.distance >= MIN_DISTANCE,
        -HALF_PI < snap.state.pitch < HALF_PI,
        snap.state.bounds.distance_valid() ==> snap.state.bounds.distance_floor()
            <= snap.state.distance <= snap.state.bounds.distance_ceiling(),
        snap.state.bounds.pitch_valid() ==> snap.state.bounds.pitch_floor() <= snap.state.pitch
            <= snap.state.bounds.pitch_ceiling(),
{
}

/// Every motion takes a well-formed camera to a well-formed camera:
/// distance and pitch are inside the bounds after it, whatever it was.
pub proof fn lemma_moved_preserves_wf(cam: CameraSnapshot, motion: CameraMotion, basis: ViewBasis)
    requires
        cam.wf(),
    ensures
        moved(cam, motion, basis).wf(),
{
}

/// A viewport without height, or without width, leaves the camera as it
/// is; any viewport leaves all but the aspect, and leaves a well-formed
/// camera well-formed. A viewport at least as wide as a millionth of its
/// height gives its ratio.
pub proof fn lemma_resized(cam: CameraSnapshot, width: u32, height: u32)
    ensures
        resized(cam, width, 0) == cam,
        resized(cam, 0, height) == cam,
        resized(cam, width, height) == (CameraSnapshot { aspect: resized(cam, width, height).aspect, ..cam }),
        cam.wf() ==> resized(cam, width, height).wf(),
        0 < height && height <= width as int * SCALE ==> resized(cam, width, height).aspect == aspect_of(
            width,
            height,
        ),
{
    if 0 < height && height <= width as int * SCALE {
        assert((width as int * SCALE as int) / (height as int) >= 1) by (nonlinear_arith)
            requires
                0 < height <= width as int * SCALE as int,
        ;
    }
}

/// A pan by nothing moves nothing, whatever the basis.
pub proof fn lemma_pan_zero(target: Vector3, basis: ViewBasis)
    ensures
        panned(target, basis, 0, 0) == target,
{
    lemma_scaled_zero(basis.right.x as int);
    lemma_scaled_zero(basis.right.y as int);
    lemma_scaled_zero(basis.right.z as int);
    lemma_scaled_zero(basis.up.x as int);
    lemma_scaled_zero(basis.up.y as int);
    lemma_scaled_zero(basis.up.z as int);
}

} // verus!
