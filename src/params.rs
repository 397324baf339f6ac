//! The tunable render parameters of one context, and their reconciliation
//! against the values that arrive with each frame.
use vstd::prelude::*;
use crate::number::Double;

verus! {

/// The render parameters that a context was last brought up to date with.
#[derive(Clone, Copy, Debug, PartialEq, Eq, Structural)]
pub struct ParameterSnapshot {
    pub fov: Double,
    pub lens_correction: Double,
    pub smoothness: Double,
    pub horizon_lock_enabled: bool,
    pub horizon_lock_percent: Double,
    pub horizon_roll: Double,
    /// Adaptive-zoom centre offset, already divided by one hundred.
    pub zoom_center_x: Double,
    pub zoom_center_y: Double,
    pub video_rotation: Double,
    pub fov_overview: bool,
}

/// The horizon-lock triple of `a` equals that of `b`.
pub open spec fn horizon_same(a: ParameterSnapshot, b: ParameterSnapshot) -> bool {
    &&& a.horizon_lock_enabled == b.horizon_lock_enabled
    &&& a.horizon_lock_percent.same_as(b.horizon_lock_percent)
    &&& a.horizon_roll.same_as(b.horizon_roll)
}

/// Every field of `stored` compares equal to the same field of `incoming`.
pub open spec fn snapshots_match(stored: ParameterSnapshot, incoming: ParameterSnapshot) -> bool {
    &&& stored.fov_overview == incoming.fov_overview
    &&& stored.fov.same_as(incoming.fov)
    &&& stored.lens_correction.same_as(incoming.lens_correction)
    &&& stored.zoom_center_x.same_as(incoming.zoom_center_x)
    &&& stored.zoom_center_y.same_as(incoming.zoom_center_y)
    &&& stored.video_rotation.same_as(incoming.video_rotation)
    &&& stored.smoothness.same_as(incoming.smoothness)
    &&& horizon_same(stored, incoming)
}

/// `stored` if the two compare equal, else `incoming`.
pub open spec fn pick(stored: Double, incoming: Double) -> Double {
    if stored.same_as(incoming) {
        stored
    } else {
        incoming
    }
}

/// The snapshot after reconciliation: each field that differs is overwritten,
/// and the horizon-lock triple is overwritten as a whole when any part of it differs.
pub open spec fn reconciled(stored: ParameterSnapshot, incoming: ParameterSnapshot) -> ParameterSnapshot {
    let horizon = if horizon_same(stored, incoming) {
        stored
    } else {
        incoming
    };
    ParameterSnapshot {
        fov: pick(stored.fov, incoming.fov),
        lens_correction: pick(stored.lens_correction, incoming.lens_correction),
        smoothness: pick(stored.smoothness, incoming.smoothness),
        horizon_lock_enabled: horizon.horizon_lock_enabled,
        horizon_lock_percent: horizon.horizon_lock_percent,
        horizon_roll: horizon.horizon_roll,
        zoom_center_x: pick(stored.zoom_center_x, incoming.zoom_center_x),
        zoom_center_y: pick(stored.zoom_center_y, incoming.zoom_center_y),
        video_rotation: pick(stored.video_rotation, incoming.video_rotation),
        fov_overview: incoming.fov_overview,
    }
}

/// No field of the snapshot is a NaN.
pub open spec fn free_of_nan(p: ParameterSnapshot) -> bool {
    &&& !p.fov.is_nan()
    &&& !p.lens_correction.is_nan()
    &&& !p.smoothness.is_nan()
    &&& !p.horizon_lock_percent.is_nan()
    &&& !p.horizon_roll.is_nan()
    &&& !p.zoom_center_x.is_nan()
    &&& !p.zoom_center_y.is_nan()
    &&& !p.video_rotation.is_nan()
}

/// `a` and `b` are equal or compare unequal: they are not two zeros of opposite sign.
pub open spec fn distinct_or_identical(a: Double, b: Double) -> bool {
    a == b || !a.same_as(b)
}

/// No numeric field of `p` differs from that of `q` by the sign of a zero alone.
pub open spec fn no_zero_sign_mismatch(p: ParameterSnapshot, q: ParameterSnapshot) -> bool {
    &&& distinct_or_identical(p.fov, q.fov)
    &&& distinct_or_identical(p.lens_correction, q.lens_correction)
    &&& distinct_or_identical(p.smoothness, q.smoothness)
    &&& distinct_or_identical(p.horizon_lock_percent, q.horizon_lock_percent)
    &&& distinct_or_identical(p.horizon_roll, q.horizon_roll)
    &&& distinct_or_identical(p.zoom_center_x, q.zoom_center_x)
    &&& distinct_or_identical(p.zoom_center_y, q.zoom_center_y)
    &&& distinct_or_identical(p.video_rotation, q.video_rotation)
}

impl ParameterSnapshot {
    /// Builds a snapshot from the values a host supplies with a frame. Horizon
    /// lock is enabled exactly when its percentage is greater than zero.
    pub fn new(
        fov: Double,
        lens_correction: Double,
        smoothness: Double,
        horizon_lock_percent: Double,
        horizon_roll: Double,
        zoom_center_x: Double,
        zoom_center_y: Double,
        video_rotation: Double,
        fov_overview: bool,
    ) -> (r: ParameterSnapshot)
        ensures
            r.fov == fov,
            r.lens_correction == lens_correction,
            r.smoothness == smoothness,
            r.horizon_lock_enabled == horizon_lock_percent.positive(),
            r.horizon_lock_percent == horizon_lock_percent,
            r.horizon_roll == horizon_roll,
            r.zoom_center_x == zoom_center_x,
            r.zoom_center_y == zoom_center_y,
            r.video_rotation == video_rotation,
            r.fov_overview == fov_overview,
    {
        ParameterSnapshot {
            fov,
            lens_correction,
            smoothness,
            horizon_lock_enabled: horizon_lock_percent.is_positive(),
            horizon_lock_percent,
            horizon_roll,
            zoom_center_x,
            zoom_center_y,
            video_rotation,
            fov_overview,
        }
    }

    /// Brings the snapshot up to date with `incoming`, field by field, with exact
    /// comparison; returns whether anything changed.
    pub fn reconcile(&mut self, incoming: &ParameterSnapshot) -> (changed: bool)
        ensures
            changed == !snapshots_match(*old(self), *incoming),
            *final(self) == reconciled(*old(self), *incoming),
    {
        let mut changed = false;
        if self.fov_overview != incoming.fov_overview {
            self.fov_overview = incoming.fov_overview;
            changed = true;
        }
        if !self.fov.equals(&incoming.fov) {
            self.fov = incoming.fov;
            changed = true;
        }
        if !self.lens_correction.equals(&incoming.lens_correction) {
            self.lens_correction = incoming.lens_correction;
            changed = true;
        }
        if !self.zoom_center_x.equals(&incoming.zoom_center_x) {
            self.zoom_center_x = incoming.zoom_center_x;
            changed = true;
        }
        if !self.zoom_center_y.equals(&incoming.zoom_center_y) {
            self.zoom_center_y = incoming.zoom_center_y;
            changed = true;
        }
        if !self.video_rotation.equals(&incoming.video_rotation) {
            self.video_rotation = incoming.video_rotation;
            changed = true;
        }
        if !self.smoothness.equals(&incoming.smoothness) {
            self.smoothness = incoming.smoothness;
            changed = true;
        }
        if self.horizon_lock_enabled != incoming.horizon_lock_enabled
            || !self.horizon_lock_percent.equals(&incoming.horizon_lock_percent)
            || !self.horizon_roll.equals(&incoming.horizon_roll) {
            self.horizon_lock_enabled = incoming.horizon_lock_enabled;
            self.horizon_lock_percent = incoming.horizon_lock_percent;
            self.horizon_roll = incoming.horizon_roll;
            changed = true;
        }
        changed
    }
}

/// Reconciling a snapshot toward one that differs from it (in one field or in
/// several) reports a change and leaves exactly the incoming values stored,
/// unless a field differs only in the sign of a zero, which compares equal.
pub proof fn lemma_reconcile_differing(stored: ParameterSnapshot, incoming: ParameterSnapshot)
    requires
        stored != incoming,
        no_zero_sign_mismatch(stored, incoming),
    ensures
        !snapshots_match(stored, incoming),
        reconciled(stored, incoming) == incoming,
{
}

/// Reconciling a snapshot toward identical values reports no change and keeps
/// it as it is, provided no field is a NaN (a NaN never compares equal).
pub proof fn lemma_reconcile_identical(p: ParameterSnapshot)
    requires
        free_of_nan(p),
    ensures
        snapshots_match(p, p),
        reconciled(p, p) == p,
{
}

/// After one reconciliation toward `incoming`, a second one toward the same
/// values changes nothing, provided `incoming` holds no NaN.
pub proof fn lemma_reconcile_settles(stored: ParameterSnapshot, incoming: ParameterSnapshot)
    requires
        free_of_nan(incoming),
    ensures
        snapshots_match(reconciled(stored, incoming), incoming),
        reconciled(reconciled(stored, incoming), incoming) == reconciled(stored, incoming),
{
}

} // verus!
