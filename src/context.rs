//! A stabilization context's own state and the invalidate/recompute protocol
//! that keeps its derived state in step with its parameters.
use vstd::prelude::*;
use crate::params::{
    ParameterSnapshot, free_of_nan, lemma_reconcile_identical, reconciled, snapshots_match,
};

verus! {

/// Whether the engine's derived state (smoothing, ramped timestamps) matches
/// the context's parameters.
#[derive(Clone, Copy, Debug, PartialEq, Eq, Structural)]
pub enum Validity {
    Valid,
    Dirty,
}

/// The state that the orchestrator keeps for one cached engine instance.
/// `serial` tells contexts apart: each construction draws a new one.
#[derive(Clone, Copy, Debug, PartialEq, Eq, Structural)]
pub struct StabilizationContext {
    pub serial: u64,
    pub snapshot: ParameterSnapshot,
    pub validity: Validity,
}

/// What the protocol asks of the engine before a frame's buffers are processed.
#[derive(Clone, Copy, Debug, PartialEq, Eq, Structural)]
pub struct FrameStep {
    /// Reconciliation changed at least one parameter.
    pub changed: bool,
    /// When present: apply these parameters, invalidate smoothing, recompute
    /// it over the whole range and recompute the ramped timestamps, all before
    /// any buffer is processed.
    pub recompute: Option<ParameterSnapshot>,
}

/// The context after one frame's reconciliation and recompute.
pub open spec fn stepped(ctx: StabilizationContext, incoming: ParameterSnapshot) -> StabilizationContext {
    StabilizationContext {
        serial: ctx.serial,
        snapshot: reconciled(ctx.snapshot, incoming),
        validity: Validity::Valid,
    }
}

/// The step that the protocol asks for: a recompute exactly when the context
/// was dirty or the parameters changed.
pub open spec fn step_of(ctx: StabilizationContext, incoming: ParameterSnapshot) -> FrameStep {
    let changed = !snapshots_match(ctx.snapshot, incoming);
    FrameStep {
        changed,
        recompute: if changed || ctx.validity == Validity::Dirty {
            Some(reconciled(ctx.snapshot, incoming))
        } else {
            None
        },
    }
}

impl StabilizationContext {
    /// A freshly constructed context: it starts dirty, so that its first frame
    /// always recomputes.
    pub fn new(serial: u64, initial: ParameterSnapshot) -> (r: StabilizationContext)
        ensures
            r == (StabilizationContext { serial, snapshot: initial, validity: Validity::Dirty }),
    {
        StabilizationContext { serial, snapshot: initial, validity: Validity::Dirty }
    }

    /// Reconciles the parameters with `incoming`, marks the context dirty when
    /// they changed, and, when dirty, hands out the recompute and marks it
    /// valid again: the recompute is to run before the frame's buffers are.
    pub fn begin_frame(&mut self, incoming: &ParameterSnapshot) -> (r: FrameStep)
        ensures
            *final(self) == stepped(*old(self), *incoming),
            r == step_of(*old(self), *incoming),
    {
        let changed = self.snapshot.reconcile(incoming);
        if changed {
            self.validity = Validity::Dirty;
        }
        let recompute = match self.validity {
            Validity::Dirty => Some(self.snapshot),
            Validity::Valid => None,
        };
        self.validity = Validity::Valid;
        FrameStep { changed, recompute }
    }
}

/// A valid context that receives exactly the parameters it holds reports no
/// change and asks for no recompute, provided none of them is a NaN.
pub proof fn lemma_identical_parameters_no_recompute(ctx: StabilizationContext, p: ParameterSnapshot)
    requires
        ctx.validity == Validity::Valid,
        ctx.snapshot == p,
        free_of_nan(p),
    ensures
        step_of(ctx, p) == (FrameStep { changed: false, recompute: None }),
        stepped(ctx, p) == ctx,
{
    lemma_reconcile_identical(p);
}

} // verus!
