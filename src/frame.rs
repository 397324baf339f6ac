//! Processing one frame: buffer dispatch planning, cache lookup, parameter
//! reconciliation and the recompute decision, composed into one operation.
use vstd::prelude::*;
use crate::cache::{
    CacheKey, CacheModel, Lookup, ManagerCache, access, has_key, key_index, lemma_access_wf,
    lemma_full_insert_evicts_least_recent, lemma_key_index_is,
};
use crate::context::{
    FrameStep, Validity, lemma_identical_parameters_no_recompute, step_of, stepped,
};
use crate::dispatch::{BufferSource, CropRect, Dispatch, FrameError, dispatch_of, plan_dispatch};
use crate::number::Double;
use crate::params::{ParameterSnapshot, free_of_nan, lemma_reconcile_settles, reconciled};
use crate::pixel::format_of_tag;

verus! {

/// One render call from the host.
#[derive(Clone, Debug)]
pub struct FrameRequest {
    /// Project, instance, output size, pixel format and stretch flag.
    pub key: CacheKey,
    pub params: ParameterSnapshot,
    pub timestamp: i64,
    /// Rotation of the input buffer, in degrees.
    pub input_rotation: Option<Double>,
    pub input_crop: Option<CropRect>,
    pub input: BufferSource,
    pub output: BufferSource,
}

/// What the engine is to do for an accepted frame, in order: construct the
/// engine instance for `serial` when `constructed` (dropping the one of
/// `evicted`, if any), run `recompute` if present, then process `dispatch`.
#[derive(Clone, Copy, Debug, PartialEq, Eq, Structural)]
pub struct FramePlan {
    pub serial: u64,
    pub constructed: bool,
    pub evicted: Option<u64>,
    pub changed: bool,
    pub recompute: Option<ParameterSnapshot>,
    pub dispatch: Dispatch,
}

/// The dispatcher's decision for a request.
pub open spec fn request_dispatch(req: FrameRequest) -> Result<Dispatch, FrameError> {
    dispatch_of(
        req.key.pixel_format@,
        req.key.width,
        req.key.height,
        req.timestamp,
        req.input,
        req.output,
        req.input_rotation,
        req.input_crop,
    )
}

/// The cache after a frame and the plan handed out for it. A refused frame
/// leaves the cache as it was; an accepted one looks its context up (or
/// constructs it), reconciles and, when needed, recomputes it.
pub open spec fn frame_of(m: CacheModel, req: FrameRequest) -> (CacheModel, Result<FramePlan, FrameError>) {
    match request_dispatch(req) {
        Err(e) => (m, Err(e)),
        Ok(d) => {
            let (m1, l) = access(m, req.key@, req.params);
            let last = m1.entries.len() - 1;
            let ctx = m1.entries[last].1;
            let step = step_of(ctx, req.params);
            (
                CacheModel {
                    entries: m1.entries.update(last, (req.key@, stepped(ctx, req.params))),
                    capacity: m1.capacity,
                    next_serial: m1.next_serial,
                },
                Ok(FramePlan {
                    serial: l.serial,
                    constructed: l.created,
                    evicted: l.evicted,
                    changed: step.changed,
                    recompute: step.recompute,
                    dispatch: d,
                }),
            )
        },
    }
}

/// Decides a frame: refuses an unsupported pixel format or a short CPU buffer
/// before any engine work; otherwise looks up or constructs the context,
/// reconciles its parameters, and asks for a recompute exactly when the
/// context is new or a parameter changed.
pub fn process_frame(cache: &mut ManagerCache, req: &FrameRequest) -> (r: Result<FramePlan, FrameError>)
    requires
        old(cache).wf(),
        old(cache).has_serial_room() || has_key(old(cache)@.entries, req.key@),
    ensures
        final(cache).wf(),
        (final(cache)@, r) == frame_of(old(cache)@, *req),
{
    let dispatch = match plan_dispatch(
        req.key.pixel_format.as_slice(),
        req.key.width,
        req.key.height,
        req.timestamp,
        req.input,
        req.output,
        req.input_rotation,
        req.input_crop,
    ) {
        Err(e) => return Err(e),
        Ok(d) => d,
    };
    let lookup: Lookup = cache.get_or_create(&req.key, &req.params);
    let step = cache.step_latest(&req.key, &req.params);
    Ok(FramePlan {
        serial: lookup.serial,
        constructed: lookup.created,
        evicted: lookup.evicted,
        changed: step.changed,
        recompute: step.recompute,
        dispatch,
    })
}

/// A frame whose pixel-format tag is not one of the supported three is refused
/// as `UnsupportedFormat`: the cache is left as it was and no buffer is handed
/// to the engine.
pub proof fn lemma_unsupported_format_refused(m: CacheModel, req: FrameRequest)
    requires
        format_of_tag(req.key.pixel_format@) is None,
    ensures
        frame_of(m, req) == (m, Err::<FramePlan, FrameError>(FrameError::UnsupportedFormat)),
{
}

/// Processing the same request twice in a row: the second call resolves to
/// the same context, constructs nothing, reports no change, asks for no
/// recompute, dispatches the same buffers and leaves the cache as the first
/// call left it. The first call recomputes whenever it constructs. This holds
/// when no parameter is a NaN (a NaN never compares equal, so it always counts
/// as a change).
pub proof fn lemma_repeated_frame_recomputes_once(m: CacheModel, req: FrameRequest)
    requires
        m.wf(),
        m.next_serial < u64::MAX || has_key(m.entries, req.key@),
        free_of_nan(req.params),
    ensures
        ({
            let (m1, r1) = frame_of(m, req);
            let (m2, r2) = frame_of(m1, req);
            &&& m2 == m1
            &&& (r1 is Err <==> r2 is Err)
            &&& r1 is Err ==> r2 == r1
            &&& r1 is Ok ==> {
                &&& r2->Ok_0.serial == r1->Ok_0.serial
                &&& !r2->Ok_0.constructed
                &&& !r2->Ok_0.changed
                &&& r2->Ok_0.recompute is None
                &&& r2->Ok_0.dispatch == r1->Ok_0.dispatch
                &&& r1->Ok_0.constructed == !has_key(m.entries, req.key@)
                &&& r1->Ok_0.constructed ==> r1->Ok_0.recompute is Some
            }
        }),
{
    if request_dispatch(req) is Ok {
        let k = req.key@;
        let p = req.params;
        lemma_access_wf(m, k, p);
        let ma = access(m, k, p).0;
        let last = ma.entries.len() - 1;
        let ctx = ma.entries[last].1;
        let m1 = frame_of(m, req).0;
        assert(m1.entries.len() == ma.entries.len());
        assert forall|a: int, b: int| 0 <= a < b < m1.entries.len()
            implies (#[trigger] m1.entries[a]).0 != (#[trigger] m1.entries[b]).0 by {
            assert(m1.entries[a].0 == ma.entries[a].0);
            assert(m1.entries[b].0 == ma.entries[b].0);
        }
        lemma_key_index_is(m1.entries, k, last);
        lemma_reconcile_settles(ctx.snapshot, p);
        let c1 = stepped(ctx, p);
        assert(m1.entries[last] == (k, c1));
        assert(m1.entries.remove(last).push(m1.entries[last]) =~= m1.entries);
        assert(stepped(c1, p) == c1);
        assert(m1.entries.update(last, (k, c1)) =~= m1.entries);
        if !has_key(m.entries, k) {
            assert(ctx.validity == Validity::Dirty);
        }
    }
}

/// A frame keeps the cache well formed. An accepted frame leaves its context
/// as the most recently used entry, valid (recomputed), holding the reconciled
/// parameters and the serial that the plan names; a refused one changes nothing.
pub proof fn lemma_frame_leaves_context_valid(m: CacheModel, req: FrameRequest)
    requires
        m.wf(),
        m.next_serial < u64::MAX || has_key(m.entries, req.key@),
    ensures
        ({
            let (m1, r) = frame_of(m, req);
            &&& m1.wf()
            &&& r is Err ==> m1 == m
            &&& r is Ok ==> {
                let last = m1.entries.last();
                &&& m1.entries.len() > 0
                &&& last.0 == req.key@
                &&& last.1.validity == Validity::Valid
                &&& last.1.serial == r->Ok_0.serial
                &&& has_key(m.entries, req.key@) ==> last.1.snapshot == reconciled(
                    m.entries[key_index(m.entries, req.key@)].1.snapshot,
                    req.params,
                )
                &&& !has_key(m.entries, req.key@) ==> last.1.snapshot == reconciled(req.params, req.params)
            }
        }),
{
    if request_dispatch(req) is Ok {
        lemma_access_wf(m, req.key@, req.params);
        let ma = access(m, req.key@, req.params).0;
        let m1 = frame_of(m, req).0;
        assert forall|a: int, b: int| 0 <= a < b < m1.entries.len()
            implies (#[trigger] m1.entries[a]).0 != (#[trigger] m1.entries[b]).0 by {
            assert(m1.entries[a].0 == ma.entries[a].0);
            assert(m1.entries[b].0 == ma.entries[b].0);
        }
        assert forall|a: int| 0 <= a < m1.entries.len()
            implies (#[trigger] m1.entries[a]).1.serial < m1.next_serial by {
            assert(m1.entries[a].1.serial == ma.entries[a].1.serial);
        }
    }
}

/// Two frames in a row for the same key (parameters, time and buffers may
/// differ): when both are accepted, the second resolves to the context that the
/// first used or built, constructs nothing, evicts nothing and leaves the
/// number of cached contexts as it was. The first constructs exactly when the
/// key was absent, so construction happens once across both calls.
pub proof fn lemma_same_key_resolves_to_same_context(m: CacheModel, first: FrameRequest, second: FrameRequest)
    requires
        m.wf(),
        m.next_serial < u64::MAX || has_key(m.entries, first.key@),
        second.key@ == first.key@,
    ensures
        ({
            let (m1, r1) = frame_of(m, first);
            let (m2, r2) = frame_of(m1, second);
            &&& r1 is Ok ==> r1->Ok_0.constructed == !has_key(m.entries, first.key@)
            &&& (r1 is Ok && r2 is Ok) ==> {
                &&& r2->Ok_0.serial == r1->Ok_0.serial
                &&& !r2->Ok_0.constructed
                &&& r2->Ok_0.evicted is None
                &&& m2.entries.len() == m1.entries.len()
            }
        }),
{
    lemma_frame_leaves_context_valid(m, first);
    let m1 = frame_of(m, first).0;
    if request_dispatch(first) is Ok && request_dispatch(second) is Ok {
        let last = m1.entries.len() - 1;
        lemma_key_index_is(m1.entries, first.key@, last);
    }
}

/// A frame for a cached, valid context whose parameters equal the incoming
/// ones field by field reports no change and asks for no recompute (it is
/// still dispatched), provided no parameter is a NaN.
pub proof fn lemma_cached_identical_parameters_no_recompute(m: CacheModel, req: FrameRequest)
    requires
        m.wf(),
        has_key(m.entries, req.key@),
        m.entries[key_index(m.entries, req.key@)].1.validity == Validity::Valid,
        m.entries[key_index(m.entries, req.key@)].1.snapshot == req.params,
        free_of_nan(req.params),
    ensures
        ({
            let (m1, r) = frame_of(m, req);
            &&& (r is Ok <==> request_dispatch(req) is Ok)
            &&& r is Ok ==> {
                &&& !r->Ok_0.constructed
                &&& !r->Ok_0.changed
                &&& r->Ok_0.recompute is None
                &&& r->Ok_0.dispatch == request_dispatch(req)->Ok_0
                &&& m1.entries.last().1 == m.entries[key_index(m.entries, req.key@)].1
            }
        }),
{
    let ctx = m.entries[key_index(m.entries, req.key@)].1;
    lemma_identical_parameters_no_recompute(ctx, req.params);
    assert(step_of(ctx, req.params) == (FrameStep { changed: false, recompute: None }));
}

/// An accepted frame for a new key on a full cache evicts exactly the least
/// recently used context: its key leaves, every other context stays with its
/// state and in its order, the new key enters as the most recently used, and
/// the cache stays at its capacity.
pub proof fn lemma_full_cache_frame_evicts_least_recent(m: CacheModel, req: FrameRequest)
    requires
        m.wf(),
        m.next_serial < u64::MAX,
        m.entries.len() == m.capacity,
        !has_key(m.entries, req.key@),
        request_dispatch(req) is Ok,
    ensures
        ({
            let (m1, r) = frame_of(m, req);
            &&& r is Ok
            &&& r->Ok_0.constructed
            &&& r->Ok_0.evicted == Some(m.entries[0].1.serial)
            &&& !has_key(m1.entries, m.entries[0].0)
            &&& m1.entries.len() == m.capacity
            &&& forall|j: int| 1 <= j < m.entries.len() ==> m1.entries[j - 1] == #[trigger] m.entries[j]
            &&& m1.entries.last().0 == req.key@
        }),
{
    lemma_full_insert_evicts_least_recent(m, req.key@, req.params);
    let ma = access(m, req.key@, req.params).0;
    let m1 = frame_of(m, req).0;
    let n = m.entries.len();
    assert forall|j: int| 1 <= j < n implies m1.entries[j - 1] == #[trigger] m.entries[j] by {
        assert(ma.entries[j - 1] == m.entries[j]);
    }
    if has_key(m1.entries, m.entries[0].0) {
        let a = choose|a: int| 0 <= a < m1.entries.len() && (#[trigger] m1.entries[a]).0 == m.entries[0].0;
        assert(m1.entries[a].0 == ma.entries[a].0);
        assert(has_key(ma.entries, m.entries[0].0));
    }
}

} // verus!
