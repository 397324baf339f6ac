use gyroflow::context::{FrameStep, StabilizationContext, Validity};
use gyroflow::number::Double;
use gyroflow::params::ParameterSnapshot;

fn params(smoothness: f64) -> ParameterSnapshot {
    let d = |x: f64| Double::from_bits(x.to_bits());
    ParameterSnapshot::new(d(1.0), d(0.0), d(smoothness), d(0.0), d(0.0), d(0.0), d(0.0), d(0.0), false)
}

#[test]
fn new_context_recomputes_on_first_frame() {
    let p = params(0.5);
    let mut ctx = StabilizationContext::new(7, p);
    assert_eq!(ctx.validity, Validity::Dirty);
    let step = ctx.begin_frame(&p);
    assert_eq!(step, FrameStep { changed: false, recompute: Some(p) });
    assert_eq!(ctx.validity, Validity::Valid);
    assert_eq!(ctx.serial, 7);
}

#[test]
fn identical_parameters_trigger_no_recompute() {
    let p = params(0.5);
    let mut ctx = StabilizationContext { serial: 1, snapshot: p, validity: Validity::Valid };
    assert_eq!(ctx.begin_frame(&p), FrameStep { changed: false, recompute: None });
    assert_eq!(ctx, StabilizationContext { serial: 1, snapshot: p, validity: Validity::Valid });
}

#[test]
fn changed_parameters_trigger_recompute() {
    let mut ctx = StabilizationContext { serial: 1, snapshot: params(0.5), validity: Validity::Valid };
    let q = params(0.25);
    assert_eq!(ctx.begin_frame(&q), FrameStep { changed: true, recompute: Some(q) });
    assert_eq!(ctx.snapshot, q);
    assert_eq!(ctx.validity, Validity::Valid);
}
