//! The state bridge: three independent FIFO channels (loading flag, notice,
//! result) from the dispatcher to the render loop. A render pass takes at
//! most the head of each channel and applies them as `UiState::apply_frame`
//! does: result, then notice, then loading flag.
use vstd::prelude::*;
use crate::events::{is_completion, is_loading_off, AnalysisResult, LifecycleEvent};

verus! {

/// The contents of the three channels.
pub struct BridgeModel {
    pub loading: Seq<bool>,
    pub errors: Seq<String>,
    pub results: Seq<AnalysisResult>,
}

/// Channels holding nothing.
pub open spec fn empty_bridge() -> BridgeModel {
    BridgeModel { loading: Seq::empty(), errors: Seq::empty(), results: Seq::empty() }
}

/// The producer appends `e` to the channel it belongs to.
pub open spec fn post(b: BridgeModel, e: LifecycleEvent) -> BridgeModel {
    match e {
        LifecycleEvent::LoadingChanged(x) => BridgeModel { loading: b.loading.push(x), ..b },
        LifecycleEvent::ConnectionFailed(m) => BridgeModel { errors: b.errors.push(m), ..b },
        LifecycleEvent::AnalysisCompleted(r) => BridgeModel { results: b.results.push(r), ..b },
    }
}

/// The events one render pass drains, in the order it applies them.
pub open spec fn frame_events(b: BridgeModel) -> Seq<LifecycleEvent> {
    let r: Seq<LifecycleEvent> = if b.results.len() > 0 {
        seq![LifecycleEvent::AnalysisCompleted(b.results[0])]
    } else {
        Seq::empty()
    };
    let e: Seq<LifecycleEvent> = if b.errors.len() > 0 {
        seq![LifecycleEvent::ConnectionFailed(b.errors[0])]
    } else {
        Seq::empty()
    };
    let l: Seq<LifecycleEvent> = if b.loading.len() > 0 {
        seq![LifecycleEvent::LoadingChanged(b.loading[0])]
    } else {
        Seq::empty()
    };
    r + e + l
}

/// What the channels hold after one render pass.
pub open spec fn after_frame(b: BridgeModel) -> BridgeModel {
    BridgeModel {
        loading: if b.loading.len() > 0 { b.loading.drop_first() } else { b.loading },
        errors: if b.errors.len() > 0 { b.errors.drop_first() } else { b.errors },
        results: if b.results.len() > 0 { b.results.drop_first() } else { b.results },
    }
}

/// The events the render loop applies, in order, when the producer and the
/// consumer interleave as `schedule` says: `true` lets the producer post
/// its next event of `pending` (if any is left), `false` runs one render
/// pass.
pub open spec fn drained(b: BridgeModel, pending: Seq<LifecycleEvent>, schedule: Seq<bool>) -> Seq<
    LifecycleEvent,
>
    decreases schedule.len(),
{
    if schedule.len() == 0 {
        Seq::empty()
    } else if schedule[0] {
        if pending.len() > 0 {
            drained(post(b, pending[0]), pending.drop_first(), schedule.drop_first())
        } else {
            drained(b, pending, schedule.drop_first())
        }
    } else {
        frame_events(b) + drained(after_frame(b), pending, schedule.drop_first())
    }
}

/// Every completion report in `t` comes before every end-of-operation
/// marker in `t`.
pub open spec fn reports_before_end(t: Seq<LifecycleEvent>) -> bool {
    forall|i: int, j: int|
        0 <= i < t.len() && 0 <= j < t.len() && is_completion(#[trigger] t[i]) && is_loading_off(
            #[trigger] t[j],
        ) ==> i < j
}

/// `t` holds no completion report.
pub open spec fn no_reports(t: Seq<LifecycleEvent>) -> bool {
    forall|i: int| 0 <= i < t.len() ==> !is_completion(#[trigger] t[i])
}

/// Channels whose notice and result channels are empty stay so while only
/// loading events are posted, and then nothing drained is a report.
proof fn lemma_quiet_drain(b: BridgeModel, pending: Seq<LifecycleEvent>, schedule: Seq<bool>)
    requires
        b.errors.len() == 0,
        b.results.len() == 0,
        no_reports(pending),
    ensures
        no_reports(drained(b, pending, schedule)),
    decreases schedule.len(),
{
    if schedule.len() == 0 {
    } else if schedule[0] {
        if pending.len() > 0 {
            assert(!is_completion(pending[0]));
            let rest = pending.drop_first();
            assert forall|i: int| 0 <= i < rest.len() implies !is_completion(#[trigger] rest[i]) by {
                assert(rest[i] == pending[i + 1]);
            }
            lemma_quiet_drain(post(b, pending[0]), rest, schedule.drop_first());
        } else {
            lemma_quiet_drain(b, pending, schedule.drop_first());
        }
    } else {
        let f = frame_events(b);
        let rest = drained(after_frame(b), pending, schedule.drop_first());
        lemma_quiet_drain(after_frame(b), pending, schedule.drop_first());
        let t = f + rest;
        assert forall|i: int| 0 <= i < t.len() implies !is_completion(#[trigger] t[i]) by {
            if i < f.len() {
                assert(t[i] == f[i]);
            } else {
                assert(t[i] == rest[i - f.len()]);
            }
        }
    }
}

/// A report followed by drains that hold no report keeps every report before
/// every end marker.
proof fn lemma_prefix_then_quiet(f: Seq<LifecycleEvent>, rest: Seq<LifecycleEvent>)
    requires
        reports_before_end(f),
        no_reports(rest),
    ensures
        reports_before_end(f + rest),
{
    let t = f + rest;
    assert forall|i: int, j: int|
        0 <= i < t.len() && 0 <= j < t.len() && is_completion(#[trigger] t[i]) && is_loading_off(
            #[trigger] t[j],
        ) implies i < j by {
        if i >= f.len() {
            assert(t[i] == rest[i - f.len()]);
        }
        if j < f.len() {
            assert(t[i] == f[i]);
            assert(t[j] == f[j]);
        }
    }
}

/// The drains that follow each stage of one dispatch keep reports before
/// end markers: `stage` counts the events of `[c, LoadingChanged(false)]`
/// posted so far, none of them drained yet.
proof fn lemma_drained_from(
    c: LifecycleEvent,
    stage: int,
    b: BridgeModel,
    pending: Seq<LifecycleEvent>,
    schedule: Seq<bool>,
)
    requires
        is_completion(c),
        0 <= stage <= 2,
        stage == 0 ==> b == empty_bridge() && pending == seq![c, LifecycleEvent::LoadingChanged(false)],
        stage == 1 ==> b == post(empty_bridge(), c) && pending == seq![
            LifecycleEvent::LoadingChanged(false),
        ],
        stage == 2 ==> b == post(post(empty_bridge(), c), LifecycleEvent::LoadingChanged(false))
            && pending.len() == 0,
    ensures
        reports_before_end(drained(b, pending, schedule)),
    decreases schedule.len(),
{
    let off = LifecycleEvent::LoadingChanged(false);
    if schedule.len() == 0 {
    } else if schedule[0] {
        if stage == 0 {
            assert(pending.drop_first() =~= seq![off]);
            lemma_drained_from(c, 1, post(b, pending[0]), pending.drop_first(), schedule.drop_first());
        } else if stage == 1 {
            assert(pending.drop_first() =~= Seq::<LifecycleEvent>::empty());
            lemma_drained_from(c, 2, post(b, pending[0]), pending.drop_first(), schedule.drop_first());
        } else {
            lemma_drained_from(c, 2, b, pending, schedule.drop_first());
        }
    } else {
        let f = frame_events(b);
        let nb = after_frame(b);
        if stage == 0 {
            assert(f =~= Seq::<LifecycleEvent>::empty());
            assert(nb.loading =~= b.loading);
            assert(nb.errors =~= b.errors);
            assert(nb.results =~= b.results);
            lemma_drained_from(c, 0, nb, pending, schedule.drop_first());
            assert(f + drained(nb, pending, schedule.drop_first()) =~= drained(
                nb,
                pending,
                schedule.drop_first(),
            ));
        } else {
            assert(nb.errors.len() == 0);
            assert(nb.results.len() == 0);
            let rest = drained(nb, pending, schedule.drop_first());
            if stage == 1 {
                assert(!is_completion(pending[0]));
                assert forall|i: int| 0 <= i < pending.len() implies !is_completion(
                    #[trigger] pending[i],
                ) by {}
                assert(f =~= seq![c]);
            } else {
                assert(f =~= seq![c, off]);
            }
            lemma_quiet_drain(nb, pending, schedule.drop_first());
            assert(reports_before_end(f)) by {
                assert forall|i: int, j: int|
                    0 <= i < f.len() && 0 <= j < f.len() && is_completion(#[trigger] f[i])
                        && is_loading_off(#[trigger] f[j]) implies i < j by {
                    if i != 0 {
                        assert(f[i] == off);
                    }
                    if j == 0 {
                        assert(f[j] == c);
                    }
                }
            }
            lemma_prefix_then_quiet(f, rest);
        }
    }
}

/// Whatever the interleaving of the producer's posts and the render passes,
/// the end-of-operation marker of a dispatch is applied strictly after the
/// report that precedes it (`events` is what the dispatch emits once its
/// call has ended, as `completion_events` gives it; the loading flag was
/// raised synchronously when the dispatch started, before either).
pub proof fn lemma_end_marker_applied_last(events: Seq<LifecycleEvent>, schedule: Seq<bool>)
    requires
        events.len() == 2,
        is_completion(events[0]),
        is_loading_off(events[1]),
    ensures
        reports_before_end(drained(empty_bridge(), events, schedule)),
{
    assert(events =~= seq![events[0], LifecycleEvent::LoadingChanged(false)]);
    lemma_drained_from(events[0], 0, empty_bridge(), events, schedule);
}

} // verus!
