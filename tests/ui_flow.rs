use power_nerd::events::{
    completion_event, completion_events, AnalysisResult, Finding, LifecycleEvent, TransportOutcome,
};
use power_nerd::ui::{Frame, Phase, UiState};

fn one_finding() -> AnalysisResult {
    AnalysisResult {
        findings: vec![Finding {
            name: "Pod/web-1".to_string(),
            errors: vec!["Back-off restarting failed container".to_string()],
            details: "OOMKilled".to_string(),
        }],
    }
}

fn frame_of(events: Vec<LifecycleEvent>) -> Frame {
    let mut frame = Frame { loading: None, result: None, error: None };
    for e in events {
        match e {
            LifecycleEvent::LoadingChanged(b) => frame.loading = Some(b),
            LifecycleEvent::ConnectionFailed(m) => frame.error = Some(m),
            LifecycleEvent::AnalysisCompleted(r) => frame.result = Some(r),
        }
    }
    frame
}

#[test]
fn startup_state() {
    let s = UiState::new();
    assert_eq!(s.params.backend, "openai");
    assert_eq!(s.params.endpoint, "http://localhost:8080");
    assert_eq!(s.params.filter, "");
    assert!(s.params.explain);
    assert!(s.params.cache);
    assert!(!s.is_loading);
    assert!(!s.show_configuration);
    assert!(s.error.is_empty());
    assert!(matches!(s.current_phase(), Phase::Idle));
}

#[test]
fn successful_run_with_sentinel_filter() {
    let mut s = UiState::new();
    s.select_backend("openai");
    s.select_filter("None");
    s.set_explain(true);
    s.set_cache(true);
    let d = s.trigger().expect("idle state dispatches");
    assert!(d.request.filters.is_empty());
    assert!(d.request.explain);
    assert!(!d.request.nocache);
    assert_eq!(d.request.backend, "openai");
    assert_eq!(d.endpoint, "http://localhost:8080");
    assert!(matches!(s.current_phase(), Phase::Loading));

    let events = completion_events(TransportOutcome::Answered(one_finding()));
    assert_eq!(events.len(), 2);
    assert!(matches!(events[1], LifecycleEvent::LoadingChanged(false)));
    s.apply_frame(frame_of(events));
    assert!(!s.is_loading);
    assert!(matches!(s.current_phase(), Phase::IdleWithResult));
    assert_eq!(s.result.findings.len(), 1);
    assert_eq!(s.result.findings[0].name, "Pod/web-1");
    assert_eq!(s.result.findings[0].details, "OOMKilled");
}

#[test]
fn unreachable_endpoint_ends_in_error() {
    let mut s = UiState::new();
    s.set_endpoint("http://127.0.0.1:1".to_string());
    let d = s.trigger().expect("idle state dispatches");
    assert_eq!(d.endpoint, "http://127.0.0.1:1");
    s.apply_frame(frame_of(completion_events(TransportOutcome::Unreachable)));
    assert!(!s.is_loading);
    assert!(!s.error.is_empty());
    assert_eq!(s.error, "Error connecting to server");
    assert!(matches!(s.current_phase(), Phase::IdleWithError));
}

#[test]
fn failed_call_is_reported_as_notice() {
    let mut s = UiState::new();
    s.trigger().expect("idle state dispatches");
    s.apply_frame(frame_of(completion_events(TransportOutcome::CallFailed)));
    assert!(!s.is_loading);
    assert_eq!(s.error, "Error running the analysis");
    assert!(s.trigger().is_some());
}

#[test]
fn click_dismisses_error_and_keeps_result() {
    let mut s = UiState::new();
    s.apply_event(LifecycleEvent::AnalysisCompleted(one_finding()));
    s.apply_event(completion_event(TransportOutcome::Unreachable));
    assert!(matches!(s.current_phase(), Phase::IdleWithError));
    s.on_pointer(false);
    assert!(!s.error.is_empty());
    s.on_pointer(true);
    assert!(s.error.is_empty());
    assert_eq!(s.result.findings.len(), 1);
    assert_eq!(s.result.findings[0].name, "Pod/web-1");
    assert!(matches!(s.current_phase(), Phase::IdleWithResult));
}

#[test]
fn second_trigger_while_loading_is_rejected() {
    let mut s = UiState::new();
    assert!(s.trigger().is_some());
    assert!(s.trigger().is_none());
    assert!(s.is_loading);
    s.apply_frame(Frame { loading: Some(false), result: None, error: None });
    assert!(s.trigger().is_some());
}

#[test]
fn frame_applies_loading_after_report() {
    let mut s = UiState::new();
    s.trigger().expect("idle state dispatches");
    s.apply_frame(Frame { loading: None, result: Some(one_finding()), error: None });
    assert!(s.is_loading);
    assert_eq!(s.result.findings.len(), 1);
    s.apply_frame(Frame { loading: Some(false), result: None, error: None });
    assert!(!s.is_loading);
    assert_eq!(s.result.findings.len(), 1);
}

#[test]
fn real_filter_is_kept() {
    let mut s = UiState::new();
    s.select_filter("Node");
    assert_eq!(s.params.filter, "Node");
    let d = s.trigger().expect("idle state dispatches");
    assert_eq!(d.request.filters, vec!["Node".to_string()]);
    s.select_filter("None");
    assert_eq!(s.params.filter, "");
}

#[test]
fn cache_flag_cleared_sets_nocache() {
    let mut s = UiState::new();
    s.set_cache(false);
    s.set_explain(false);
    let d = s.trigger().expect("idle state dispatches");
    assert!(d.request.nocache);
    assert!(!d.request.explain);
}

#[test]
fn configuration_view_toggles() {
    let mut s = UiState::new();
    s.set_show_configuration(true);
    assert!(s.show_configuration);
    s.set_show_configuration(false);
    assert!(!s.show_configuration);
}
