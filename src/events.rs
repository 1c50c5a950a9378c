//! Results of an analysis run and the lifecycle events a dispatch reports
//! back to the render loop.
use vstd::prelude::*;

verus! {

broadcast use vstd::string::group_string_axioms;

/// One analysis finding: the object it concerns, its diagnostic texts and
/// an explanation.
pub struct Finding {
    pub name: String,
    pub errors: Vec<String>,
    pub details: String,
}

/// The ordered findings of one completed analysis run.
pub struct AnalysisResult {
    pub findings: Vec<Finding>,
}

impl AnalysisResult {
    /// A result holding no findings.
    pub fn empty() -> (r: AnalysisResult)
        ensures
            r.findings@.len() == 0,
    {
        AnalysisResult { findings: Vec::new() }
    }

    /// Whether there is anything to show.
    pub fn has_findings(&self) -> (r: bool)
        ensures
            r == (self.findings@.len() > 0),
    {
        self.findings.len() > 0
    }
}

/// What a dispatch reports to the render loop.
pub enum LifecycleEvent {
    LoadingChanged(bool),
    ConnectionFailed(String),
    AnalysisCompleted(AnalysisResult),
}

/// How the remote call of one dispatch ended.
pub enum TransportOutcome {
    /// The endpoint could not be reached or the handshake failed.
    Unreachable,
    /// A connection was made but the call itself failed.
    CallFailed,
    /// The service answered.
    Answered(AnalysisResult),
}

/// The notice shown when the endpoint cannot be reached.
pub open spec fn connect_error_text() -> Seq<char> {
    "Error connecting to server"@
}

/// The notice shown when the call fails after a connection was made.
pub open spec fn call_error_text() -> Seq<char> {
    "Error running the analysis"@
}

/// Whether `e` reports the end of the remote call (a result or a failure).
pub open spec fn is_completion(e: LifecycleEvent) -> bool {
    !(e is LoadingChanged)
}

/// Whether `e` is the end-of-operation marker.
pub open spec fn is_loading_off(e: LifecycleEvent) -> bool {
    e == LifecycleEvent::LoadingChanged(false)
}

/// Whether `e` is the completion event that reports `o`.
pub open spec fn reports(e: LifecycleEvent, o: TransportOutcome) -> bool {
    match o {
        TransportOutcome::Unreachable => e is ConnectionFailed && e->ConnectionFailed_0@
            == connect_error_text(),
        TransportOutcome::CallFailed => e is ConnectionFailed && e->ConnectionFailed_0@
            == call_error_text(),
        TransportOutcome::Answered(res) => e == LifecycleEvent::AnalysisCompleted(res),
    }
}

/// The event that reports how the remote call ended.
pub fn completion_event(o: TransportOutcome) -> (r: LifecycleEvent)
    ensures
        reports(r, o),
        is_completion(r),
{
    match o {
        TransportOutcome::Unreachable => LifecycleEvent::ConnectionFailed(
            "Error connecting to server".to_string(),
        ),
        TransportOutcome::CallFailed => LifecycleEvent::ConnectionFailed(
            "Error running the analysis".to_string(),
        ),
        TransportOutcome::Answered(res) => LifecycleEvent::AnalysisCompleted(res),
    }
}

/// The events a dispatch emits once its remote call has ended, in order:
/// the report of the outcome, then the end-of-operation marker.
pub fn completion_events(o: TransportOutcome) -> (r: Vec<LifecycleEvent>)
    ensures
        r@.len() == 2,
        reports(r@[0], o),
        is_completion(r@[0]),
        is_loading_off(r@[1]),
{
    let mut v: Vec<LifecycleEvent> = Vec::new();
    v.push(completion_event(o));
    v.push(LifecycleEvent::LoadingChanged(false));
    v
}

} // verus!
