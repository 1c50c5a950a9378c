//! The render-loop state machine: it owns the request parameters and the
//! presentation state, drains the lifecycle events once per frame, and
//! decides when a new dispatch may start.
use vstd::prelude::*;
use crate::catalog::{is_no_filter, no_filter_name, FILTER_TYPES};
use crate::events::{AnalysisResult, LifecycleEvent};
use crate::request::{build_request, is_request_for, spec_filters, AnalyzeParams, RequestParameters};

verus! {

broadcast use vstd::string::group_string_axioms;

/// Presentation state, as the operator sees it.
pub enum Phase {
    Idle,
    Loading,
    IdleWithResult,
    IdleWithError,
}

/// At most one pending value of each bridge channel, as one render pass
/// drains them.
pub struct Frame {
    pub loading: Option<bool>,
    pub result: Option<AnalysisResult>,
    pub error: Option<String>,
}

/// What a dispatch hands to the transport: where to connect, and the
/// request to send there.
pub struct Dispatch {
    pub endpoint: String,
    pub request: AnalyzeParams,
}

/// The process-wide state of the client, mutated only by its own methods.
pub struct UiState {
    pub params: RequestParameters,
    pub is_loading: bool,
    pub show_configuration: bool,
    pub result: AnalysisResult,
    pub error: String,
}

/// The endpoint used until the operator configures another one.
pub open spec fn default_endpoint() -> Seq<char> {
    "http://localhost:8080"@
}

/// The backend used until the operator picks another one.
pub open spec fn default_backend() -> Seq<char> {
    "openai"@
}

/// The value the selected filter takes when the operator picks `name`.
pub open spec fn selected_filter(name: Seq<char>) -> Seq<char> {
    if name == no_filter_name() {
        Seq::empty()
    } else {
        name
    }
}

/// The two states agree on everything but the presentation of the run.
pub open spec fn same_settings(a: UiState, b: UiState) -> bool {
    &&& a.params == b.params
    &&& a.show_configuration == b.show_configuration
}

impl UiState {
    /// The presentation state: loading first, then a pending notice, then a
    /// shown result.
    pub open spec fn phase(self) -> Phase {
        if self.is_loading {
            Phase::Loading
        } else if self.error@.len() > 0 {
            Phase::IdleWithError
        } else if self.result.findings@.len() > 0 {
            Phase::IdleWithResult
        } else {
            Phase::Idle
        }
    }

    /// The state at startup: nothing loading, no notice, no result, and
    /// the default backend, endpoint and flags.
    pub fn new() -> (r: UiState)
        ensures
            r.params.backend@ == default_backend(),
            r.params.filter@.len() == 0,
            r.params.explain,
            r.params.cache,
            r.params.endpoint@ == default_endpoint(),
            !r.is_loading,
            !r.show_configuration,
            r.result.findings@.len() == 0,
            r.error@.len() == 0,
            r.phase() == Phase::Idle,
    {
        UiState {
            params: RequestParameters {
                backend: "openai".to_string(),
                filter: String::new(),
                explain: true,
                cache: true,
                endpoint: "http://localhost:8080".to_string(),
            },
            is_loading: false,
            show_configuration: false,
            result: AnalysisResult::empty(),
            error: String::new(),
        }
    }

    /// Applies one drained event.
    pub fn apply_event(&mut self, e: LifecycleEvent)
        ensures
            same_settings(*final(self), *old(self)),
            final(self).is_loading == (match e {
                LifecycleEvent::LoadingChanged(b) => b,
                _ => old(self).is_loading,
            }),
            final(self).result == (match e {
                LifecycleEvent::AnalysisCompleted(r) => r,
                _ => old(self).result,
            }),
            final(self).error == (match e {
                LifecycleEvent::ConnectionFailed(m) => m,
                _ => old(self).error,
            }),
    {
        match e {
            LifecycleEvent::LoadingChanged(b) => {
                self.is_loading = b;
            },
            LifecycleEvent::AnalysisCompleted(r) => {
                self.result = r;
            },
            LifecycleEvent::ConnectionFailed(m) => {
                self.error = m;
            },
        }
    }

    /// Applies what one render pass drained: the result and the notice
    /// first, then the loading flag, so that the end-of-operation marker
    /// takes effect after the report it follows.
    pub fn apply_frame(&mut self, frame: Frame)
        ensures
            same_settings(*final(self), *old(self)),
            final(self).is_loading == (match frame.loading {
                Some(b) => b,
                None => old(self).is_loading,
            }),
            final(self).result == (match frame.result {
                Some(r) => r,
                None => old(self).result,
            }),
            final(self).error == (match frame.error {
                Some(m) => m,
                None => old(self).error,
            }),
    {
        match frame.result {
            Some(r) => self.apply_event(LifecycleEvent::AnalysisCompleted(r)),
            None => {},
        }
        match frame.error {
            Some(m) => self.apply_event(LifecycleEvent::ConnectionFailed(m)),
            None => {},
        }
        match frame.loading {
            Some(b) => self.apply_event(LifecycleEvent::LoadingChanged(b)),
            None => {},
        }
    }

    /// The operator asks for an analysis run. While a run is in flight this
    /// does nothing and returns `None`; otherwise the state turns to
    /// loading at once and the dispatch for the current parameters is
    /// returned.
    pub fn trigger(&mut self) -> (r: Option<Dispatch>)
        ensures
            old(self).is_loading ==> r is None && *final(self) == *old(self),
            !old(self).is_loading ==> {
                &&& r is Some
                &&& is_request_for(r->Some_0.request, old(self).params)
                &&& r->Some_0.endpoint@ == old(self).params.endpoint@
                &&& final(self).is_loading
                &&& final(self).phase() == Phase::Loading
                &&& same_settings(*final(self), *old(self))
                &&& final(self).result == old(self).result
                &&& final(self).error == old(self).error
            },
    {
        if self.is_loading {
            return None;
        }
        self.is_loading = true;
        let request = build_request(&self.params);
        Some(Dispatch { endpoint: self.params.endpoint.clone(), request })
    }

    /// A pointer click anywhere dismisses the pending notice; nothing else
    /// changes.
    pub fn on_pointer(&mut self, clicked: bool)
        ensures
            clicked ==> final(self).error@.len() == 0,
            !clicked ==> *final(self) == *old(self),
            same_settings(*final(self), *old(self)),
            final(self).is_loading == old(self).is_loading,
            final(self).result == old(self).result,
    {
        if clicked && !self.error.as_str().is_empty() {
            self.error = String::new();
        }
    }

    /// The operator picks a backend.
    pub fn select_backend(&mut self, name: &str)
        ensures
            final(self).params.backend@ == name@,
            final(self).params.filter == old(self).params.filter,
            final(self).params.explain == old(self).params.explain,
            final(self).params.cache == old(self).params.cache,
            final(self).params.endpoint == old(self).params.endpoint,
            final(self).is_loading == old(self).is_loading,
            final(self).show_configuration == old(self).show_configuration,
            final(self).result == old(self).result,
            final(self).error == old(self).error,
    {
        self.params.backend = name.to_string();
    }

    /// The operator picks a filter; the "no filter" sentinel clears the
    /// selection.
    pub fn select_filter(&mut self, name: &str)
        ensures
            final(self).params.filter@ == selected_filter(name@),
            final(self).params.backend == old(self).params.backend,
            final(self).params.explain == old(self).params.explain,
            final(self).params.cache == old(self).params.cache,
            final(self).params.endpoint == old(self).params.endpoint,
            final(self).is_loading == old(self).is_loading,
            final(self).show_configuration == old(self).show_configuration,
            final(self).result == old(self).result,
            final(self).error == old(self).error,
    {
        if is_no_filter(name) {
            self.params.filter = String::new();
        } else {
            self.params.filter = name.to_string();
        }
    }

    /// The operator ticks or clears the "explain" box.
    pub fn set_explain(&mut self, explain: bool)
        ensures
            final(self).params.explain == explain,
            final(self).params.backend == old(self).params.backend,
            final(self).params.filter == old(self).params.filter,
            final(self).params.cache == old(self).params.cache,
            final(self).params.endpoint == old(self).params.endpoint,
            final(self).is_loading == old(self).is_loading,
            final(self).show_configuration == old(self).show_configuration,
            final(self).result == old(self).result,
            final(self).error == old(self).error,
    {
        self.params.explain = explain;
    }

    /// The operator ticks or clears the "cache" box.
    pub fn set_cache(&mut self, cache: bool)
        ensures
            final(self).params.cache == cache,
            final(self).params.backend == old(self).params.backend,
            final(self).params.filter == old(self).params.filter,
            final(self).params.explain == old(self).params.explain,
            final(self).params.endpoint == old(self).params.endpoint,
            final(self).is_loading == old(self).is_loading,
            final(self).show_configuration == old(self).show_configuration,
            final(self).result == old(self).result,
            final(self).error == old(self).error,
    {
        self.params.cache = cache;
    }

    /// The operator edits the endpoint address in the configuration view.
    pub fn set_endpoint(&mut self, endpoint: String)
        ensures
            final(self).params.endpoint == endpoint,
            final(self).params.backend == old(self).params.backend,
            final(self).params.filter == old(self).params.filter,
            final(self).params.explain == old(self).params.explain,
            final(self).params.cache == old(self).params.cache,
            final(self).is_loading == old(self).is_loading,
            final(self).show_configuration == old(self).show_configuration,
            final(self).result == old(self).result,
            final(self).error == old(self).error,
    {
        self.params.endpoint = endpoint;
    }

    /// Opens or closes the configuration view.
    pub fn set_show_configuration(&mut self, show: bool)
        ensures
            final(self).show_configuration == show,
            final(self).params == old(self).params,
            final(self).is_loading == old(self).is_loading,
            final(self).result == old(self).result,
            final(self).error == old(self).error,
    {
        self.show_configuration = show;
    }

    /// The presentation state.
    pub fn current_phase(&self) -> (r: Phase)
        ensures
            r == self.phase(),
    {
        if self.is_loading {
            Phase::Loading
        } else if !self.error.as_str().is_empty() {
            Phase::IdleWithError
        } else if self.result.has_findings() {
            Phase::IdleWithResult
        } else {
            Phase::Idle
        }
    }
}

/// Picking the "no filter" sentinel leads to a request with no filter;
/// picking any other catalog filter leads to a request filtered by exactly
/// that filter.
pub proof fn lemma_filter_selection(i: int)
    requires
        0 <= i < 19,
    ensures
        spec_filters(selected_filter(FILTER_TYPES[i]@)) == (if i == 0 {
            Seq::<Seq<char>>::empty()
        } else {
            seq![FILTER_TYPES[i]@]
        }),
{
    if i == 0 {
        assert(FILTER_TYPES@[0] == "None");
        reveal_strlit("None");
        assert(FILTER_TYPES[0]@ =~= no_filter_name());
    } else {
        if i == 1 {
            assert(FILTER_TYPES@[1] == "ReplicaSet");
            reveal_strlit("ReplicaSet");
        } else if i == 2 {
            assert(FILTER_TYPES@[2] == "StatefulSet");
            reveal_strlit("StatefulSet");
        } else if i == 3 {
            assert(FILTER_TYPES@[3] == "ValidatingWebhookConfiguration");
            reveal_strlit("ValidatingWebhookConfiguration");
        } else if i == 4 {
            assert(FILTER_TYPES@[4] == "Service");
            reveal_strlit("Service");
        } else if i == 5 {
            assert(FILTER_TYPES@[5] == "Ingress");
            reveal_strlit("Ingress");
        } else if i == 6 {
            assert(FILTER_TYPES@[6] == "CronJob");
            reveal_strlit("CronJob");
        } else if i == 7 {
            assert(FILTER_TYPES@[7] == "Node");
            reveal_strlit("Node");
        } else if i == 8 {
            assert(FILTER_TYPES@[8] == "MutatingWebhookConfiguration");
            reveal_strlit("MutatingWebhookConfiguration");
        } else if i == 9 {
            assert(FILTER_TYPES@[9] == "Pod");
            reveal_strlit("Pod");
        } else if i == 10 {
            assert(FILTER_TYPES@[10] == "Deployment");
            reveal_strlit("Deployment");
        } else if i == 11 {
            assert(FILTER_TYPES@[11] == "PersistentVolumeClaim");
            reveal_strlit("PersistentVolumeClaim");
        } else if i == 12 {
            assert(FILTER_TYPES@[12] == "HorizontalPodAutoScaler");
            reveal_strlit("HorizontalPodAutoScaler");
        } else if i == 13 {
            assert(FILTER_TYPES@[13] == "PodDisruptionBudget");
            reveal_strlit("PodDisruptionBudget");
        } else if i == 14 {
            assert(FILTER_TYPES@[14] == "NetworkPolicy");
            reveal_strlit("NetworkPolicy");
        } else if i == 15 {
            assert(FILTER_TYPES@[15] == "Log");
            reveal_strlit("Log");
        } else if i == 16 {
            assert(FILTER_TYPES@[16] == "GatewayClass");
            reveal_strlit("GatewayClass");
        } else if i == 17 {
            assert(FILTER_TYPES@[17] == "Gateway");
            reveal_strlit("Gateway");
        } else if i == 18 {
            assert(FILTER_TYPES@[18] == "HTTPRoute");
            reveal_strlit("HTTPRoute");
        }
        assert(FILTER_TYPES[i]@.len() > 0);
        assert(FILTER_TYPES[i]@ != no_filter_name()) by {
            if FILTER_TYPES[i]@.len() == 4 {
                assert(FILTER_TYPES[i]@[2] != no_filter_name()[2]);
            }
        }
    }
}

} // verus!
