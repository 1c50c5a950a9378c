//! The enumerated backend and filter identifiers the remote service knows.
use vstd::prelude::*;

verus! {

broadcast use vstd::string::group_string_axioms;

/// Backend identifiers accepted by the remote analysis service.
pub const BACKEND_TYPES: [&'static str; 12] = [
    "openai",
    "amazonbedrock",
    "localai",
    "ollama",
    "azureopenai",
    "cohere",
    "amazonsagemaker",
    "google",
    "huggingface",
    "googlevertexai",
    "oci",
    "ibmwatsonxai",
];

/// Filter identifiers; the first entry is the "no filter" sentinel.
pub const FILTER_TYPES: [&'static str; 19] = [
    "None",
    "ReplicaSet",
    "StatefulSet",
    "ValidatingWebhookConfiguration",
    "Service",
    "Ingress",
    "CronJob",
    "Node",
    "MutatingWebhookConfiguration",
    "Pod",
    "Deployment",
    "PersistentVolumeClaim",
    "HorizontalPodAutoScaler",
    "PodDisruptionBudget",
    "NetworkPolicy",
    "Log",
    "GatewayClass",
    "Gateway",
    "HTTPRoute",
];

/// The text of the "no filter" sentinel.
pub open spec fn no_filter_name() -> Seq<char> {
    seq!['N', 'o', 'n', 'e']
}

/// Whether `name` is the "no filter" sentinel.
pub fn is_no_filter(name: &str) -> (r: bool)
    ensures
        r == (name@ == no_filter_name()),
{
    let n = name.unicode_len();
    if n != 4 {
        return false;
    }
    let r = name.get_char(0) == 'N' && name.get_char(1) == 'o' && name.get_char(2) == 'n'
        && name.get_char(3) == 'e';
    assert(r ==> name@ =~= no_filter_name());
    r
}

/// The backend identifier at position `i` of the catalog.
pub fn backend_type(i: usize) -> (r: &'static str)
    requires
        i < 12,
    ensures
        r@ == BACKEND_TYPES[i as int]@,
{
    BACKEND_TYPES[i]
}

/// The filter identifier at position `i` of the catalog.
pub fn filter_type(i: usize) -> (r: &'static str)
    requires
        i < 19,
    ensures
        r@ == FILTER_TYPES[i as int]@,
{
    FILTER_TYPES[i]
}

} // verus!
