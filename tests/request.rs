use power_nerd::catalog::{backend_type, filter_type, is_no_filter, BACKEND_TYPES, FILTER_TYPES};
use power_nerd::request::{build_request, filters_for, RequestParameters};

fn params(filter: &str, cache: bool) -> RequestParameters {
    RequestParameters {
        backend: "openai".to_string(),
        filter: filter.to_string(),
        explain: true,
        cache,
        endpoint: "http://localhost:8080".to_string(),
    }
}

#[test]
fn catalog_sizes_and_entries() {
    assert_eq!(BACKEND_TYPES.len(), 12);
    assert_eq!(FILTER_TYPES.len(), 19);
    assert_eq!(backend_type(0), "openai");
    assert_eq!(backend_type(11), "ibmwatsonxai");
    assert_eq!(filter_type(0), "None");
    assert_eq!(filter_type(9), "Pod");
    assert_eq!(filter_type(18), "HTTPRoute");
}

#[test]
fn sentinel_is_recognised() {
    assert!(is_no_filter("None"));
    assert!(!is_no_filter("Node"));
    assert!(!is_no_filter("Non"));
    assert!(!is_no_filter(""));
    assert!(!is_no_filter("Nonee"));
}

#[test]
fn empty_filter_gives_no_filters() {
    assert!(filters_for(&String::new()).is_empty());
}

#[test]
fn filter_gives_single_entry() {
    assert_eq!(filters_for(&"Pod".to_string()), vec!["Pod".to_string()]);
}

#[test]
fn cache_on_means_nocache_off() {
    let r = build_request(&params("", true));
    assert!(!r.nocache);
}

#[test]
fn cache_off_means_nocache_on() {
    let r = build_request(&params("", false));
    assert!(r.nocache);
}

#[test]
fn request_carries_parameters_and_empty_unused_fields() {
    let r = build_request(&params("Deployment", true));
    assert_eq!(r.backend, "openai");
    assert!(r.explain);
    assert!(!r.anonymize);
    assert_eq!(r.namespace, "");
    assert_eq!(r.language, "");
    assert_eq!(r.max_concurrency, 0);
    assert_eq!(r.output, "");
    assert_eq!(r.label_selector, "");
    assert_eq!(r.filters, vec!["Deployment".to_string()]);
}
