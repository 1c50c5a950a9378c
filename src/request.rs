//! Request parameters the operator edits, and the analysis request built
//! from them for one dispatch.
use vstd::prelude::*;

verus! {

/// What the operator has configured for the next analysis run. An empty
/// `filter` means "no filter".
pub struct RequestParameters {
    pub backend: String,
    pub filter: String,
    pub explain: bool,
    pub cache: bool,
    pub endpoint: String,
}

/// The analysis request as the remote service expects it. The fields this
/// client never sets carry their empty or zero value.
pub struct AnalyzeParams {
    pub backend: String,
    pub namespace: String,
    pub explain: bool,
    pub anonymize: bool,
    pub nocache: bool,
    pub language: String,
    pub max_concurrency: i64,
    pub output: String,
    pub filters: Vec<String>,
    pub label_selector: String,
}

/// The filter list sent for a selected filter: none for the empty
/// selection, otherwise exactly the selection.
pub open spec fn spec_filters(filter: Seq<char>) -> Seq<Seq<char>> {
    if filter.len() == 0 {
        Seq::empty()
    } else {
        seq![filter]
    }
}

/// The views of a vector of strings.
pub open spec fn strings_view(v: Seq<String>) -> Seq<Seq<char>> {
    v.map_values(|s: String| s@)
}

/// Whether `r` is the request built from `p`.
pub open spec fn is_request_for(r: AnalyzeParams, p: RequestParameters) -> bool {
    &&& r.backend@ == p.backend@
    &&& r.namespace@.len() == 0
    &&& r.explain == p.explain
    &&& !r.anonymize
    &&& r.nocache == !p.cache
    &&& r.language@.len() == 0
    &&& r.max_concurrency == 0
    &&& r.output@.len() == 0
    &&& strings_view(r.filters@) == spec_filters(p.filter@)
    &&& r.label_selector@.len() == 0
}

/// The filter list for the selected filter.
pub fn filters_for(filter: &String) -> (r: Vec<String>)
    ensures
        strings_view(r@) == spec_filters(filter@),
{
    let mut filters: Vec<String> = Vec::new();
    if !filter.as_str().is_empty() {
        filters.push(filter.clone());
    }
    proof {
        if filter@.len() == 0 {
            assert(strings_view(filters@) =~= spec_filters(filter@));
        } else {
            assert(strings_view(filters@) =~= spec_filters(filter@));
        }
    }
    filters
}

/// The analysis request for `p`: the cache flag is inverted into the
/// "disable cache" flag, and the selected filter becomes the filter list.
pub fn build_request(p: &RequestParameters) -> (r: AnalyzeParams)
    ensures
        is_request_for(r, *p),
{
    AnalyzeParams {
        backend: p.backend.clone(),
        namespace: String::new(),
        explain: p.explain,
        anonymize: false,
        nocache: !p.cache,
        language: String::new(),
        max_concurrency: 0,
        output: String::new(),
        filters: filters_for(&p.filter),
        label_selector: String::new(),
    }
}

} // verus!
