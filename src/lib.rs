//! Client-side core of an interactive cluster-analysis front end: the
//! request parameters an operator edits, the request built from them for
//! the remote analysis service, the lifecycle events a background dispatch reports, and
//! the render-loop state machine that drains them.
pub mod catalog;
pub mod request;
pub mod events;
pub mod ui;
pub mod bridge;
