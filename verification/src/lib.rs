//! A small windowing toolkit core: it bootstraps a connection to a display
//! server, resolves well-known atoms, selects an alpha-capable visual, detects
//! a running compositor, creates and maps windows, binds drawable surfaces,
//! and dispatches visibility-gated render passes over a tree of elements.
//!
//! All server traffic is expressed against a sequential request/reply model
//! (`connection::DisplayConnection`) whose wire trace is observable, so the
//! protocol behaviour — pipelining, request ordering, step-identifying
//! failures — is stated in contracts and proved.

pub mod connection;
pub mod errors;
pub mod model;
pub mod prepare_window;
pub mod protocol;
pub mod root;
pub mod size;
pub mod surface;
pub mod window;
pub mod xcb_visualtype_t;
