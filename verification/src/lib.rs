//! Session controller for a webcam viewer: a live capture graph with an
//! optional, dynamically attached recording branch, an asynchronous snapshot
//! conversion, a countdown timer, and persisted settings.
//!
//! The media engine and the UI toolkit live outside this crate. Every
//! decision the application takes — which sub-graph to build, which file to
//! write, when a branch may be removed, when a snapshot fires — is made here,
//! over plain values, and verified. The surrounding process performs the
//! engine calls and hands their outcomes back as events.

pub mod app;
pub mod clock;
pub mod formats;
pub mod laws;
pub mod paths;
pub mod pipeline;
pub mod settings;
pub mod store;
pub mod text;

use vstd::prelude::*;

verus! {

/// Unique application name, used for the per-application settings path.
pub fn application_name() -> (r: &'static str)
    ensures
        r@ == "com.github.gtk-rs.cameraview"@,
{
    "com.github.gtk-rs.cameraview"
}

} // verus!
