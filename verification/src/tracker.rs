//! Starting and stopping the cursor/click event log of a recording.
//!
//! Logging needs the global mouse hook of the Windows build; elsewhere the
//! tracker is a stub that logs nothing.
use vstd::prelude::*;
use std::path::PathBuf;
use std::sync::Arc;
use std::sync::atomic::{AtomicBool, AtomicU64};

verus! {

#[verifier::external_type_specification]
#[verifier::external_body]
pub struct ExPathBuf(PathBuf);

/// The event tracker of platforms without a mouse hook: it records nothing.
pub struct StubEventTracker;

impl StubEventTracker {
    /// Starts the (empty) log; this cannot fail.
    pub fn start(output_path: PathBuf, stop: Arc<AtomicBool>, start_time: Arc<AtomicU64>) -> (r: Result<Self, String>)
        ensures
            r is Ok,
    {
        Ok(StubEventTracker)
    }

    /// Stops the (empty) log.
    pub fn stop(&mut self) {
    }
}

/// The event tracker a recording starts: where a mouse hook exists it
/// records the cursor and clicks next to the video until `stop` is set,
/// timed from the recording start published in `start_time`. This build has
/// none, so it holds the stub tracker.
pub struct EventTracker {
    inner: StubEventTracker,
}

impl EventTracker {
    /// Starts the tracker. This build has no mouse hook, so the tracker is
    /// the stub: it records nothing and starting it cannot fail.
    pub fn start(output_path: PathBuf, stop: Arc<AtomicBool>, start_time: Arc<AtomicU64>) -> (r: Result<Self, String>)
        ensures
            r is Ok,
    {
        let inner = StubEventTracker::start(output_path, stop, start_time)?;
        Ok(EventTracker { inner })
    }

    /// Stops the tracker; the stub has nothing to stop.
    pub fn stop(&mut self) {
        self.inner.stop();
    }
}

} // verus!
