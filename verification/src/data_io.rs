//! The gateway to stored state. Nothing is stored yet: loading finds no state,
//! and persisting reports that it is not supported. Callers go on either way.

use crate::error::Error;
use crate::metrics::GeometricMetrics;
use vstd::prelude::*;

verus! {

/// A stored state of the system: the metrics that were current when it was
/// stored.
#[derive(Clone, Debug, PartialEq)]
pub struct SystemState {
    pub metrics: GeometricMetrics,
}

/// The gateway to stored state.
pub struct DataIoGateway;

impl DataIoGateway {
    /// The latest state stored under `base_path`: there is none.
    pub fn load_latest_state(base_path: &str) -> (state: Result<Option<SystemState>, Error>)
        ensures
            state matches Ok(None),
    {
        Ok(None)
    }

    /// Stores `metrics` under `base_path`: not supported, and reported as a
    /// storage failure that says so.
    pub fn persist_metrics(base_path: &str, metrics: &GeometricMetrics) -> (done: Result<(), Error>)
        ensures
            done matches Err(Error::Io(detail)) && detail@ == "data persistence not implemented"@,
    {
        Err(Error::Io("data persistence not implemented".to_owned()))
    }
}

} // verus!
