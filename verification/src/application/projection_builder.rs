//! Read models built from the event stream.

use vstd::prelude::*;
use crate::application::error::ApplicationResult;

verus! {

/// Rebuilds read models from the event stream. Replaying every event can
/// always rebuild them; this builder keeps no read model yet, so each step
/// succeeds without change.
pub struct ProjectionBuilder;

impl ProjectionBuilder {
    /// A builder.
    pub fn new() -> (r: Self)
        ensures
            r == ProjectionBuilder,
    {
        ProjectionBuilder
    }

    /// Rebuilds the read models from the whole event stream.
    pub fn rebuild_from_events(&self) -> (r: ApplicationResult<()>)
        ensures
            r is Ok,
    {
        Ok(())
    }

    /// Brings the read models up to date with one event.
    pub fn update_from_event(&self, event_data: &[u8]) -> (r: ApplicationResult<()>)
        ensures
            r is Ok,
    {
        Ok(())
    }
}

impl Default for ProjectionBuilder {
    fn default() -> (r: Self)
        ensures
            r == ProjectionBuilder,
    {
        ProjectionBuilder::new()
    }
}

} // verus!
