//! Output ports: how use-case results leave the application layer.

use vstd::prelude::*;

verus! {

/// A notice for the event viewer: who did what, where, and whether it worked.
#[derive(Clone, Debug)]
pub struct EventNotification {
    pub user: String,
    pub location: String,
    pub action: String,
    pub success: bool,
}

impl EventNotification {
    /// A notice of an action that succeeded.
    pub fn success(user: String, location: String, action: String) -> (r: Self)
        ensures
            r.user@ == user@,
            r.location@ == location@,
            r.action@ == action@,
            r.success,
    {
        EventNotification { user, location, action, success: true }
    }

    /// A notice of an action that failed.
    pub fn failure(user: String, location: String, action: String) -> (r: Self)
        ensures
            r.user@ == user@,
            r.location@ == location@,
            r.action@ == action@,
            !r.success,
    {
        EventNotification { user, location, action, success: false }
    }
}

/// Presents the result of a use case.
pub trait OutputPort {
    type Output;

    fn present(&self, output: Self::Output);
}

} // verus!
