use vstd::prelude::*;

verus! {

/// One notification to show: scoped to the application's identifier, with a
/// title and a body.
#[derive(Clone, Debug)]
pub struct NotificationRequest {
    pub identifier: String,
    pub title: String,
    pub body: String,
}

impl NotificationRequest {
    /// The request for one notification under the application's identifier.
    pub fn new(identifier: &str, title: String, body: String) -> (r: NotificationRequest)
        ensures
            r.identifier@ == identifier@,
            r.title@ == title@,
            r.body@ == body@,
    {
        NotificationRequest { identifier: String::from_str(identifier), title, body }
    }
}

} // verus!
