//! The envelope of the notifications that the simulator posts.

use vstd::prelude::*;

verus! {

/// A notification: what it is about, and its payload.
pub struct Req<T> {
    pub meta: Eveent,
    pub payload: T,
}

/// The account and the kind of event of a notification.
pub struct Eveent {
    pub account: String,
    pub event: String,
}

/// The account that the simulator posts as.
pub open spec fn simulator_account() -> Seq<char> {
    "municio"@
}

/// Wraps a payload into a notification of kind `event` from the simulator's
/// account.
pub fn envelope<T>(event: &str, payload: T) -> (req: Req<T>)
    ensures
        req.meta.account@ == simulator_account(),
        req.meta.event@ == event@,
        req.payload == payload,
{
    let mut event_name = String::new();
    event_name.append(event);
    let mut account = String::new();
    account.append("municio");
    Req { meta: Eveent { account, event: event_name }, payload }
}

} // verus!
