use vstd::prelude::*;

verus! {

/// What a registry operation can fail with.
#[derive(Debug, PartialEq, Eq)]
pub enum Error {
    /// A second subscriber asked for the account event stream, which admits one.
    UserEvents,
    /// No live subscription has the given id.
    SubscriptionNotFound,
    /// Every subscription id has been issued.
    SubscriptionIdsExhausted,
}

} // verus!
