//! A subscriber that has been validated and not yet stored.

use crate::domain::subscriber_email::SubscriberEmail;
use crate::domain::subscriber_name::SubscriberName;
use vstd::prelude::*;

verus! {

/// The validated pair of address and name of a signup.
#[derive(Debug, PartialEq, Eq)]
pub struct NewSubscriber {
    pub email: SubscriberEmail,
    pub name: SubscriberName,
}

impl NewSubscriber {
    /// Puts an address and a name together.
    pub fn new(email: SubscriberEmail, name: SubscriberName) -> (subscriber: Self)
        ensures
            subscriber.email == email,
            subscriber.name == name,
    {
        Self { email, name }
    }
}

} // verus!
