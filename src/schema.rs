use vstd::prelude::*;

use crate::data::{chris, profile_data};
use crate::types::{Chris, ContactMePayload, MutationRoot, QueryRoot};

verus! {

impl QueryRoot {
    /// Liveness token used for health checks.
    pub fn ping(&self) -> (r: &'static str)
        ensures
            r@ == "pong"@,
    {
        "pong"
    }

    /// The portfolio owner's profile.
    pub fn chris(&self) -> (r: Chris)
        ensures
            r@ == profile_data(),
    {
        chris()
    }
}

impl MutationRoot {
    /// The answer of the contact mutation, given what the email delivery
    /// reported: success exactly when the delivery succeeded, and otherwise
    /// the delivery's message as the error.
    pub fn contact_me_outcome(&self, delivery: Result<(), String>) -> (r: Result<
        ContactMePayload,
        String,
    >)
        ensures
            match delivery {
                Ok(_) => r matches Ok(p) && p.success,
                Err(m) => r matches Err(e) && e@ == m@,
            },
    {
        match delivery {
            Ok(_) => Ok(ContactMePayload { success: true }),
            Err(m) => Err(m),
        }
    }
}

} // verus!
