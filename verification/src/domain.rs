pub mod subscriber_email;
pub mod subscriber_name;

pub use subscriber_email::SubscriberEmail;
pub use subscriber_name::SubscriberName;

use vstd::prelude::*;

verus! {

use crate::domain::subscriber_email::{email_error_text, valid_email_text};
use crate::domain::subscriber_name::{name_error_text, valid_name};

/// Raw, untrusted form input: one name and one e-mail text field, exactly as
/// they arrived. It is consumed by assembly and never retained.
pub struct SubscriptionFormData {
    pub email: String,
    pub name: String,
}

/// A subscriber that is safe to persist: both fields have already passed
/// validation, and no other way to build the record exists.
#[derive(Debug)]
pub struct NewSubscriber {
    pub email: SubscriberEmail,
    pub name: SubscriberName,
}

impl NewSubscriber {
    /// Assemble a validated record from raw input. The name is checked
    /// first: when it fails, its error alone is reported and the e-mail is
    /// not examined. The e-mail is checked only after the name passed. Only
    /// when both pass is a record produced, holding both texts unchanged.
    pub fn try_from(value: SubscriptionFormData) -> (r: Result<NewSubscriber, String>)
        ensures
            r is Ok <==> valid_name(value.name@) && valid_email_text(value.email@),
            r matches Ok(ns) ==> ns.name@ == value.name@ && ns.email@ == value.email@,
            !valid_name(value.name@) ==> (r matches Err(e) && e@ == name_error_text(value.name@)),
            valid_name(value.name@) && !valid_email_text(value.email@) ==> (r matches Err(e)
                && e@ == email_error_text(value.email@)),
    {
        let SubscriptionFormData { email, name } = value;
        let name = match SubscriberName::parse(name) {
            Ok(n) => n,
            Err(e) => return Err(e),
        };
        let email = match SubscriberEmail::parse(email) {
            Ok(m) => m,
            Err(e) => return Err(e),
        };
        Ok(NewSubscriber { email, name })
    }
}

} // verus!

