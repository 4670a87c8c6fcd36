use vstd::prelude::*;

use email_address::EmailAddress;

verus! {

/// `email_address::EmailAddress`, a syntactically valid e-mail address,
/// carried through unopened.
#[verifier::external_type_specification]
#[verifier::external_body]
pub struct ExEmailAddress(EmailAddress);

/// The name a subscriber gave in the subscription form.
pub struct SubscriberName {
    name: String,
}

impl View for SubscriberName {
    type V = Seq<char>;

    closed spec fn view(&self) -> Seq<char> {
        self.name@
    }
}

impl SubscriberName {
    /// Wraps the name as given.
    pub fn new(name: String) -> (s: SubscriberName)
        ensures
            s@ == name@,
    {
        SubscriberName { name }
    }

    /// The name as given.
    pub fn as_str(&self) -> (name: &str)
        ensures
            name@ == self@,
    {
        self.name.as_str()
    }
}

/// A new subscriber: where to send the newsletter, and to whom.
pub struct NewSubscriber {
    pub email: EmailAddress,
    pub name: SubscriberName,
}

} // verus!
