use vstd::prelude::*;

verus! {

/// Query parameters of the subscription confirmation link.
pub struct Parameters {
    subscription_token: String,
}

impl View for Parameters {
    type V = Seq<char>;

    /// The subscription token carried by the link.
    closed spec fn view(&self) -> Seq<char> {
        self.subscription_token@
    }
}

impl Parameters {
    /// Builds the parameters from the token found in the link.
    pub fn new(subscription_token: String) -> (p: Parameters)
        ensures
            p@ == subscription_token@,
    {
        Parameters { subscription_token }
    }

    /// The subscription token carried by the link.
    pub fn subscription_token(&self) -> (token: &str)
        ensures
            token@ == self@,
    {
        self.subscription_token.as_str()
    }
}

} // verus!
