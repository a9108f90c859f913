//! The API token that every request is authenticated with.

use vstd::prelude::*;
use vstd::string::StringExecFns;

verus! {

/// The identity that requests are made as: a user of a realm, and one of
/// that user's API tokens.
#[derive(Debug)]
pub struct ProxmoxAuthentication {
    pub user: String,
    pub realm: String,
    pub token: PveToken,
}

/// An API token: its name and its secret value.
#[derive(Debug)]
pub struct PveToken {
    pub name: String,
    pub value: String,
}

impl ProxmoxAuthentication {
    /// The text of the header value that authenticates every request.
    pub open spec fn spec_authorization_value(&self) -> Seq<char> {
        "PVEAPIToken="@ + self.user@ + "@"@ + self.realm@ + "!"@ + self.token.name@ + "="@ + self.token.value@
    }

    /// The header value that authenticates every request:
    /// `PVEAPIToken=<user>@<realm>!<token name>=<token value>`.
    pub fn authorization_value(&self) -> (r: String)
        ensures
            r@ == self.spec_authorization_value(),
    {
        let mut r = String::from_str("PVEAPIToken=");
        r.append(self.user.as_str());
        r.append("@");
        r.append(self.realm.as_str());
        r.append("!");
        r.append(self.token.name.as_str());
        r.append("=");
        r.append(self.token.value.as_str());
        r
    }
}

} // verus!
