use vstd::prelude::*;

verus! {

/// Default server access control: anonymous login if allowed, and the given username and
/// password pairs.
pub struct DefaultAccessControl<'a> {
    allow_anonymous: bool,
    username_password_login: &'a [(&'a String, &'a String)],
}

impl<'a> DefaultAccessControl<'a> {
    pub closed spec fn spec_allow_anonymous(self) -> bool {
        self.allow_anonymous
    }

    pub closed spec fn spec_username_password_login(self) -> Seq<(&'a String, &'a String)> {
        self.username_password_login@
    }

    /// Creates default access control.
    pub fn new(
        allow_anonymous: bool,
        username_password_login: &'a [(&'a String, &'a String)],
    ) -> (r: DefaultAccessControl<'a>)
        ensures
            r.spec_allow_anonymous() == allow_anonymous,
            r.spec_username_password_login() == username_password_login@,
    {
        DefaultAccessControl { allow_anonymous, username_password_login }
    }

    /// Gets whether anonymous login is allowed.
    pub fn allow_anonymous(&self) -> (r: bool)
        ensures
            r == self.spec_allow_anonymous(),
    {
        self.allow_anonymous
    }

    /// Gets the username and password pairs.
    pub fn username_password_login(&self) -> (r: &'a [(&'a String, &'a String)])
        ensures
            r@ == self.spec_username_password_login(),
    {
        self.username_password_login
    }
}

} // verus!
