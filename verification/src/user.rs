//! The account that runs the program.

use vstd::prelude::*;

verus! {

/// The account's name, its login shell and the host's name.
pub struct User<'a> {
    pub user: &'a str,
    pub shell: &'a str,
    pub host: String,
}

impl<'a> User<'a> {
    /// A record with every field empty.
    pub fn new() -> (user: User<'a>)
        ensures
            user.user@.len() == 0,
            user.shell@.len() == 0,
            user.host@.len() == 0,
    {
        let empty: &'a str = "";
        proof {
            reveal_strlit("");
        }
        User { user: empty, shell: empty, host: String::new() }
    }

    /// Records the three facts as the provider gave them.
    pub fn get_user_info(&mut self, user: &'a str, shell: &'a str, host: String)
        ensures
            final(self).user == user,
            final(self).shell == shell,
            final(self).host == host,
    {
        self.user = user;
        self.shell = shell;
        self.host = host;
    }
}

} // verus!
