use vstd::prelude::*;

verus! {

/// The names of an account holder.
pub struct DropboxName {
    pub abbreviated_name: String,
    pub display_name: String,
    pub familiar_name: String,
    pub given_name: String,
    pub surname: String,
}

/// The account a token belongs to.
pub struct DropboxProfile {
    pub name: DropboxName,
}

impl DropboxProfile {
    /// The line that tells the user which account is signed in.
    pub fn signed_in_message(&self) -> (r: String)
        ensures
            r@ == "You're signed into Dropbox as "@ + self.name.display_name@,
    {
        let mut m = String::from_str("You're signed into Dropbox as ");
        m.append(self.name.display_name.as_str());
        m
    }
}

} // verus!
