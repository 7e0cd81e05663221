use vstd::prelude::*;

verus! {

pub struct User {
    pub username: String,
    pub email: String,
    pub sign_in_count: u64,
    pub active: bool,
}

/// An active user who has signed in once.
pub fn create_new_user(username: &str, email: &str) -> (user: User)
    ensures
        user.username@ == username@,
        user.email@ == email@,
        user.active,
        user.sign_in_count == 1,
{
    User {
        email: String::from_str(email),
        username: String::from_str(username),
        active: true,
        sign_in_count: 1,
    }
}

/// The same user under a new name and address.
pub fn update_user(user: User, username: &str, email: &str) -> (updated: User)
    ensures
        updated.username@ == username@,
        updated.email@ == email@,
        updated.active == user.active,
        updated.sign_in_count == user.sign_in_count,
{
    User {
        username: String::from_str(username),
        email: String::from_str(email),
        active: user.active,
        sign_in_count: user.sign_in_count,
    }
}

} // verus!
