use vstd::prelude::*;

verus! {

/// A stored identity record: one row of the user store. `password` holds the
/// self-describing Argon2id hash, never the plaintext. `id` and `created_at`
/// are set once at creation; `email` is the unique lookup key.
#[derive(Debug)]
pub struct User {
    pub id: String,
    pub email: String,
    pub password: String,
    pub role: String,
    pub created_at: Option<i64>,
}

/// The mathematical value of a `User`: every text field as a character
/// sequence, the creation instant as Unix seconds.
pub ghost struct UserView {
    pub id: Seq<char>,
    pub email: Seq<char>,
    pub password: Seq<char>,
    pub role: Seq<char>,
    pub created_at: Option<i64>,
}

impl View for User {
    type V = UserView;

    open spec fn view(&self) -> UserView {
        UserView {
            id: self.id@,
            email: self.email@,
            password: self.password@,
            role: self.role@,
            created_at: self.created_at,
        }
    }
}

/// What a client is shown of a stored identity: every field of `User` except
/// the password hash, which this type cannot carry at all.
#[derive(Debug)]
pub struct PublicUser {
    pub id: String,
    pub email: String,
    pub role: String,
    pub created_at: Option<i64>,
}

/// The mathematical value of a `PublicUser`.
pub ghost struct PublicUserView {
    pub id: Seq<char>,
    pub email: Seq<char>,
    pub role: Seq<char>,
    pub created_at: Option<i64>,
}

impl View for PublicUser {
    type V = PublicUserView;

    open spec fn view(&self) -> PublicUserView {
        PublicUserView {
            id: self.id@,
            email: self.email@,
            role: self.role@,
            created_at: self.created_at,
        }
    }
}

/// The public projection of a stored record: the same identity with the
/// password hash stripped.
pub open spec fn public_of(u: UserView) -> PublicUserView {
    PublicUserView { id: u.id, email: u.email, role: u.role, created_at: u.created_at }
}

/// Strips the password hash from a stored record, leaving exactly the fields
/// a response may carry.
pub fn public_view(u: &User) -> (r: PublicUser)
    ensures
        r@ == public_of(u@),
{
    PublicUser {
        id: u.id.clone(),
        email: u.email.clone(),
        role: u.role.clone(),
        created_at: u.created_at,
    }
}

/// The request body of a registration call.
#[derive(Debug)]
pub struct RegisterPayload {
    pub email: String,
    pub password: String,
}

/// The request body of a login call.
#[derive(Debug)]
pub struct LoginPayload {
    pub email: String,
    pub password: String,
}

} // verus!
