use vstd::prelude::*;
use vstd::string::StringExecFns;

use crate::errors::ServiceError;
use crate::user::User;
use crate::user::UserView;

verus! {

/// The role a record is created with when nothing chooses another.
pub open spec fn default_role() -> Seq<char> {
    "user"@
}

/// Whether some record in `users` carries `email`.
pub open spec fn has_email(users: Seq<UserView>, email: Seq<char>) -> bool {
    exists|i: int| 0 <= i < users.len() && users[i].email == email
}

/// Whether some record in `users` carries `id`.
pub open spec fn has_id(users: Seq<UserView>, id: Seq<char>) -> bool {
    exists|i: int| 0 <= i < users.len() && users[i].id == id
}

/// No two records share an email.
pub open spec fn emails_unique(users: Seq<UserView>) -> bool {
    forall|i: int, j: int|
        0 <= i < j < users.len() ==> users[i].email != users[j].email
}

/// No two records share an id.
pub open spec fn ids_unique(users: Seq<UserView>) -> bool {
    forall|i: int, j: int|
        0 <= i < j < users.len() ==> users[i].id != users[j].id
}

/// The store invariant: emails and ids are both unique across all records.
/// Every constructor establishes it and every operation preserves it, so a
/// registration that would duplicate an email fails without a partial write.
pub open spec fn store_wf(users: Seq<UserView>) -> bool {
    emails_unique(users) && ids_unique(users)
}

/// How many records in `users` carry `email`.
pub open spec fn count_email(users: Seq<UserView>, email: Seq<char>) -> nat
    decreases users.len(),
{
    if users.len() == 0 {
        0
    } else {
        (if users.last().email == email {
            1nat
        } else {
            0nat
        }) + count_email(users.drop_last(), email)
    }
}

/// A sequence none of whose records carries `email` counts zero for it.
pub proof fn lemma_count_email_zero(users: Seq<UserView>, email: Seq<char>)
    requires
        !has_email(users, email),
    ensures
        count_email(users, email) == 0,
    decreases users.len(),
{
    if users.len() > 0 {
        assert(users.last().email != email);
        assert(!has_email(users.drop_last(), email)) by {
            assert(forall|i: int|
                0 <= i < users.len() - 1 ==> users.drop_last()[i] == users[i]);
        }
        lemma_count_email_zero(users.drop_last(), email);
    }
}

/// Law: under the uniqueness invariant, at most one stored record carries any
/// given email; after the one registration of an email succeeds, exactly one
/// record carries it, and a second registration is refused without a write.
pub proof fn lemma_email_stored_once(users: Seq<UserView>, email: Seq<char>)
    requires
        emails_unique(users),
    ensures
        count_email(users, email) <= 1,
    decreases users.len(),
{
    if users.len() > 0 {
        let prefix = users.drop_last();
        assert(forall|i: int| 0 <= i < prefix.len() ==> prefix[i] == users[i]);
        lemma_email_stored_once(prefix, email);
        if users.last().email == email {
            assert(!has_email(prefix, email)) by {
                let last: int = users.len() - 1;
                assert(forall|i: int|
                    0 <= i < prefix.len() ==> #[trigger] users[i].email != users[last].email);
            }
            lemma_count_email_zero(prefix, email);
        }
    }
}

/// Law: appending a record with a fresh email brings the count of records
/// carrying that email from zero to exactly one.
pub proof fn lemma_first_registration_counts_one(users: Seq<UserView>, u: UserView)
    requires
        !has_email(users, u.email),
    ensures
        count_email(users.push(u), u.email) == 1,
        has_email(users.push(u), u.email),
{
    assert(users.push(u).last() == u);
    assert(users.push(u).drop_last() =~= users);
    lemma_count_email_zero(users, u.email);
    assert(users.push(u)[users.len() as int] == u);
}

/// The in-memory identity store: the one owner of stored `User` records,
/// offering exactly the create and find-by-email operations of the gateway.
pub struct UserStore {
    users: Vec<User>,
}

impl View for UserStore {
    type V = Seq<UserView>;

    closed spec fn view(&self) -> Seq<UserView> {
        self.users@.map_values(|u: User| u@)
    }
}

impl UserStore {
    /// An empty store; trivially well formed.
    pub fn new() -> (r: UserStore)
        ensures
            r@ =~= Seq::<UserView>::empty(),
            store_wf(r@),
    {
        UserStore { users: Vec::new() }
    }

    /// How many records the store holds.
    pub fn len(&self) -> (r: usize)
        ensures
            r == self@.len(),
    {
        self.users.len()
    }

    /// Whether a record with `email` is stored.
    pub fn contains_email(&self, email: &String) -> (r: bool)
        ensures
            r == has_email(self@, email@),
    {
        let n = self.users.len();
        let mut i: usize = 0;
        while i < n
            invariant
                i <= n,
                n == self@.len(),
                n == self.users@.len(),
                forall|j: int| 0 <= j < i ==> self@[j].email != email@,
            decreases n - i,
        {
            if self.users[i].email == *email {
                assert(self@[i as int].email == email@);
                return true;
            }
            i += 1;
        }
        false
    }

    /// Whether a record with `id` is stored.
    pub fn contains_id(&self, id: &String) -> (r: bool)
        ensures
            r == has_id(self@, id@),
    {
        let n = self.users.len();
        let mut i: usize = 0;
        while i < n
            invariant
                i <= n,
                n == self@.len(),
                n == self.users@.len(),
                forall|j: int| 0 <= j < i ==> self@[j].id != id@,
            decreases n - i,
        {
            if self.users[i].id == *id {
                assert(self@[i as int].id == id@);
                return true;
            }
            i += 1;
        }
        false
    }

    /// Looks a record up by its unique email key. Succeeds exactly when some
    /// record carries `email`, and the record returned is a stored one with
    /// that email; under the invariant it is the only such record. A miss is
    /// `NotFound`, which the auth service translates before a client sees it.
    pub fn find_by_email(&self, email: &String) -> (r: Result<User, ServiceError>)
        ensures
            (match r {
                Ok(u) => self@.contains(u@) && u@.email == email@ && has_email(self@, email@),
                Err(e) => e == ServiceError::NotFound && !has_email(self@, email@),
            }),
    {
        let n = self.users.len();
        let mut i: usize = 0;
        while i < n
            invariant
                i <= n,
                n == self@.len(),
                n == self.users@.len(),
                forall|j: int| 0 <= j < i ==> self@[j].email != email@,
            decreases n - i,
        {
            if self.users[i].email == *email {
                let u = &self.users[i];
                let found = User {
                    id: u.id.clone(),
                    email: u.email.clone(),
                    password: u.password.clone(),
                    role: u.role.clone(),
                    created_at: u.created_at,
                };
                assert(found@ == self@[i as int]);
                return Ok(found);
            }
            i += 1;
        }
        Err(ServiceError::NotFound)
    }

    /// Inserts a new record under a caller-supplied fresh id and an
    /// already-hashed password, giving it the default role and `created_at`.
    /// Succeeds exactly when neither the email nor the id is taken: a
    /// duplicate email is the `Conflict` of a repeated registration, a
    /// duplicate id a `Store` fault, and either failure leaves the store
    /// unchanged. On success the new record is appended and returned whole.
    pub fn create_user(
        &mut self,
        id: String,
        email: String,
        password: String,
        created_at: i64,
    ) -> (r: Result<User, ServiceError>)
        requires
            store_wf(old(self)@),
        ensures
            store_wf(final(self)@),
            (match r {
                Ok(u) => !has_email(old(self)@, email@) && !has_id(old(self)@, id@)
                    && u@ == (UserView {
                    id: id@,
                    email: email@,
                    password: password@,
                    role: default_role(),
                    created_at: Some(created_at),
                }) && final(self)@ =~= old(self)@.push(u@),
                Err(e) => final(self)@ == old(self)@ && ((e == ServiceError::Conflict
                    && has_email(old(self)@, email@)) || (e == ServiceError::Store && !has_email(
                    old(self)@,
                    email@,
                ) && has_id(old(self)@, id@))),
            }),
    {
        if self.contains_email(&email) {
            return Err(ServiceError::Conflict);
        }
        if self.contains_id(&id) {
            return Err(ServiceError::Store);
        }
        let role = String::from_str("user");
        let stored = User {
            id: id.clone(),
            email: email.clone(),
            password: password.clone(),
            role: role.clone(),
            created_at: Some(created_at),
        };
        let returned = User { id, email, password, role, created_at: Some(created_at) };
        let ghost before = self@;
        let ghost new_view = stored@;
        self.users.push(stored);
        proof {
            assert(self@ =~= before.push(new_view));
            assert forall|i: int, j: int|
                0 <= i < j < self@.len() implies self@[i].email != self@[j].email by {
                if j < before.len() {
                } else {
                    assert(self@[j] == new_view);
                    assert(!has_email(before, new_view.email));
                }
            }
            assert forall|i: int, j: int|
                0 <= i < j < self@.len() implies self@[i].id != self@[j].id by {
                if j < before.len() {
                } else {
                    assert(self@[j] == new_view);
                    assert(!has_id(before, new_view.id));
                }
            }
        }
        Ok(returned)
    }
}

} // verus!
