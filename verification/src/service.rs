use vstd::prelude::*;

use crate::errors::ServiceError;
use crate::hashing::hash_password;
use crate::hashing::password_matches;
use crate::hashing::verify_password;
use crate::store::UserStore;
use crate::store::default_role;
use crate::store::has_email;
use crate::store::store_wf;
use crate::token::TOKEN_LIFETIME_SECS;
use crate::token::create_jwt;
use crate::token::decoded_claims;
use crate::user::PublicUser;
use crate::user::RegisterPayload;
use crate::user::LoginPayload;
use crate::user::UserView;
use crate::user::public_of;
use crate::user::public_view;

verus! {

/// Relies on uuid's `Uuid::new_v4` and its hyphenated `Display` form: a
/// random version-4 UUID prints as 36 characters. Nothing is assumed about
/// which value comes back; the store checks it for collisions like any other
/// id.
#[verifier::external_body]
fn fresh_user_id() -> (r: String)
    ensures
        r@.len() == 36,
{
    uuid::Uuid::new_v4().to_string()
}

/// Whether `users` holds a record under `email` whose stored hash matches
/// `password`: the exact condition under which a login is owed a token.
pub open spec fn credentials_ok(
    users: Seq<UserView>,
    email: Seq<char>,
    password: Seq<char>,
) -> bool {
    exists|i: int|
        0 <= i < users.len() && users[i].email == email && password_matches(
            password,
            users[i].password,
        )
}

/// Registers a new identity: hashes the password, stores a fresh record under
/// a random id, and returns the stored identity with the hash stripped. A
/// taken email is refused as `Conflict` with nothing written; `Config` is the
/// hasher refusing, `Store` the random id colliding with a stored one, and
/// neither writes either. No token is issued here: registration and login are
/// separate steps.
pub fn register(store: &mut UserStore, payload: RegisterPayload, now: i64) -> (r: Result<
    PublicUser,
    ServiceError,
>)
    requires
        store_wf(old(store)@),
    ensures
        store_wf(final(store)@),
        has_email(old(store)@, payload.email@) ==> r is Err,
        (match r {
            Ok(pu) => !has_email(old(store)@, payload.email@) && final(store)@.len() == old(
                store,
            )@.len() + 1 && final(store)@ =~= old(store)@.push(final(store)@.last()) && (
            final(store)@.last().email == payload.email@ && password_matches(
                payload.password@,
                final(store)@.last().password,
            ) && final(store)@.last().role == default_role() && final(store)@.last().created_at
                == Some(now) && pu@ == public_of(final(store)@.last())),
            Err(e) => final(store)@ == old(store)@ && (e == ServiceError::Conflict
                || e == ServiceError::Config || e == ServiceError::Store) && (e
                == ServiceError::Conflict ==> has_email(old(store)@, payload.email@)) && (e
                == ServiceError::Store ==> !has_email(old(store)@, payload.email@)),
        }),
{
    let hashed = match hash_password(payload.password.as_str()) {
        Ok(h) => h,
        Err(e) => {
            return Err(e);
        },
    };
    let id = fresh_user_id();
    let created = match store.create_user(id, payload.email, hashed, now) {
        Ok(u) => u,
        Err(e) => {
            return Err(e);
        },
    };
    Ok(public_view(&created))
}

/// Logs an identity in: looks the email up, verifies the password against the
/// stored hash, and mints a session token for the record's id, expiring
/// `TOKEN_LIFETIME_SECS` past `now`. An unknown email and a wrong password
/// both come back as the same `Auth` error, so a caller cannot learn which
/// emails are registered; `Config` is the signer refusing after the
/// credentials already passed. Succeeds exactly when the credentials check
/// passes and the signer accepts.
pub fn login(store: &UserStore, secret: &str, payload: LoginPayload, now: u64) -> (r: Result<
    (String, PublicUser),
    ServiceError,
>)
    requires
        store_wf(store@),
        now + TOKEN_LIFETIME_SECS <= u64::MAX,
    ensures
        (match r {
            Ok(p) => credentials_ok(store@, payload.email@, payload.password@) && (exists|
                u: UserView,
            |
                store@.contains(u) && u.email == payload.email@ && password_matches(
                    payload.password@,
                    u.password,
                ) && decoded_claims(secret@, p.0@) == Some(
                    (u.id, now + TOKEN_LIFETIME_SECS as int),
                ) && p.1@ == public_of(u)),
            Err(e) => (e == ServiceError::Auth && !credentials_ok(
                store@,
                payload.email@,
                payload.password@,
            )) || (e == ServiceError::Config && credentials_ok(
                store@,
                payload.email@,
                payload.password@,
            )),
        }),
{
    let record = match store.find_by_email(&payload.email) {
        Ok(u) => u,
        Err(_) => {
            proof {
                assert(!credentials_ok(store@, payload.email@, payload.password@));
            }
            return Err(ServiceError::Auth);
        },
    };
    if !verify_password(payload.password.as_str(), record.password.as_str()) {
        proof {
            let u = record@;
            let j = choose|j: int| 0 <= j < store@.len() && store@[j] == u;
            assert forall|i: int|
                0 <= i < store@.len() && store@[i].email == payload.email@ implies !password_matches(
                payload.password@,
                store@[i].password,
            ) by {
                if i != j {
                    assert(store@[i].email != store@[j].email);
                }
            }
        }
        return Err(ServiceError::Auth);
    }
    let token = match create_jwt(secret, record.id.as_str(), now) {
        Ok(t) => t,
        Err(e) => {
            proof {
                assert(credentials_ok(store@, payload.email@, payload.password@));
            }
            return Err(e);
        },
    };
    let view = public_view(&record);
    proof {
        assert(credentials_ok(store@, payload.email@, payload.password@));
    }
    Ok((token, view))
}

/// Law: an unknown email and a known email with a wrong password are
/// classified alike. Neither satisfies `credentials_ok`, so `login` answers
/// both with the very same `ServiceError::Auth` value, and `error_message`
/// fixes one message for that value; nothing a caller sees tells the two
/// apart.
pub proof fn lemma_login_failures_indistinguishable(
    users: Seq<UserView>,
    unknown_email: Seq<char>,
    any_password: Seq<char>,
    known_email: Seq<char>,
    wrong_password: Seq<char>,
)
    requires
        !has_email(users, unknown_email),
        forall|i: int|
            0 <= i < users.len() && #[trigger] users[i].email == known_email
                ==> !password_matches(wrong_password, users[i].password),
    ensures
        !credentials_ok(users, unknown_email, any_password),
        !credentials_ok(users, known_email, wrong_password),
{
}

/// Law: a record whose stored hash matches `password` makes the credentials
/// check succeed for its email once it is stored; with the hasher's round
/// trip, a login directly after a registration is owed a token.
pub proof fn lemma_login_after_register(users: Seq<UserView>, u: UserView, password: Seq<char>)
    requires
        password_matches(password, u.password),
    ensures
        credentials_ok(users.push(u), u.email, password),
{
    let n = users.len() as int;
    assert(users.push(u)[n] == u);
}

} // verus!
