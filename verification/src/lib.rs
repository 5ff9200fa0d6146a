mod errors;
mod hashing;
mod service;
mod store;
mod ticket;
mod token;
mod user;

pub use errors::ServiceError;
pub use errors::TokenError;
pub use errors::error_message;
pub use errors::status_code;
pub use hashing::hash_password;
pub use hashing::password_matches;
pub use hashing::verify_password;
pub use service::credentials_ok;
pub use service::lemma_login_after_register;
pub use service::lemma_login_failures_indistinguishable;
pub use service::login;
pub use service::register;
pub use store::UserStore;
pub use store::count_email;
pub use store::default_role;
pub use store::emails_unique;
pub use store::has_email;
pub use store::has_id;
pub use store::ids_unique;
pub use store::lemma_email_stored_once;
pub use store::lemma_first_registration_counts_one;
pub use store::store_wf;
pub use ticket::CreateTicket;
pub use ticket::Ticket;
pub use ticket::UpdateTicket;
pub use ticket::apply_update;
pub use ticket::new_ticket;
pub use token::Claims;
pub use token::TOKEN_LIFETIME_SECS;
pub use token::create_jwt;
pub use token::decoded_claims;
pub use token::lemma_expired_after_lifetime;
pub use token::lemma_undecodable_rejected;
pub use token::lemma_validate_after_mint;
pub use token::validate_jwt;
pub use token::validation_outcome;
pub use user::LoginPayload;
pub use user::PublicUser;
pub use user::PublicUserView;
pub use user::RegisterPayload;
pub use user::User;
pub use user::UserView;
pub use user::public_of;
pub use user::public_view;
