//! Accounts: password hashing, bearer tokens, and the rules of login,
//! token refresh and registration.

pub mod accounts;
pub mod login;
pub mod password;
pub mod token;
pub mod validation;
