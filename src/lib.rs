//! Core of a small authentication service: the password policy, password
//! hashing, bearer tokens, the error taxonomy and response envelope, and the
//! decisions of the signup, login and account workflows. Storage and HTTP are
//! left to the caller, which hands the outcome of each store operation back to
//! the functions here.

pub mod error;
pub mod validation;
pub mod user;
pub mod hash;
pub mod token;
pub mod response;
pub mod service;
pub mod workflow;
