//! Account login, magic-link verification and token issuing rules of an
//! authentication service, with the database, HTTP and signing edges left to
//! the caller.
pub mod utils;
pub mod shared_state;
pub mod models;
pub mod views;
