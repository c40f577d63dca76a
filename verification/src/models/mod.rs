pub mod filters;
pub mod forgot;
pub mod otps;
pub mod users;
