pub mod login;
pub mod logout;
pub mod refresh;
pub mod verify_token;
pub mod verify_user;
