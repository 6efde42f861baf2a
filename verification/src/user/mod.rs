pub mod identity_user;
