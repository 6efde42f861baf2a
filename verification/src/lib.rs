//! An identity backend: user records with salted password hashes, signed
//! claims that are good for a time, and one-time tokens for recovering a
//! forgotten password.

pub mod claim;
pub mod counter;
pub mod credential;
pub mod err;
pub mod flag_set;
pub mod generic_token;
pub mod key;
pub mod mail_struct;
pub mod map_token_pwd;
pub mod repo;
pub mod service;
pub mod text_order;
pub mod traits;
pub mod user;
pub mod util;
pub mod viewmodels;
