pub mod change_pwd;
pub mod delete_user;
pub mod flag;
pub mod login;
pub mod person_info;
pub mod registration;
pub mod token;
pub mod update_pwd;
pub mod update_user;
pub mod user_id;
