pub mod all_users;
pub mod create_user;
pub mod delete_user;
pub mod update_user;
pub mod update_user_pwd;
