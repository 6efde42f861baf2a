pub mod t_admin_manager;
pub mod t_user;
pub mod t_user_manager;
pub mod token;
