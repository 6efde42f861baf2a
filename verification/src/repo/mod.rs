pub mod user_config;
pub mod user_repo;
