pub mod admin_service;
pub mod person_service;
