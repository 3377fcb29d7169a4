pub mod auth_service;
pub mod club_member_service;
pub mod club_member_services;
pub mod club_service;
pub mod user_service;
