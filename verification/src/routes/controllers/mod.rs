pub mod auth_controller;
pub mod club_controller;
pub mod home_handler;
pub mod session_controller;
pub mod user_controller;
