pub mod auth_models;
pub mod club_models;
pub mod user_models;
