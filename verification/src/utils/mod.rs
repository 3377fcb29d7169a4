pub mod api_response;
pub mod constants;
pub mod jwt;
pub mod password;
pub mod request_models;
pub mod text;
