pub mod controllers;
pub mod conversation;
pub mod flow;
pub mod middleware;
pub mod services;
