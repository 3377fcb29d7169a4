pub mod accounts;
pub mod clubs;
pub mod constraints;
pub mod memberships;
pub mod ownership;
