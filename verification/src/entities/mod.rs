pub mod club;
pub mod club_member;
pub mod user;
