pub mod activity_pub;
pub mod activity_pub_service;
pub mod activity_pub_usecase;
pub mod clock;
pub mod config;
pub mod crypto;
pub mod delivery;
pub mod directory;
pub mod dto;
pub mod error;
pub mod follower;
pub mod ids;
pub mod json;
pub mod note;
pub mod text;
pub mod user;
pub mod user_management;
pub mod user_note;
