pub mod access;
pub mod audit;
pub mod common;
pub mod dashboard;
pub mod digest;
pub mod directory;
pub mod error;
pub mod identity;
pub mod index;
pub mod laws;
pub mod order;
pub mod profile;
pub mod record;
pub mod records;
pub mod registry;
pub mod request;
pub mod shares;
pub mod sharing;
pub mod state;
pub mod text;
pub mod trail;
pub mod workflow;
