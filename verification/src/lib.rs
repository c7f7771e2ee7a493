pub mod cache;
pub mod claim;
pub mod configuration;
pub mod google;
pub mod login;
pub mod secret;
pub mod session;
