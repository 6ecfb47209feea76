//! Verified core of the TCC launcher: reading release versions and update
//! manifests, checking downloads, the credentials store's default account,
//! the account queries and mutations, and the small UI state the views share.

pub mod text;
pub mod version;
pub mod updater;
pub mod account;
pub mod error;
pub mod store;
pub mod queries;
pub mod actions;
pub mod theme;
pub mod launcher;
pub mod state;
pub mod dropdown;
pub mod onboarding;
