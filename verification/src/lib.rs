//! Verified core of the AUR voting client and of the package update check.

pub mod aur_vote;
pub mod number;
pub mod process;
pub mod sanitize;
pub mod split;
pub mod temp_db;
pub mod text;
pub mod updates_helpers;
pub mod vote_laws;
pub mod vote_reply;
pub mod vote_transport;
