//! Verified core of the HeSocial event-platform frontend: route guards,
//! status classification, URL and query building, form and file validation,
//! and the decoding of API responses into the library's own records.

pub mod logic;
pub mod text;
pub mod numtext;
pub mod json;
pub mod seqs;
pub mod permissions;
pub mod admin;
pub mod url;
pub mod events;
pub mod eventmgmt;
pub mod auth;
pub mod icons;
pub mod adminanalytics;
pub mod navbar;
pub mod mgmt_flow;
pub mod media_flow;
pub mod register_steps;
