//! The query builders and the gated admin and parser sub-APIs.

pub mod admin;
pub mod campuses;
pub mod colleges;
pub mod groups;
pub mod parser;
pub mod schedules;
