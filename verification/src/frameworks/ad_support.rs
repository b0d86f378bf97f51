//! Ad Support.
pub mod as_identifier_manager;
