//! The decisions behind the web dashboard's pages.

pub mod commission;
pub mod index;
