//! Idempotent seed for the Lariv marketing site: page, static media and Custom theme
//! plans, with the decisions of each step verified.

pub mod text;
pub mod media;
pub mod catalog;
pub mod error;
pub mod vnode;
pub mod route;
pub mod seeder;
pub mod laws;
pub mod hook;
pub mod store;
