//! The deployment model and everything derived from it: provider exports,
//! deployment plans, reports and their text.

pub mod derive;
pub mod model;
pub mod bundle;
pub mod render;
pub mod railway;
pub mod report;
pub mod provider_package;
pub mod transaction;
pub mod text;
pub mod flow;
pub mod export;
