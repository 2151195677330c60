pub mod error;
pub mod paths;
pub mod text;
pub mod mounts;
pub mod compose;
pub mod runtime_prep;
pub mod deploy;
pub mod deferral;
pub mod distribution;
pub mod cargo_manifest;
pub mod docs;
pub mod docs_check;
pub mod doctor;
pub mod deps;
pub mod demo;
pub mod db_seed;
