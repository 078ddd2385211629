//! Verified decision logic of the Bro Know My Toolbox command-line and desktop adapters.
pub mod text;
pub mod args;
pub mod capability;
pub mod data_root;
pub mod errors;
pub mod flows;
pub mod generation;
pub mod json;
pub mod locale;
pub mod order;
pub mod preferences;
pub mod spark;
pub mod templates;
pub mod update;
pub mod links;
