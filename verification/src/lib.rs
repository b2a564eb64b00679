//! A verified core for declarative development-environment provisioning:
//! deciding what to install or update, building installer command lines,
//! regenerating configuration files from recorded state, and editing the
//! YAML configuration model.

pub mod text;
pub mod model;
pub mod store;
pub mod timestamps;
pub mod planner;
pub mod orchestrator;
pub mod state;
pub mod uv;
pub mod sync;
pub mod yaml_text;
pub mod paths;
pub mod generate;
pub mod config_doc;
pub mod cli;
pub mod add;
pub mod remove;
pub mod version;
pub mod now;
pub mod engine;
pub mod brew;
pub mod cargo;
pub mod go;
pub mod pip;
pub mod rustup;
pub mod github;
pub mod url;
pub mod fonts;
pub mod shellrc;
pub mod shell_sections;
pub mod edit;
pub mod backup;
pub mod check_updates;
pub mod help;
