//! Backend logic for an editor of MIDI foot-controller configurations kept as
//! JSON files on removable USB volumes: schema validation, path authorization,
//! volume scanning, mount-lifecycle watching, and safe-write gating.

pub mod commands;
pub mod config;
pub mod device;
pub mod errors;
pub mod json;
pub mod paths;
pub mod render;
pub mod schema;
pub mod text;
pub mod watcher;
pub mod writer;
