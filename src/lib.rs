//! Data contracts of a desktop launcher and its extensions: actions, dialog
//! fields, results, extension manifests and user settings, together with the
//! reconciliation of manifest-declared settings into the persisted store.
pub mod action;
pub mod actions;
pub mod api;
pub mod dialog;
pub mod extension;
pub mod indexing;
pub mod paths;
pub mod result;
pub mod results;
pub mod settings;
pub mod utils;
