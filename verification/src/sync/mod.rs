//! Sync engines: notes, files, settings and folders, and the coordinator
//! that routes watcher events and server messages between them.

pub mod echo;
pub mod progress;
pub mod rules;
pub mod note;
pub mod setting;
pub mod folder;
pub mod file;
pub mod coordinator;
pub mod requests;
