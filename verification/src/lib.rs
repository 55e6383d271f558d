//! The verified core of a personal vocabulary manager.
//!
//! A word is looked up at a remote dictionary, the reply is reduced to its
//! meaning groups, the groups are written as JSON text, and the text is put
//! into a table of words under a uniqueness constraint.  Everything that
//! decides or computes lives here and is proved against its contract; the
//! network request and the database are left to the program around it.

pub mod client;
pub mod json;
pub mod laws;
pub mod messages;
pub mod models;
pub mod pipeline;
pub mod rich;
pub mod store;
pub mod text;
