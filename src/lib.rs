//! A chat bot's command handling: argument validation, the decision of which
//! outside call to make, and the text of each reply.

pub mod handler;
pub mod laws;
pub mod model;
pub mod registry;
pub mod text;
