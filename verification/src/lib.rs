//! The decisions of a chat relay bot: a bounded conversation history that is
//! sent along with every prompt, and the rules applied around it.

pub mod channel;
pub mod chat;
pub mod clock;
pub mod config;
pub mod text;

pub use config::AppContext;
