//! Translation of text through a remote chat-completion service: the stored
//! configuration, the choice of the input, the request that is sent, the
//! reading of the reply and the choice of the output.

pub mod client;
pub mod config;
pub mod error;
pub mod input;
pub mod json;
pub mod output;
pub mod table;
pub mod text;

pub use config::Config;
pub use error::Error;
