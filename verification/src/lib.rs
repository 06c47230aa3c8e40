pub mod channel;
pub mod errors;
pub mod message;
pub mod orchestrator;
pub mod pipeline;
pub mod progress;
pub mod resolver;
pub mod secret;
