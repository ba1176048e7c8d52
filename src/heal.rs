//! The healing side: failure extraction, context assembly, prompt rendering,
//! the repair-generator interface and the attempt state machine.

pub mod audit;
pub mod context;
pub mod llm;
pub mod parser_py;
pub mod parser_rust;
pub mod prompts;
pub mod session;
pub mod verify;
