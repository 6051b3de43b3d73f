//! Building blocks of the chai-core daemon: the Nix configuration generator,
//! the checks on model output, the LLM request rules and the JSON-RPC routing.

pub mod json;
pub mod llm;
pub mod nix;
pub mod rpc;
pub mod server;
pub mod text;
