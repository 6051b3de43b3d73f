//! The Nix side: the plan that the model proposes, the module text made from
//! it, and the rules around writing and checking that text.
pub mod generator;
pub mod parser;
pub mod validator;
