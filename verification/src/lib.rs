//! A block runtime: messages, results and services, and the WebAssembly
//! boundary over which guest blocks talk to their host.
pub mod base64;
pub mod block;
pub mod command;
pub mod context;
pub mod decimal;
pub mod dispatch;
pub mod json;
pub mod laws;
pub mod meta;
pub mod results;
pub mod services;
pub mod step;
pub mod text;
pub mod types;
pub mod wasm;
pub mod wire;
