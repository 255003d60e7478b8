//! Decision core of a build service for Move packages: request validation,
//! workspace layout, toolchain selection, and the protocols that drive one
//! bounded-time toolchain run per request.

pub mod code;
pub mod errors;
pub mod gist;
pub mod guarantees;
pub mod names;
pub mod sandboxed;
pub mod session;
pub mod text;
pub mod toolchain;
pub mod workspace;
