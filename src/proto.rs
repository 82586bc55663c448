//! Message types of the agent's filesystem and process services, as the
//! service definitions describe them.

pub mod filesystem;
pub mod process;
