//! Control-plane logic of a small container orchestrator: the compose
//! orchestrator that turns a multi-service deployment into an ordered,
//! rollback-safe sequence of runtime operations, and the node agent that
//! registers with a controller and dispatches pod commands.
pub mod agent;
pub mod compose;
pub mod compose_spec;
pub mod error;
pub mod image_config;
pub mod ioprio;
pub mod message;
pub mod network;
pub mod ports;
pub mod text;
pub mod up;
pub mod upload;
pub mod volume;
