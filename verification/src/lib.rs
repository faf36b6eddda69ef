//! Session-lifecycle orchestrator and command-dispatch layer for a
//! peer-to-peer content-addressable storage node.
//!
//! The node service itself (transport, DHT, block store) is an external
//! collaborator; this library holds the verified decision logic around it:
//! identity resolution and persistence, configuration assembly, the relay
//! connection plan, the periodic bootstrap maintainer, and the command
//! dispatcher with its stream-consumption and rendering rules.

pub mod codecs;
pub mod text;
pub mod identity;
pub mod arguments;
pub mod config;
pub mod progress;
pub mod relay;
pub mod bootstrap;
pub mod swarm;
pub mod lifecycle;
