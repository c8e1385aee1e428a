//! SAPIENT (BSI Flex 335 v2.0) bridge logic: framing, message mapping, tasking
//! and mesh projection, with the behaviour of its functions stated and proved.
//! The wrappers around calls of other crates are believed without proof.

pub mod attributes;
pub mod bridge;
pub mod clock;
pub mod codec;
pub mod compliance;
pub mod config;
pub mod connection;
pub mod error;
pub mod geodesy;
pub mod identifiers;
pub mod ieee;
pub mod mesh_fields;
pub mod proto;
pub mod rate_limit;
pub mod registry;
pub mod schema;
pub mod settings;
pub mod string_map;
pub mod subscriber;
pub mod task_queue;
pub mod text;
pub mod tls;
pub mod transform;
pub mod translator;
pub mod transport;
pub mod watchdog;
