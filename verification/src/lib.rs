pub mod agent_protocol;
pub mod envelope;
pub mod ext;
pub mod models;
pub mod registry;
pub mod router;
pub mod text;
pub mod tracker;
pub mod wire;
