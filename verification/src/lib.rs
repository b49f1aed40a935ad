//! Signalling core of a multi-party video room server.
pub mod ids;
pub mod media;
pub mod participant;
pub mod record;
pub mod rooms_registry;
pub mod rtp;
pub mod server;
pub mod text;
pub mod worker;
