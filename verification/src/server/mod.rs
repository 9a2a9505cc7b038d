//! The server side: what clients are told and which services are bridged.
pub mod table;
pub mod backend;
pub mod capabilities;
pub mod forward;
pub mod forward_handle;
pub mod on_disconnect;
pub mod transport;
pub mod listing;
pub mod service;
pub mod request;
pub mod wait_for;
pub mod frontend;
pub mod step;
pub mod laws;
pub mod wire_laws;
pub mod select_laws;
pub mod query_laws;
pub mod release_laws;
pub mod wait_laws;
pub mod bridge_laws;
pub mod backend_laws;
pub mod default_backend;
