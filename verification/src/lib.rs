//! Decision logic of a reconnecting WebSocket client: URL handling, the
//! handshake request, the reconnect policy, and the state machines that the
//! connection, read and ping loops follow.
pub mod host_port;
pub mod timings;
pub mod endpoint;
pub mod connection_loop;
pub mod connection_status;
pub mod read_loop;
pub mod ping;
pub mod key;
pub mod tls_name;

pub use host_port::{extract_host_port, extract_server_name};
