//! GATT server session manager for a BLE peripheral.
//!
//! The library is the decision core of an event-driven protocol state
//! machine: it tracks the multi-step service registration sequence, a
//! bounded table of connected peers, inbound write requests against the
//! registered attribute handles, and a confirmed-indication broadcast
//! with a single server-wide confirmation slot.
//!
//! All radio work lives outside: the library consumes plain event values
//! and answers with plain command values, which a driver loop performs
//! against the actual stack.

pub mod types;
pub mod status;
pub mod connections;
pub mod state;
pub mod registrar;
pub mod writes;
pub mod indicate;
pub mod server;
