//! A reverse SOCKS5 tunnel, split into its verifiable core:
//!
//! - [`protocol`]: the SOCKS5 wire codec and the negotiation state machine
//!   run by the agent on each reverse-dialed connection;
//! - [`broker`]: preflight validation and FIFO pairing of reverse-dialed
//!   backend connections with user-facing frontend connections;
//! - [`relay`]: the duplex byte-splice model with independent half-close of
//!   each direction;
//! - [`agent`]: the agent's configuration and its dial-retry decisions.
//!
//! The surrounding processes (listeners, sockets, threads) drive these
//! components: they read bytes, hand them to the state machines here, and
//! perform the actions the state machines decide on.

pub mod agent;
pub mod broker;
pub mod protocol;
pub mod relay;
