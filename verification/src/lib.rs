//! A SOCKS5 front-end that terminates client sessions and bridges each
//! authorized CONNECT request to a per-destination filesystem rendezvous
//! endpoint.
//!
//! The library holds the verified core: the SOCKS5 wire codec, the
//! acceptance and request policies, the rendezvous resolver, the
//! supervisor-handoff decision, and the per-connection session state
//! machine.  The surrounding process (listeners, sockets, the relay
//! loop) drives these functions with the bytes it reads and performs
//! the actions they decide.

pub mod handoff;
pub mod policy;
pub mod resolve;
pub mod session;
pub mod socks;
