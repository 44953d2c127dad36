//! A SOCKS5 anonymization-gateway core: the per-connection SOCKS5 state
//! machine, circuit-isolation keying and registry, zero-residue buffer
//! discipline, DNS-over-TCP framing, and the decision tables for process
//! hardening and cover traffic. All protocol logic is verified; the
//! network edges (sockets, TLS, the overlay client) live outside and
//! drive these functions with plain byte buffers.

pub mod addr;
pub mod chaff;
pub mod clock;
pub mod config;
pub mod dispatch;
pub mod dns;
pub mod entropy;
pub mod fnv;
pub mod hardening;
pub mod registry;
pub mod relay;
pub mod socks;
pub mod wipe;
