//! A minimal shim over the host operating system's TCP/IP configuration
//! query: it reads the local host name, the configured DNS servers and the
//! routing / ARP-proxy / DNS flags, and surfaces them as an owned record.
//!
//! The operating-system call itself is an outward edge that a platform layer
//! performs; this crate holds and verifies everything around it: decoding the
//! null-terminated byte fields of the fixed-size record, coercing the integer
//! flags, walking the reported DNS-server entries, and the one
//! reallocate-and-retry step taken when the first query reports that the
//! buffer was too small.

pub mod decode;
pub mod params;
pub mod query;

pub use decode::chars_to_string;
pub use params::Error;
pub use params::FixedInfo;
pub use params::NetworkParams;
pub use query::adapters_info;
pub use query::network_params;
