//! Passive packet-capture core: a verified Ethernet/IPv4/IPv6/TCP/UDP frame
//! decoder, the filter and retention policy applied to the decoded packets,
//! and the state machines that drive a capture session (source loop, batching
//! delivery bridge, start/stop control).
//!
//! All I/O — the OS capture handle, the cross-thread channel, timers — lives
//! outside this crate; the library works on plain values handed to it.

pub mod bridge;
pub mod byte_formatter;
pub mod channel;
pub mod colors;
pub mod digits;
pub mod filter;
pub mod packet_list;
pub mod parsed_packet;
pub mod postal_option;
pub mod postal_options;
pub mod postal_packet;
pub mod protocol;
pub mod session;
pub mod source;
pub mod store;

pub use byte_formatter::format_size;
pub use filter::Filter;
pub use filter::FilterState;
pub use parsed_packet::IpAddress;
pub use parsed_packet::NetworkPacket;
pub use parsed_packet::ParsedPacket;
pub use parsed_packet::TransportPacket;
pub use postal_option::PostalOption;
pub use postal_options::PostalOptions;
pub use postal_packet::PostalPacket;
pub use protocol::Protocol;
