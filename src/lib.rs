//! A stateless IPv4-to-IPv6 customer-side translator: address synthesis,
//! header and ICMP translation, and the decisions of the packet loop.

pub mod address;
pub mod config;
pub mod header;
pub mod icmp;
pub mod packet;
pub mod session;
pub mod tun;

pub use address::{PlatPrefix, discover_plat_prefix, nat46, prefix_from_address, valid_prefix_length};
pub use config::Config;
pub use header::{HeaderError, Ipv4Fields, Ipv6Fields, convert_ip_header};
pub use icmp::{IcmpHeader, convert_icmp, translate_icmp};
pub use packet::{Translation, translate_packet};
pub use session::{Action, Event, PREFIX_RETRY_SECS, SessionState, step};
pub use tun::{IFNAMSIZ, MAX_BASE_NAME_LEN, interface_name, TUN_FLAGS, tun_request_name};
