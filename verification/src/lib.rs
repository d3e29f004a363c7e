//! The traffic-observation core of a host-level network agent: the packet
//! decoder, the application-protocol log parsers, the minute-windowed flow
//! aggregator with its throttle, the decisions of the controller
//! synchronisation loop, and what the agent reads of itself from the texts of
//! the kernel.

pub mod bytes;
pub mod consts;
pub mod dns;
pub mod enums;
pub mod error;
pub mod flow;
pub mod flow_aggr;
pub mod flow_text;
pub mod lookup_key;
pub mod meta_packet;
pub mod mqtt;
pub mod mysql;
pub mod net;
pub mod outside;
pub mod process;
pub mod protocol_logs;
pub mod redis;
pub mod synchronizer;
pub mod tap_port;
pub mod text;
pub mod wire;
