//! Verified core of an HTTP/3-over-QUIC client that runs over a reactor-backed
//! UDP socket: peer selection, readiness-gated socket operations, request
//! construction, response scanning and body preview.

pub mod adapter;
pub mod address;
pub mod http3;
pub mod io;
pub mod preview;
pub mod text;
pub mod udp;
