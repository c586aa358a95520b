//! Transparent TUN proxy engine: packet decoding, flow classification,
//! FakeIP/DNS hijack, SOCKS5 relay framing, route-table control and
//! supervision of the external proxy process.

pub mod bytes;
pub mod classifier;
pub mod config;
pub mod dns;
pub mod engine;
pub mod errors;
pub mod fakeip;
pub mod logging;
pub mod net;
pub mod packet;
pub mod parse;
pub mod routes;
pub mod socks5;
pub mod stats;
pub mod status;
