use vstd::prelude::*;

verus! {

/// Options of the media transport.
pub struct TransportOptions {
    /// Maximum transmission unit size.
    pub mtu: u32,
    /// Maximum bandwidth in bytes per second.
    pub max_bandwidth: i64,
    /// Latency in milliseconds.
    pub latency: u32,
    /// Connection timeout in milliseconds.
    pub timeout: u32,
    /// Forward error correction configuration.
    pub fec: String,
    /// Flow control window size.
    pub fc: u32,
}

} // verus!
