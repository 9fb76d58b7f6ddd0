//! Fixed service configuration: the stream key, the ports the program and
//! its relay listen on, and the relay's configuration file.

use vstd::prelude::*;

use crate::text::{mediamtx_config, spec_mediamtx_config};

verus! {

/// The stream key under which the program is published.
pub const STREAM_KEY: &'static str = "my_stream";

/// The internal RTSP port the relay pulls the program from.
pub const RTSP_PORT: u16 = 18554;

/// The control HTTP port.
pub const API_PORT: u16 = 18080;

/// The relay's configuration for this program's stream key and internal
/// ingest port.
pub fn config_yaml() -> (r: String)
    ensures
        r@ == spec_mediamtx_config(STREAM_KEY@, RTSP_PORT as nat),
{
    mediamtx_config(STREAM_KEY, RTSP_PORT)
}

/// The ports an alternative relay server is started with.
#[derive(Debug, Copy, Clone, PartialEq, Eq, Structural)]
pub struct XiuConfig {
    pub rtmp_port: u16,
    pub rtsp_port: u16,
    pub webrtc_port: u16,
    pub hls_port: u16,
    pub http_flv_port: u16,
}

impl Default for XiuConfig {
    /// The default port layout.
    fn default() -> (r: Self)
        ensures
            r.rtmp_port == 1935,
            r.rtsp_port == 5540,
            r.webrtc_port == 8900,
            r.hls_port == 8081,
            r.http_flv_port == 8080,
    {
        XiuConfig {
            rtmp_port: 1935,
            rtsp_port: 5540,
            webrtc_port: 8900,
            hls_port: 8081,
            http_flv_port: 8080,
        }
    }
}

} // verus!
