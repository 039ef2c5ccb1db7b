//! Server settings, fixed at startup and shared read-only by every connection.
use vstd::prelude::*;
use vstd::utf8::encode_utf8;

verus! {

/// Listen port when none is given.
pub const DEFAULT_PORT: u16 = 8080;

/// Capture device index when none is given.
pub const DEFAULT_DEVICE: i32 = 0;

/// Frame width asked of the camera when none is given.
pub const DEFAULT_WIDTH: u32 = 320;

/// Frame height asked of the camera when none is given.
pub const DEFAULT_HEIGHT: u32 = 240;

/// Pause between parts of one stream when none is given: ten frames a second.
pub const DEFAULT_FRAME_INTERVAL_NANOS: u64 = 100_000_000;

/// Everything a connection needs to know about the server.
pub struct ServerConfig {
    /// TCP port to listen on.
    pub port: u16,
    /// Index of the capture device.
    pub device: i32,
    /// Frame width asked of the camera.
    pub frame_width: u32,
    /// Frame height asked of the camera.
    pub frame_height: u32,
    /// Least pause between two parts of one stream, in nanoseconds.
    pub frame_interval_nanos: u64,
    /// Token a request line must carry; empty turns the check off.
    pub token: String,
    /// Write `Content-Length:` with its colon in snapshots; when false the
    /// older colon-less form is kept for viewers that depend on it.
    pub strict_length_header: bool,
}

impl ServerConfig {
    /// The token's bytes as they appear on the wire.
    pub open spec fn token_bytes(&self) -> Seq<u8> {
        encode_utf8(self.token@)
    }

    /// Settings from their parts.
    pub fn new(
        port: u16,
        device: i32,
        frame_width: u32,
        frame_height: u32,
        frame_interval_nanos: u64,
        token: String,
        strict_length_header: bool,
    ) -> (r: ServerConfig)
        ensures
            r.port == port,
            r.device == device,
            r.frame_width == frame_width,
            r.frame_height == frame_height,
            r.frame_interval_nanos == frame_interval_nanos,
            r.token@ == token@,
            r.strict_length_header == strict_length_header,
    {
        ServerConfig {
            port,
            device,
            frame_width,
            frame_height,
            frame_interval_nanos,
            token,
            strict_length_header,
        }
    }

    /// Whether request lines must carry a token.
    pub fn auth_enabled(&self) -> (r: bool)
        ensures
            r == (self.token_bytes().len() > 0),
    {
        self.token.as_str().as_bytes().len() > 0
    }
}

impl Default for ServerConfig {
    /// Port 8080, device 0, 320 by 240, ten frames a second, no token, and
    /// the `Content-Length:` header with its colon.
    fn default() -> (r: ServerConfig)
        ensures
            r.port == DEFAULT_PORT,
            r.device == DEFAULT_DEVICE,
            r.frame_width == DEFAULT_WIDTH,
            r.frame_height == DEFAULT_HEIGHT,
            r.frame_interval_nanos == DEFAULT_FRAME_INTERVAL_NANOS,
            r.token@.len() == 0,
            r.strict_length_header,
    {
        ServerConfig {
            port: DEFAULT_PORT,
            device: DEFAULT_DEVICE,
            frame_width: DEFAULT_WIDTH,
            frame_height: DEFAULT_HEIGHT,
            frame_interval_nanos: DEFAULT_FRAME_INTERVAL_NANOS,
            token: String::new(),
            strict_length_header: true,
        }
    }
}

} // verus!
