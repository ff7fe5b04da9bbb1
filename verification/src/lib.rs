//! The data plane of a bandwidth-throttled byte tunnel, verified: a
//! token-bucket limiter shared by every stream drawn from it, a rate-limited
//! duplex stream adapter whose read path is a pure pass-through and whose
//! write path charges the bytes actually written retroactively, and a
//! bidirectional relay session that copies both directions through one shared
//! budget until either side closes cleanly or fails.
//!
//! The streams here are deterministic doubles over plain bytes; an I/O shell
//! drives the same decision functions against real transports and a real
//! clock-driven limiter.

mod bucket;
mod io;
mod relay;
mod stream;

pub use bucket::Bucket;
pub use bucket::MAX_BUDGET;
pub use io::ByteStream;
pub use io::IoErrorKind;
pub use io::ReadOutcome;
pub use io::WriteOutcome;
pub use relay::CopyDirection;
pub use relay::RelayPhase;
pub use relay::TunnelRelay;
pub use relay::CHUNK;
pub use stream::consumption_to_schedule;
pub use stream::lemma_single_stream_bound;
pub use stream::write_gate;
pub use stream::RateLimitedStream;
pub use stream::WriteThrottle;
