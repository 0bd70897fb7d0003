//! Video frames and the events of a running capture.
use vstd::prelude::*;

use crate::capture::ffi::OpenReply;

verus! {

/// How the bytes of a frame are laid out.
#[derive(Clone, Copy, Debug, PartialEq, Eq, Structural)]
pub enum PixelFormat {
    Bgra8,
    Rgba8,
    Nv12,
}

/// One captured frame. The pixels are not looked into.
#[derive(Clone, Debug, PartialEq, Eq)]
pub struct VideoFrame {
    /// The pixel buffer, as the operating system delivered it.
    pub pixels: Vec<u8>,
    /// When the frame was captured, on the monotonic clock of the capture
    /// framework and in its units.
    pub timestamp: u64,
    /// Width in pixels.
    pub width: u32,
    /// Height in pixels.
    pub height: u32,
    /// The layout of `pixels`.
    pub format: PixelFormat,
}

/// What the native layer reports: the answers to open requests, and what the
/// capture callbacks deliver.
#[derive(Debug)]
pub enum NativeEvent {
    /// The answer to a request to open the video stream.
    VideoReply(OpenReply),
    /// The answer to a request to open the audio stream.
    AudioReply(OpenReply),
    /// The video callback delivered a frame.
    Frame(VideoFrame),
    /// The audio callback delivered interleaved samples.
    Samples(Vec<i32>),
    /// A stream broke: the device was removed, or permission was revoked.
    Fault,
}

/// The timestamps of a sequence of frames.
pub open spec fn timestamps(frames: Seq<VideoFrame>) -> Seq<u64> {
    Seq::new(frames.len(), |i: int| frames[i].timestamp)
}

/// Whether no timestamp is smaller than one before it.
pub open spec fn non_decreasing(stamps: Seq<u64>) -> bool {
    forall|i: int, j: int| 0 <= i <= j < stamps.len() ==> stamps[i] <= stamps[j]
}

/// Whether the timestamps never decrease and none is newer than `newest`.
pub open spec fn ordered_up_to(stamps: Seq<u64>, newest: Option<u64>) -> bool {
    &&& non_decreasing(stamps)
    &&& stamps.len() > 0 ==> newest is Some
    &&& forall|i: int| 0 <= i < stamps.len() ==> (#[trigger] stamps[i]) <= newest->0
}

/// Whether a frame with this timestamp may follow: it is not older than the
/// newest frame seen.
pub open spec fn may_follow(newest: Option<u64>, timestamp: u64) -> bool {
    match newest {
        Some(n) => n <= timestamp,
        None => true,
    }
}

/// Timestamps stay ordered when the frame at `at` is dropped.
pub proof fn lemma_ordered_without(stamps: Seq<u64>, newest: Option<u64>, at: int)
    requires
        ordered_up_to(stamps, newest),
        0 <= at < stamps.len(),
    ensures
        ordered_up_to(stamps.remove(at), newest),
{
    let rest = stamps.remove(at);
    assert forall|i: int, j: int| 0 <= i <= j < rest.len() implies rest[i] <= rest[j] by {
        let a = if i < at {
            i
        } else {
            i + 1
        };
        let b = if j < at {
            j
        } else {
            j + 1
        };
        assert(rest[i] == stamps[a]);
        assert(rest[j] == stamps[b]);
    }
    assert forall|i: int| 0 <= i < rest.len() implies (#[trigger] rest[i]) <= newest->0 by {
        let a = if i < at {
            i
        } else {
            i + 1
        };
        assert(rest[i] == stamps[a]);
    }
}

/// Timestamps stay ordered when a frame that may follow is added at the end.
pub proof fn lemma_ordered_with(stamps: Seq<u64>, newest: Option<u64>, timestamp: u64)
    requires
        ordered_up_to(stamps, newest),
        may_follow(newest, timestamp),
    ensures
        ordered_up_to(stamps.push(timestamp), Some(timestamp)),
{
    let more = stamps.push(timestamp);
    assert forall|i: int, j: int| 0 <= i <= j < more.len() implies more[i] <= more[j] by {
        if i < stamps.len() {
            assert(stamps[i] <= newest->0);
        }
    }
    assert forall|i: int| 0 <= i < more.len() implies (#[trigger] more[i]) <= timestamp by {
        if i < stamps.len() {
            assert(stamps[i] <= newest->0);
        }
    }
}

} // verus!
