//! The data model of a probed media source.
//!
//! A source is a snapshot of what one open of a container reveals without
//! decoding any frame: the per-stream headers, the packet headers in file
//! order, and which stream the demuxer ranks best for each medium.

use vstd::prelude::*;

verus! {

/// The content kind of a stream.
#[derive(Clone, Copy, PartialEq, Eq, Structural, Debug)]
pub enum Medium {
    Video,
    Audio,
    Subtitle,
    Data,
}

/// Parameters that only a decoder context built from a video stream's
/// header can supply.
#[derive(Debug)]
pub struct VideoParams {
    /// Name of the pixel format, as the decoder reports it.
    pub pixel_format: String,
    /// Frame width in pixels.
    pub width: u32,
    /// Frame height in pixels.
    pub height: u32,
    /// Colour transfer characteristic, as the container's numeric code.
    pub transfer: u32,
}

/// One stream's header data. The stream's absolute index is its position
/// in [`SourceInfo::streams`].
#[derive(Debug)]
pub struct StreamInfo {
    /// What the stream carries.
    pub medium: Medium,
    /// Channel layout bitmask, if the container stores one.
    pub channel_layout: Option<u64>,
    /// Number of audio channels (zero for non-audio streams).
    pub channels: u16,
    /// Numerator of the stored average frame rate.
    pub avg_rate_num: i64,
    /// Denominator of the stored average frame rate.
    pub avg_rate_den: i64,
    /// Decoder-derived parameters; `None` when no decoder context could be
    /// built from the stream's header.
    pub video: Option<VideoParams>,
}

/// One packet's header data.
#[derive(Clone, Copy, PartialEq, Eq, Structural, Debug)]
pub struct PacketInfo {
    /// Absolute index of the stream the packet belongs to.
    pub stream_index: usize,
    /// Whether the packet carries a key-frame marker.
    pub is_key: bool,
}

/// A plain-value snapshot of one opened source: stream headers, packet
/// headers in file order, and the demuxer's best-ranked stream per medium.
#[derive(Debug)]
pub struct SourceInfo {
    /// Stream headers; a stream's absolute index is its position here.
    pub streams: Vec<StreamInfo>,
    /// Packet headers, in file order.
    pub packets: Vec<PacketInfo>,
    /// Absolute index of the best-ranked video stream, if any video
    /// stream exists.
    pub best_video: Option<usize>,
    /// Absolute index of the best-ranked audio stream, if any audio
    /// stream exists.
    pub best_audio: Option<usize>,
}

impl SourceInfo {
    /// Well-formedness: the best-ranked stream of a medium exists exactly
    /// when a stream of that medium exists, is in range and has that
    /// medium, and every packet refers to an existing stream.
    pub open spec fn wf(self) -> bool {
        &&& match self.best_video {
            Some(b) => b < self.streams@.len() && self.streams@[b as int].medium is Video,
            None => forall|i: int|
                0 <= i < self.streams@.len() ==> !(#[trigger] self.streams@[i].medium is Video),
        }
        &&& match self.best_audio {
            Some(b) => b < self.streams@.len() && self.streams@[b as int].medium is Audio,
            None => forall|i: int|
                0 <= i < self.streams@.len() ==> !(#[trigger] self.streams@[i].medium is Audio),
        }
        &&& forall|i: int|
            0 <= i < self.packets@.len() ==> (#[trigger] self.packets@[i].stream_index)
                < self.streams@.len()
    }

    /// Runtime check of [`SourceInfo::wf`], for callers outside verified
    /// code that must establish it before using the planners.
    pub fn is_wf(&self) -> (b: bool)
        ensures
            b == self.wf(),
    {
        let ok_video: bool = match self.best_video {
            Some(b) => b < self.streams.len() && self.streams[b].medium == Medium::Video,
            None => !self.has_stream_of(Medium::Video),
        };
        let ok_audio: bool = match self.best_audio {
            Some(b) => b < self.streams.len() && self.streams[b].medium == Medium::Audio,
            None => !self.has_stream_of(Medium::Audio),
        };
        let mut i: usize = 0;
        let mut ok_packets: bool = true;
        while i < self.packets.len()
            invariant
                i <= self.packets@.len(),
                ok_packets == forall|j: int|
                    0 <= j < i ==> (#[trigger] self.packets@[j].stream_index)
                        < self.streams@.len(),
            decreases self.packets@.len() - i,
        {
            ok_packets = ok_packets && self.packets[i].stream_index < self.streams.len();
            i += 1;
        }
        ok_video && ok_audio && ok_packets
    }

    /// Whether some stream of the given medium exists.
    pub fn has_stream_of(&self, medium: Medium) -> (b: bool)
        ensures
            b == exists|i: int|
                0 <= i < self.streams@.len() && (#[trigger] self.streams@[i].medium) == medium,
    {
        let mut i: usize = 0;
        while i < self.streams.len()
            invariant
                i <= self.streams@.len(),
                forall|j: int|
                    0 <= j < i ==> (#[trigger] self.streams@[j].medium) != medium,
            decreases self.streams@.len() - i,
        {
            if self.streams[i].medium == medium {
                return true;
            }
            i += 1;
        }
        false
    }
}

} // verus!
