//! Audio extraction, bitrate selection and remux planning for a video
//! transcoding pipeline, together with a container prober.
//!
//! The prober works on [`media::SourceInfo`], a plain-value snapshot of the
//! stream and packet headers of an opened container; an unverified front end
//! fills it from a demuxing library and runs the external encoder processes
//! that the planners here describe.

pub mod bitrate;
pub mod commands;
pub mod layout;
pub mod media;
pub mod text;
pub mod pipeline;
pub mod probe;

pub use media::Medium;
pub use media::PacketInfo;
pub use media::SourceInfo;
pub use media::StreamInfo;
pub use media::VideoParams;
