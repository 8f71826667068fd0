//! The media prober: structural metadata read from a [`SourceInfo`]
//! snapshot — frame count, frame rate, resolution, pixel format, transfer
//! characteristic, keyframe positions and audio presence.

use vstd::prelude::*;

use crate::media::PacketInfo;
use crate::media::SourceInfo;

verus! {

/// Why a probe could not answer.
#[derive(Clone, Copy, PartialEq, Eq, Structural, Debug)]
pub enum ProbeError {
    /// No stream of the requested medium exists in the source.
    StreamNotFound,
    /// A decoder context could not be built from the stream's header.
    DecoderFailed,
}

/// An exact frame rate as the container stores it: a rational quotient.
#[derive(Clone, Copy, PartialEq, Eq, Structural, Debug)]
pub struct Rational {
    pub num: i64,
    pub den: i64,
}

/// How many of the first `n` packets belong to stream `v`.
pub open spec fn packet_count(packets: Seq<PacketInfo>, v: int, n: int) -> int
    decreases n,
{
    if n <= 0 {
        0
    } else {
        packet_count(packets, v, n - 1) + if packets[n - 1].stream_index == v {
            1int
        } else {
            0int
        }
    }
}

/// The keyframe positions of stream `v` among the first `n` packets:
/// 0-based positions, counted among the packets of `v` only, of those
/// packets of `v` that carry a key-frame marker.
pub open spec fn key_positions(packets: Seq<PacketInfo>, v: int, n: int) -> Seq<usize>
    decreases n,
{
    if n <= 0 {
        Seq::empty()
    } else {
        key_positions(packets, v, n - 1) + if packets[n - 1].stream_index == v && packets[n
            - 1].is_key {
            seq![packet_count(packets, v, n - 1) as usize]
        } else {
            Seq::empty()
        }
    }
}

/// Frame count: the number of packets that belong to the best-ranked
/// video stream. Fails with `StreamNotFound` when the source has no
/// video stream.
pub fn num_frames(source: &SourceInfo) -> (r: Result<usize, ProbeError>)
    requires
        source.wf(),
    ensures
        r is Ok <==> source.best_video is Some,
        r matches Ok(n) ==> n == packet_count(
            source.packets@,
            source.best_video->Some_0 as int,
            source.packets@.len() as int,
        ),
        r matches Err(e) ==> e is StreamNotFound,
{
    let v: usize = match source.best_video {
        Some(v) => v,
        None => {
            return Err(ProbeError::StreamNotFound);
        },
    };
    let mut count: usize = 0;
    let mut i: usize = 0;
    while i < source.packets.len()
        invariant
            i <= source.packets@.len(),
            count == packet_count(source.packets@, v as int, i as int),
            count <= i,
        decreases source.packets@.len() - i,
    {
        if source.packets[i].stream_index == v {
            count += 1;
        }
        i += 1;
    }
    Ok(count)
}

/// Average frame rate of the best-ranked video stream, as the stored
/// rational quotient. Fails with `StreamNotFound` when the source has no
/// video stream.
pub fn frame_rate(source: &SourceInfo) -> (r: Result<Rational, ProbeError>)
    requires
        source.wf(),
    ensures
        r is Ok <==> source.best_video is Some,
        r matches Ok(q) ==> {
            let s = source.streams@[source.best_video->Some_0 as int];
            q.num == s.avg_rate_num && q.den == s.avg_rate_den
        },
        r matches Err(e) ==> e is StreamNotFound,
{
    match source.best_video {
        Some(v) => {
            let s = &source.streams[v];
            Ok(Rational { num: s.avg_rate_num, den: s.avg_rate_den })
        },
        None => Err(ProbeError::StreamNotFound),
    }
}

/// Name of the pixel format of the best-ranked video stream, read from
/// its decoder parameters. Fails with `StreamNotFound` when no video
/// stream exists, with `DecoderFailed` when no decoder context could be
/// built for it.
pub fn get_pixel_format(source: &SourceInfo) -> (r: Result<String, ProbeError>)
    requires
        source.wf(),
    ensures
        r is Ok <==> source.best_video is Some && source.streams@[source.best_video->Some_0
            as int].video is Some,
        r matches Ok(p) ==> p@ == source.streams@[source.best_video->Some_0
            as int].video->Some_0.pixel_format@,
        r matches Err(e) ==> (e is StreamNotFound <==> source.best_video is None),
{
    match source.best_video {
        Some(v) => match &source.streams[v].video {
            Some(params) => Ok(params.pixel_format.clone()),
            None => Err(ProbeError::DecoderFailed),
        },
        None => Err(ProbeError::StreamNotFound),
    }
}

/// Width and height of the best-ranked video stream, read from its
/// decoder parameters. Fails as [`get_pixel_format`] does.
pub fn resolution(source: &SourceInfo) -> (r: Result<(u32, u32), ProbeError>)
    requires
        source.wf(),
    ensures
        r is Ok <==> source.best_video is Some && source.streams@[source.best_video->Some_0
            as int].video is Some,
        r matches Ok(wh) ==> {
            let p = source.streams@[source.best_video->Some_0 as int].video->Some_0;
            wh.0 == p.width && wh.1 == p.height
        },
        r matches Err(e) ==> (e is StreamNotFound <==> source.best_video is None),
{
    match source.best_video {
        Some(v) => match &source.streams[v].video {
            Some(params) => Ok((params.width, params.height)),
            None => Err(ProbeError::DecoderFailed),
        },
        None => Err(ProbeError::StreamNotFound),
    }
}

/// Colour transfer characteristic of the best-ranked video stream, read
/// from its decoder parameters. Fails as [`get_pixel_format`] does.
pub fn transfer_characteristics(source: &SourceInfo) -> (r: Result<u32, ProbeError>)
    requires
        source.wf(),
    ensures
        r is Ok <==> source.best_video is Some && source.streams@[source.best_video->Some_0
            as int].video is Some,
        r matches Ok(t) ==> t == source.streams@[source.best_video->Some_0
            as int].video->Some_0.transfer,
        r matches Err(e) ==> (e is StreamNotFound <==> source.best_video is None),
{
    match source.best_video {
        Some(v) => match &source.streams[v].video {
            Some(params) => Ok(params.transfer),
            None => Err(ProbeError::DecoderFailed),
        },
        None => Err(ProbeError::StreamNotFound),
    }
}

/// Keyframe list of the best-ranked video stream: the 0-based positions,
/// among that stream's packets in file order, of the packets that carry a
/// key-frame marker; `[0]` when no packet does (the first frame is always
/// treated as a keyframe boundary). Fails with `StreamNotFound` when the
/// source has no video stream.
pub fn get_keyframes(source: &SourceInfo) -> (r: Result<Vec<usize>, ProbeError>)
    requires
        source.wf(),
    ensures
        r is Ok <==> source.best_video is Some,
        r matches Ok(kfs) ==> {
            let ks = key_positions(
                source.packets@,
                source.best_video->Some_0 as int,
                source.packets@.len() as int,
            );
            kfs@ == if ks.len() == 0 {
                seq![0usize]
            } else {
                ks
            }
        },
        r matches Err(e) ==> e is StreamNotFound,
{
    let v: usize = match source.best_video {
        Some(v) => v,
        None => {
            return Err(ProbeError::StreamNotFound);
        },
    };
    let mut kfs: Vec<usize> = Vec::new();
    let mut seen: usize = 0;
    let mut i: usize = 0;
    while i < source.packets.len()
        invariant
            i <= source.packets@.len(),
            seen == packet_count(source.packets@, v as int, i as int),
            seen <= i,
            kfs@ == key_positions(source.packets@, v as int, i as int),
        decreases source.packets@.len() - i,
    {
        let p = source.packets[i];
        if p.stream_index == v {
            if p.is_key {
                kfs.push(seen);
            }
            seen += 1;
        }
        i += 1;
    }
    if kfs.len() == 0 {
        let mut first: Vec<usize> = Vec::new();
        first.push(0);
        assert(first@ =~= seq![0usize]);
        return Ok(first);
    }
    Ok(kfs)
}

/// Whether the source has an audio stream: true exactly when a
/// best-ranked audio stream exists, which for a well-formed source is
/// exactly when any audio stream exists.
pub fn has_audio(source: &SourceInfo) -> (b: bool)
    requires
        source.wf(),
    ensures
        b == source.best_audio is Some,
        b == exists|i: int|
            0 <= i < source.streams@.len() && (#[trigger] source.streams@[i].medium) is Audio,
{
    let b = source.best_audio.is_some();
    proof {
        if source.best_audio is Some {
            assert(source.streams@[source.best_audio->Some_0 as int].medium is Audio);
        }
    }
    b
}

} // verus!
