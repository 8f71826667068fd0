use av1an_core::media::Medium;
use av1an_core::media::PacketInfo;
use av1an_core::media::SourceInfo;
use av1an_core::media::StreamInfo;
use av1an_core::media::VideoParams;
use av1an_core::probe::frame_rate;
use av1an_core::probe::get_keyframes;
use av1an_core::probe::get_pixel_format;
use av1an_core::probe::has_audio;
use av1an_core::probe::num_frames;
use av1an_core::probe::resolution;
use av1an_core::probe::transfer_characteristics;
use av1an_core::probe::ProbeError;

fn stream(medium: Medium) -> StreamInfo {
    StreamInfo {
        medium,
        channel_layout: None,
        channels: 0,
        avg_rate_num: 0,
        avg_rate_den: 1,
        video: None,
    }
}

fn video_stream(num: i64, den: i64, params: Option<VideoParams>) -> StreamInfo {
    StreamInfo {
        medium: Medium::Video,
        channel_layout: None,
        channels: 0,
        avg_rate_num: num,
        avg_rate_den: den,
        video: params,
    }
}

fn packet(stream_index: usize, is_key: bool) -> PacketInfo {
    PacketInfo { stream_index, is_key }
}

#[test]
fn has_audio_is_false_for_video_only_source() {
    let source = SourceInfo {
        streams: vec![video_stream(25, 1, None)],
        packets: vec![],
        best_video: Some(0),
        best_audio: None,
    };
    assert!(source.is_wf());
    assert!(!has_audio(&source));
}

#[test]
fn has_audio_is_true_with_audio_regardless_of_subtitles() {
    let with_subs = SourceInfo {
        streams: vec![video_stream(25, 1, None), stream(Medium::Audio), stream(Medium::Subtitle)],
        packets: vec![],
        best_video: Some(0),
        best_audio: Some(1),
    };
    assert!(with_subs.is_wf());
    assert!(has_audio(&with_subs));

    let without_subs = SourceInfo {
        streams: vec![video_stream(25, 1, None), stream(Medium::Audio)],
        packets: vec![],
        best_video: Some(0),
        best_audio: Some(1),
    };
    assert!(without_subs.is_wf());
    assert!(has_audio(&without_subs));
}

#[test]
fn num_frames_counts_best_video_packets_only() {
    let source = SourceInfo {
        streams: vec![video_stream(24, 1, None), stream(Medium::Audio)],
        packets: vec![
            packet(0, true),
            packet(1, false),
            packet(0, false),
            packet(1, false),
            packet(0, false),
        ],
        best_video: Some(0),
        best_audio: Some(1),
    };
    assert!(source.is_wf());
    assert_eq!(num_frames(&source), Ok(3));
}

#[test]
fn num_frames_fails_without_video_stream() {
    let source = SourceInfo {
        streams: vec![stream(Medium::Audio)],
        packets: vec![packet(0, true)],
        best_video: None,
        best_audio: Some(0),
    };
    assert!(source.is_wf());
    assert_eq!(num_frames(&source), Err(ProbeError::StreamNotFound));
}

#[test]
fn keyframes_default_to_first_frame_when_none_marked() {
    let source = SourceInfo {
        streams: vec![video_stream(30, 1, None)],
        packets: vec![packet(0, false), packet(0, false), packet(0, false)],
        best_video: Some(0),
        best_audio: None,
    };
    assert!(source.is_wf());
    assert_eq!(get_keyframes(&source), Ok(vec![0]));
}

#[test]
fn keyframes_report_marked_positions_in_packet_order() {
    let mut packets = Vec::new();
    for i in 0..90usize {
        // Interleave an audio packet before every video packet: positions
        // must count video packets only.
        packets.push(packet(1, i % 2 == 0));
        packets.push(packet(0, i == 0 || i == 30 || i == 60));
    }
    let source = SourceInfo {
        streams: vec![video_stream(30, 1, None), stream(Medium::Audio)],
        packets,
        best_video: Some(0),
        best_audio: Some(1),
    };
    assert!(source.is_wf());
    assert_eq!(get_keyframes(&source), Ok(vec![0, 30, 60]));
}

#[test]
fn keyframes_fail_without_video_stream() {
    let source = SourceInfo {
        streams: vec![stream(Medium::Audio)],
        packets: vec![],
        best_video: None,
        best_audio: Some(0),
    };
    assert_eq!(get_keyframes(&source), Err(ProbeError::StreamNotFound));
}

#[test]
fn frame_rate_is_the_stored_rational() {
    let source = SourceInfo {
        streams: vec![stream(Medium::Subtitle), video_stream(30000, 1001, None)],
        packets: vec![],
        best_video: Some(1),
        best_audio: None,
    };
    assert!(source.is_wf());
    let rate = frame_rate(&source).unwrap();
    assert_eq!((rate.num, rate.den), (30000, 1001));
    let fps = rate.num as f64 / rate.den as f64;
    assert!((fps - 29.97).abs() < 0.01);
}

#[test]
fn decoder_parameters_are_read_from_the_best_video_stream() {
    let params = VideoParams {
        pixel_format: String::from("yuv420p10le"),
        width: 3840,
        height: 2160,
        transfer: 16,
    };
    let source = SourceInfo {
        streams: vec![video_stream(24, 1, Some(params))],
        packets: vec![],
        best_video: Some(0),
        best_audio: None,
    };
    assert!(source.is_wf());
    assert_eq!(get_pixel_format(&source).unwrap(), "yuv420p10le");
    assert_eq!(resolution(&source).unwrap(), (3840, 2160));
    assert_eq!(transfer_characteristics(&source).unwrap(), 16);
}

#[test]
fn decoder_failure_is_distinguished_from_missing_stream() {
    let undecodable = SourceInfo {
        streams: vec![video_stream(24, 1, None)],
        packets: vec![],
        best_video: Some(0),
        best_audio: None,
    };
    assert_eq!(get_pixel_format(&undecodable), Err(ProbeError::DecoderFailed));
    assert_eq!(resolution(&undecodable), Err(ProbeError::DecoderFailed));
    assert_eq!(transfer_characteristics(&undecodable), Err(ProbeError::DecoderFailed));

    let no_video = SourceInfo {
        streams: vec![stream(Medium::Data)],
        packets: vec![],
        best_video: None,
        best_audio: None,
    };
    assert_eq!(get_pixel_format(&no_video), Err(ProbeError::StreamNotFound));
    assert_eq!(resolution(&no_video), Err(ProbeError::StreamNotFound));
    assert_eq!(transfer_characteristics(&no_video), Err(ProbeError::StreamNotFound));
}

#[test]
fn well_formedness_rejects_inconsistent_best_streams() {
    let missing_best = SourceInfo {
        streams: vec![stream(Medium::Audio)],
        packets: vec![],
        best_video: None,
        best_audio: None,
    };
    assert!(!missing_best.is_wf());

    let bad_packet = SourceInfo {
        streams: vec![video_stream(24, 1, None)],
        packets: vec![packet(3, false)],
        best_video: Some(0),
        best_audio: None,
    };
    assert!(!bad_packet.is_wf());
}
