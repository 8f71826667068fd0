use av1an_core::commands::compose_ffmpeg_pipe;
use av1an_core::commands::merge_args;
use av1an_core::media::Medium;
use av1an_core::media::SourceInfo;
use av1an_core::media::StreamInfo;
use av1an_core::pipeline::encode_audio_outcome;
use av1an_core::pipeline::opus_encode_jobs;
use av1an_core::pipeline::plan_encode_audio;
use av1an_core::pipeline::AudioPlan;
use av1an_core::text::escape_path_in_filter;
use av1an_core::text::u64_to_dec;

fn stream(medium: Medium) -> StreamInfo {
    StreamInfo {
        medium,
        channel_layout: None,
        channels: 0,
        avg_rate_num: 0,
        avg_rate_den: 1,
        video: None,
    }
}

fn audio_stream(channel_layout: Option<u64>, channels: u16) -> StreamInfo {
    StreamInfo {
        medium: Medium::Audio,
        channel_layout,
        channels,
        avg_rate_num: 0,
        avg_rate_den: 1,
        video: None,
    }
}

fn two_audio_source() -> SourceInfo {
    SourceInfo {
        streams: vec![
            stream(Medium::Video),
            audio_stream(Some(0x60F), 6),
            audio_stream(None, 2),
            stream(Medium::Subtitle),
        ],
        packets: vec![],
        best_video: Some(0),
        best_audio: Some(1),
    }
}

fn strings(args: &[&str]) -> Vec<String> {
    args.iter().map(|s| s.to_string()).collect()
}

#[test]
fn one_job_per_audio_stream_named_by_absolute_index() {
    let source = two_audio_source();
    let jobs = opus_encode_jobs(&source, "in.mkv", "tmp");
    assert_eq!(jobs.len(), 2);
    assert_eq!(jobs[0].stream_index, 1);
    assert_eq!(jobs[1].stream_index, 2);
    assert_eq!(jobs[0].output_file, "tmp/audio/1.opus");
    assert_eq!(jobs[1].output_file, "tmp/audio/2.opus");
    assert_eq!(jobs[0].bitrate, 258);
    assert_eq!(jobs[1].bitrate, 128);
}

#[test]
fn extraction_stage_demuxes_exactly_one_stream() {
    let source = two_audio_source();
    let jobs = opus_encode_jobs(&source, "in.mkv", "tmp");
    assert_eq!(
        jobs[0].extract_args,
        strings(&[
            "ffmpeg",
            "-hide_banner",
            "-v",
            "quiet",
            "-i",
            "in.mkv",
            "-vn",
            "-sn",
            "-dn",
            "-map",
            "0:1",
            "-map_metadata",
            "0:s:1",
            "-f",
            "flac",
            "-",
        ])
    );
}

#[test]
fn lossy_stage_uses_vbr_at_the_classified_bitrate() {
    let source = two_audio_source();
    let jobs = opus_encode_jobs(&source, "in.mkv", "tmp");
    assert_eq!(
        jobs[0].encode_args,
        strings(&["opusenc", "--quiet", "--vbr", "--bitrate", "258K", "-", "tmp/audio/1.opus"])
    );
    assert_eq!(
        jobs[1].encode_args,
        strings(&["opusenc", "--quiet", "--vbr", "--bitrate", "128K", "-", "tmp/audio/2.opus"])
    );
}

#[test]
fn rerunning_the_planner_reproduces_the_same_filenames() {
    let source = two_audio_source();
    let first = opus_encode_jobs(&source, "in.mkv", "tmp");
    let second = opus_encode_jobs(&source, "in.mkv", "tmp");
    assert_eq!(first.len(), second.len());
    for (a, b) in first.iter().zip(second.iter()) {
        assert_eq!(a.output_file, b.output_file);
        assert_eq!(a.stream_index, b.stream_index);
        assert_eq!(a.bitrate, b.bitrate);
    }
}

#[test]
fn merge_maps_each_audio_input_and_the_skeleton_subtitles() {
    let files = strings(&["tmp/audio/1.opus", "tmp/audio/2.opus"]);
    let cmd = merge_args(&files, "tmp/misc.mkv", "tmp/audio.mkv");
    assert_eq!(
        cmd,
        strings(&[
            "ffmpeg",
            "-y",
            "-hide_banner",
            "-v",
            "quiet",
            "-i",
            "tmp/audio/1.opus",
            "-i",
            "tmp/audio/2.opus",
            "-i",
            "tmp/misc.mkv",
            "-map",
            "0:a:0",
            "-map",
            "1:a:0",
            "-map",
            "2:s",
            "-c",
            "copy",
            "tmp/audio.mkv",
        ])
    );
}

#[test]
fn merge_of_no_audio_files_still_maps_skeleton_subtitles() {
    let cmd = merge_args(&Vec::new(), "tmp/misc.mkv", "tmp/audio.mkv");
    assert_eq!(
        cmd,
        strings(&[
            "ffmpeg",
            "-y",
            "-hide_banner",
            "-v",
            "quiet",
            "-i",
            "tmp/misc.mkv",
            "-map",
            "0:s",
            "-c",
            "copy",
            "tmp/audio.mkv",
        ])
    );
}

#[test]
fn no_audio_source_plans_no_process_at_all() {
    let source = SourceInfo {
        streams: vec![stream(Medium::Video), stream(Medium::Subtitle)],
        packets: vec![],
        best_video: Some(0),
        best_audio: None,
    };
    assert!(source.is_wf());
    let plan = plan_encode_audio(&source, "in.mkv", "tmp", true, &Vec::new());
    assert!(matches!(plan, AudioPlan::NoAudio));
}

#[test]
fn single_track_mode_keeps_only_the_first_audio_stream() {
    let source = two_audio_source();
    let params = strings(&["-b:a", "192k"]);
    let plan = plan_encode_audio(&source, "in.mkv", "tmp", true, &params);
    match plan {
        AudioPlan::Run { command, audio_file, single_track } => {
            assert!(single_track);
            assert_eq!(audio_file, "tmp/misc.mkv");
            // The caller's parameters do not appear: exactly one audio
            // stream, the first in presentation order, is selected.
            assert_eq!(
                command,
                strings(&[
                    "ffmpeg",
                    "-y",
                    "-hide_banner",
                    "-loglevel",
                    "error",
                    "-i",
                    "in.mkv",
                    "-map_metadata",
                    "0",
                    "-vn",
                    "-dn",
                    "-map",
                    "0",
                    "-c",
                    "copy",
                    "-map",
                    "0:a:0",
                    "tmp/misc.mkv",
                ])
            );
        },
        AudioPlan::NoAudio => panic!("audio was expected"),
    }
}

#[test]
fn standard_mode_copies_all_audio_with_caller_parameters() {
    let source = two_audio_source();
    let params = strings(&["-c:a", "libopus"]);
    let plan = plan_encode_audio(&source, "in.mkv", "tmp", false, &params);
    match plan {
        AudioPlan::Run { command, audio_file, single_track } => {
            assert!(!single_track);
            assert_eq!(audio_file, "tmp/audio.mkv");
            assert_eq!(
                command,
                strings(&[
                    "ffmpeg",
                    "-y",
                    "-hide_banner",
                    "-loglevel",
                    "error",
                    "-i",
                    "in.mkv",
                    "-map_metadata",
                    "0",
                    "-vn",
                    "-dn",
                    "-map",
                    "0",
                    "-c",
                    "copy",
                    "-c:a",
                    "libopus",
                    "tmp/audio.mkv",
                ])
            );
        },
        AudioPlan::NoAudio => panic!("audio was expected"),
    }
}

#[test]
fn failed_copy_is_a_soft_failure_with_no_audio_produced() {
    let r = encode_audio_outcome(true, false, String::from("tmp/misc.mkv"), "tmp");
    assert_eq!(r, None);
}

#[test]
fn successful_single_track_copy_yields_the_remuxed_file() {
    let r = encode_audio_outcome(true, true, String::from("tmp/misc.mkv"), "tmp");
    assert_eq!(r, Some(String::from("tmp/audio.mkv")));
}

#[test]
fn successful_standard_copy_yields_the_copied_file() {
    let r = encode_audio_outcome(false, true, String::from("tmp/audio.mkv"), "tmp");
    assert_eq!(r, Some(String::from("tmp/audio.mkv")));
}

#[test]
fn decode_pipe_wraps_caller_parameters_between_fixed_ends() {
    let params = strings(&["-vf", "scale=1280:720"]);
    let cmd = compose_ffmpeg_pipe(&params, "yuv420p10le");
    assert_eq!(
        cmd,
        strings(&[
            "ffmpeg",
            "-y",
            "-hide_banner",
            "-loglevel",
            "error",
            "-i",
            "-",
            "-vf",
            "scale=1280:720",
            "-pix_fmt",
            "yuv420p10le",
            "-strict",
            "-1",
            "-f",
            "yuv4mpegpipe",
            "-",
        ])
    );
}

#[test]
fn decimal_rendering_matches_display() {
    for n in [0u64, 7, 10, 90147, 65535, 1000000] {
        assert_eq!(u64_to_dec(n), n.to_string());
    }
}

#[test]
fn filter_escaping_always_escapes_structural_characters() {
    assert_eq!(escape_path_in_filter("clip[1],take2.mkv", false), "clip\\[1\\]\\,take2.mkv");
    assert_eq!(escape_path_in_filter("/a/plain/path.mkv", false), "/a/plain/path.mkv");
    // Colons and backslashes stay as they are off Windows.
    assert_eq!(escape_path_in_filter("a:b\\c", false), "a:b\\c");
}

#[test]
fn filter_escaping_rewrites_windows_paths() {
    assert_eq!(escape_path_in_filter("C:\\clips\\a[1],b.mkv", true), "C\\\\:/clips/a\\[1\\]\\,b.mkv");
}
