//! Data-dependent construction of the external encoder command lines:
//! the decode pipe, the per-stream extraction and lossy-encode stages,
//! the whole-source audio copy, and the final container merge. Each
//! builder returns the full argument vector, program name first, exactly
//! as its spec function states it.

use vstd::prelude::*;

use crate::text::spec_dec;
use crate::text::u64_to_dec;

verus! {

/// The views of a sequence of owned strings.
pub open spec fn str_views(v: Seq<String>) -> Seq<Seq<char>> {
    v.map_values(|s: String| s@)
}

/// The decode pipe: feed the source on stdin, apply the caller's
/// parameters, and emit raw frames in the requested pixel format on
/// stdout.
pub open spec fn spec_ffmpeg_pipe(params: Seq<Seq<char>>, pix_format: Seq<char>) -> Seq<
    Seq<char>,
> {
    seq!["ffmpeg"@, "-y"@, "-hide_banner"@, "-loglevel"@, "error"@, "-i"@, "-"@] + params + seq![
        "-pix_fmt"@,
        pix_format,
        "-strict"@,
        "-1"@,
        "-f"@,
        "yuv4mpegpipe"@,
        "-"@,
    ]
}

/// Composes the decode pipe command: a fixed prefix, the caller's
/// parameters in order, then the pixel-format and output suffix.
pub fn compose_ffmpeg_pipe(params: &Vec<String>, pix_format: &str) -> (r: Vec<String>)
    ensures
        str_views(r@) == spec_ffmpeg_pipe(str_views(params@), pix_format@),
{
    let mut r: Vec<String> = Vec::new();
    r.push(String::from_str("ffmpeg"));
    r.push(String::from_str("-y"));
    r.push(String::from_str("-hide_banner"));
    r.push(String::from_str("-loglevel"));
    r.push(String::from_str("error"));
    r.push(String::from_str("-i"));
    r.push(String::from_str("-"));
    let mut i: usize = 0;
    while i < params.len()
        invariant
            i <= params@.len(),
            str_views(r@) =~~= seq![
                "ffmpeg"@,
                "-y"@,
                "-hide_banner"@,
                "-loglevel"@,
                "error"@,
                "-i"@,
                "-"@,
            ] + str_views(params@.take(i as int)),
        decreases params@.len() - i,
    {
        let x = params[i].clone();
        let ghost r0 = r@;
        r.push(x);
        proof {
            assert(str_views(r@) =~~= str_views(r0).push(params@[i as int]@));
            assert(params@.take(i + 1).drop_last() =~= params@.take(i as int));
            assert(str_views(params@.take(i + 1)) =~~= str_views(params@.take(i as int)).push(
                params@[i as int]@,
            ));
        }
        i += 1;
    }
    proof {
        assert(params@.take(params@.len() as int) =~= params@);
    }
    r.push(String::from_str("-pix_fmt"));
    r.push(String::from_str(pix_format));
    r.push(String::from_str("-strict"));
    r.push(String::from_str("-1"));
    r.push(String::from_str("-f"));
    r.push(String::from_str("yuv4mpegpipe"));
    r.push(String::from_str("-"));
    proof {
        assert(str_views(r@) =~~= spec_ffmpeg_pipe(str_views(params@), pix_format@));
    }
    r
}

/// The per-stream lossy output file: `<temp>/audio/<index>.opus`.
pub open spec fn spec_opus_file(temp: Seq<char>, index: int) -> Seq<char> {
    temp + "/audio/"@ + spec_dec(index) + ".opus"@
}

/// Builds the per-stream lossy output path, `<temp>/audio/<index>.opus`.
pub fn opus_file_path(temp: &str, index: u64) -> (r: String)
    ensures
        r@ == spec_opus_file(temp@, index as int),
{
    let mut r = String::from_str(temp);
    r.append("/audio/");
    let dec = u64_to_dec(index);
    r.append(dec.as_str());
    r.append(".opus");
    r
}

/// Stage one of the per-stream pipeline: demux exactly the stream with
/// the given absolute index from the source, no video, subtitle or data
/// streams and only that stream's own metadata, as lossless flac on
/// stdout.
pub open spec fn spec_extract_args(input: Seq<char>, index: int) -> Seq<Seq<char>> {
    seq![
        "ffmpeg"@,
        "-hide_banner"@,
        "-v"@,
        "quiet"@,
        "-i"@,
        input,
        "-vn"@,
        "-sn"@,
        "-dn"@,
        "-map"@,
        "0:"@ + spec_dec(index),
        "-map_metadata"@,
        "0:s:"@ + spec_dec(index),
        "-f"@,
        "flac"@,
        "-"@,
    ]
}

/// Builds the stage-one extraction command for one stream.
pub fn extract_args(input: &str, index: u64) -> (r: Vec<String>)
    ensures
        str_views(r@) == spec_extract_args(input@, index as int),
{
    let mut r: Vec<String> = Vec::new();
    r.push(String::from_str("ffmpeg"));
    r.push(String::from_str("-hide_banner"));
    r.push(String::from_str("-v"));
    r.push(String::from_str("quiet"));
    r.push(String::from_str("-i"));
    r.push(String::from_str(input));
    r.push(String::from_str("-vn"));
    r.push(String::from_str("-sn"));
    r.push(String::from_str("-dn"));
    r.push(String::from_str("-map"));
    let dec = u64_to_dec(index);
    let mut map = String::from_str("0:");
    map.append(dec.as_str());
    r.push(map);
    r.push(String::from_str("-map_metadata"));
    let mut meta = String::from_str("0:s:");
    meta.append(dec.as_str());
    r.push(meta);
    r.push(String::from_str("-f"));
    r.push(String::from_str("flac"));
    r.push(String::from_str("-"));
    proof {
        assert(str_views(r@) =~~= spec_extract_args(input@, index as int));
    }
    r
}

/// Stage two of the per-stream pipeline: encode stdin as lossy audio in
/// variable-bitrate mode at the given target, into the per-stream file.
pub open spec fn spec_opusenc_args(bitrate: int, output_file: Seq<char>) -> Seq<Seq<char>> {
    seq![
        "opusenc"@,
        "--quiet"@,
        "--vbr"@,
        "--bitrate"@,
        spec_dec(bitrate) + "K"@,
        "-"@,
        output_file,
    ]
}

/// Builds the stage-two lossy encoder command for one stream.
pub fn opusenc_args(bitrate: u64, output_file: &str) -> (r: Vec<String>)
    ensures
        str_views(r@) == spec_opusenc_args(bitrate as int, output_file@),
{
    let mut r: Vec<String> = Vec::new();
    r.push(String::from_str("opusenc"));
    r.push(String::from_str("--quiet"));
    r.push(String::from_str("--vbr"));
    r.push(String::from_str("--bitrate"));
    let mut rate = u64_to_dec(bitrate);
    rate.append("K");
    r.push(rate);
    r.push(String::from_str("-"));
    r.push(String::from_str(output_file));
    proof {
        assert(str_views(r@) =~~= spec_opusenc_args(bitrate as int, output_file@));
    }
    r
}

/// One `-i <file>` pair per per-stream encoded file, in order.
pub open spec fn spec_merge_inputs(files: Seq<Seq<char>>) -> Seq<Seq<char>>
    decreases files.len(),
{
    if files.len() == 0 {
        Seq::empty()
    } else {
        spec_merge_inputs(files.drop_last()) + seq!["-i"@, files.last()]
    }
}

/// One `-map <k>:a:0` pair per earlier input: the single audio stream of
/// each per-stream encoded file.
pub open spec fn spec_audio_maps(n: int) -> Seq<Seq<char>>
    decreases n,
{
    if n <= 0 {
        Seq::empty()
    } else {
        spec_audio_maps(n - 1) + seq!["-map"@, spec_dec(n - 1) + ":a:0"@]
    }
}

/// The container merge: one input per per-stream encoded file in
/// ascending stream order, the subtitle skeleton as the last input, maps
/// selecting one audio stream from each earlier input and all subtitle
/// streams from the skeleton, stream-copied to the output path.
pub open spec fn spec_merge_args(
    files: Seq<Seq<char>>,
    merge_with: Seq<char>,
    output: Seq<char>,
) -> Seq<Seq<char>> {
    seq!["ffmpeg"@, "-y"@, "-hide_banner"@, "-v"@, "quiet"@] + spec_merge_inputs(files) + seq![
        "-i"@,
        merge_with,
    ] + spec_audio_maps(files.len() as int) + seq![
        "-map"@,
        spec_dec(files.len() as int) + ":s"@,
        "-c"@,
        "copy"@,
        output,
    ]
}

/// Builds the merge command over the per-stream encoded files (in
/// order), the subtitle skeleton and the output path.
pub fn merge_args(files: &Vec<String>, merge_with: &str, output: &str) -> (r: Vec<String>)
    ensures
        str_views(r@) == spec_merge_args(str_views(files@), merge_with@, output@),
{
    let mut r: Vec<String> = Vec::new();
    r.push(String::from_str("ffmpeg"));
    r.push(String::from_str("-y"));
    r.push(String::from_str("-hide_banner"));
    r.push(String::from_str("-v"));
    r.push(String::from_str("quiet"));
    let mut i: usize = 0;
    while i < files.len()
        invariant
            i <= files@.len(),
            str_views(r@) =~~= seq!["ffmpeg"@, "-y"@, "-hide_banner"@, "-v"@, "quiet"@]
                + spec_merge_inputs(str_views(files@.take(i as int))),
        decreases files@.len() - i,
    {
        let ghost r0 = r@;
        r.push(String::from_str("-i"));
        r.push(files[i].clone());
        proof {
            assert(str_views(r@) =~~= str_views(r0) + seq!["-i"@, files@[i as int]@]);
            let fv1 = str_views(files@.take(i + 1));
            assert(fv1.drop_last() =~~= str_views(files@.take(i as int)));
            assert(fv1.last() == files@[i as int]@);
            assert(spec_merge_inputs(fv1) =~~= spec_merge_inputs(
                str_views(files@.take(i as int)),
            ) + seq!["-i"@, files@[i as int]@]);
        }
        i += 1;
    }
    proof {
        assert(str_views(files@.take(files@.len() as int)) =~~= str_views(files@));
    }
    let ghost mid = str_views(r@);
    r.push(String::from_str("-i"));
    r.push(String::from_str(merge_with));
    let ghost prefix = str_views(r@);
    proof {
        assert(prefix =~~= mid + seq!["-i"@, merge_with@]);
    }
    let mut k: usize = 0;
    while k < files.len()
        invariant
            k <= files@.len(),
            str_views(r@) =~~= prefix + spec_audio_maps(k as int),
        decreases files@.len() - k,
    {
        let ghost r0 = r@;
        r.push(String::from_str("-map"));
        let mut map = u64_to_dec(k as u64);
        map.append(":a:0");
        r.push(map);
        proof {
            assert(str_views(r@) =~~= str_views(r0) + seq![
                "-map"@,
                spec_dec(k as int) + ":a:0"@,
            ]);
            assert(spec_audio_maps(k + 1) =~~= spec_audio_maps(k as int) + seq![
                "-map"@,
                spec_dec(k as int) + ":a:0"@,
            ]);
        }
        k += 1;
    }
    let ghost mapped = str_views(r@);
    r.push(String::from_str("-map"));
    let mut sub_map = u64_to_dec(files.len() as u64);
    sub_map.append(":s");
    r.push(sub_map);
    r.push(String::from_str("-c"));
    r.push(String::from_str("copy"));
    r.push(String::from_str(output));
    proof {
        assert(str_views(r@) =~~= mapped + seq![
            "-map"@,
            spec_dec(files@.len() as int) + ":s"@,
            "-c"@,
            "copy"@,
            output@,
        ]);
        assert(str_views(r@) =~~= spec_merge_args(str_views(files@), merge_with@, output@));
    }
    r
}

/// The whole-source audio file: `<temp>/misc.mkv` in single-track mode,
/// `<temp>/audio.mkv` otherwise.
pub open spec fn spec_audio_file_path(temp: Seq<char>, single_track: bool) -> Seq<char> {
    if single_track {
        temp + "/misc.mkv"@
    } else {
        temp + "/audio.mkv"@
    }
}

/// Builds the whole-source audio file path.
pub fn audio_file_path(temp: &str, single_track: bool) -> (r: String)
    ensures
        r@ == spec_audio_file_path(temp@, single_track),
{
    let mut r = String::from_str(temp);
    if single_track {
        r.append("/misc.mkv");
    } else {
        r.append("/audio.mkv");
    }
    r
}

/// The final remuxed output: `<temp>/audio.mkv`.
pub open spec fn spec_remux_output_path(temp: Seq<char>) -> Seq<char> {
    temp + "/audio.mkv"@
}

/// Builds the final remuxed output path, `<temp>/audio.mkv`.
pub fn remux_output_path(temp: &str) -> (r: String)
    ensures
        r@ == spec_remux_output_path(temp@),
{
    let mut r = String::from_str(temp);
    r.append("/audio.mkv");
    r
}

/// The whole-source audio copy: keep every audio stream's metadata, drop
/// video and data, and either keep only the first audio stream in
/// presentation order (single-track mode, to preserve subtitle sync) or
/// stream-copy all audio with the caller's extra parameters.
pub open spec fn spec_encode_audio_args(
    input: Seq<char>,
    audio_params: Seq<Seq<char>>,
    single_track: bool,
    audio_file: Seq<char>,
) -> Seq<Seq<char>> {
    seq![
        "ffmpeg"@,
        "-y"@,
        "-hide_banner"@,
        "-loglevel"@,
        "error"@,
        "-i"@,
        input,
        "-map_metadata"@,
        "0"@,
        "-vn"@,
        "-dn"@,
        "-map"@,
        "0"@,
        "-c"@,
        "copy"@,
    ] + (if single_track {
        seq!["-map"@, "0:a:0"@]
    } else {
        audio_params
    }) + seq![audio_file]
}

/// Builds the whole-source audio copy command.
pub fn encode_audio_args(
    input: &str,
    audio_params: &Vec<String>,
    single_track: bool,
    audio_file: &str,
) -> (r: Vec<String>)
    ensures
        str_views(r@) == spec_encode_audio_args(
            input@,
            str_views(audio_params@),
            single_track,
            audio_file@,
        ),
{
    let mut r: Vec<String> = Vec::new();
    r.push(String::from_str("ffmpeg"));
    r.push(String::from_str("-y"));
    r.push(String::from_str("-hide_banner"));
    r.push(String::from_str("-loglevel"));
    r.push(String::from_str("error"));
    r.push(String::from_str("-i"));
    r.push(String::from_str(input));
    r.push(String::from_str("-map_metadata"));
    r.push(String::from_str("0"));
    r.push(String::from_str("-vn"));
    r.push(String::from_str("-dn"));
    r.push(String::from_str("-map"));
    r.push(String::from_str("0"));
    r.push(String::from_str("-c"));
    r.push(String::from_str("copy"));
    let ghost base = str_views(r@);
    if single_track {
        r.push(String::from_str("-map"));
        r.push(String::from_str("0:a:0"));
        proof {
            assert(str_views(r@) =~~= base + seq!["-map"@, "0:a:0"@]);
        }
    } else {
        let mut i: usize = 0;
        while i < audio_params.len()
            invariant
                i <= audio_params@.len(),
                str_views(r@) =~~= base + str_views(audio_params@.take(i as int)),
            decreases audio_params@.len() - i,
        {
            let x = audio_params[i].clone();
            let ghost r0 = r@;
            r.push(x);
            proof {
                assert(str_views(r@) =~~= str_views(r0).push(audio_params@[i as int]@));
                assert(audio_params@.take(i + 1).drop_last() =~= audio_params@.take(i as int));
                assert(str_views(audio_params@.take(i + 1)) =~~= str_views(
                    audio_params@.take(i as int),
                ).push(audio_params@[i as int]@));
            }
            i += 1;
        }
        proof {
            assert(audio_params@.take(audio_params@.len() as int) =~= audio_params@);
            assert(str_views(r@) =~~= base + str_views(audio_params@));
        }
    }
    let ghost body = str_views(r@);
    r.push(String::from_str(audio_file));
    proof {
        assert(str_views(r@) =~~= body.push(audio_file@));
        assert(str_views(r@) =~~= spec_encode_audio_args(
            input@,
            str_views(audio_params@),
            single_track,
            audio_file@,
        ));
    }
    r
}

} // verus!
