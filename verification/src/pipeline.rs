//! The audio pipeline planners: the per-stream encode jobs, the
//! whole-source audio-copy plan, and the decision on what the pipeline's
//! result is. An unverified front end spawns the planned processes and
//! reports their exit status back; everything data-dependent about the
//! pipeline is decided here.

use vstd::prelude::*;

use crate::bitrate::is_bitrate_of;
use crate::bitrate::lemma_bitrate_unique;
use crate::bitrate::stream_bitrate_kbps;
use crate::commands::audio_file_path;
use crate::commands::encode_audio_args;
use crate::commands::extract_args;
use crate::commands::opus_file_path;
use crate::commands::opusenc_args;
use crate::commands::remux_output_path;
use crate::commands::spec_audio_file_path;
use crate::commands::spec_encode_audio_args;
use crate::commands::spec_extract_args;
use crate::commands::spec_opus_file;
use crate::commands::spec_opusenc_args;
use crate::commands::spec_remux_output_path;
use crate::commands::str_views;
use crate::layout::spec_channel_equivalent_tenths;
use crate::media::Medium;
use crate::media::SourceInfo;
use crate::media::StreamInfo;
use crate::probe::has_audio;
use crate::text::lemma_dec_injective;
use crate::text::spec_dec;

verus! {

/// The absolute indices of the audio streams, in ascending order.
pub open spec fn spec_audio_indices(streams: Seq<StreamInfo>) -> Seq<int>
    decreases streams.len(),
{
    if streams.len() == 0 {
        Seq::empty()
    } else {
        spec_audio_indices(streams.drop_last()) + if streams.last().medium is Audio {
            seq![streams.len() - 1]
        } else {
            Seq::empty()
        }
    }
}

/// The audio indices are in range, point at audio streams, and ascend
/// strictly.
pub proof fn lemma_audio_indices_props(streams: Seq<StreamInfo>)
    ensures
        forall|k: int|
            0 <= k < spec_audio_indices(streams).len() ==> 0 <= #[trigger] spec_audio_indices(
                streams,
            )[k] < streams.len() && streams[spec_audio_indices(streams)[k]].medium is Audio,
        forall|k1: int, k2: int|
            0 <= k1 < k2 < spec_audio_indices(streams).len() ==> spec_audio_indices(streams)[k1]
                < spec_audio_indices(streams)[k2],
    decreases streams.len(),
{
    if streams.len() > 0 {
        lemma_audio_indices_props(streams.drop_last());
        assert(forall|k: int|
            0 <= k < spec_audio_indices(streams.drop_last()).len()
                ==> #[trigger] spec_audio_indices(streams)[k] == spec_audio_indices(
                streams.drop_last(),
            )[k]);
    }
}

/// One per-stream encode job: extract one audio stream losslessly, pipe
/// it into the lossy encoder, and write the per-stream output file.
pub struct AudioJob {
    /// Absolute index of the source stream.
    pub stream_index: usize,
    /// Bitrate target handed to the lossy encoder, in kbps.
    pub bitrate: u64,
    /// The stage-one extraction command.
    pub extract_args: Vec<String>,
    /// The stage-two lossy encoder command, fed from stage one's stdout.
    pub encode_args: Vec<String>,
    /// The per-stream output file, `<temp>/audio/<index>.opus`.
    pub output_file: String,
}

/// What the job for the audio stream with absolute index `idx` holds.
pub open spec fn job_matches(
    job: AudioJob,
    idx: int,
    streams: Seq<StreamInfo>,
    input: Seq<char>,
    temp: Seq<char>,
) -> bool {
    &&& job.stream_index == idx
    &&& is_bitrate_of(
        spec_channel_equivalent_tenths(streams[idx].channel_layout, streams[idx].channels),
        job.bitrate as int,
    )
    &&& str_views(job.extract_args@) == spec_extract_args(input, idx)
    &&& str_views(job.encode_args@) == spec_opusenc_args(job.bitrate as int, spec_opus_file(temp, idx))
    &&& job.output_file@ == spec_opus_file(temp, idx)
}

/// Plans one encode job per audio stream of the source, in ascending
/// absolute-index order: each extracts its stream from `input`, encodes
/// at the bitrate classified from the stream's channel layout, and
/// writes `<temp>/audio/<index>.opus`.
pub fn opus_encode_jobs(source: &SourceInfo, input: &str, temp: &str) -> (jobs: Vec<AudioJob>)
    ensures
        jobs@.len() == spec_audio_indices(source.streams@).len(),
        forall|k: int|
            0 <= k < jobs@.len() ==> job_matches(
                #[trigger] jobs@[k],
                spec_audio_indices(source.streams@)[k],
                source.streams@,
                input@,
                temp@,
            ),
{
    let mut jobs: Vec<AudioJob> = Vec::new();
    let mut i: usize = 0;
    while i < source.streams.len()
        invariant
            i <= source.streams@.len(),
            jobs@.len() == spec_audio_indices(source.streams@.take(i as int)).len(),
            forall|k: int|
                0 <= k < jobs@.len() ==> job_matches(
                    #[trigger] jobs@[k],
                    spec_audio_indices(source.streams@.take(i as int))[k],
                    source.streams@,
                    input@,
                    temp@,
                ),
        decreases source.streams@.len() - i,
    {
        let ghost pre = spec_audio_indices(source.streams@.take(i as int));
        if source.streams[i].medium == Medium::Audio {
            let bitrate = stream_bitrate_kbps(&source.streams[i]);
            let output_file = opus_file_path(temp, i as u64);
            let extract = extract_args(input, i as u64);
            let encode = opusenc_args(bitrate, output_file.as_str());
            jobs.push(
                AudioJob {
                    stream_index: i,
                    bitrate,
                    extract_args: extract,
                    encode_args: encode,
                    output_file,
                },
            );
        }
        proof {
            assert(source.streams@.take(i + 1).drop_last() =~= source.streams@.take(i as int));
            assert(source.streams@.take(i + 1).last() == source.streams@[i as int]);
            if source.streams@[i as int].medium is Audio {
                assert(spec_audio_indices(source.streams@.take(i + 1)) =~= pre + seq![i as int]);
            } else {
                assert(spec_audio_indices(source.streams@.take(i + 1)) =~= pre);
            }
        }
        i += 1;
    }
    proof {
        assert(source.streams@.take(source.streams@.len() as int) =~= source.streams@);
    }
    jobs
}

/// The whole-source audio copy step: either nothing at all (the source
/// has no audio), or one command to run and the file it writes.
pub enum AudioPlan {
    /// The source has no audio stream: no process is to be spawned and
    /// the pipeline's result is "no audio produced".
    NoAudio,
    /// Run `command`, which writes `audio_file`.
    Run { command: Vec<String>, audio_file: String, single_track: bool },
}

/// Plans the whole-source audio copy. A source without audio gets
/// [`AudioPlan::NoAudio`] and no command; otherwise the copy command
/// keeps only the first audio stream in presentation order in
/// single-track mode, and stream-copies all audio with the caller's
/// parameters otherwise.
pub fn plan_encode_audio(
    source: &SourceInfo,
    input: &str,
    temp: &str,
    single_track: bool,
    audio_params: &Vec<String>,
) -> (p: AudioPlan)
    requires
        source.wf(),
    ensures
        (p is NoAudio) <==> source.best_audio is None,
        (p is NoAudio) <==> !(exists|i: int|
            0 <= i < source.streams@.len() && (#[trigger] source.streams@[i].medium) is Audio),
        p matches AudioPlan::Run { command, audio_file, single_track: st } ==> ({
            &&& st == single_track
            &&& audio_file@ == spec_audio_file_path(temp@, single_track)
            &&& str_views(command@) == spec_encode_audio_args(
                input@,
                str_views(audio_params@),
                single_track,
                spec_audio_file_path(temp@, single_track),
            )
        }),
{
    if !has_audio(source) {
        return AudioPlan::NoAudio;
    }
    let audio_file = audio_file_path(temp, single_track);
    let command = encode_audio_args(input, audio_params, single_track, audio_file.as_str());
    AudioPlan::Run { command, audio_file, single_track }
}

/// The pipeline's result once the copy command has run. A failed copy is
/// a soft failure: the result is "no audio produced". A successful copy
/// yields the remuxed `<temp>/audio.mkv` in single-track mode (the merge
/// writes it), and the copied file itself otherwise.
pub fn encode_audio_outcome(single_track: bool, copy_ok: bool, audio_file: String, temp: &str) -> (r:
    Option<String>)
    ensures
        r is Some <==> copy_ok,
        (copy_ok && single_track) ==> r->Some_0@ == spec_remux_output_path(temp@),
        (copy_ok && !single_track) ==> r->Some_0@ == audio_file@,
{
    if !copy_ok {
        None
    } else if single_track {
        Some(remux_output_path(temp))
    } else {
        Some(audio_file)
    }
}

/// Two per-stream output files of different stream indices never
/// collide.
pub proof fn lemma_opus_files_distinct(temp: Seq<char>, i: int, j: int)
    requires
        0 <= i,
        0 <= j,
        i != j,
    ensures
        spec_opus_file(temp, i) != spec_opus_file(temp, j),
{
    reveal_strlit("/audio/");
    reveal_strlit(".opus");
    if spec_opus_file(temp, i) == spec_opus_file(temp, j) {
        let a = temp.len() as int + 7;
        let li = spec_dec(i).len() as int;
        let lj = spec_dec(j).len() as int;
        assert(spec_opus_file(temp, i).len() == a + li + 5);
        assert(spec_opus_file(temp, j).len() == a + lj + 5);
        assert(spec_dec(i) =~= spec_opus_file(temp, i).subrange(a, a + li));
        assert(spec_dec(j) =~= spec_opus_file(temp, j).subrange(a, a + lj));
        lemma_dec_injective(i, j);
    }
}

/// Running the per-stream planner over a source with `N` audio streams
/// yields exactly `N` jobs, one per audio stream in ascending order,
/// whose output files are named by stream index and are pairwise
/// distinct.
pub proof fn lemma_one_file_per_audio_stream(
    jobs: Seq<AudioJob>,
    streams: Seq<StreamInfo>,
    input: Seq<char>,
    temp: Seq<char>,
)
    requires
        jobs.len() == spec_audio_indices(streams).len(),
        forall|k: int|
            0 <= k < jobs.len() ==> job_matches(
                #[trigger] jobs[k],
                spec_audio_indices(streams)[k],
                streams,
                input,
                temp,
            ),
    ensures
        forall|k1: int, k2: int|
            0 <= k1 < k2 < jobs.len() ==> jobs[k1].output_file@ != jobs[k2].output_file@,
        forall|k1: int, k2: int|
            0 <= k1 < k2 < jobs.len() ==> jobs[k1].stream_index < jobs[k2].stream_index,
{
    lemma_audio_indices_props(streams);
    assert forall|k1: int, k2: int| 0 <= k1 < k2 < jobs.len() implies jobs[k1].output_file@
        != jobs[k2].output_file@ by {
        lemma_opus_files_distinct(
            temp,
            spec_audio_indices(streams)[k1],
            spec_audio_indices(streams)[k2],
        );
    }
}

/// Re-running the planner against an unmodified source and workspace
/// reproduces the same jobs: the same stream indices, the same bitrates
/// and byte-identical file names.
pub proof fn lemma_rerun_reproduces_jobs(
    jobs1: Seq<AudioJob>,
    jobs2: Seq<AudioJob>,
    streams: Seq<StreamInfo>,
    input: Seq<char>,
    temp: Seq<char>,
)
    requires
        jobs1.len() == spec_audio_indices(streams).len(),
        jobs2.len() == spec_audio_indices(streams).len(),
        forall|k: int|
            0 <= k < jobs1.len() ==> job_matches(
                #[trigger] jobs1[k],
                spec_audio_indices(streams)[k],
                streams,
                input,
                temp,
            ),
        forall|k: int|
            0 <= k < jobs2.len() ==> job_matches(
                #[trigger] jobs2[k],
                spec_audio_indices(streams)[k],
                streams,
                input,
                temp,
            ),
    ensures
        jobs1.len() == jobs2.len(),
        forall|k: int|
            0 <= k < jobs1.len() ==> (#[trigger] jobs1[k]).output_file@ == jobs2[k].output_file@
                && jobs1[k].stream_index == jobs2[k].stream_index && jobs1[k].bitrate
                == jobs2[k].bitrate,
{
    lemma_audio_indices_props(streams);
    assert forall|k: int| 0 <= k < jobs1.len() implies (#[trigger] jobs1[k]).output_file@
        == jobs2[k].output_file@ && jobs1[k].stream_index == jobs2[k].stream_index
        && jobs1[k].bitrate == jobs2[k].bitrate by {
        let idx = spec_audio_indices(streams)[k];
        lemma_bitrate_unique(
            spec_channel_equivalent_tenths(streams[idx].channel_layout, streams[idx].channels),
            jobs1[k].bitrate as int,
            jobs2[k].bitrate as int,
        );
    }
}

/// In single-track mode the copy command is the same whatever the
/// caller's extra audio parameters are: exactly one audio stream, the
/// first in presentation order, is selected.
pub proof fn lemma_single_track_ignores_params(
    input: Seq<char>,
    params1: Seq<Seq<char>>,
    params2: Seq<Seq<char>>,
    audio_file: Seq<char>,
)
    ensures
        spec_encode_audio_args(input, params1, true, audio_file) == spec_encode_audio_args(
            input,
            params2,
            true,
            audio_file,
        ),
{
}

} // verus!
