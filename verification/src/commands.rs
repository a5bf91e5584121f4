//! The FFmpeg arguments a task runs with: the program's arguments after its
//! name, paths unquoted.
use vstd::prelude::*;
use crate::text::{
    join, join_strings, views, words, split_words, is_set, set_value, owned, cat, cat3, push_text,
    push_string, push_all, same_text, is_blank, decimal, decimal_text, split_char, replace_all,
    replace_text, lowercase, to_lower, contains, has, trim, trim_text,
};
use crate::paths::{extension_lower, join_path, path_extension_lower, path_join};
use crate::codecs::{
    CodecCatalog, best_video, best_audio, compatible, hwaccel_args_checked,
    hardware_acceleration_args_checked,
};
use crate::naming::{normalized_output, normalize_output_path_with_container};
use crate::preview::{
    flag_if_set, stem_or, video_quality_parts, push_video_quality, is_x26x, x26x, edit_video_codec,
    edit_audio_codec, edit_video_encoder, edit_audio_encoder, crop_filter, crop_filter_text,
    rotation_filters, rotation_filter_list, trim_parts, trim_range, concat_filter,
    concat_filter_text, input_flags, push_inputs, watermark_filter, watermark_filter_text,
    frame_mode_parts, frame_mode, frame_quality_parts, frame_quality, frame_pattern,
    frame_pattern_text, gif_chain, gif_chain_list, gif_resize_chain, gif_resize_list,
    gif_filter_parts, gif_filters, dither_mode, dither_text, audio_target, audio_convert_codec,
    audio_target_format, audio_convert_encoder, audio_rate_parts, push_audio_rates,
    stem_or_default, push_flag_if_set, push_pair, push_pair_when, merge_audio_codec,
    merge_audio_encoder, extract_audio_codec, extract_audio_encoder, extract_video_codec,
    extract_video_encoder, first_input, dimensions, dimensions_text,
};
use crate::settings::{
    ProcessingTask, AudioSettings, VideoSettings, ErrorKind, TaskError, OperationType, TaskStatus,
    same_video, same_audio_choice, duplicate_audio_choice,
};
use crate::naming::{beside, place_beside};
use crate::paths::{extension, parent, path_extension, path_parent};

verus! {

/// The spec of a run's arguments, or why the task cannot run together with
/// the file that concerns.
pub type Planned = Result<Seq<Seq<char>>, (ErrorKind, Seq<char>)>;

/// A refusal concerning no file.
pub open spec fn stop(k: ErrorKind) -> Planned {
    Err((k, Seq::empty()))
}

/// The arguments returned match the plan.
pub open spec fn planned(r: Result<Vec<String>, TaskError>, o: Planned) -> bool {
    match r {
        Ok(v) => o == Planned::Ok(views(v@)),
        Err(e) => o == Planned::Err((e.kind, e.detail@)),
    }
}

/// The start of every run: the input, overwriting, errors only, no banner,
/// no statistics, no keyboard.
pub open spec fn run_head(input: Seq<char>) -> Seq<Seq<char>> {
    seq!["-i"@, input, "-y"@, "-v"@, "error"@, "-hide_banner"@, "-nostats"@, "-nostdin"@]
}

/// The lower-case extension of the task's output.
pub open spec fn task_ext(t: ProcessingTask) -> Seq<char> {
    extension_lower(t.output_file@)
}

/// A refusal concerning no file.
pub fn stopped(kind: ErrorKind) -> (r: Result<Vec<String>, TaskError>)
    ensures
        planned(r, stop(kind)),
{
    Err(TaskError::plain(kind))
}

/// The start of every run.
pub fn run_head_parts(input: &str) -> (r: Vec<String>)
    ensures
        views(r@) == run_head(input@),
{
    let mut r: Vec<String> = Vec::new();
    push_pair(&mut r, "-i", input);
    push_text(&mut r, "-y");
    push_pair(&mut r, "-v", "error");
    push_text(&mut r, "-hide_banner");
    push_text(&mut r, "-nostats");
    push_text(&mut r, "-nostdin");
    assert(views(r@) =~= run_head(input@));
    r
}

// ----- stream probing -----

/// Some line of a probe's output, with surrounding white space removed,
/// reads `kind`.
pub open spec fn lists_stream(probe: Seq<char>, kind: Seq<char>) -> bool {
    exists|i: int| 0 <= i < split_char(probe, '\n').len() && #[trigger] trim(split_char(probe, '\n')[i]) == kind
}

/// Whether a probe's output (one stream type a line) lists a stream of the kind.
pub fn lists_stream_kind(probe: &str, kind: &str) -> (r: bool)
    ensures
        r == lists_stream(probe@, kind@),
{
    let lines = crate::text::split_lines(probe);
    let mut i: usize = 0;
    while i < lines.len()
        invariant
            views(lines@) == split_char(probe@, '\n'),
            i <= lines@.len(),
            forall|j: int| 0 <= j < i ==> trim(#[trigger] split_char(probe@, '\n')[j]) != kind@,
        decreases lines.len() - i,
    {
        let line = trim_text(lines[i].as_str());
        assert(lines@[i as int]@ == split_char(probe@, '\n')[i as int]);
        if same_text(line.as_str(), kind) {
            return true;
        }
        i = i + 1;
    }
    false
}

/// Whether a probe of the first audio stream found one: its report, trimmed,
/// reads `audio`; a probe that could not run counts as finding one, so that
/// no audio is dropped by mistake.
pub open spec fn audio_reported(report: Option<Seq<char>>) -> bool {
    match report {
        Some(r) => trim(r) == "audio"@,
        None => true,
    }
}

/// Whether a probe of the first audio stream found one.
pub fn has_audio_report(report: Option<&str>) -> (r: bool)
    ensures
        r == audio_reported(match report { Some(s) => Some(s@), None => None }),
{
    match report {
        Some(s) => same_text(trim_text(s).as_str(), "audio"),
        None => true,
    }
}

// ----- splitting video and audio -----

/// The container of the video half for an encoder.
pub open spec fn split_video_ext(codec: Seq<char>) -> Seq<char> {
    if codec == "libvpx"@ || codec == "libvpx-vp9"@ {
        "webm"@
    } else if codec == "prores"@ {
        "mov"@
    } else if codec == "mkv"@ {
        "mkv"@
    } else {
        "mp4"@
    }
}

/// The encoder and container of the video half: x264 in MP4 for `auto`,
/// a copy in MP4 for `copy` or without settings, else the chosen encoder
/// in its container.
pub open spec fn split_video_choice(v: Option<VideoSettings>) -> (Seq<char>, Seq<char>) {
    match v {
        None => ("copy"@, "mp4"@),
        Some(v) => if v.codec@ == "auto"@ {
            ("libx264"@, "mp4"@)
        } else if v.codec@ == "copy"@ {
            ("copy"@, "mp4"@)
        } else {
            (v.codec@, split_video_ext(v.codec@))
        },
    }
}

/// The container of the audio half for an encoder.
pub open spec fn split_audio_ext(codec: Seq<char>) -> Seq<char> {
    if codec == "mp3"@ || codec == "libmp3lame"@ {
        "mp3"@
    } else if codec == "aac"@ || codec == "libfdk_aac"@ {
        "m4a"@
    } else if codec == "flac"@ {
        "flac"@
    } else if codec == "vorbis"@ || codec == "libvorbis"@ {
        "ogg"@
    } else if codec == "opus"@ || codec == "libopus"@ {
        "opus"@
    } else {
        "wav"@
    }
}

/// The encoder and container of the audio half: 16-bit PCM in WAV for
/// `auto`, a copy in WAV for `copy` or without settings, else the chosen
/// encoder in its container.
pub open spec fn split_audio_choice(a: Option<AudioSettings>) -> (Seq<char>, Seq<char>) {
    match a {
        None => ("copy"@, "wav"@),
        Some(a) => if a.codec@ == "auto"@ {
            ("pcm_s16le"@, "wav"@)
        } else if a.codec@ == "copy"@ {
            ("copy"@, "wav"@)
        } else {
            (a.codec@, split_audio_ext(a.codec@))
        },
    }
}

/// A quality in `1..=max` as text.
pub open spec fn in_range(q: i32, max: i32) -> bool {
    0 < q <= max
}

/// The video quality of the split: CRF (the CRF, else the quality, else 23)
/// and a preset for x264/x265; CRF up to 63 or a bitrate for VP8/VP9; a
/// bitrate for others.
pub open spec fn split_video_quality(v: VideoSettings, codec: Seq<char>) -> Seq<Seq<char>> {
    if codec == "libx264"@ || codec == "libx265"@ {
        let crf = if in_range(v.crf, 51) {
            decimal(v.crf as nat)
        } else if in_range(v.quality, 51) {
            decimal(v.quality as nat)
        } else {
            "23"@
        };
        seq!["-crf"@, crf] + flag_if_set("-preset"@, v.preset@)
    } else if codec == "libvpx"@ || codec == "libvpx-vp9"@ {
        if in_range(v.crf, 63) {
            seq!["-crf"@, decimal(v.crf as nat)]
        } else {
            flag_if_set("-b:v"@, v.bitrate@)
        }
    } else {
        flag_if_set("-b:v"@, v.bitrate@)
    }
}

/// A set bitrate, else the default parts.
pub open spec fn bitrate_or(a: AudioSettings, default: Seq<Seq<char>>) -> Seq<Seq<char>> {
    if is_set(a.bitrate@) { seq!["-b:a"@, a.bitrate@] } else { default }
}

/// The audio quality of the split by encoder, then the sample rate and
/// channels when set.
pub open spec fn split_audio_quality(a: AudioSettings, codec: Seq<char>) -> Seq<Seq<char>> {
    let rate = if codec == "libmp3lame"@ || codec == "mp3"@ {
        bitrate_or(a, seq!["-q:a"@, "2"@])
    } else if codec == "aac"@ || codec == "libfdk_aac"@ || codec == "libopus"@ || codec == "opus"@ {
        bitrate_or(a, seq!["-b:a"@, "128k"@])
    } else if codec == "flac"@ {
        seq!["-compression_level"@, "5"@]
    } else if codec == "libvorbis"@ || codec == "vorbis"@ {
        bitrate_or(a, seq!["-q:a"@, "5"@])
    } else if codec == "pcm_s16le"@ || codec == "pcm_s24le"@ || codec == "pcm_s32le"@ {
        Seq::empty()
    } else {
        flag_if_set("-b:a"@, a.bitrate@)
    };
    rate + flag_if_set("-ar"@, a.sample_rate@) + flag_if_set("-ac"@, a.channels@)
}

/// Where a half of the split goes: `stem_kind.ext` in the output directory.
pub open spec fn split_output(t: ProcessingTask, kind: Seq<char>, ext: Seq<char>) -> Seq<char> {
    join_path(t.output_file@, stem_or(first_input(t), "output"@) + "_"@ + kind + "."@ + ext)
}

/// The arguments that write the video half, without sound.
pub open spec fn split_video_args(t: ProcessingTask) -> Seq<Seq<char>> {
    let (codec, ext) = split_video_choice(t.video_settings);
    let encode = if codec == "copy"@ || codec == "mkv"@ {
        seq!["-c:v"@, "copy"@]
    } else {
        seq!["-c:v"@, codec] + match t.video_settings {
            Some(v) => split_video_quality(v, codec),
            None => Seq::empty(),
        }
    };
    run_head(first_input(t)) + seq!["-an"@] + encode + seq![split_output(t, "video"@, ext)]
}

/// The arguments that write the audio half, without picture.
pub open spec fn split_audio_args(t: ProcessingTask) -> Seq<Seq<char>> {
    let (codec, ext) = split_audio_choice(t.audio_settings);
    let encode = if codec == "copy"@ {
        seq!["-c:a"@, "copy"@]
    } else {
        seq!["-c:a"@, codec] + match t.audio_settings {
            Some(a) => split_audio_quality(a, codec),
            None => Seq::empty(),
        }
    };
    run_head(first_input(t)) + seq!["-vn"@] + encode + seq![split_output(t, "audio"@, ext)]
}

/// The container of the video half.
pub fn split_video_container(codec: &str) -> (r: &'static str)
    ensures
        r@ == split_video_ext(codec@),
{
    if same_text(codec, "libvpx") || same_text(codec, "libvpx-vp9") {
        "webm"
    } else if same_text(codec, "prores") {
        "mov"
    } else if same_text(codec, "mkv") {
        "mkv"
    } else {
        "mp4"
    }
}

/// The encoder and container of the video half.
pub fn split_video_encoder(v: &Option<VideoSettings>) -> (r: (String, String))
    ensures
        (r.0@, r.1@) == split_video_choice(*v),
{
    match v {
        None => (owned("copy"), owned("mp4")),
        Some(v) => if same_text(v.codec.as_str(), "auto") {
            (owned("libx264"), owned("mp4"))
        } else if same_text(v.codec.as_str(), "copy") {
            (owned("copy"), owned("mp4"))
        } else {
            (v.codec.clone(), owned(split_video_container(v.codec.as_str())))
        },
    }
}

/// The container of the audio half.
pub fn split_audio_container(codec: &str) -> (r: &'static str)
    ensures
        r@ == split_audio_ext(codec@),
{
    if same_text(codec, "mp3") || same_text(codec, "libmp3lame") {
        "mp3"
    } else if same_text(codec, "aac") || same_text(codec, "libfdk_aac") {
        "m4a"
    } else if same_text(codec, "flac") {
        "flac"
    } else if same_text(codec, "vorbis") || same_text(codec, "libvorbis") {
        "ogg"
    } else if same_text(codec, "opus") || same_text(codec, "libopus") {
        "opus"
    } else {
        "wav"
    }
}

/// The encoder and container of the audio half.
pub fn split_audio_encoder(a: &Option<AudioSettings>) -> (r: (String, String))
    ensures
        (r.0@, r.1@) == split_audio_choice(*a),
{
    match a {
        None => (owned("copy"), owned("wav")),
        Some(a) => if same_text(a.codec.as_str(), "auto") {
            (owned("pcm_s16le"), owned("wav"))
        } else if same_text(a.codec.as_str(), "copy") {
            (owned("copy"), owned("wav"))
        } else {
            (a.codec.clone(), owned(split_audio_container(a.codec.as_str())))
        },
    }
}

/// The video quality parts of the split.
pub fn push_split_video_quality(p: &mut Vec<String>, v: &VideoSettings, codec: &str)
    ensures
        views(final(p)@) == views(old(p)@) + split_video_quality(*v, codec@),
{
    if same_text(codec, "libx264") || same_text(codec, "libx265") {
        let crf = if 0 < v.crf && v.crf <= 51 {
            decimal_text(v.crf as u64)
        } else if 0 < v.quality && v.quality <= 51 {
            decimal_text(v.quality as u64)
        } else {
            owned("23")
        };
        push_pair(p, "-crf", crf.as_str());
        push_flag_if_set(p, "-preset", v.preset.as_str());
    } else if same_text(codec, "libvpx") || same_text(codec, "libvpx-vp9") {
        if 0 < v.crf && v.crf <= 63 {
            push_pair(p, "-crf", decimal_text(v.crf as u64).as_str());
        } else {
            push_flag_if_set(p, "-b:v", v.bitrate.as_str());
        }
    } else {
        push_flag_if_set(p, "-b:v", v.bitrate.as_str());
    }
    assert(views(p@) =~= views(old(p)@) + split_video_quality(*v, codec@));
}

/// Adds a set bitrate, else the default pair.
fn push_bitrate_or(p: &mut Vec<String>, a: &AudioSettings, flag: &str, value: &str)
    ensures
        views(final(p)@) == views(old(p)@) + bitrate_or(*a, seq![flag@, value@]),
{
    if set_value(a.bitrate.as_str()) {
        push_pair(p, "-b:a", a.bitrate.as_str());
    } else {
        push_pair(p, flag, value);
    }
}

/// The audio quality parts of the split.
pub fn push_split_audio_quality(p: &mut Vec<String>, a: &AudioSettings, codec: &str)
    ensures
        views(final(p)@) == views(old(p)@) + split_audio_quality(*a, codec@),
{
    let ghost start = views(p@);
    if same_text(codec, "libmp3lame") || same_text(codec, "mp3") {
        push_bitrate_or(p, a, "-q:a", "2");
    } else if same_text(codec, "aac") || same_text(codec, "libfdk_aac") || same_text(codec, "libopus")
        || same_text(codec, "opus") {
        push_bitrate_or(p, a, "-b:a", "128k");
    } else if same_text(codec, "flac") {
        push_pair(p, "-compression_level", "5");
    } else if same_text(codec, "libvorbis") || same_text(codec, "vorbis") {
        push_bitrate_or(p, a, "-q:a", "5");
    } else if same_text(codec, "pcm_s16le") || same_text(codec, "pcm_s24le") || same_text(codec, "pcm_s32le") {
    } else {
        push_flag_if_set(p, "-b:a", a.bitrate.as_str());
    }
    let ghost mid = views(p@);
    push_flag_if_set(p, "-ar", a.sample_rate.as_str());
    push_flag_if_set(p, "-ac", a.channels.as_str());
    assert(views(p@) =~= start + split_audio_quality(*a, codec@));
}

/// Where a half of the split goes.
fn split_output_path(t: &ProcessingTask, kind: &str, ext: &str) -> (r: String)
    requires
        t.input_files@.len() > 0,
    ensures
        r@ == split_output(*t, kind@, ext@),
{
    let stem = stem_or_default(t.input_files[0].as_str(), "output");
    let a = cat3(stem.as_str(), "_", kind);
    let name = cat3(a.as_str(), ".", ext);
    path_join(t.output_file.as_str(), name.as_str())
}

/// The two runs that split a file into its picture and its sound, in that
/// order. The output is taken as the directory both go to.
pub fn video_audio_split_args(t: &ProcessingTask) -> (r: Result<(Vec<String>, Vec<String>), TaskError>)
    ensures
        t.input_files@.len() == 0 <==> r is Err,
        r matches Err(e) ==> e.kind == ErrorKind::NoInputFiles && e.detail@ == Seq::<char>::empty(),
        r matches Ok(p) ==> views(p.0@) == split_video_args(*t) && views(p.1@) == split_audio_args(*t),
{
    if t.input_files.len() == 0 {
        return Err(TaskError::plain(ErrorKind::NoInputFiles));
    }
    let input = t.input_files[0].as_str();
    let (vcodec, vext) = split_video_encoder(&t.video_settings);
    let mut video = run_head_parts(input);
    push_text(&mut video, "-an");
    let ghost vstart = views(video@);
    if same_text(vcodec.as_str(), "copy") || same_text(vcodec.as_str(), "mkv") {
        push_pair(&mut video, "-c:v", "copy");
    } else {
        push_pair(&mut video, "-c:v", vcodec.as_str());
        match &t.video_settings {
            Some(v) => push_split_video_quality(&mut video, v, vcodec.as_str()),
            None => {},
        }
    }
    push_string(&mut video, split_output_path(t, "video", vext.as_str()));
    assert(views(video@) =~= split_video_args(*t));

    let (acodec, aext) = split_audio_encoder(&t.audio_settings);
    let mut audio = run_head_parts(input);
    push_text(&mut audio, "-vn");
    if same_text(acodec.as_str(), "copy") {
        push_pair(&mut audio, "-c:a", "copy");
    } else {
        push_pair(&mut audio, "-c:a", acodec.as_str());
        match &t.audio_settings {
            Some(a) => push_split_audio_quality(&mut audio, a, acodec.as_str()),
            None => {},
        }
    }
    push_string(&mut audio, split_output_path(t, "audio", aext.as_str()));
    assert(views(audio@) =~= split_audio_args(*t));
    Ok((video, audio))
}

// ----- merging and extracting -----

/// Which inputs of a merge hold a video and an audio stream, as a probe found.
#[derive(Clone, Copy, Debug)]
pub struct StreamPresence {
    pub first_video: bool,
    pub first_audio: bool,
    pub second_video: bool,
    pub second_audio: bool,
}

/// Audio parameters of a merge: the set bitrate or 128k, then the sample
/// rate and channels when set.
pub open spec fn merge_audio_params(a: Option<AudioSettings>) -> Seq<Seq<char>> {
    match a {
        Some(a) => bitrate_or(a, seq!["-b:a"@, "128k"@]) + flag_if_set("-ar"@, a.sample_rate@)
            + flag_if_set("-ac"@, a.channels@),
        None => Seq::empty(),
    }
}

/// The arguments of a video/audio merge: the picture copied from the first
/// input that has one, the sound from the second input that has one.
pub open spec fn video_audio_merge_plan(c: CodecCatalog, t: ProcessingTask, s: StreamPresence) -> Planned {
    if t.input_files@.len() < 2 {
        stop(ErrorKind::NeedTwoForVideoAudioMerge)
    } else if !s.first_video && !s.second_video {
        stop(ErrorKind::NoVideoStream)
    } else if !s.second_audio && !s.first_audio {
        stop(ErrorKind::NoAudioStream)
    } else {
        Ok(seq!["-i"@, t.input_files@[0]@, "-i"@, t.input_files@[1]@, "-y"@, "-v"@, "error"@,
            "-hide_banner"@, "-nostats"@, "-nostdin"@, "-c:v"@, "copy"@, "-c:a"@, merge_audio_codec(c, t)]
            + merge_audio_params(t.audio_settings)
            + seq!["-map"@, if s.first_video { "0:v"@ } else { "1:v"@ }]
            + seq!["-map"@, if s.second_audio { "1:a"@ } else { "0:a"@ }]
            + seq![t.output_file@])
    }
}

/// The arguments of a video/audio merge, given which streams the inputs hold.
pub fn video_audio_merge_args(c: &CodecCatalog, t: &ProcessingTask, s: StreamPresence) -> (r: Result<Vec<String>, TaskError>)
    ensures
        planned(r, video_audio_merge_plan(*c, *t, s)),
{
    if t.input_files.len() < 2 {
        return stopped(ErrorKind::NeedTwoForVideoAudioMerge);
    }
    if !s.first_video && !s.second_video {
        return stopped(ErrorKind::NoVideoStream);
    }
    if !s.second_audio && !s.first_audio {
        return stopped(ErrorKind::NoAudioStream);
    }
    let codec = merge_audio_encoder(c, t);
    let mut p: Vec<String> = Vec::new();
    push_pair(&mut p, "-i", t.input_files[0].as_str());
    push_pair(&mut p, "-i", t.input_files[1].as_str());
    push_text(&mut p, "-y");
    push_pair(&mut p, "-v", "error");
    push_text(&mut p, "-hide_banner");
    push_text(&mut p, "-nostats");
    push_text(&mut p, "-nostdin");
    push_pair(&mut p, "-c:v", "copy");
    push_pair(&mut p, "-c:a", codec.as_str());
    let ghost start = views(p@);
    assert(start =~= seq!["-i"@, t.input_files@[0]@, "-i"@, t.input_files@[1]@, "-y"@, "-v"@, "error"@,
        "-hide_banner"@, "-nostats"@, "-nostdin"@, "-c:v"@, "copy"@, "-c:a"@, merge_audio_codec(*c, *t)]);
    match &t.audio_settings {
        Some(a) => {
            push_bitrate_or(&mut p, a, "-b:a", "128k");
            push_flag_if_set(&mut p, "-ar", a.sample_rate.as_str());
            push_flag_if_set(&mut p, "-ac", a.channels.as_str());
        },
        None => {},
    }
    assert(views(p@) =~= start + merge_audio_params(t.audio_settings));
    push_pair(&mut p, "-map", if s.first_video { "0:v" } else { "1:v" });
    push_pair(&mut p, "-map", if s.second_audio { "1:a" } else { "0:a" });
    push_text(&mut p, t.output_file.as_str());
    assert(views(p@) =~= start + merge_audio_params(t.audio_settings)
        + seq!["-map"@, if s.first_video { "0:v"@ } else { "1:v"@ }]
        + seq!["-map"@, if s.second_audio { "1:a"@ } else { "0:a"@ }] + seq![t.output_file@]);
    Ok(p)
}

/// Audio parameters of an extraction: MP3 always gets a bitrate (128k
/// unless set), FLAC none, other formats a set one; then the sample rate and
/// channels when set.
pub open spec fn extract_audio_params(a: AudioSettings, ext: Seq<char>) -> Seq<Seq<char>> {
    let rate = if ext == "mp3"@ {
        bitrate_or(a, seq!["-b:a"@, "128k"@])
    } else if ext == "flac"@ {
        Seq::empty()
    } else {
        flag_if_set("-b:a"@, a.bitrate@)
    };
    rate + flag_if_set("-ar"@, a.sample_rate@) + flag_if_set("-ac"@, a.channels@)
}

/// The encoder of an audio extraction with its parameters, or a copy.
pub open spec fn extract_audio_encoding(c: CodecCatalog, t: ProcessingTask) -> Seq<Seq<char>> {
    let codec = extract_audio_codec(c, t);
    if codec == "copy"@ {
        seq!["-c:a"@, "copy"@]
    } else {
        seq!["-c:a"@, codec] + match t.audio_settings {
            Some(a) => extract_audio_params(a, task_ext(t)),
            None => Seq::empty(),
        }
    }
}

/// The arguments of an audio extraction.
pub open spec fn extract_audio_plan(c: CodecCatalog, t: ProcessingTask) -> Planned {
    if t.input_files@.len() == 0 {
        stop(ErrorKind::NoInputFiles)
    } else {
        Ok(run_head(first_input(t)) + seq!["-vn"@] + extract_audio_encoding(c, t) + seq![t.output_file@])
    }
}

/// Video parameters of an extraction: the quality, then the size and frame
/// rate when set.
pub open spec fn extract_video_params(v: VideoSettings, codec: Seq<char>) -> Seq<Seq<char>> {
    video_quality_parts(v, codec)
        + (if v.resolution.0 > 0 && v.resolution.1 > 0 {
            seq!["-s"@, dimensions(v.resolution.0, v.resolution.1)]
        } else {
            Seq::empty()
        })
        + (if v.fps@ != "auto"@ { seq!["-r"@, v.fps@] } else { Seq::empty() })
}

/// The encoder of a video extraction with its parameters, or a copy.
pub open spec fn extract_video_encoding(c: CodecCatalog, t: ProcessingTask) -> Seq<Seq<char>> {
    let codec = extract_video_codec(c, t);
    if codec == "copy"@ {
        seq!["-c:v"@, "copy"@]
    } else {
        seq!["-c:v"@, codec] + match t.video_settings {
            Some(v) => extract_video_params(v, codec),
            None => Seq::empty(),
        }
    }
}

/// The arguments of a video extraction.
pub open spec fn extract_video_plan(c: CodecCatalog, t: ProcessingTask) -> Planned {
    if t.input_files@.len() == 0 {
        stop(ErrorKind::NoInputFiles)
    } else {
        Ok(run_head(first_input(t)) + seq!["-an"@] + extract_video_encoding(c, t) + seq![t.output_file@])
    }
}

/// The arguments of an audio extraction.
pub fn extract_audio_args(c: &CodecCatalog, t: &ProcessingTask) -> (r: Result<Vec<String>, TaskError>)
    ensures
        planned(r, extract_audio_plan(*c, *t)),
{
    if t.input_files.len() == 0 {
        return stopped(ErrorKind::NoInputFiles);
    }
    let codec = extract_audio_encoder(c, t);
    let ext = path_extension_lower(t.output_file.as_str());
    let mut p = run_head_parts(t.input_files[0].as_str());
    push_text(&mut p, "-vn");
    let ghost start = views(p@);
    if same_text(codec.as_str(), "copy") {
        push_pair(&mut p, "-c:a", "copy");
    } else {
        push_pair(&mut p, "-c:a", codec.as_str());
        match &t.audio_settings {
            Some(a) => {
                let ghost mid = views(p@);
                if same_text(ext.as_str(), "mp3") {
                    push_bitrate_or(&mut p, a, "-b:a", "128k");
                } else if !same_text(ext.as_str(), "flac") {
                    push_flag_if_set(&mut p, "-b:a", a.bitrate.as_str());
                }
                push_flag_if_set(&mut p, "-ar", a.sample_rate.as_str());
                push_flag_if_set(&mut p, "-ac", a.channels.as_str());
                assert(views(p@) =~= mid + extract_audio_params(*a, task_ext(*t)));
            },
            None => {},
        }
    }
    assert(views(p@) =~= start + extract_audio_encoding(*c, *t));
    push_text(&mut p, t.output_file.as_str());
    assert(views(p@) =~= run_head(first_input(*t)) + seq!["-vn"@] + extract_audio_encoding(*c, *t)
        + seq![t.output_file@]);
    Ok(p)
}

/// The arguments of a video extraction.
pub fn extract_video_args(c: &CodecCatalog, t: &ProcessingTask) -> (r: Result<Vec<String>, TaskError>)
    ensures
        planned(r, extract_video_plan(*c, *t)),
{
    if t.input_files.len() == 0 {
        return stopped(ErrorKind::NoInputFiles);
    }
    let codec = extract_video_encoder(c, t);
    let mut p = run_head_parts(t.input_files[0].as_str());
    push_text(&mut p, "-an");
    let ghost start = views(p@);
    if same_text(codec.as_str(), "copy") {
        push_pair(&mut p, "-c:v", "copy");
    } else {
        push_pair(&mut p, "-c:v", codec.as_str());
        match &t.video_settings {
            Some(v) => {
                let ghost mid = views(p@);
                push_video_quality(&mut p, v, codec.as_str());
                if v.resolution.0 > 0 && v.resolution.1 > 0 {
                    push_pair(&mut p, "-s", dimensions_text(v.resolution.0, v.resolution.1).as_str());
                }
                if !same_text(v.fps.as_str(), "auto") {
                    push_pair(&mut p, "-r", v.fps.as_str());
                }
                assert(views(p@) =~= mid + extract_video_params(*v, codec@));
            },
            None => {},
        }
    }
    assert(views(p@) =~= start + extract_video_encoding(*c, *t));
    push_text(&mut p, t.output_file.as_str());
    assert(views(p@) =~= run_head(first_input(*t)) + seq!["-an"@] + extract_video_encoding(*c, *t)
        + seq![t.output_file@]);
    Ok(p)
}

// ----- crop, rotate, filter -----

/// The end shared by crop, rotate and filter runs: the encoder, the sound
/// copied, a CRF for x264/x265 when a quality is set, and the output with
/// the encoder's extension.
pub open spec fn edit_end(v: VideoSettings, codec: Seq<char>, out: Seq<char>) -> Seq<Seq<char>> {
    seq!["-c:v"@, codec, "-c:a"@, "copy"@]
        + (if in_range(v.quality, 51) && is_x26x(codec) { seq!["-crf"@, decimal(v.quality as nat)] } else { Seq::empty() })
        + seq![normalized_output(out, codec, "auto"@, false)]
}

/// A `-filter:v` of the chain, when the chain is not empty.
pub open spec fn chain_parts(chain: Seq<Seq<char>>) -> Seq<Seq<char>> {
    if chain.len() > 0 { seq!["-filter:v"@, join(chain, ","@)] } else { Seq::empty() }
}

/// The colour adjustments of a filter run, each when away from neutral.
pub open spec fn colour_adjustments(v: VideoSettings) -> Seq<Seq<char>> {
    (if !v.brightness.neutral { seq!["brightness="@ + v.brightness.text@] } else { Seq::empty() })
        + (if !v.contrast.neutral { seq!["contrast="@ + v.contrast.text@] } else { Seq::empty() })
        + (if !v.saturation.neutral { seq!["saturation="@ + v.saturation.text@] } else { Seq::empty() })
}

/// The filter chain of a filter run: denoise, deinterlace, stabilise, the
/// colour adjustments in one `eq`, then the custom filters.
pub open spec fn filter_chain(v: VideoSettings) -> Seq<Seq<char>> {
    let eq = colour_adjustments(v);
    (if v.denoise { seq!["hqdn3d=4:3:6:4.5"@] } else { Seq::empty() })
        + (if v.deinterlace { seq!["yadif=1"@] } else { Seq::empty() })
        + (if v.stabilize { seq!["vidstabdetect=stepsize=6:shakiness=8:accuracy=9"@] } else { Seq::empty() })
        + (if eq.len() > 0 { seq!["eq="@ + join(eq, ":"@)] } else { Seq::empty() })
        + (if v.custom_args@.len() > 0 { seq![v.custom_args@] } else { Seq::empty() })
}

/// Which editing operation a run is.
#[derive(Clone, Copy, Debug, PartialEq, Eq, Structural)]
pub enum Edit {
    Crop,
    Rotate,
    Filter,
}

/// The filter parts of an editing operation.
pub open spec fn edit_filter_parts(e: Edit, v: VideoSettings) -> Seq<Seq<char>> {
    match e {
        Edit::Crop => seq!["-filter:v"@, crop_filter(v)],
        Edit::Rotate => chain_parts(rotation_filters(v)),
        Edit::Filter => chain_parts(filter_chain(v)),
    }
}

/// The arguments of a crop, rotation or filter run.
pub open spec fn edit_plan(c: CodecCatalog, t: ProcessingTask, e: Edit) -> Planned {
    if t.input_files@.len() == 0 {
        stop(ErrorKind::NoInputFiles)
    } else {
        match t.video_settings {
            None => stop(ErrorKind::NoVideoSettings),
            Some(v) => {
                let codec = edit_video_codec(c, v, task_ext(t));
                Ok(run_head(first_input(t)) + edit_filter_parts(e, v) + edit_end(v, codec, t.output_file@))
            },
        }
    }
}

/// The colour adjustments of a filter run.
pub fn colour_adjustment_list(v: &VideoSettings) -> (r: Vec<String>)
    ensures
        views(r@) == colour_adjustments(*v),
{
    let mut r: Vec<String> = Vec::new();
    if !v.brightness.neutral {
        push_string(&mut r, cat("brightness=", v.brightness.text.as_str()));
    }
    if !v.contrast.neutral {
        push_string(&mut r, cat("contrast=", v.contrast.text.as_str()));
    }
    if !v.saturation.neutral {
        push_string(&mut r, cat("saturation=", v.saturation.text.as_str()));
    }
    assert(views(r@) =~= colour_adjustments(*v));
    r
}

/// The filter chain of a filter run.
pub fn filter_chain_list(v: &VideoSettings) -> (r: Vec<String>)
    ensures
        views(r@) == filter_chain(*v),
{
    let mut r: Vec<String> = Vec::new();
    if v.denoise {
        push_text(&mut r, "hqdn3d=4:3:6:4.5");
    }
    if v.deinterlace {
        push_text(&mut r, "yadif=1");
    }
    if v.stabilize {
        push_text(&mut r, "vidstabdetect=stepsize=6:shakiness=8:accuracy=9");
    }
    let eq = colour_adjustment_list(v);
    if eq.len() > 0 {
        push_string(&mut r, cat("eq=", join_strings(&eq, ":").as_str()));
    }
    if v.custom_args.as_str().unicode_len() > 0 {
        push_text(&mut r, v.custom_args.as_str());
    }
    assert(views(r@) =~= filter_chain(*v));
    r
}

/// Adds a `-filter:v` of the chain when it is not empty.
fn push_chain(p: &mut Vec<String>, chain: &Vec<String>)
    ensures
        views(final(p)@) == views(old(p)@) + chain_parts(views(chain@)),
{
    if chain.len() > 0 {
        push_pair(p, "-filter:v", join_strings(chain, ",").as_str());
    } else {
        assert(views(p@) =~= views(old(p)@) + chain_parts(views(chain@)));
    }
}

/// The arguments of a crop, rotation or filter run.
pub fn edit_args(c: &CodecCatalog, t: &ProcessingTask, e: Edit) -> (r: Result<Vec<String>, TaskError>)
    ensures
        planned(r, edit_plan(*c, *t, e)),
{
    if t.input_files.len() == 0 {
        return stopped(ErrorKind::NoInputFiles);
    }
    let v = match &t.video_settings {
        Some(v) => v,
        None => return stopped(ErrorKind::NoVideoSettings),
    };
    let ext = path_extension_lower(t.output_file.as_str());
    let codec = edit_video_encoder(c, v, ext.as_str());
    let mut p = run_head_parts(t.input_files[0].as_str());
    match e {
        Edit::Crop => push_pair(&mut p, "-filter:v", crop_filter_text(v).as_str()),
        Edit::Rotate => push_chain(&mut p, &rotation_filter_list(v)),
        Edit::Filter => push_chain(&mut p, &filter_chain_list(v)),
    }
    let ghost mid = views(p@);
    push_pair(&mut p, "-c:v", codec.as_str());
    push_pair(&mut p, "-c:a", "copy");
    if 0 < v.quality && v.quality <= 51 && x26x(codec.as_str()) {
        push_pair(&mut p, "-crf", decimal_text(v.quality as u64).as_str());
    }
    push_string(&mut p, normalize_output_path_with_container(t.output_file.as_str(), codec.as_str(), "auto", false));
    assert(views(p@) =~= mid + edit_end(*v, codec@, t.output_file@));
    Ok(p)
}

// ----- audio trim and merge -----

/// The arguments of an audio trim.
pub open spec fn audio_trim_plan(c: CodecCatalog, t: ProcessingTask) -> Planned {
    if t.input_files@.len() == 0 {
        stop(ErrorKind::NoInputFiles)
    } else {
        match t.audio_settings {
            None => stop(ErrorKind::NoAudioSettings),
            Some(a) => {
                let codec = edit_audio_codec(c, a, task_ext(t));
                Ok(run_head(first_input(t)) + trim_parts(a.custom_args@) + seq!["-c:a"@, codec]
                    + flag_if_set("-b:a"@, a.bitrate@) + flag_if_set("-ar"@, a.sample_rate@)
                    + seq![normalized_output(t.output_file@, codec, "auto"@, true)])
            },
        }
    }
}

/// The arguments of an audio merge: every input concatenated in order.
pub open spec fn audio_merge_plan(c: CodecCatalog, t: ProcessingTask) -> Planned {
    if t.input_files@.len() < 2 {
        stop(ErrorKind::NeedTwoForAudioMerge)
    } else {
        match t.audio_settings {
            None => stop(ErrorKind::NoAudioSettings),
            Some(a) => {
                let codec = edit_audio_codec(c, a, task_ext(t));
                Ok(input_flags(t.input_files@, false) + seq!["-y"@, "-v"@, "error"@, "-hide_banner"@,
                    "-nostats"@, "-nostdin"@, "-filter_complex"@, concat_filter(t.input_files@.len()),
                    "-map"@, "[out]"@, "-c:a"@, codec] + flag_if_set("-b:a"@, a.bitrate@)
                    + flag_if_set("-ar"@, a.sample_rate@)
                    + seq![normalized_output(t.output_file@, codec, "auto"@, true)])
            },
        }
    }
}

/// The arguments of an audio trim.
pub fn audio_trim_args(c: &CodecCatalog, t: &ProcessingTask) -> (r: Result<Vec<String>, TaskError>)
    ensures
        planned(r, audio_trim_plan(*c, *t)),
{
    if t.input_files.len() == 0 {
        return stopped(ErrorKind::NoInputFiles);
    }
    let a = match &t.audio_settings {
        Some(a) => a,
        None => return stopped(ErrorKind::NoAudioSettings),
    };
    let ext = path_extension_lower(t.output_file.as_str());
    let codec = edit_audio_encoder(c, a, ext.as_str());
    let mut p = run_head_parts(t.input_files[0].as_str());
    push_all(&mut p, trim_range(a.custom_args.as_str()));
    push_pair(&mut p, "-c:a", codec.as_str());
    push_flag_if_set(&mut p, "-b:a", a.bitrate.as_str());
    push_flag_if_set(&mut p, "-ar", a.sample_rate.as_str());
    push_string(&mut p, normalize_output_path_with_container(t.output_file.as_str(), codec.as_str(), "auto", true));
    assert(views(p@) =~= run_head(first_input(*t)) + trim_parts(a.custom_args@) + seq!["-c:a"@, codec@]
        + flag_if_set("-b:a"@, a.bitrate@) + flag_if_set("-ar"@, a.sample_rate@)
        + seq![normalized_output(t.output_file@, codec@, "auto"@, true)]);
    Ok(p)
}

/// The arguments of an audio merge.
pub fn audio_merge_args(c: &CodecCatalog, t: &ProcessingTask) -> (r: Result<Vec<String>, TaskError>)
    ensures
        planned(r, audio_merge_plan(*c, *t)),
{
    if t.input_files.len() < 2 {
        return stopped(ErrorKind::NeedTwoForAudioMerge);
    }
    let a = match &t.audio_settings {
        Some(a) => a,
        None => return stopped(ErrorKind::NoAudioSettings),
    };
    let ext = path_extension_lower(t.output_file.as_str());
    let codec = edit_audio_encoder(c, a, ext.as_str());
    let mut p: Vec<String> = Vec::new();
    push_inputs(&mut p, &t.input_files, false);
    push_text(&mut p, "-y");
    push_pair(&mut p, "-v", "error");
    push_text(&mut p, "-hide_banner");
    push_text(&mut p, "-nostats");
    push_text(&mut p, "-nostdin");
    push_pair(&mut p, "-filter_complex", concat_filter_text(t.input_files.len()).as_str());
    push_pair(&mut p, "-map", "[out]");
    push_pair(&mut p, "-c:a", codec.as_str());
    push_flag_if_set(&mut p, "-b:a", a.bitrate.as_str());
    push_flag_if_set(&mut p, "-ar", a.sample_rate.as_str());
    push_string(&mut p, normalize_output_path_with_container(t.output_file.as_str(), codec.as_str(), "auto", true));
    assert(views(p@) =~= input_flags(t.input_files@, false) + seq!["-y"@, "-v"@, "error"@, "-hide_banner"@,
        "-nostats"@, "-nostdin"@, "-filter_complex"@, concat_filter(t.input_files@.len()),
        "-map"@, "[out]"@, "-c:a"@, codec@] + flag_if_set("-b:a"@, a.bitrate@)
        + flag_if_set("-ar"@, a.sample_rate@)
        + seq![normalized_output(t.output_file@, codec@, "auto"@, true)]);
    Ok(p)
}

// ----- batch conversion -----

/// The operation each file of a batch goes through; conversion for kinds it
/// does not know.
pub open spec fn batch_operation(kind: Seq<char>) -> OperationType {
    if kind == "compress"@ {
        OperationType::VideoCompress
    } else if kind == "resize"@ {
        OperationType::VideoResize
    } else if kind == "rotate"@ {
        OperationType::VideoRotate
    } else if kind == "crop"@ {
        OperationType::VideoCrop
    } else if kind == "filter"@ {
        OperationType::VideoFilter
    } else {
        OperationType::VideoConvert
    }
}

/// The extension of a batch's outputs: the output's, else the chosen
/// container, in lower case.
pub open spec fn batch_extension(out: Seq<char>, v: VideoSettings) -> Seq<char> {
    lowercase(
        match extension(out) {
            Some(e) => e,
            None => v.container_format@,
        },
    )
}

/// A batch output's name: the pattern with `{name}`, `{index}` (from one)
/// and `{date}` filled in, in that order.
pub open spec fn batch_name(pattern: Seq<char>, stem: Seq<char>, index: nat, date: Seq<char>) -> Seq<char> {
    replace_all(replace_all(replace_all(pattern, "{name}"@, stem), "{index}"@, decimal(index + 1)), "{date}"@, date)
}

/// Where the `index`-th (from zero) file of a batch goes.
pub open spec fn batch_target(t: ProcessingTask, v: VideoSettings, index: int, date: Seq<char>) -> Seq<char> {
    beside(
        t.output_file@,
        batch_name(v.batch_naming_pattern@, stem_or(t.input_files@[index]@, "output"@), index as nat, date)
            + "."@ + batch_extension(t.output_file@, v),
    )
}

/// `s` is the task that runs the `index`-th file of the batch `t`, whose
/// video settings are `v`, with `date` as the time stamp.
pub open spec fn is_batch_step(s: ProcessingTask, t: ProcessingTask, v: VideoSettings, index: int, date: Seq<char>) -> bool {
    &&& s.id == t.id + index * 1000
    &&& s.operation == batch_operation(v.batch_operation_type@)
    &&& views(s.input_files@) == seq![t.input_files@[index]@]
    &&& s.output_file@ == batch_target(t, v, index, date)
    &&& (s.video_settings matches Some(sv) && same_video(sv, v))
    &&& same_audio_choice(s.audio_settings, t.audio_settings)
    &&& s.status == TaskStatus::Running
    &&& s.error_message is None
}

/// The operation each file of a batch goes through.
pub fn batch_operation_of(kind: &str) -> (r: OperationType)
    ensures
        r == batch_operation(kind@),
{
    if same_text(kind, "compress") {
        OperationType::VideoCompress
    } else if same_text(kind, "resize") {
        OperationType::VideoResize
    } else if same_text(kind, "rotate") {
        OperationType::VideoRotate
    } else if same_text(kind, "crop") {
        OperationType::VideoCrop
    } else if same_text(kind, "filter") {
        OperationType::VideoFilter
    } else {
        OperationType::VideoConvert
    }
}

/// A batch output's name.
pub fn batch_name_text(pattern: &str, stem: &str, index: usize, date: &str) -> (r: String)
    requires
        index < usize::MAX,
    ensures
        r@ == batch_name(pattern@, stem@, index as nat, date@),
{
    proof {
        reveal_strlit("{name}");
        reveal_strlit("{index}");
        reveal_strlit("{date}");
    }
    let a = replace_text(pattern, "{name}", stem);
    let b = replace_text(a.as_str(), "{index}", decimal_text((index + 1) as u64).as_str());
    replace_text(b.as_str(), "{date}", date)
}

/// The task that runs the `index`-th (from zero) file of a batch, stamped
/// with `date` (the caller's clock, in seconds).
pub fn batch_step(t: &ProcessingTask, index: usize, date: &str) -> (r: Result<ProcessingTask, TaskError>)
    requires
        index < t.input_files@.len(),
        t.id + index * 1000 <= usize::MAX,
    ensures
        t.video_settings is None <==> r is Err,
        r matches Err(e) ==> e.kind == ErrorKind::NoVideoSettings && e.detail@ == Seq::<char>::empty(),
        r matches Ok(s) ==> is_batch_step(s, *t, t.video_settings->0, index as int, date@),
{
    let v = match &t.video_settings {
        Some(v) => v,
        None => return Err(TaskError::plain(ErrorKind::NoVideoSettings)),
    };
    let ext = match path_extension(t.output_file.as_str()) {
        Some(e) => to_lower(e.as_str()),
        None => to_lower(v.container_format.as_str()),
    };
    let input = t.input_files[index].as_str();
    let stem = stem_or_default(input, "output");
    let name = batch_name_text(v.batch_naming_pattern.as_str(), stem.as_str(), index, date);
    let file = cat3(name.as_str(), ".", ext.as_str());
    let mut inputs: Vec<String> = Vec::new();
    push_text(&mut inputs, input);
    assert(views(inputs@) =~= seq![t.input_files@[index as int]@]);
    Ok(ProcessingTask {
        id: t.id + index * 1000,
        operation: batch_operation_of(v.batch_operation_type.as_str()),
        input_files: inputs,
        output_file: place_beside(t.output_file.as_str(), file.as_str()),
        video_settings: Some(v.duplicate()),
        audio_settings: duplicate_audio_choice(&t.audio_settings),
        status: TaskStatus::Running,
        error_message: None,
    })
}

// ----- subtitles and watermarks -----

/// Extensions of subtitle files.
pub open spec fn is_subtitle_ext(e: Seq<char>) -> bool {
    e == "srt"@ || e == "ass"@ || e == "vtt"@ || e == "sub"@
}

/// Why subtitles cannot be added, given whether the video and subtitle files
/// exist; none when they can.
pub open spec fn subtitle_refusal(t: ProcessingTask, video_exists: bool, subtitle_exists: bool) -> Option<(ErrorKind, Seq<char>)> {
    if t.input_files@.len() == 0 {
        Some((ErrorKind::NoVideoFile, Seq::empty()))
    } else {
        match t.video_settings {
            None => Some((ErrorKind::NoVideoSettings, Seq::empty())),
            Some(v) => if v.subtitle_file@.len() == 0 {
                Some((ErrorKind::NoSubtitleFile, Seq::empty()))
            } else if !video_exists {
                Some((ErrorKind::VideoNotFound, first_input(t)))
            } else if !subtitle_exists {
                Some((ErrorKind::SubtitleNotFound, v.subtitle_file@))
            } else if is_subtitle_ext(extension_lower(first_input(t))) {
                Some((ErrorKind::SubtitleGivenAsVideo, Seq::empty()))
            } else {
                None
            },
        }
    }
}

/// The output written as Matroska in place of MP4.
pub open spec fn as_mkv(out: Seq<char>) -> Seq<char> {
    replace_all(out, ".mp4"@, ".mkv"@)
}

/// The SRT file a WebVTT file is converted to.
pub open spec fn temporary_srt(sub: Seq<char>) -> Seq<char> {
    replace_all(sub, ".vtt"@, "_temp.srt"@)
}

/// For MP4 output with SRT, ASS or WebVTT subtitles: soft subtitles and ASS
/// go to Matroska instead, WebVTT is burnt in from a temporary SRT
/// conversion, SRT is burnt in as it is (and goes to Matroska in a mode that
/// is neither hard nor soft). The subtitle file used, whether it is that
/// temporary conversion, and the output written.
pub open spec fn subtitle_route(v: VideoSettings, out: Seq<char>) -> (Seq<char>, bool, Seq<char>) {
    let sub = v.subtitle_file@;
    let se = extension_lower(sub);
    let mode = v.subtitle_mode@;
    if extension_lower(out) == "mp4"@ && (se == "vtt"@ || se == "ass"@ || se == "srt"@) {
        if mode == "soft"@ {
            (sub, false, as_mkv(out))
        } else if se == "vtt"@ {
            (temporary_srt(sub), true, out)
        } else if se == "ass"@ {
            (sub, false, as_mkv(out))
        } else if mode == "hard"@ {
            (sub, false, out)
        } else {
            (sub, false, as_mkv(out))
        }
    } else {
        (sub, false, out)
    }
}

/// A path written for the `subtitles` filter: `\` doubled, `:` escaped.
pub open spec fn filter_escaped(p: Seq<char>) -> Seq<char> {
    replace_all(replace_all(p, "\\"@, "\\\\"@), ":"@, "\\:"@)
}

/// The arguments that add subtitles: burnt in and re-encoded in hard mode,
/// else muxed as a stream of their own with everything copied.
pub open spec fn subtitle_args(c: CodecCatalog, t: ProcessingTask, v: VideoSettings) -> Seq<Seq<char>> {
    let route = subtitle_route(v, t.output_file@);
    let mode = v.subtitle_mode@;
    seq!["-i"@, first_input(t)]
        + (if mode == "soft"@ { seq!["-i"@, route.0] } else { Seq::empty() })
        + seq!["-y"@, "-v"@, "error"@, "-hide_banner"@, "-nostats"@, "-nostdin"@]
        + (if mode == "hard"@ {
            seq!["-vf"@, "subtitles='"@ + filter_escaped(route.0) + "'"@, "-c:a"@, "copy"@, "-c:v"@,
                best_video(c, task_ext(t))]
        } else {
            seq!["-c:v"@, "copy"@, "-c:a"@, "copy"@, "-c:s"@, "copy"@, "-map"@, "0"@, "-map"@, "1"@]
        })
        + seq![route.2]
}

/// How subtitles are added: the run that converts the subtitles first when
/// one is needed, the temporary file to remove afterwards, and the main run.
#[derive(Debug)]
pub struct SubtitlePlan {
    pub conversion: Option<Vec<String>>,
    pub temporary: Option<String>,
    pub args: Vec<String>,
}

/// A plan adds the task's subtitles: its main run, and the conversion and
/// temporary file exactly when WebVTT is converted first.
pub open spec fn subtitle_plan_fits(p: SubtitlePlan, c: CodecCatalog, t: ProcessingTask) -> bool {
    let v = t.video_settings->0;
    let route = subtitle_route(v, t.output_file@);
    &&& views(p.args@) == subtitle_args(c, t, v)
    &&& (p.conversion is Some <==> route.1)
    &&& (p.conversion matches Some(cv) ==> views(cv@) == run_head(v.subtitle_file@) + seq![route.0])
    &&& (p.temporary is Some <==> route.1)
    &&& (p.temporary matches Some(f) ==> f@ == route.0)
}

/// The output written as Matroska in place of MP4.
fn as_mkv_text(out: &str) -> (r: String)
    ensures
        r@ == as_mkv(out@),
{
    proof {
        reveal_strlit(".mp4");
    }
    replace_text(out, ".mp4", ".mkv")
}

/// The subtitle file used, whether it is a temporary conversion, and the output.
pub fn subtitle_route_of(v: &VideoSettings, out: &str) -> (r: (String, bool, String))
    ensures
        (r.0@, r.1, r.2@) == subtitle_route(*v, out@),
{
    let sub = v.subtitle_file.as_str();
    let se = path_extension_lower(sub);
    let oe = path_extension_lower(out);
    let mode = v.subtitle_mode.as_str();
    let s = se.as_str();
    if same_text(oe.as_str(), "mp4") && (same_text(s, "vtt") || same_text(s, "ass") || same_text(s, "srt")) {
        if same_text(mode, "soft") {
            (owned(sub), false, as_mkv_text(out))
        } else if same_text(s, "vtt") {
            proof {
                reveal_strlit(".vtt");
            }
            (replace_text(sub, ".vtt", "_temp.srt"), true, owned(out))
        } else if same_text(s, "ass") {
            (owned(sub), false, as_mkv_text(out))
        } else if same_text(mode, "hard") {
            (owned(sub), false, owned(out))
        } else {
            (owned(sub), false, as_mkv_text(out))
        }
    } else {
        (owned(sub), false, owned(out))
    }
}

/// A path written for the `subtitles` filter.
pub fn filter_escaped_text(p: &str) -> (r: String)
    ensures
        r@ == filter_escaped(p@),
{
    proof {
        reveal_strlit("\\");
        reveal_strlit(":");
    }
    let a = replace_text(p, "\\", "\\\\");
    replace_text(a.as_str(), ":", "\\:")
}

/// How to add subtitles to a task's video, given whether the video and the
/// subtitle file exist.
pub fn add_subtitle_plan(c: &CodecCatalog, t: &ProcessingTask, video_exists: bool, subtitle_exists: bool) -> (r: Result<SubtitlePlan, TaskError>)
    ensures
        match subtitle_refusal(*t, video_exists, subtitle_exists) {
            Some((k, d)) => r matches Err(e) && e.kind == k && e.detail@ == d,
            None => r matches Ok(p) && subtitle_plan_fits(p, *c, *t),
        },
{
    if t.input_files.len() == 0 {
        return Err(TaskError::plain(ErrorKind::NoVideoFile));
    }
    let v = match &t.video_settings {
        Some(v) => v,
        None => return Err(TaskError::plain(ErrorKind::NoVideoSettings)),
    };
    let video = t.input_files[0].as_str();
    if is_blank(v.subtitle_file.as_str()) {
        return Err(TaskError::plain(ErrorKind::NoSubtitleFile));
    }
    if !video_exists {
        return Err(TaskError::about(ErrorKind::VideoNotFound, video));
    }
    if !subtitle_exists {
        return Err(TaskError::about(ErrorKind::SubtitleNotFound, v.subtitle_file.as_str()));
    }
    let ve = path_extension_lower(video);
    let e = ve.as_str();
    if same_text(e, "srt") || same_text(e, "ass") || same_text(e, "vtt") || same_text(e, "sub") {
        return Err(TaskError::plain(ErrorKind::SubtitleGivenAsVideo));
    }
    let (sub, temporary, target) = subtitle_route_of(v, t.output_file.as_str());
    let conversion = if temporary {
        let mut cv = run_head_parts(v.subtitle_file.as_str());
        push_text(&mut cv, sub.as_str());
        Some(cv)
    } else {
        None
    };
    let mode = v.subtitle_mode.as_str();
    let mut p: Vec<String> = Vec::new();
    push_pair(&mut p, "-i", video);
    if same_text(mode, "soft") {
        push_pair(&mut p, "-i", sub.as_str());
    }
    push_text(&mut p, "-y");
    push_pair(&mut p, "-v", "error");
    push_text(&mut p, "-hide_banner");
    push_text(&mut p, "-nostats");
    push_text(&mut p, "-nostdin");
    if same_text(mode, "hard") {
        let escaped = filter_escaped_text(sub.as_str());
        push_string(&mut p, owned("-vf"));
        push_string(&mut p, cat3("subtitles='", escaped.as_str(), "'"));
        push_pair(&mut p, "-c:a", "copy");
        let ext = path_extension_lower(t.output_file.as_str());
        push_pair(&mut p, "-c:v", c.best_video_codec(ext.as_str()).as_str());
    } else {
        push_pair(&mut p, "-c:v", "copy");
        push_pair(&mut p, "-c:a", "copy");
        push_pair(&mut p, "-c:s", "copy");
        push_pair(&mut p, "-map", "0");
        push_pair(&mut p, "-map", "1");
    }
    push_string(&mut p, target);
    assert(views(p@) =~= subtitle_args(*c, *t, *v));
    let ghost sub_view = sub@;
    let temporary_file = if temporary { Some(sub) } else { None };
    let plan = SubtitlePlan { conversion, temporary: temporary_file, args: p };
    proof {
        if temporary {
            assert(views(plan.conversion->0@) =~= run_head(v.subtitle_file@) + seq![sub_view]);
        }
    }
    assert(subtitle_plan_fits(plan, *c, *t));
    Ok(plan)
}

/// The arguments that overlay a watermark, given whether its file exists.
pub open spec fn watermark_plan(c: CodecCatalog, t: ProcessingTask, watermark_exists: bool) -> Planned {
    if t.input_files@.len() == 0 {
        stop(ErrorKind::NoInputVideo)
    } else {
        match t.video_settings {
            None => stop(ErrorKind::NoVideoSettings),
            Some(v) => if v.watermark_file@.len() == 0 {
                stop(ErrorKind::NoWatermarkFile)
            } else if !watermark_exists {
                Err((ErrorKind::WatermarkNotFound, v.watermark_file@))
            } else {
                Ok(seq!["-i"@, first_input(t), "-i"@, v.watermark_file@, "-y"@, "-v"@, "error"@,
                    "-hide_banner"@, "-nostats"@, "-nostdin"@, "-filter_complex"@, watermark_filter(v),
                    "-c:a"@, "copy"@, "-c:v"@, best_video(c, task_ext(t)), t.output_file@])
            },
        }
    }
}

/// The arguments that overlay a watermark.
pub fn add_watermark_args(c: &CodecCatalog, t: &ProcessingTask, watermark_exists: bool) -> (r: Result<Vec<String>, TaskError>)
    ensures
        planned(r, watermark_plan(*c, *t, watermark_exists)),
{
    if t.input_files.len() == 0 {
        return stopped(ErrorKind::NoInputVideo);
    }
    let v = match &t.video_settings {
        Some(v) => v,
        None => return stopped(ErrorKind::NoVideoSettings),
    };
    if is_blank(v.watermark_file.as_str()) {
        return stopped(ErrorKind::NoWatermarkFile);
    }
    if !watermark_exists {
        return Err(TaskError::about(ErrorKind::WatermarkNotFound, v.watermark_file.as_str()));
    }
    let mut p: Vec<String> = Vec::new();
    push_pair(&mut p, "-i", t.input_files[0].as_str());
    push_pair(&mut p, "-i", v.watermark_file.as_str());
    push_text(&mut p, "-y");
    push_pair(&mut p, "-v", "error");
    push_text(&mut p, "-hide_banner");
    push_text(&mut p, "-nostats");
    push_text(&mut p, "-nostdin");
    push_pair(&mut p, "-filter_complex", watermark_filter_text(v).as_str());
    push_pair(&mut p, "-c:a", "copy");
    let ext = path_extension_lower(t.output_file.as_str());
    push_pair(&mut p, "-c:v", c.best_video_codec(ext.as_str()).as_str());
    push_text(&mut p, t.output_file.as_str());
    assert(views(p@) =~= seq!["-i"@, first_input(*t), "-i"@, v.watermark_file@, "-y"@, "-v"@, "error"@,
        "-hide_banner"@, "-nostats"@, "-nostdin"@, "-filter_complex"@, watermark_filter(*v),
        "-c:a"@, "copy"@, "-c:v"@, best_video(*c, task_ext(*t)), t.output_file@]);
    Ok(p)
}

// ----- frames and GIFs -----

/// The arguments of a frame extraction.
pub open spec fn frame_extract_plan(t: ProcessingTask) -> Planned {
    if t.input_files@.len() == 0 {
        stop(ErrorKind::NoInputFiles)
    } else {
        match t.video_settings {
            None => stop(ErrorKind::NoVideoSettings),
            Some(v) => Ok(run_head(first_input(t)) + frame_mode_parts(v, false) + frame_quality_parts(v)
                + seq![frame_pattern(t.output_file@, v.frame_format@)]),
        }
    }
}

/// The directory frames go to, which must exist before the run: none when
/// the output is a pattern of its own; else the output's directory, `.`
/// when it has none.
pub open spec fn frame_directory(out: Seq<char>) -> Option<Seq<char>> {
    if contains(out, "%"@) {
        None
    } else {
        match parent(out) {
            Some(d) => Some(d),
            None => Some("."@),
        }
    }
}

/// The arguments of a frame extraction.
pub fn frame_extract_args(t: &ProcessingTask) -> (r: Result<Vec<String>, TaskError>)
    requires
        t.output_file@.len() < usize::MAX,
    ensures
        planned(r, frame_extract_plan(*t)),
{
    if t.input_files.len() == 0 {
        return stopped(ErrorKind::NoInputFiles);
    }
    let v = match &t.video_settings {
        Some(v) => v,
        None => return stopped(ErrorKind::NoVideoSettings),
    };
    let mut p = run_head_parts(t.input_files[0].as_str());
    push_all(&mut p, frame_mode(v, false));
    push_all(&mut p, frame_quality(v));
    push_string(&mut p, frame_pattern_text(t.output_file.as_str(), v.frame_format.as_str()));
    assert(views(p@) =~= run_head(first_input(*t)) + frame_mode_parts(*v, false) + frame_quality_parts(*v)
        + seq![frame_pattern(t.output_file@, v.frame_format@)]);
    Ok(p)
}

/// The directory frames go to.
pub fn frame_directory_of(out: &str) -> (r: Option<String>)
    requires
        out@.len() < usize::MAX,
    ensures
        r matches Some(d) ==> frame_directory(out@) == Some(d@),
        r is None ==> frame_directory(out@) is None,
{
    if has(out, "%") {
        None
    } else {
        match path_parent(out) {
            Some(d) => Some(d),
            None => Some(owned(".")),
        }
    }
}

/// The arguments of a GIF conversion.
pub open spec fn video_to_gif_plan(t: ProcessingTask) -> Planned {
    if t.input_files@.len() == 0 {
        stop(ErrorKind::NoInputVideo)
    } else {
        match t.video_settings {
            None => stop(ErrorKind::NoVideoSettings),
            Some(v) => Ok(run_head(first_input(t))
                + gif_filter_parts(gif_chain(v), v.gif_optimize, v.gif_colors, dither_mode(v.gif_dither@), false)
                + (if v.gif_loop { seq!["-loop"@, "0"@] } else { Seq::empty() }) + seq![t.output_file@]),
        }
    }
}

/// The arguments of a GIF resize.
pub open spec fn gif_resize_plan(t: ProcessingTask) -> Planned {
    if t.input_files@.len() == 0 {
        stop(ErrorKind::NoInputGif)
    } else {
        match t.video_settings {
            None => stop(ErrorKind::NoVideoSettings),
            Some(v) => Ok(run_head(first_input(t))
                + gif_filter_parts(gif_resize_chain(v), v.gif_optimize, v.gif_colors, "floyd_steinberg"@, false)
                + seq![t.output_file@]),
        }
    }
}

/// The arguments of a GIF conversion.
pub fn video_to_gif_args(t: &ProcessingTask) -> (r: Result<Vec<String>, TaskError>)
    ensures
        planned(r, video_to_gif_plan(*t)),
{
    if t.input_files.len() == 0 {
        return stopped(ErrorKind::NoInputVideo);
    }
    let v = match &t.video_settings {
        Some(v) => v,
        None => return stopped(ErrorKind::NoVideoSettings),
    };
    let mut p = run_head_parts(t.input_files[0].as_str());
    let chain = gif_chain_list(v);
    push_all(&mut p, gif_filters(&chain, v.gif_optimize, v.gif_colors, dither_text(v.gif_dither.as_str()), false));
    let ghost mid = views(p@);
    if v.gif_loop {
        push_pair(&mut p, "-loop", "0");
    }
    push_text(&mut p, t.output_file.as_str());
    assert(views(p@) =~= mid + (if v.gif_loop { seq!["-loop"@, "0"@] } else { Seq::empty() }) + seq![t.output_file@]);
    Ok(p)
}

/// The arguments of a GIF resize.
pub fn gif_resize_args(t: &ProcessingTask) -> (r: Result<Vec<String>, TaskError>)
    ensures
        planned(r, gif_resize_plan(*t)),
{
    if t.input_files.len() == 0 {
        return stopped(ErrorKind::NoInputGif);
    }
    let v = match &t.video_settings {
        Some(v) => v,
        None => return stopped(ErrorKind::NoVideoSettings),
    };
    let mut p = run_head_parts(t.input_files[0].as_str());
    let chain = gif_resize_list(v);
    push_all(&mut p, gif_filters(&chain, v.gif_optimize, v.gif_colors, "floyd_steinberg", false));
    push_text(&mut p, t.output_file.as_str());
    assert(views(p@) =~= run_head(first_input(*t))
        + gif_filter_parts(gif_resize_chain(*v), v.gif_optimize, v.gif_colors, "floyd_steinberg"@, false)
        + seq![t.output_file@]);
    Ok(p)
}

// ----- conversions -----

/// The codec a probe of the input's first video stream found: its report
/// trimmed and in lower case, when the probe succeeded and reported one.
pub open spec fn probed_codec(report: Seq<char>, succeeded: bool) -> Option<Seq<char>> {
    let c = lowercase(trim(report));
    if succeeded && c.len() > 0 { Some(c) } else { None }
}

/// The codec a probe found.
pub fn probed_codec_of(report: &str, succeeded: bool) -> (r: Option<String>)
    ensures
        r matches Some(c) ==> probed_codec(report@, succeeded) == Some(c@),
        r is None ==> probed_codec(report@, succeeded) is None,
{
    if !succeeded {
        return None;
    }
    let c = to_lower(trim_text(report).as_str());
    if is_blank(c.as_str()) { None } else { Some(c) }
}

/// Encoders and output of a video conversion run: the chosen encoder (the
/// preferred one for `auto`) decides the output's extension with the chosen
/// container; an encoder that does not suit the final extension gives way
/// to the preferred one; the sound uses the chosen encoder, the preferred one
/// for `auto`, and is copied without audio settings.
pub open spec fn video_run_choice(c: CodecCatalog, t: ProcessingTask, v: VideoSettings) -> (Seq<char>, Seq<char>, Seq<char>) {
    let ext = task_ext(t);
    let chosen = if v.codec@ == "auto"@ { best_video(c, ext) } else { v.codec@ };
    let out = normalized_output(t.output_file@, chosen, v.container_format@, false);
    let fext = extension_lower(out);
    let vcodec = if compatible(c, chosen, fext, false) { chosen } else { best_video(c, fext) };
    let acodec = match t.audio_settings {
        Some(a) => if a.codec@ == "auto"@ { best_audio(c, fext) } else { a.codec@ },
        None => "copy"@,
    };
    (vcodec, acodec, out)
}

/// The flags that make a run report its progress on standard error.
pub open spec fn progress_flags() -> Seq<Seq<char>> {
    seq!["-v"@, "info"@, "-hide_banner"@, "-stats"@, "-nostdin"@, "-progress"@, "pipe:2"@]
}

/// The arguments of a video conversion run: decode acceleration for the
/// probed input codec, progress reporting, the input, the encoders with the
/// quality, preset, size and rate set, the custom arguments, the output.
pub open spec fn video_convert_plan(c: CodecCatalog, t: ProcessingTask, probed: Option<Seq<char>>) -> Planned {
    if t.input_files@.len() == 0 {
        stop(ErrorKind::NoInputFiles)
    } else {
        match t.video_settings {
            None => stop(ErrorKind::NoVideoSettings),
            Some(v) => {
                let (vcodec, acodec, out) = video_run_choice(c, t, v);
                Ok(hwaccel_args_checked(probed, vcodec, v.use_hardware_acceleration) + progress_flags()
                    + seq!["-i"@, first_input(t), "-y"@, "-c:v"@, vcodec] + video_quality_parts(v, vcodec)
                    + (if v.preset@ != "auto"@ && is_x26x(vcodec) { seq!["-preset"@, v.preset@] } else { Seq::empty() })
                    + (if v.resolution.0 > 0 && v.resolution.1 > 0 {
                        seq!["-s"@, dimensions(v.resolution.0, v.resolution.1)]
                    } else {
                        Seq::empty()
                    })
                    + (if v.fps@ != "auto"@ { seq!["-r"@, v.fps@] } else { Seq::empty() })
                    + seq!["-c:a"@, acodec] + words(v.custom_args@) + seq![out])
            },
        }
    }
}

/// The arguments of an audio conversion run: the input, the encoder that
/// suits the target format with its rates and channels, the volume when
/// changed, the custom arguments, the output with the format's extension.
pub open spec fn audio_convert_plan(c: CodecCatalog, t: ProcessingTask) -> Planned {
    if t.input_files@.len() == 0 {
        stop(ErrorKind::NoInputFiles)
    } else {
        match t.audio_settings {
            None => stop(ErrorKind::NoAudioSettings),
            Some(a) => {
                let out = t.output_file@;
                let f = audio_target(a, out);
                let codec = audio_convert_codec(c, a, out);
                Ok(run_head(first_input(t)) + seq!["-c:a"@, codec] + audio_rate_parts(a, f)
                    + flag_if_set("-ac"@, a.channels@)
                    + (if !a.volume.neutral { seq!["-filter:a"@, "volume="@ + a.volume.text@] } else { Seq::empty() })
                    + words(a.custom_args@) + seq![normalized_output(out, codec, f, true)])
            },
        }
    }
}

/// The encoders and output of a video conversion run.
pub fn video_run_codecs(c: &CodecCatalog, t: &ProcessingTask, v: &VideoSettings) -> (r: (String, String, String))
    ensures
        (r.0@, r.1@, r.2@) == video_run_choice(*c, *t, *v),
{
    let ext = path_extension_lower(t.output_file.as_str());
    let chosen = if same_text(v.codec.as_str(), "auto") { c.best_video_codec(ext.as_str()) } else { v.codec.clone() };
    let out = normalize_output_path_with_container(t.output_file.as_str(), chosen.as_str(), v.container_format.as_str(), false);
    let fext = path_extension_lower(out.as_str());
    let vcodec = if c.is_compatible(chosen.as_str(), fext.as_str(), false) { chosen } else { c.best_video_codec(fext.as_str()) };
    let acodec = match &t.audio_settings {
        Some(a) => if same_text(a.codec.as_str(), "auto") { c.best_audio_codec(fext.as_str()) } else { a.codec.clone() },
        None => owned("copy"),
    };
    (vcodec, acodec, out)
}

/// The arguments of a video conversion run, given the codec a probe found in
/// the input, if any.
pub fn video_convert_args(c: &CodecCatalog, t: &ProcessingTask, probed: Option<&str>) -> (r: Result<Vec<String>, TaskError>)
    requires
        t.video_settings matches Some(v) ==> v.custom_args@.len() < usize::MAX,
    ensures
        planned(r, video_convert_plan(*c, *t, match probed { Some(p) => Some(p@), None => None })),
{
    if t.input_files.len() == 0 {
        return stopped(ErrorKind::NoInputFiles);
    }
    let v = match &t.video_settings {
        Some(v) => v,
        None => return stopped(ErrorKind::NoVideoSettings),
    };
    let (vcodec, acodec, out) = video_run_codecs(c, t, v);
    let mut p = hardware_acceleration_args_checked(probed, vcodec.as_str(), v.use_hardware_acceleration);
    let ghost start = views(p@);
    push_pair(&mut p, "-v", "info");
    push_text(&mut p, "-hide_banner");
    push_text(&mut p, "-stats");
    push_text(&mut p, "-nostdin");
    push_pair(&mut p, "-progress", "pipe:2");
    push_pair(&mut p, "-i", t.input_files[0].as_str());
    push_text(&mut p, "-y");
    push_pair(&mut p, "-c:v", vcodec.as_str());
    assert(views(p@) =~= start + progress_flags() + seq!["-i"@, first_input(*t), "-y"@, "-c:v"@, vcodec@]);
    push_video_quality(&mut p, v, vcodec.as_str());
    push_pair_when(&mut p, !same_text(v.preset.as_str(), "auto") && x26x(vcodec.as_str()), "-preset", v.preset.as_str());
    let dims = dimensions_text(v.resolution.0, v.resolution.1);
    push_pair_when(&mut p, v.resolution.0 > 0 && v.resolution.1 > 0, "-s", dims.as_str());
    push_pair_when(&mut p, !same_text(v.fps.as_str(), "auto"), "-r", v.fps.as_str());
    push_pair(&mut p, "-c:a", acodec.as_str());
    push_all(&mut p, split_words(v.custom_args.as_str()));
    push_string(&mut p, out);
    assert(views(p@) =~= start + progress_flags() + seq!["-i"@, first_input(*t), "-y"@, "-c:v"@, vcodec@]
        + video_quality_parts(*v, vcodec@)
        + (if v.preset@ != "auto"@ && is_x26x(vcodec@) { seq!["-preset"@, v.preset@] } else { Seq::empty() })
        + (if v.resolution.0 > 0 && v.resolution.1 > 0 {
            seq!["-s"@, dimensions(v.resolution.0, v.resolution.1)]
        } else {
            Seq::empty()
        })
        + (if v.fps@ != "auto"@ { seq!["-r"@, v.fps@] } else { Seq::empty() })
        + seq!["-c:a"@, acodec@] + words(v.custom_args@) + seq![out@]);
    Ok(p)
}

/// The arguments of an audio conversion run.
pub fn audio_convert_args(c: &CodecCatalog, t: &ProcessingTask) -> (r: Result<Vec<String>, TaskError>)
    requires
        t.audio_settings matches Some(a) ==> a.custom_args@.len() < usize::MAX,
    ensures
        planned(r, audio_convert_plan(*c, *t)),
{
    if t.input_files.len() == 0 {
        return stopped(ErrorKind::NoInputFiles);
    }
    let a = match &t.audio_settings {
        Some(a) => a,
        None => return stopped(ErrorKind::NoAudioSettings),
    };
    let out = t.output_file.as_str();
    let f = audio_target_format(a, out);
    let codec = audio_convert_encoder(c, a, out);
    let mut p = run_head_parts(t.input_files[0].as_str());
    push_pair(&mut p, "-c:a", codec.as_str());
    push_audio_rates(&mut p, a, f.as_str());
    push_flag_if_set(&mut p, "-ac", a.channels.as_str());
    let ghost before = views(p@);
    if !a.volume.neutral {
        push_pair(&mut p, "-filter:a", cat("volume=", a.volume.text.as_str()).as_str());
    }
    assert(views(p@) =~= before
        + (if !a.volume.neutral { seq!["-filter:a"@, "volume="@ + a.volume.text@] } else { Seq::empty() }));
    let ghost mid = views(p@);
    push_all(&mut p, split_words(a.custom_args.as_str()));
    push_string(&mut p, normalize_output_path_with_container(out, codec.as_str(), f.as_str(), true));
    assert(views(p@) =~= run_head(first_input(*t)) + seq!["-c:a"@, codec@] + audio_rate_parts(*a, f@)
        + flag_if_set("-ac"@, a.channels@)
        + (if !a.volume.neutral { seq!["-filter:a"@, "volume="@ + a.volume.text@] } else { Seq::empty() })
        + words(a.custom_args@) + seq![normalized_output(out@, codec@, f@, true)]);
    Ok(p)
}

} // verus!
