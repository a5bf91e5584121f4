//! The FFmpeg command a task would run, as the text shown to the user.
use vstd::prelude::*;
use crate::text::{
    split_char, split_two, lemma_split_char_len, replace_all, replace_text, contains, has,
    views, join, quoted, decimal, words, is_set, set_value, owned, cat, cat3, quote, push_text,
    push_string, push_all, join_strings, split_words, same_text, is_blank, decimal_text,
};
use crate::paths::{extension_lower, path_extension_lower};
use crate::codecs::{
    CodecCatalog, best_video, best_audio, compatible, crf_bitrate, crf_to_bitrate_estimate,
};
use crate::naming::{normalized_output, normalize_output_path_with_container, beside, place_beside};
use crate::paths::{file_stem, parent, path_file_stem, path_parent};
use crate::settings::{
    ProcessingTask, AudioSettings, VideoSettings, ErrorKind, TaskError, OperationType,
};

verus! {

/// The spec of a command's outcome: its text, or why it cannot be built
/// together with the file that concerns.
pub type Outcome = Result<Seq<char>, (ErrorKind, Seq<char>)>;

/// A refusal concerning no file.
pub open spec fn refuse(k: ErrorKind) -> Outcome {
    Err((k, Seq::empty()))
}

/// The outcome matches what was returned.
pub open spec fn reports(r: Result<String, TaskError>, o: Outcome) -> bool {
    match r {
        Ok(s) => o == Outcome::Ok(s@),
        Err(e) => o == Outcome::Err((e.kind, e.detail@)),
    }
}

/// The parts when `b` holds, none otherwise.
pub open spec fn when(b: bool, s: Seq<Seq<char>>) -> Seq<Seq<char>> {
    if b { s } else { Seq::empty() }
}

/// The start of every preview: the program, the input and the usual flags.
pub open spec fn head(input: Seq<char>) -> Seq<Seq<char>> {
    seq!["ffmpeg"@, "-i"@, quoted(input), "-y"@, "-v"@, "info"@, "-hide_banner"@, "-nostats"@]
}

/// The lower-case extension of a task's output file.
pub open spec fn out_ext(t: ProcessingTask) -> Seq<char> {
    extension_lower(t.output_file@)
}

/// The first input file.
pub open spec fn first_input(t: ProcessingTask) -> Seq<char> {
    t.input_files@[0]@
}

/// Adds `-x value` when the value is set.
pub open spec fn flag_if_set(flag: Seq<char>, value: Seq<char>) -> Seq<Seq<char>> {
    when(is_set(value), seq![flag, value])
}

/// Preview texts are the parts joined with spaces.
pub open spec fn spaced(parts: Seq<Seq<char>>) -> Seq<char> {
    join(parts, " "@)
}

// ----- audio conversion -----

/// The format an audio conversion targets: the chosen one, else the output's extension.
pub open spec fn audio_target(a: AudioSettings, out: Seq<char>) -> Seq<char> {
    if a.format@.len() > 0 && a.format@ != "auto"@ {
        a.format@
    } else {
        extension_lower(out)
    }
}

/// The audio encoder a conversion uses: the chosen one when it suits the
/// target format, else the format's preferred one.
pub open spec fn audio_convert_codec(c: CodecCatalog, a: AudioSettings, out: Seq<char>) -> Seq<char> {
    let f = audio_target(a, out);
    let chosen = if a.codec@ == "auto"@ { best_audio(c, f) } else { a.codec@ };
    if compatible(c, chosen, f, true) { chosen } else { best_audio(c, f) }
}

/// Bitrate and sample rate: MP3 always gets both, with defaults; other
/// formats only what is set.
pub open spec fn audio_rate_parts(a: AudioSettings, f: Seq<char>) -> Seq<Seq<char>> {
    if f == "mp3"@ {
        seq![
            "-b:a"@,
            if is_set(a.bitrate@) { a.bitrate@ } else { "128k"@ },
            "-ar"@,
            if is_set(a.sample_rate@) { a.sample_rate@ } else { "44100"@ },
        ]
    } else {
        flag_if_set("-b:a"@, a.bitrate@) + flag_if_set("-ar"@, a.sample_rate@)
    }
}

/// The parts of an audio conversion preview.
pub open spec fn audio_convert_parts(c: CodecCatalog, t: ProcessingTask, a: AudioSettings) -> Seq<Seq<char>> {
    let out = t.output_file@;
    let f = audio_target(a, out);
    let codec = audio_convert_codec(c, a, out);
    head(first_input(t)) + seq!["-c:a"@, codec] + audio_rate_parts(a, f) + flag_if_set("-ac"@, a.channels@)
        + when(!a.volume.neutral, seq!["-filter:a"@, "volume="@ + a.volume.text@]) + words(a.custom_args@)
        + seq![quoted(normalized_output(out, codec, f, true))]
}

/// The outcome of previewing an audio conversion.
pub open spec fn audio_convert_outcome(c: CodecCatalog, t: ProcessingTask) -> Outcome {
    if t.input_files@.len() == 0 {
        refuse(ErrorKind::NoInputFiles)
    } else {
        match t.audio_settings {
            None => refuse(ErrorKind::NoAudioSettings),
            Some(a) => Ok(spaced(audio_convert_parts(c, t, a))),
        }
    }
}

// ----- video conversion -----

/// The video encoder a conversion uses.
pub open spec fn video_convert_codec(c: CodecCatalog, v: VideoSettings, ext: Seq<char>) -> Seq<char> {
    let chosen = if v.codec@ == "auto"@ { best_video(c, ext) } else { v.codec@ };
    if compatible(c, chosen, ext, false) { chosen } else { best_video(c, ext) }
}

/// The encoder is x264 or x265.
pub open spec fn is_x26x(codec: Seq<char>) -> bool {
    codec == "libx264"@ || codec == "libx265"@
}

/// Quality: CRF for x264/x265, a bitrate (estimated from the quality unless
/// one is set) for other encoders; without a quality, a set bitrate.
pub open spec fn video_quality_parts(v: VideoSettings, codec: Seq<char>) -> Seq<Seq<char>> {
    if 0 < v.quality <= 51 {
        if is_x26x(codec) {
            seq!["-crf"@, decimal(v.quality as nat)]
        } else {
            seq!["-b:v"@, if v.bitrate@ == "auto"@ { crf_bitrate(v.quality as int) } else { v.bitrate@ }]
        }
    } else {
        when(v.bitrate@ != "auto"@, seq!["-b:v"@, v.bitrate@])
    }
}

/// A width and height written `WxH`.
pub open spec fn dimensions(w: u32, h: u32) -> Seq<char> {
    decimal(w as nat) + "x"@ + decimal(h as nat)
}

/// The parts of a video conversion preview.
pub open spec fn video_convert_parts(c: CodecCatalog, t: ProcessingTask, v: VideoSettings) -> Seq<Seq<char>> {
    let ext = out_ext(t);
    let codec = video_convert_codec(c, v, ext);
    let acodec = match t.audio_settings {
        Some(a) => if a.codec@ == "auto"@ { best_audio(c, ext) } else { a.codec@ },
        None => "copy"@,
    };
    head(first_input(t)) + seq!["-c:v"@, codec] + video_quality_parts(v, codec)
        + when(v.preset@ != "auto"@ && is_x26x(codec), seq!["-preset"@, v.preset@])
        + when(v.resolution.0 > 0 && v.resolution.1 > 0, seq!["-s"@, dimensions(v.resolution.0, v.resolution.1)])
        + when(v.fps@ != "auto"@, seq!["-r"@, v.fps@]) + seq!["-c:a"@, acodec] + words(v.custom_args@)
        + seq![quoted(normalized_output(t.output_file@, codec, v.container_format@, false))]
}

/// The outcome of previewing a video conversion.
pub open spec fn video_convert_outcome(c: CodecCatalog, t: ProcessingTask) -> Outcome {
    if t.input_files@.len() == 0 {
        refuse(ErrorKind::NoInputFiles)
    } else {
        match t.video_settings {
            None => refuse(ErrorKind::NoVideoSettings),
            Some(v) => Ok(spaced(video_convert_parts(c, t, v))),
        }
    }
}

// ----- exec helpers -----

/// A refusal concerning no file.
pub fn refusal(kind: ErrorKind) -> (r: Result<String, TaskError>)
    ensures
        reports(r, refuse(kind)),
{
    Err(TaskError::plain(kind))
}

/// The start of every preview.
pub fn head_parts(input: &str) -> (r: Vec<String>)
    ensures
        views(r@) == head(input@),
{
    let mut r: Vec<String> = Vec::new();
    push_text(&mut r, "ffmpeg");
    push_text(&mut r, "-i");
    push_string(&mut r, quote(input));
    push_text(&mut r, "-y");
    push_text(&mut r, "-v");
    push_text(&mut r, "info");
    push_text(&mut r, "-hide_banner");
    push_text(&mut r, "-nostats");
    assert(views(r@) =~= head(input@));
    r
}

/// Adds `-x value` when the value is set.
pub fn push_flag_if_set(v: &mut Vec<String>, flag: &str, value: &str)
    ensures
        views(final(v)@) == views(old(v)@) + flag_if_set(flag@, value@),
{
    if set_value(value) {
        push_text(v, flag);
        push_text(v, value);
        assert(views(v@) =~= views(old(v)@) + flag_if_set(flag@, value@));
    } else {
        assert(views(v@) =~= views(old(v)@) + flag_if_set(flag@, value@));
    }
}

/// Adds a flag and its value.
pub fn push_pair(v: &mut Vec<String>, flag: &str, value: &str)
    ensures
        views(final(v)@) == views(old(v)@) + seq![flag@, value@],
{
    push_text(v, flag);
    push_text(v, value);
    assert(views(v@) =~= views(old(v)@) + seq![flag@, value@]);
}

/// The lower-case extension of a task's output.
fn output_extension(t: &ProcessingTask) -> (r: String)
    ensures
        r@ == out_ext(*t),
{
    path_extension_lower(t.output_file.as_str())
}

/// The format an audio conversion targets.
pub fn audio_target_format(a: &AudioSettings, out: &str) -> (r: String)
    ensures
        r@ == audio_target(*a, out@),
{
    if !is_blank(a.format.as_str()) && !same_text(a.format.as_str(), "auto") {
        a.format.clone()
    } else {
        path_extension_lower(out)
    }
}

/// The audio encoder an audio conversion uses.
pub fn audio_convert_encoder(c: &CodecCatalog, a: &AudioSettings, out: &str) -> (r: String)
    ensures
        r@ == audio_convert_codec(*c, *a, out@),
{
    let f = audio_target_format(a, out);
    let chosen = if same_text(a.codec.as_str(), "auto") {
        c.best_audio_codec(f.as_str())
    } else {
        a.codec.clone()
    };
    if c.is_compatible(chosen.as_str(), f.as_str(), true) {
        chosen
    } else {
        c.best_audio_codec(f.as_str())
    }
}

/// Bitrate and sample rate parts of an audio conversion.
pub fn push_audio_rates(v: &mut Vec<String>, a: &AudioSettings, f: &str)
    ensures
        views(final(v)@) == views(old(v)@) + audio_rate_parts(*a, f@),
{
    if same_text(f, "mp3") {
        let b: &str = if set_value(a.bitrate.as_str()) { a.bitrate.as_str() } else { "128k" };
        let s: &str = if set_value(a.sample_rate.as_str()) { a.sample_rate.as_str() } else { "44100" };
        push_pair(v, "-b:a", b);
        push_pair(v, "-ar", s);
        assert(views(v@) =~= views(old(v)@) + audio_rate_parts(*a, f@));
    } else {
        push_flag_if_set(v, "-b:a", a.bitrate.as_str());
        let ghost mid = views(v@);
        push_flag_if_set(v, "-ar", a.sample_rate.as_str());
        assert(views(v@) =~= views(old(v)@) + audio_rate_parts(*a, f@));
    }
}

/// The preview of an audio conversion.
pub fn preview_audio_convert(c: &CodecCatalog, t: &ProcessingTask) -> (r: Result<String, TaskError>)
    requires
        t.output_file@.len() < usize::MAX,
        forall|i: int| 0 <= i < t.input_files@.len() ==> t.input_files@[i]@.len() < usize::MAX,
        t.audio_settings matches Some(a) ==> a.custom_args@.len() < usize::MAX,
    ensures
        reports(r, audio_convert_outcome(*c, *t)),
{
    if t.input_files.len() == 0 {
        return refusal(ErrorKind::NoInputFiles);
    }
    let a = match &t.audio_settings {
        Some(a) => a,
        None => return refusal(ErrorKind::NoAudioSettings),
    };
    let out = t.output_file.as_str();
    let f = audio_target_format(a, out);
    let codec = audio_convert_encoder(c, a, out);
    let normalized = normalize_output_path_with_container(out, codec.as_str(), f.as_str(), true);
    let mut parts = head_parts(t.input_files[0].as_str());
    push_pair(&mut parts, "-c:a", codec.as_str());
    push_audio_rates(&mut parts, a, f.as_str());
    push_flag_if_set(&mut parts, "-ac", a.channels.as_str());
    if !a.volume.neutral {
        let vol = cat("volume=", a.volume.text.as_str());
        push_pair(&mut parts, "-filter:a", vol.as_str());
    }
    push_all(&mut parts, split_words(a.custom_args.as_str()));
    push_string(&mut parts, quote(normalized.as_str()));
    assert(views(parts@) =~= audio_convert_parts(*c, *t, *a));
    Ok(join_strings(&parts, " "))
}

/// The video encoder a video conversion uses.
pub fn video_convert_encoder(c: &CodecCatalog, v: &VideoSettings, ext: &str) -> (r: String)
    ensures
        r@ == video_convert_codec(*c, *v, ext@),
{
    let chosen = if same_text(v.codec.as_str(), "auto") {
        c.best_video_codec(ext)
    } else {
        v.codec.clone()
    };
    if c.is_compatible(chosen.as_str(), ext, false) {
        chosen
    } else {
        c.best_video_codec(ext)
    }
}

/// Whether the encoder is x264 or x265.
pub fn x26x(codec: &str) -> (r: bool)
    ensures
        r == is_x26x(codec@),
{
    same_text(codec, "libx264") || same_text(codec, "libx265")
}

/// A width and height written `WxH`.
pub fn dimensions_text(w: u32, h: u32) -> (r: String)
    ensures
        r@ == dimensions(w, h),
{
    let a = decimal_text(w as u64);
    let b = decimal_text(h as u64);
    cat3(a.as_str(), "x", b.as_str())
}

/// The quality parts of a video encoding.
pub fn push_video_quality(p: &mut Vec<String>, v: &VideoSettings, codec: &str)
    ensures
        views(final(p)@) == views(old(p)@) + video_quality_parts(*v, codec@),
{
    if 0 < v.quality && v.quality <= 51 {
        if x26x(codec) {
            let q = decimal_text(v.quality as u64);
            push_pair(p, "-crf", q.as_str());
        } else {
            let b = if same_text(v.bitrate.as_str(), "auto") {
                crf_to_bitrate_estimate(v.quality)
            } else {
                v.bitrate.clone()
            };
            push_pair(p, "-b:v", b.as_str());
        }
    } else if !same_text(v.bitrate.as_str(), "auto") {
        push_pair(p, "-b:v", v.bitrate.as_str());
    } else {
        assert(views(p@) =~= views(old(p)@) + video_quality_parts(*v, codec@));
    }
}

/// Adds the parts when `b` holds.
pub fn push_pair_when(p: &mut Vec<String>, b: bool, flag: &str, value: &str)
    ensures
        views(final(p)@) == views(old(p)@) + when(b, seq![flag@, value@]),
{
    if b {
        push_pair(p, flag, value);
    } else {
        assert(views(p@) =~= views(old(p)@) + when(b, seq![flag@, value@]));
    }
}

/// The preview of a video conversion.
pub fn preview_video_convert(c: &CodecCatalog, t: &ProcessingTask) -> (r: Result<String, TaskError>)
    requires
        t.output_file@.len() < usize::MAX,
        forall|i: int| 0 <= i < t.input_files@.len() ==> t.input_files@[i]@.len() < usize::MAX,
        t.video_settings matches Some(v) ==> v.custom_args@.len() < usize::MAX,
    ensures
        reports(r, video_convert_outcome(*c, *t)),
{
    if t.input_files.len() == 0 {
        return refusal(ErrorKind::NoInputFiles);
    }
    let v = match &t.video_settings {
        Some(v) => v,
        None => return refusal(ErrorKind::NoVideoSettings),
    };
    let out = t.output_file.as_str();
    let ext = output_extension(t);
    let codec = video_convert_encoder(c, v, ext.as_str());
    let normalized = normalize_output_path_with_container(out, codec.as_str(), v.container_format.as_str(), false);
    let acodec = match &t.audio_settings {
        Some(a) => if same_text(a.codec.as_str(), "auto") {
            c.best_audio_codec(ext.as_str())
        } else {
            a.codec.clone()
        },
        None => owned("copy"),
    };
    let mut parts = head_parts(t.input_files[0].as_str());
    push_pair(&mut parts, "-c:v", codec.as_str());
    push_video_quality(&mut parts, v, codec.as_str());
    push_pair_when(
        &mut parts,
        !same_text(v.preset.as_str(), "auto") && x26x(codec.as_str()),
        "-preset",
        v.preset.as_str(),
    );
    let dims = dimensions_text(v.resolution.0, v.resolution.1);
    push_pair_when(&mut parts, v.resolution.0 > 0 && v.resolution.1 > 0, "-s", dims.as_str());
    push_pair_when(&mut parts, !same_text(v.fps.as_str(), "auto"), "-r", v.fps.as_str());
    push_pair(&mut parts, "-c:a", acodec.as_str());
    push_all(&mut parts, split_words(v.custom_args.as_str()));
    push_string(&mut parts, quote(normalized.as_str()));
    assert(views(parts@) =~= video_convert_parts(*c, *t, *v));
    Ok(join_strings(&parts, " "))
}


// ----- merging and extracting -----

/// The audio encoder a merge uses: the chosen one, else the format's preferred one.
pub open spec fn merge_audio_codec(c: CodecCatalog, t: ProcessingTask) -> Seq<char> {
    match t.audio_settings {
        Some(a) => if a.codec@ == "auto"@ { best_audio(c, out_ext(t)) } else { a.codec@ },
        None => best_audio(c, out_ext(t)),
    }
}

/// The parts of a video/audio merge preview; the output is named as an
/// audio file of the merge's audio encoder.
pub open spec fn video_audio_merge_parts(c: CodecCatalog, t: ProcessingTask) -> Seq<Seq<char>> {
    let codec = merge_audio_codec(c, t);
    seq![
        "ffmpeg"@, "-i"@, quoted(t.input_files@[0]@), "-i"@, quoted(t.input_files@[1]@), "-y"@, "-v"@,
        "info"@, "-hide_banner"@, "-nostats"@, "-c:v"@, "copy"@, "-c:a"@, codec, "-map"@, "0:v:0"@,
        "-map"@, "1:a:0"@, quoted(normalized_output(t.output_file@, codec, "auto"@, true)),
    ]
}

/// The outcome of previewing a video/audio merge.
pub open spec fn video_audio_merge_outcome(c: CodecCatalog, t: ProcessingTask) -> Outcome {
    if t.input_files@.len() < 2 {
        refuse(ErrorKind::NeedTwoForVideoAudioMerge)
    } else {
        Ok(spaced(video_audio_merge_parts(c, t)))
    }
}

/// The audio encoder an extraction uses: the chosen one (the format's
/// preferred one for `auto`), else a stream copy.
pub open spec fn extract_audio_codec(c: CodecCatalog, t: ProcessingTask) -> Seq<char> {
    match t.audio_settings {
        Some(a) => if a.codec@ == "auto"@ { best_audio(c, out_ext(t)) } else { a.codec@ },
        None => "copy"@,
    }
}

/// The video encoder an extraction uses: the chosen one (the format's
/// preferred one for `auto`), else a stream copy.
pub open spec fn extract_video_codec(c: CodecCatalog, t: ProcessingTask) -> Seq<char> {
    match t.video_settings {
        Some(v) => if v.codec@ == "auto"@ { best_video(c, out_ext(t)) } else { v.codec@ },
        None => "copy"@,
    }
}

/// The outcome of previewing an audio extraction.
pub open spec fn extract_audio_outcome(c: CodecCatalog, t: ProcessingTask) -> Outcome {
    if t.input_files@.len() == 0 {
        refuse(ErrorKind::NoInputFiles)
    } else {
        let codec = extract_audio_codec(c, t);
        Ok(spaced(head(first_input(t)) + seq!["-vn"@, "-c:a"@, codec,
            quoted(normalized_output(t.output_file@, codec, "auto"@, true))]))
    }
}

/// The outcome of previewing a video extraction.
pub open spec fn extract_video_outcome(c: CodecCatalog, t: ProcessingTask) -> Outcome {
    if t.input_files@.len() == 0 {
        refuse(ErrorKind::NoInputFiles)
    } else {
        let codec = extract_video_codec(c, t);
        Ok(spaced(head(first_input(t)) + seq!["-an"@, "-c:v"@, codec,
            quoted(normalized_output(t.output_file@, codec, "auto"@, false))]))
    }
}

/// The audio encoder a merge uses.
pub fn merge_audio_encoder(c: &CodecCatalog, t: &ProcessingTask) -> (r: String)
    ensures
        r@ == merge_audio_codec(*c, *t),
{
    let ext = output_extension(t);
    match &t.audio_settings {
        Some(a) => if same_text(a.codec.as_str(), "auto") {
            c.best_audio_codec(ext.as_str())
        } else {
            a.codec.clone()
        },
        None => c.best_audio_codec(ext.as_str()),
    }
}

/// The audio encoder an extraction uses.
pub fn extract_audio_encoder(c: &CodecCatalog, t: &ProcessingTask) -> (r: String)
    ensures
        r@ == extract_audio_codec(*c, *t),
{
    match &t.audio_settings {
        Some(a) => if same_text(a.codec.as_str(), "auto") {
            let ext = output_extension(t);
            c.best_audio_codec(ext.as_str())
        } else {
            a.codec.clone()
        },
        None => owned("copy"),
    }
}

/// The video encoder an extraction uses.
pub fn extract_video_encoder(c: &CodecCatalog, t: &ProcessingTask) -> (r: String)
    ensures
        r@ == extract_video_codec(*c, *t),
{
    match &t.video_settings {
        Some(v) => if same_text(v.codec.as_str(), "auto") {
            let ext = output_extension(t);
            c.best_video_codec(ext.as_str())
        } else {
            v.codec.clone()
        },
        None => owned("copy"),
    }
}

/// The preview of merging a video with an audio track.
pub fn preview_video_audio_merge(c: &CodecCatalog, t: &ProcessingTask) -> (r: Result<String, TaskError>)
    ensures
        reports(r, video_audio_merge_outcome(*c, *t)),
{
    if t.input_files.len() < 2 {
        return refusal(ErrorKind::NeedTwoForVideoAudioMerge);
    }
    let codec = merge_audio_encoder(c, t);
    let normalized = normalize_output_path_with_container(t.output_file.as_str(), codec.as_str(), "auto", true);
    let mut parts: Vec<String> = Vec::new();
    push_text(&mut parts, "ffmpeg");
    push_text(&mut parts, "-i");
    push_string(&mut parts, quote(t.input_files[0].as_str()));
    push_text(&mut parts, "-i");
    push_string(&mut parts, quote(t.input_files[1].as_str()));
    push_text(&mut parts, "-y");
    push_pair(&mut parts, "-v", "info");
    push_text(&mut parts, "-hide_banner");
    push_text(&mut parts, "-nostats");
    push_pair(&mut parts, "-c:v", "copy");
    push_pair(&mut parts, "-c:a", codec.as_str());
    push_pair(&mut parts, "-map", "0:v:0");
    push_pair(&mut parts, "-map", "1:a:0");
    push_string(&mut parts, quote(normalized.as_str()));
    assert(views(parts@) =~= video_audio_merge_parts(*c, *t));
    Ok(join_strings(&parts, " "))
}

/// The preview of extracting the audio track.
pub fn preview_extract_audio(c: &CodecCatalog, t: &ProcessingTask) -> (r: Result<String, TaskError>)
    ensures
        reports(r, extract_audio_outcome(*c, *t)),
{
    if t.input_files.len() == 0 {
        return refusal(ErrorKind::NoInputFiles);
    }
    let codec = extract_audio_encoder(c, t);
    let normalized = normalize_output_path_with_container(t.output_file.as_str(), codec.as_str(), "auto", true);
    let mut parts = head_parts(t.input_files[0].as_str());
    push_text(&mut parts, "-vn");
    push_pair(&mut parts, "-c:a", codec.as_str());
    push_string(&mut parts, quote(normalized.as_str()));
    proof {
        let codec_s = extract_audio_codec(*c, *t);
        assert(views(parts@) =~= head(first_input(*t)) + seq!["-vn"@, "-c:a"@, codec_s,
            quoted(normalized_output(t.output_file@, codec_s, "auto"@, true))]);
    }
    Ok(join_strings(&parts, " "))
}

/// The preview of extracting the video track.
pub fn preview_extract_video(c: &CodecCatalog, t: &ProcessingTask) -> (r: Result<String, TaskError>)
    ensures
        reports(r, extract_video_outcome(*c, *t)),
{
    if t.input_files.len() == 0 {
        return refusal(ErrorKind::NoInputFiles);
    }
    let codec = extract_video_encoder(c, t);
    let normalized = normalize_output_path_with_container(t.output_file.as_str(), codec.as_str(), "auto", false);
    let mut parts = head_parts(t.input_files[0].as_str());
    push_text(&mut parts, "-an");
    push_pair(&mut parts, "-c:v", codec.as_str());
    push_string(&mut parts, quote(normalized.as_str()));
    proof {
        let codec_s = extract_video_codec(*c, *t);
        assert(views(parts@) =~= head(first_input(*t)) + seq!["-an"@, "-c:v"@, codec_s,
            quoted(normalized_output(t.output_file@, codec_s, "auto"@, false))]);
    }
    Ok(join_strings(&parts, " "))
}


// ----- crop, rotate, filter -----

/// The video encoder of an editing operation: the chosen one, the format's
/// preferred one for `auto`.
pub open spec fn edit_video_codec(c: CodecCatalog, v: VideoSettings, ext: Seq<char>) -> Seq<char> {
    if v.codec@ == "auto"@ { best_video(c, ext) } else { v.codec@ }
}

/// The audio encoder of an audio editing operation: the chosen one, the
/// format's preferred one for `auto`.
pub open spec fn edit_audio_codec(c: CodecCatalog, a: AudioSettings, ext: Seq<char>) -> Seq<char> {
    if a.codec@ == "auto"@ { best_audio(c, ext) } else { a.codec@ }
}

/// The crop filter: the size given as the resolution, else a centred 80% crop.
pub open spec fn crop_filter(v: VideoSettings) -> Seq<char> {
    if v.resolution.0 > 0 && v.resolution.1 > 0 {
        "crop="@ + decimal(v.resolution.0 as nat) + ":"@ + decimal(v.resolution.1 as nat)
    } else {
        "crop=iw*0.8:ih*0.8:(iw-ow)/2:(ih-oh)/2"@
    }
}

/// The end shared by crop, rotate and filter previews.
pub open spec fn edit_tail(codec: Seq<char>, out: Seq<char>) -> Seq<Seq<char>> {
    seq!["-c:v"@, codec, "-c:a"@, "copy"@, quoted(normalized_output(out, codec, "auto"@, false))]
}

/// The outcome of previewing a crop.
pub open spec fn video_crop_outcome(c: CodecCatalog, t: ProcessingTask) -> Outcome {
    if t.input_files@.len() == 0 {
        refuse(ErrorKind::NoInputFiles)
    } else {
        match t.video_settings {
            None => refuse(ErrorKind::NoVideoSettings),
            Some(v) => Ok(spaced(head(first_input(t)) + seq!["-filter:v"@, crop_filter(v)]
                + edit_tail(edit_video_codec(c, v, out_ext(t)), t.output_file@))),
        }
    }
}

/// The rotation and flip filters: a rotate filter for a custom non-zero
/// angle, transposes for quarter turns, then the flips.
pub open spec fn rotation_filters(v: VideoSettings) -> Seq<Seq<char>> {
    let turn = if v.use_custom_rotation {
        when(!v.custom_rotation.neutral, seq!["rotate="@ + v.custom_rotation.text@])
    } else if v.rotation == 90 {
        seq!["transpose=1"@]
    } else if v.rotation == 180 {
        seq!["transpose=2,transpose=2"@]
    } else if v.rotation == 270 {
        seq!["transpose=2"@]
    } else {
        Seq::empty()
    };
    let flip = if v.flip_horizontal && v.flip_vertical {
        seq!["hflip,vflip"@]
    } else if v.flip_horizontal {
        seq!["hflip"@]
    } else if v.flip_vertical {
        seq!["vflip"@]
    } else {
        Seq::empty()
    };
    turn + flip
}

/// The outcome of previewing a rotation.
pub open spec fn video_rotate_outcome(c: CodecCatalog, t: ProcessingTask) -> Outcome {
    if t.input_files@.len() == 0 {
        refuse(ErrorKind::NoInputFiles)
    } else {
        match t.video_settings {
            None => refuse(ErrorKind::NoVideoSettings),
            Some(v) => {
                let f = rotation_filters(v);
                Ok(spaced(head(first_input(t)) + when(f.len() > 0, seq!["-filter:v"@, quoted(join(f, ","@))])
                    + edit_tail(edit_video_codec(c, v, out_ext(t)), t.output_file@)))
            },
        }
    }
}

/// The filter of a filter preview: the custom arguments, else a default sharpen and colour lift.
pub open spec fn preview_filter(v: VideoSettings) -> Seq<char> {
    if v.custom_args@.len() > 0 {
        v.custom_args@
    } else {
        "unsharp=5:5:1.0:5:5:0.0,eq=contrast=1.1:brightness=0.05:saturation=1.1"@
    }
}

/// The outcome of previewing a video filter.
pub open spec fn video_filter_outcome(c: CodecCatalog, t: ProcessingTask) -> Outcome {
    if t.input_files@.len() == 0 {
        refuse(ErrorKind::NoInputFiles)
    } else {
        match t.video_settings {
            None => refuse(ErrorKind::NoVideoSettings),
            Some(v) => Ok(spaced(head(first_input(t)) + seq!["-filter:v"@, preview_filter(v)]
                + edit_tail(edit_video_codec(c, v, out_ext(t)), t.output_file@))),
        }
    }
}

/// The video encoder of an editing operation.
pub fn edit_video_encoder(c: &CodecCatalog, v: &VideoSettings, ext: &str) -> (r: String)
    ensures
        r@ == edit_video_codec(*c, *v, ext@),
{
    if same_text(v.codec.as_str(), "auto") {
        c.best_video_codec(ext)
    } else {
        v.codec.clone()
    }
}

/// The audio encoder of an audio editing operation.
pub fn edit_audio_encoder(c: &CodecCatalog, a: &AudioSettings, ext: &str) -> (r: String)
    ensures
        r@ == edit_audio_codec(*c, *a, ext@),
{
    if same_text(a.codec.as_str(), "auto") {
        c.best_audio_codec(ext)
    } else {
        a.codec.clone()
    }
}

/// The crop filter.
pub fn crop_filter_text(v: &VideoSettings) -> (r: String)
    ensures
        r@ == crop_filter(*v),
{
    if v.resolution.0 > 0 && v.resolution.1 > 0 {
        let w = decimal_text(v.resolution.0 as u64);
        let h = decimal_text(v.resolution.1 as u64);
        let a = cat3("crop=", w.as_str(), ":");
        cat(a.as_str(), h.as_str())
    } else {
        owned("crop=iw*0.8:ih*0.8:(iw-ow)/2:(ih-oh)/2")
    }
}

/// Adds the end shared by crop, rotate and filter previews.
fn push_edit_tail(p: &mut Vec<String>, codec: &str, out: &str)
    ensures
        views(final(p)@) == views(old(p)@) + edit_tail(codec@, out@),
{
    let normalized = normalize_output_path_with_container(out, codec, "auto", false);
    push_pair(p, "-c:v", codec);
    push_pair(p, "-c:a", "copy");
    push_string(p, quote(normalized.as_str()));
    assert(views(p@) =~= views(old(p)@) + edit_tail(codec@, out@));
}

/// The preview of a crop.
pub fn preview_video_crop(c: &CodecCatalog, t: &ProcessingTask) -> (r: Result<String, TaskError>)
    ensures
        reports(r, video_crop_outcome(*c, *t)),
{
    if t.input_files.len() == 0 {
        return refusal(ErrorKind::NoInputFiles);
    }
    let v = match &t.video_settings {
        Some(v) => v,
        None => return refusal(ErrorKind::NoVideoSettings),
    };
    let ext = output_extension(t);
    let codec = edit_video_encoder(c, v, ext.as_str());
    let mut parts = head_parts(t.input_files[0].as_str());
    let f = crop_filter_text(v);
    push_pair(&mut parts, "-filter:v", f.as_str());
    push_edit_tail(&mut parts, codec.as_str(), t.output_file.as_str());
    Ok(join_strings(&parts, " "))
}

/// The rotation and flip filters.
pub fn rotation_filter_list(v: &VideoSettings) -> (r: Vec<String>)
    ensures
        views(r@) == rotation_filters(*v),
{
    let mut f: Vec<String> = Vec::new();
    if v.use_custom_rotation {
        if !v.custom_rotation.neutral {
            push_string(&mut f, cat("rotate=", v.custom_rotation.text.as_str()));
        }
    } else if v.rotation == 90 {
        push_text(&mut f, "transpose=1");
    } else if v.rotation == 180 {
        push_text(&mut f, "transpose=2,transpose=2");
    } else if v.rotation == 270 {
        push_text(&mut f, "transpose=2");
    }
    let ghost turn = views(f@);
    if v.flip_horizontal && v.flip_vertical {
        push_text(&mut f, "hflip,vflip");
    } else if v.flip_horizontal {
        push_text(&mut f, "hflip");
    } else if v.flip_vertical {
        push_text(&mut f, "vflip");
    }
    assert(views(f@) =~= rotation_filters(*v));
    f
}

/// The preview of a rotation.
pub fn preview_video_rotate(c: &CodecCatalog, t: &ProcessingTask) -> (r: Result<String, TaskError>)
    ensures
        reports(r, video_rotate_outcome(*c, *t)),
{
    if t.input_files.len() == 0 {
        return refusal(ErrorKind::NoInputFiles);
    }
    let v = match &t.video_settings {
        Some(v) => v,
        None => return refusal(ErrorKind::NoVideoSettings),
    };
    let ext = output_extension(t);
    let codec = edit_video_encoder(c, v, ext.as_str());
    let filters = rotation_filter_list(v);
    let mut parts = head_parts(t.input_files[0].as_str());
    let ghost start = views(parts@);
    if filters.len() > 0 {
        let chain = join_strings(&filters, ",");
        push_pair(&mut parts, "-filter:v", quote(chain.as_str()).as_str());
    }
    assert(views(parts@) =~= start + when(rotation_filters(*v).len() > 0,
        seq!["-filter:v"@, quoted(join(rotation_filters(*v), ","@))]));
    push_edit_tail(&mut parts, codec.as_str(), t.output_file.as_str());
    Ok(join_strings(&parts, " "))
}

/// The preview of a video filter.
pub fn preview_video_filter(c: &CodecCatalog, t: &ProcessingTask) -> (r: Result<String, TaskError>)
    ensures
        reports(r, video_filter_outcome(*c, *t)),
{
    if t.input_files.len() == 0 {
        return refusal(ErrorKind::NoInputFiles);
    }
    let v = match &t.video_settings {
        Some(v) => v,
        None => return refusal(ErrorKind::NoVideoSettings),
    };
    let ext = output_extension(t);
    let codec = edit_video_encoder(c, v, ext.as_str());
    let filter: &str = if !is_blank(v.custom_args.as_str()) {
        v.custom_args.as_str()
    } else {
        "unsharp=5:5:1.0:5:5:0.0,eq=contrast=1.1:brightness=0.05:saturation=1.1"
    };
    let mut parts = head_parts(t.input_files[0].as_str());
    push_pair(&mut parts, "-filter:v", filter);
    push_edit_tail(&mut parts, codec.as_str(), t.output_file.as_str());
    Ok(join_strings(&parts, " "))
}

// ----- audio trim and merge -----

/// The range of an audio trim from its `start,duration` text: both, a
/// duration alone, or the first 30 seconds when nothing is given.
pub open spec fn trim_parts(custom: Seq<char>) -> Seq<Seq<char>> {
    if custom.len() > 0 {
        let p = split_char(custom, ',');
        if p.len() >= 2 {
            seq!["-ss"@, p[0], "-t"@, p[1]]
        } else {
            seq!["-t"@, p[0]]
        }
    } else {
        seq!["-t"@, "30"@]
    }
}

/// The outcome of previewing an audio trim.
pub open spec fn audio_trim_outcome(c: CodecCatalog, t: ProcessingTask) -> Outcome {
    if t.input_files@.len() == 0 {
        refuse(ErrorKind::NoInputFiles)
    } else {
        match t.audio_settings {
            None => refuse(ErrorKind::NoAudioSettings),
            Some(a) => {
                let codec = edit_audio_codec(c, a, out_ext(t));
                Ok(spaced(seq!["ffmpeg"@, "-i"@, quoted(first_input(t))] + trim_parts(a.custom_args@)
                    + seq!["-y"@, "-v"@, "info"@, "-hide_banner"@, "-nostats"@, "-c:a"@, codec,
                    quoted(normalized_output(t.output_file@, codec, "auto"@, true))]))
            },
        }
    }
}

/// `[0:0][1:0]...` for `n` inputs.
pub open spec fn concat_inputs(n: nat) -> Seq<char>
    decreases n,
{
    if n == 0 {
        Seq::empty()
    } else {
        concat_inputs((n - 1) as nat) + "["@ + decimal((n - 1) as nat) + ":0]"@
    }
}

/// The filter that concatenates the audio of `n` inputs.
pub open spec fn concat_filter(n: nat) -> Seq<char> {
    concat_inputs(n) + "concat=n="@ + decimal(n) + ":v=0:a=1[out]"@
}

/// `-i "file"` for each file, quoted or not.
pub open spec fn input_flags(files: Seq<String>, quote_them: bool) -> Seq<Seq<char>>
    decreases files.len(),
{
    if files.len() == 0 {
        Seq::empty()
    } else {
        input_flags(files.drop_last(), quote_them)
            + seq!["-i"@, if quote_them { quoted(files.last()@) } else { files.last()@ }]
    }
}

/// The outcome of previewing an audio merge.
pub open spec fn audio_merge_outcome(c: CodecCatalog, t: ProcessingTask) -> Outcome {
    if t.input_files@.len() < 2 {
        refuse(ErrorKind::NeedTwoForAudioMerge)
    } else {
        match t.audio_settings {
            None => refuse(ErrorKind::NoAudioSettings),
            Some(a) => {
                let codec = edit_audio_codec(c, a, out_ext(t));
                Ok(spaced(seq!["ffmpeg"@] + input_flags(t.input_files@, true)
                    + seq!["-y"@, "-v"@, "info"@, "-hide_banner"@, "-nostats"@, "-filter_complex"@,
                    concat_filter(t.input_files@.len()), "-map"@, "[out]"@, "-c:a"@, codec,
                    quoted(normalized_output(t.output_file@, codec, "auto"@, true))]))
            },
        }
    }
}

/// The range parts of an audio trim.
pub fn trim_range(custom: &str) -> (r: Vec<String>)
    ensures
        views(r@) == trim_parts(custom@),
{
    let mut r: Vec<String> = Vec::new();
    if !is_blank(custom) {
        proof {
            lemma_split_char_len(custom@, ',');
        }
        let (first, second) = split_two(custom, ',');
        match second {
            Some(s) => {
                push_pair(&mut r, "-ss", first.as_str());
                push_pair(&mut r, "-t", s.as_str());
            },
            None => {
                push_pair(&mut r, "-t", first.as_str());
            },
        }
    } else {
        push_pair(&mut r, "-t", "30");
    }
    assert(views(r@) =~= trim_parts(custom@));
    r
}

/// The preview of an audio trim.
pub fn preview_audio_trim(c: &CodecCatalog, t: &ProcessingTask) -> (r: Result<String, TaskError>)
    ensures
        reports(r, audio_trim_outcome(*c, *t)),
{
    if t.input_files.len() == 0 {
        return refusal(ErrorKind::NoInputFiles);
    }
    let a = match &t.audio_settings {
        Some(a) => a,
        None => return refusal(ErrorKind::NoAudioSettings),
    };
    let ext = output_extension(t);
    let codec = edit_audio_encoder(c, a, ext.as_str());
    let normalized = normalize_output_path_with_container(t.output_file.as_str(), codec.as_str(), "auto", true);
    let mut parts: Vec<String> = Vec::new();
    push_text(&mut parts, "ffmpeg");
    push_text(&mut parts, "-i");
    push_string(&mut parts, quote(t.input_files[0].as_str()));
    push_all(&mut parts, trim_range(a.custom_args.as_str()));
    push_text(&mut parts, "-y");
    push_pair(&mut parts, "-v", "info");
    push_text(&mut parts, "-hide_banner");
    push_text(&mut parts, "-nostats");
    push_pair(&mut parts, "-c:a", codec.as_str());
    push_string(&mut parts, quote(normalized.as_str()));
    proof {
        let codec_s = edit_audio_codec(*c, *a, out_ext(*t));
        assert(views(parts@) =~= seq!["ffmpeg"@, "-i"@, quoted(first_input(*t))] + trim_parts(a.custom_args@)
            + seq!["-y"@, "-v"@, "info"@, "-hide_banner"@, "-nostats"@, "-c:a"@, codec_s,
            quoted(normalized_output(t.output_file@, codec_s, "auto"@, true))]);
    }
    Ok(join_strings(&parts, " "))
}

/// The filter that concatenates the audio of `n` inputs.
pub fn concat_filter_text(n: usize) -> (r: String)
    ensures
        r@ == concat_filter(n as nat),
{
    let mut s = String::new();
    let mut i: usize = 0;
    while i < n
        invariant
            i <= n,
            s@ == concat_inputs(i as nat),
        decreases n - i,
    {
        let d = decimal_text(i as u64);
        s.append("[");
        s.append(d.as_str());
        s.append(":0]");
        i = i + 1;
    }
    let count = decimal_text(n as u64);
    s.append("concat=n=");
    s.append(count.as_str());
    s.append(":v=0:a=1[out]");
    s
}

/// Adds `-i file` for each file, quoted when asked.
pub fn push_inputs(p: &mut Vec<String>, files: &Vec<String>, quote_them: bool)
    ensures
        views(final(p)@) == views(old(p)@) + input_flags(files@, quote_them),
{
    let mut i: usize = 0;
    while i < files.len()
        invariant
            i <= files@.len(),
            views(p@) == views(old(p)@) + input_flags(files@.take(i as int), quote_them),
        decreases files@.len() - i,
    {
        assert(files@.take(i + 1).drop_last() =~= files@.take(i as int));
        push_text(p, "-i");
        if quote_them {
            push_string(p, quote(files[i].as_str()));
        } else {
            push_text(p, files[i].as_str());
        }
        i = i + 1;
    }
    assert(files@.take(files@.len() as int) =~= files@);
}

/// The preview of an audio merge.
pub fn preview_audio_merge(c: &CodecCatalog, t: &ProcessingTask) -> (r: Result<String, TaskError>)
    ensures
        reports(r, audio_merge_outcome(*c, *t)),
{
    if t.input_files.len() < 2 {
        return refusal(ErrorKind::NeedTwoForAudioMerge);
    }
    let a = match &t.audio_settings {
        Some(a) => a,
        None => return refusal(ErrorKind::NoAudioSettings),
    };
    let ext = output_extension(t);
    let codec = edit_audio_encoder(c, a, ext.as_str());
    let normalized = normalize_output_path_with_container(t.output_file.as_str(), codec.as_str(), "auto", true);
    let mut parts: Vec<String> = Vec::new();
    push_text(&mut parts, "ffmpeg");
    push_inputs(&mut parts, &t.input_files, true);
    push_text(&mut parts, "-y");
    push_pair(&mut parts, "-v", "info");
    push_text(&mut parts, "-hide_banner");
    push_text(&mut parts, "-nostats");
    push_pair(&mut parts, "-filter_complex", concat_filter_text(t.input_files.len()).as_str());
    push_pair(&mut parts, "-map", "[out]");
    push_pair(&mut parts, "-c:a", codec.as_str());
    push_string(&mut parts, quote(normalized.as_str()));
    proof {
        let codec_s = edit_audio_codec(*c, *a, out_ext(*t));
        assert(views(parts@) =~= seq!["ffmpeg"@] + input_flags(t.input_files@, true)
            + seq!["-y"@, "-v"@, "info"@, "-hide_banner"@, "-nostats"@, "-filter_complex"@,
            concat_filter(t.input_files@.len()), "-map"@, "[out]"@, "-c:a"@, codec_s,
            quoted(normalized_output(t.output_file@, codec_s, "auto"@, true))]);
    }
    Ok(join_strings(&parts, " "))
}


// ----- batch conversion -----

/// The stem of a path's file name, or `fallback` when it has none.
pub open spec fn stem_or(p: Seq<char>, fallback: Seq<char>) -> Seq<char> {
    match file_stem(p) {
        Some(s) => s,
        None => fallback,
    }
}

/// The output of the `index`-th (from zero) file of a batch: its stem, its
/// number from one, and the output's extension, beside the output.
pub open spec fn batch_output(out: Seq<char>, input: Seq<char>, index: nat) -> Seq<char> {
    beside(out, stem_or(input, "output"@) + "_"@ + decimal(index + 1) + "."@ + extension_lower(out))
}

/// The lines of a batch preview for the first `k` files.
pub open spec fn batch_lines(t: ProcessingTask, k: nat) -> Seq<Seq<char>>
    decreases k,
{
    if k == 0 {
        seq!["# Batch conversion will execute the following commands:"@, Seq::empty()]
    } else {
        let f = t.input_files@[k - 1]@;
        batch_lines(t, (k - 1) as nat) + seq![
            "# File "@ + decimal(k) + " of "@ + decimal(t.input_files@.len()) + ":"@,
            "ffmpeg -i "@ + quoted(f) + " -y -v info -hide_banner -nostats "@
                + quoted(batch_output(t.output_file@, f, (k - 1) as nat)),
            Seq::empty(),
        ]
    }
}

/// The outcome of previewing a batch conversion.
pub open spec fn batch_convert_outcome(t: ProcessingTask) -> Outcome {
    if t.input_files@.len() == 0 {
        refuse(ErrorKind::NoInputFiles)
    } else {
        Ok(join(batch_lines(t, t.input_files@.len()), "\n"@))
    }
}

/// The stem of a path's file name, or the fallback.
pub fn stem_or_default(p: &str, fallback: &str) -> (r: String)
    ensures
        r@ == stem_or(p@, fallback@),
{
    match path_file_stem(p) {
        Some(s) => s,
        None => owned(fallback),
    }
}

/// The output of one file of a batch.
pub fn batch_output_path(out: &str, input: &str, index: usize) -> (r: String)
    requires
        index < usize::MAX,
    ensures
        r@ == batch_output(out@, input@, index as nat),
{
    let stem = stem_or_default(input, "output");
    let number = decimal_text((index + 1) as u64);
    let ext = path_extension_lower(out);
    let a = cat3(stem.as_str(), "_", number.as_str());
    let b = cat3(a.as_str(), ".", ext.as_str());
    place_beside(out, b.as_str())
}

/// The preview of a batch conversion: one commented command per file.
pub fn preview_batch_convert(t: &ProcessingTask) -> (r: Result<String, TaskError>)
    ensures
        reports(r, batch_convert_outcome(*t)),
{
    let n = t.input_files.len();
    if n == 0 {
        return refusal(ErrorKind::NoInputFiles);
    }
    let mut lines: Vec<String> = Vec::new();
    push_text(&mut lines, "# Batch conversion will execute the following commands:");
    push_string(&mut lines, String::new());
    assert(views(lines@) =~= batch_lines(*t, 0));
    let total = decimal_text(n as u64);
    let mut i: usize = 0;
    while i < n
        invariant
            n == t.input_files@.len(),
            total@ == decimal(n as nat),
            i <= n,
            views(lines@) == batch_lines(*t, i as nat),
        decreases n - i,
    {
        let f = t.input_files[i].as_str();
        let number = decimal_text((i + 1) as u64);
        let head = cat3("# File ", number.as_str(), " of ");
        push_string(&mut lines, cat3(head.as_str(), total.as_str(), ":"));
        let target = batch_output_path(t.output_file.as_str(), f, i);
        let cmd = cat3("ffmpeg -i ", quote(f).as_str(), " -y -v info -hide_banner -nostats ");
        push_string(&mut lines, cat(cmd.as_str(), quote(target.as_str()).as_str()));
        push_string(&mut lines, String::new());
        assert(views(lines@) =~= batch_lines(*t, (i + 1) as nat));
        i = i + 1;
    }
    Ok(join_strings(&lines, "\n"))
}

// ----- subtitles and watermarks -----

/// The ASS colour code of a colour name; white for names it does not know.
pub open spec fn ass_colour(name: Seq<char>) -> Seq<char> {
    if name == "white"@ { "&Hffffff&"@ }
    else if name == "black"@ { "&H000000&"@ }
    else if name == "red"@ { "&H0000ff&"@ }
    else if name == "blue"@ { "&Hff0000&"@ }
    else if name == "green"@ { "&H00ff00&"@ }
    else if name == "yellow"@ { "&H00ffff&"@ }
    else { "&Hffffff&"@ }
}

/// The subtitle file: the second input when there is one, else the one in the settings.
pub open spec fn subtitle_source(t: ProcessingTask, v: VideoSettings) -> Seq<char> {
    if t.input_files@.len() >= 2 { t.input_files@[1]@ } else { v.subtitle_file@ }
}

/// The pieces of the burn-in filter: the subtitle file (with `/` for `\`)
/// and a style for each setting that differs from Arial, 16 and white.
pub open spec fn burn_in_pieces(path: Seq<char>, v: VideoSettings) -> Seq<Seq<char>> {
    seq!["subtitles="@ + replace_all(path, "\\"@, "/"@)]
        + when(v.subtitle_font_family@ != "Arial"@, seq!["force_style='FontName="@ + v.subtitle_font_family@ + "'"@])
        + when(v.subtitle_font_size != 16, seq!["force_style='FontSize="@ + decimal(v.subtitle_font_size as nat) + "'"@])
        + when(ass_colour(v.subtitle_font_color@) != "&Hffffff&"@,
            seq!["force_style='PrimaryColour="@ + ass_colour(v.subtitle_font_color@) + "'"@])
}

/// The outcome of previewing added subtitles.
pub open spec fn add_subtitle_outcome(c: CodecCatalog, t: ProcessingTask) -> Outcome {
    if t.input_files@.len() == 0 {
        refuse(ErrorKind::NoInputVideo)
    } else {
        match t.video_settings {
            None => refuse(ErrorKind::NoVideoSettings),
            Some(v) => if v.subtitle_file@.len() == 0 {
                refuse(ErrorKind::NoSubtitleFile)
            } else {
                let sub = subtitle_source(t, v);
                let middle = if v.subtitle_mode@ == "hard"@ {
                    seq!["-filter:v"@, join(burn_in_pieces(sub, v), ":"@)]
                } else {
                    seq!["-i"@, quoted(sub), "-c:s"@, "copy"@]
                };
                Ok(spaced(head(first_input(t)) + middle + seq!["-c:v"@, best_video(c, out_ext(t)), "-c:a"@,
                    "copy"@, quoted(t.output_file@)]))
            },
        }
    }
}

/// Where a watermark goes on the frame; top right for positions it does not know.
pub open spec fn watermark_place(p: Seq<char>) -> Seq<char> {
    if p == "top-left"@ { "10:10"@ }
    else if p == "top-right"@ { "main_w-overlay_w-10:10"@ }
    else if p == "bottom-left"@ { "10:main_h-overlay_h-10"@ }
    else if p == "bottom-right"@ { "main_w-overlay_w-10:main_h-overlay_h-10"@ }
    else if p == "center"@ { "(main_w-overlay_w)/2:(main_h-overlay_h)/2"@ }
    else { "main_w-overlay_w-10:10"@ }
}

/// The overlay filter of a watermark: scaled and faded as set.
pub open spec fn watermark_filter(v: VideoSettings) -> Seq<char> {
    let s = v.watermark_scale.text@;
    let pos = watermark_place(v.watermark_position@);
    if !v.watermark_scale.neutral || !v.watermark_opacity.neutral {
        if !v.watermark_opacity.neutral {
            "[1:v]scale=iw*"@ + s + ":ih*"@ + s + ",format=rgba,colorchannelmixer=aa="@
                + v.watermark_opacity.text@ + "[wm];[0:v][wm]overlay="@ + pos
        } else {
            "[1:v]scale=iw*"@ + s + ":ih*"@ + s + "[wm];[0:v][wm]overlay="@ + pos
        }
    } else {
        "[0:v][1:v]overlay="@ + pos
    }
}

/// The outcome of previewing a watermark, given whether its file exists.
pub open spec fn add_watermark_outcome(c: CodecCatalog, t: ProcessingTask, watermark_exists: bool) -> Outcome {
    if t.input_files@.len() == 0 {
        refuse(ErrorKind::NoInputVideo)
    } else {
        match t.video_settings {
            None => refuse(ErrorKind::NoVideoSettings),
            Some(v) => if v.watermark_file@.len() == 0 {
                refuse(ErrorKind::NoWatermarkFile)
            } else if !watermark_exists {
                Err((ErrorKind::WatermarkNotFound, v.watermark_file@))
            } else {
                Ok(spaced(seq!["ffmpeg"@, "-i"@, quoted(first_input(t)), "-i"@, quoted(v.watermark_file@),
                    "-y"@, "-v"@, "info"@, "-hide_banner"@, "-nostats"@, "-filter_complex"@,
                    quoted(watermark_filter(v)), "-c:v"@, best_video(c, out_ext(t)), "-c:a"@, "copy"@,
                    quoted(t.output_file@)]))
            },
        }
    }
}

/// The ASS colour code of a colour name.
pub fn ass_colour_code(name: &str) -> (r: &'static str)
    ensures
        r@ == ass_colour(name@),
{
    if same_text(name, "white") { "&Hffffff&" }
    else if same_text(name, "black") { "&H000000&" }
    else if same_text(name, "red") { "&H0000ff&" }
    else if same_text(name, "blue") { "&Hff0000&" }
    else if same_text(name, "green") { "&H00ff00&" }
    else if same_text(name, "yellow") { "&H00ffff&" }
    else { "&Hffffff&" }
}

/// The pieces of the burn-in filter.
pub fn burn_in_filter_pieces(path: &str, v: &VideoSettings) -> (r: Vec<String>)
    requires
        path@.len() < usize::MAX,
    ensures
        views(r@) == burn_in_pieces(path@, *v),
{
    proof {
        reveal_strlit("\\");
    }
    let mut r: Vec<String> = Vec::new();
    let escaped = replace_text(path, "\\", "/");
    push_string(&mut r, cat("subtitles=", escaped.as_str()));
    if !same_text(v.subtitle_font_family.as_str(), "Arial") {
        push_string(&mut r, cat3("force_style='FontName=", v.subtitle_font_family.as_str(), "'"));
    }
    if v.subtitle_font_size != 16 {
        let n = decimal_text(v.subtitle_font_size as u64);
        push_string(&mut r, cat3("force_style='FontSize=", n.as_str(), "'"));
    }
    let code = ass_colour_code(v.subtitle_font_color.as_str());
    if !same_text(code, "&Hffffff&") {
        push_string(&mut r, cat3("force_style='PrimaryColour=", code, "'"));
    }
    assert(views(r@) =~= burn_in_pieces(path@, *v));
    r
}

/// The preview of adding subtitles.
pub fn preview_add_subtitle(c: &CodecCatalog, t: &ProcessingTask) -> (r: Result<String, TaskError>)
    requires
        t.input_files@.len() >= 2 ==> t.input_files@[1]@.len() < usize::MAX,
        t.video_settings matches Some(v) ==> v.subtitle_file@.len() < usize::MAX,
    ensures
        reports(r, add_subtitle_outcome(*c, *t)),
{
    if t.input_files.len() == 0 {
        return refusal(ErrorKind::NoInputVideo);
    }
    let v = match &t.video_settings {
        Some(v) => v,
        None => return refusal(ErrorKind::NoVideoSettings),
    };
    if is_blank(v.subtitle_file.as_str()) {
        return refusal(ErrorKind::NoSubtitleFile);
    }
    let ext = output_extension(t);
    let codec = c.best_video_codec(ext.as_str());
    let sub: &str = if t.input_files.len() >= 2 { t.input_files[1].as_str() } else { v.subtitle_file.as_str() };
    let mut parts = head_parts(t.input_files[0].as_str());
    let ghost start = views(parts@);
    if same_text(v.subtitle_mode.as_str(), "hard") {
        let pieces = burn_in_filter_pieces(sub, v);
        push_pair(&mut parts, "-filter:v", join_strings(&pieces, ":").as_str());
    } else {
        push_text(&mut parts, "-i");
        push_string(&mut parts, quote(sub));
        push_pair(&mut parts, "-c:s", "copy");
    }
    push_pair(&mut parts, "-c:v", codec.as_str());
    push_pair(&mut parts, "-c:a", "copy");
    push_string(&mut parts, quote(t.output_file.as_str()));
    proof {
        let subs = subtitle_source(*t, *v);
        let middle = if v.subtitle_mode@ == "hard"@ {
            seq!["-filter:v"@, join(burn_in_pieces(subs, *v), ":"@)]
        } else {
            seq!["-i"@, quoted(subs), "-c:s"@, "copy"@]
        };
        assert(views(parts@) =~= head(first_input(*t)) + middle + seq!["-c:v"@, best_video(*c, out_ext(*t)),
            "-c:a"@, "copy"@, quoted(t.output_file@)]);
    }
    Ok(join_strings(&parts, " "))
}

/// Where a watermark goes on the frame.
pub fn watermark_position_text(p: &str) -> (r: &'static str)
    ensures
        r@ == watermark_place(p@),
{
    if same_text(p, "top-left") { "10:10" }
    else if same_text(p, "top-right") { "main_w-overlay_w-10:10" }
    else if same_text(p, "bottom-left") { "10:main_h-overlay_h-10" }
    else if same_text(p, "bottom-right") { "main_w-overlay_w-10:main_h-overlay_h-10" }
    else if same_text(p, "center") { "(main_w-overlay_w)/2:(main_h-overlay_h)/2" }
    else { "main_w-overlay_w-10:10" }
}

/// The overlay filter of a watermark.
pub fn watermark_filter_text(v: &VideoSettings) -> (r: String)
    ensures
        r@ == watermark_filter(*v),
{
    let s = v.watermark_scale.text.as_str();
    let pos = watermark_position_text(v.watermark_position.as_str());
    if !v.watermark_scale.neutral || !v.watermark_opacity.neutral {
        let mut r = cat3("[1:v]scale=iw*", s, ":ih*");
        r.append(s);
        if !v.watermark_opacity.neutral {
            r.append(",format=rgba,colorchannelmixer=aa=");
            r.append(v.watermark_opacity.text.as_str());
            r.append("[wm];[0:v][wm]overlay=");
        } else {
            r.append("[wm];[0:v][wm]overlay=");
        }
        r.append(pos);
        r
    } else {
        cat("[0:v][1:v]overlay=", pos)
    }
}

/// The preview of adding a watermark; `watermark_exists` says whether its file is there.
pub fn preview_add_watermark(c: &CodecCatalog, t: &ProcessingTask, watermark_exists: bool) -> (r: Result<String, TaskError>)
    ensures
        reports(r, add_watermark_outcome(*c, *t, watermark_exists)),
{
    if t.input_files.len() == 0 {
        return refusal(ErrorKind::NoInputVideo);
    }
    let v = match &t.video_settings {
        Some(v) => v,
        None => return refusal(ErrorKind::NoVideoSettings),
    };
    if is_blank(v.watermark_file.as_str()) {
        return refusal(ErrorKind::NoWatermarkFile);
    }
    if !watermark_exists {
        return Err(TaskError::about(ErrorKind::WatermarkNotFound, v.watermark_file.as_str()));
    }
    let ext = output_extension(t);
    let codec = c.best_video_codec(ext.as_str());
    let mut parts: Vec<String> = Vec::new();
    push_text(&mut parts, "ffmpeg");
    push_text(&mut parts, "-i");
    push_string(&mut parts, quote(t.input_files[0].as_str()));
    push_text(&mut parts, "-i");
    push_string(&mut parts, quote(v.watermark_file.as_str()));
    push_text(&mut parts, "-y");
    push_pair(&mut parts, "-v", "info");
    push_text(&mut parts, "-hide_banner");
    push_text(&mut parts, "-nostats");
    push_pair(&mut parts, "-filter_complex", quote(watermark_filter_text(v).as_str()).as_str());
    push_pair(&mut parts, "-c:v", codec.as_str());
    push_pair(&mut parts, "-c:a", "copy");
    push_string(&mut parts, quote(t.output_file.as_str()));
    assert(views(parts@) =~= seq!["ffmpeg"@, "-i"@, quoted(first_input(*t)), "-i"@, quoted(v.watermark_file@),
        "-y"@, "-v"@, "info"@, "-hide_banner"@, "-nostats"@, "-filter_complex"@,
        quoted(watermark_filter(*v)), "-c:v"@, best_video(*c, out_ext(*t)), "-c:a"@, "copy"@,
        quoted(t.output_file@)]);
    Ok(join_strings(&parts, " "))
}


// ----- frames and GIFs -----

/// Adds `-x value` when the value is not empty.
pub open spec fn flag_if_given(flag: Seq<char>, value: Seq<char>) -> Seq<Seq<char>> {
    when(value.len() > 0, seq![flag, value])
}

/// The filter that keeps every `n`-th frame.
pub open spec fn every_nth(n: Seq<char>) -> Seq<char> {
    "select='not(mod(n,"@ + n + "))'"@
}

/// The frames to extract: all, every n-th (30th by default), one a second
/// in a time range, or every 30th for a mode it does not know. The select
/// filter is quoted when the parts are for display.
pub open spec fn frame_mode_parts(v: VideoSettings, shown: bool) -> Seq<Seq<char>> {
    let wrap = |f: Seq<char>| if shown { quoted(f) } else { f };
    if v.frame_extract_mode@ == "all"@ {
        seq!["-vsync"@, "0"@]
    } else if v.frame_extract_mode@ == "interval"@ {
        let n = if v.frame_interval > 0 { decimal(v.frame_interval as nat) } else { "30"@ };
        seq!["-vf"@, wrap(every_nth(n)), "-vsync"@, "0"@]
    } else if v.frame_extract_mode@ == "time"@ {
        flag_if_given("-ss"@, v.frame_start_time@) + flag_if_given("-to"@, v.frame_end_time@)
            + seq!["-vf"@, "fps=1"@]
    } else {
        seq!["-vf"@, wrap(every_nth("30"@)), "-vsync"@, "0"@]
    }
}

/// Image quality by format: the JPEG quality, an RGB or BGR pixel format
/// for PNG and BMP, else quality 2.
pub open spec fn frame_quality_parts(v: VideoSettings) -> Seq<Seq<char>> {
    let f = v.frame_format@;
    if f == "jpg"@ || f == "jpeg"@ {
        seq!["-q:v"@, decimal(v.frame_quality as nat)]
    } else if f == "png"@ {
        seq!["-pix_fmt"@, "rgb24"@]
    } else if f == "bmp"@ {
        seq!["-pix_fmt"@, "bgr24"@]
    } else {
        seq!["-q:v"@, "2"@]
    }
}

/// The numbered file pattern frames are written to: the output itself when
/// it holds `%`, else `dir/stem_%03d.format`, where `dir` is the output's
/// directory (`.` when it has none) followed by `/` even when it is empty.
pub open spec fn frame_pattern(out: Seq<char>, format: Seq<char>) -> Seq<char> {
    if contains(out, "%"@) {
        out
    } else {
        let dir = match parent(out) {
            Some(d) => d,
            None => "."@,
        };
        dir + "/"@ + stem_or(out, "frame"@) + "_%03d."@ + format
    }
}

/// The outcome of previewing a frame extraction.
pub open spec fn frame_extract_outcome(t: ProcessingTask) -> Outcome {
    if t.input_files@.len() == 0 {
        refuse(ErrorKind::NoInputFiles)
    } else {
        match t.video_settings {
            None => refuse(ErrorKind::NoVideoSettings),
            Some(v) => Ok(spaced(seq!["ffmpeg"@, "-i"@, quoted(first_input(t)), "-y"@, "-v"@, "error"@,
                "-hide_banner"@, "-nostats"@, "-nostdin"@] + frame_mode_parts(v, true) + frame_quality_parts(v)
                + seq![quoted(frame_pattern(t.output_file@, v.frame_format@))])),
        }
    }
}

/// The scale filter of a GIF.
pub open spec fn gif_scale_filter(v: VideoSettings) -> Seq<char> {
    "scale=iw*"@ + v.gif_scale.text@ + ":ih*"@ + v.gif_scale.text@
}

/// The GIF conversion chain: scaling when set, then the frame rate.
pub open spec fn gif_chain(v: VideoSettings) -> Seq<Seq<char>> {
    when(!v.gif_scale.neutral, seq![gif_scale_filter(v)]) + seq!["fps="@ + decimal(v.gif_fps as nat)]
}

/// The dithering a palette uses.
pub open spec fn dither_mode(d: Seq<char>) -> Seq<char> {
    if d == "bayer"@ {
        "bayer:bayer_scale=5"@
    } else if d == "floyd_steinberg"@ {
        "floyd_steinberg"@
    } else {
        "none"@
    }
}

/// The palette generation and use that follows a GIF chain.
pub open spec fn palette_stage(colors: u32, dither: Seq<char>) -> Seq<char> {
    "split[s0][s1];[s0]palettegen=max_colors="@ + decimal(colors as nat) + "[p];[s1][p]paletteuse=dither="@ + dither
}

/// The GIF filters: a palette-optimised graph, or the plain chain.
pub open spec fn gif_filter_parts(chain: Seq<Seq<char>>, optimize: bool, colors: u32, dither: Seq<char>, shown: bool) -> Seq<Seq<char>> {
    let wrap = |f: Seq<char>| if shown { quoted(f) } else { f };
    if optimize {
        let pal = if chain.len() == 0 {
            palette_stage(colors, dither)
        } else {
            join(chain, ","@) + "[x];[x]"@ + palette_stage(colors, dither)
        };
        seq!["-filter_complex"@, wrap(pal)]
    } else {
        when(chain.len() > 0, seq!["-vf"@, wrap(join(chain, ","@))])
    }
}

/// The outcome of previewing a GIF conversion.
pub open spec fn video_to_gif_outcome(t: ProcessingTask) -> Outcome {
    if t.input_files@.len() == 0 {
        refuse(ErrorKind::NoInputVideo)
    } else {
        match t.video_settings {
            None => refuse(ErrorKind::NoVideoSettings),
            Some(v) => Ok(spaced(head(first_input(t))
                + gif_filter_parts(gif_chain(v), v.gif_optimize, v.gif_colors, dither_mode(v.gif_dither@), true)
                + when(v.gif_loop, seq!["-loop"@, "0"@]) + seq![quoted(t.output_file@)])),
        }
    }
}

/// The resize chain of a GIF: by the scale when set, else to the given
/// width and height (keeping the aspect ratio within them when asked).
pub open spec fn gif_resize_chain(v: VideoSettings) -> Seq<Seq<char>> {
    if !v.gif_scale.neutral {
        seq![gif_scale_filter(v)]
    } else {
        match (v.width, v.height) {
            (Some(w), Some(h)) => seq![
                "scale="@ + decimal(w as nat) + ":"@ + decimal(h as nat)
                    + if v.maintain_aspect_ratio { ":force_original_aspect_ratio=decrease"@ } else { Seq::empty() },
            ],
            _ => Seq::empty(),
        }
    }
}

/// The outcome of previewing a GIF resize.
pub open spec fn gif_resize_outcome(t: ProcessingTask) -> Outcome {
    if t.input_files@.len() == 0 {
        refuse(ErrorKind::NoInputGif)
    } else {
        match t.video_settings {
            None => refuse(ErrorKind::NoVideoSettings),
            Some(v) => Ok(spaced(head(first_input(t))
                + gif_filter_parts(gif_resize_chain(v), v.gif_optimize, v.gif_colors, "floyd_steinberg"@, true)
                + seq![quoted(t.output_file@)])),
        }
    }
}

/// Adds `-x value` when the value is not empty.
pub fn push_flag_if_given(p: &mut Vec<String>, flag: &str, value: &str)
    ensures
        views(final(p)@) == views(old(p)@) + flag_if_given(flag@, value@),
{
    push_pair_when(p, !is_blank(value), flag, value);
}

/// The filter that keeps every `n`-th frame.
pub fn every_nth_text(n: &str) -> (r: String)
    ensures
        r@ == every_nth(n@),
{
    cat3("select='not(mod(n,", n, "))'")
}

/// The frame selection parts.
pub fn frame_mode(v: &VideoSettings, shown: bool) -> (r: Vec<String>)
    ensures
        views(r@) == frame_mode_parts(*v, shown),
{
    let mut p: Vec<String> = Vec::new();
    let mode = v.frame_extract_mode.as_str();
    if same_text(mode, "all") {
        push_pair(&mut p, "-vsync", "0");
    } else if same_text(mode, "interval") || !same_text(mode, "time") {
        let n = if same_text(mode, "interval") && v.frame_interval > 0 {
            decimal_text(v.frame_interval as u64)
        } else {
            proof {
                reveal_strlit("30");
            }
            owned("30")
        };
        let f = every_nth_text(n.as_str());
        let shown_f = if shown { quote(f.as_str()) } else { f };
        push_pair(&mut p, "-vf", shown_f.as_str());
        push_pair(&mut p, "-vsync", "0");
    } else {
        push_flag_if_given(&mut p, "-ss", v.frame_start_time.as_str());
        push_flag_if_given(&mut p, "-to", v.frame_end_time.as_str());
        push_pair(&mut p, "-vf", "fps=1");
    }
    assert(views(p@) =~= frame_mode_parts(*v, shown));
    p
}

/// The image quality parts.
pub fn frame_quality(v: &VideoSettings) -> (r: Vec<String>)
    ensures
        views(r@) == frame_quality_parts(*v),
{
    let mut p: Vec<String> = Vec::new();
    let f = v.frame_format.as_str();
    if same_text(f, "jpg") || same_text(f, "jpeg") {
        push_pair(&mut p, "-q:v", decimal_text(v.frame_quality as u64).as_str());
    } else if same_text(f, "png") {
        push_pair(&mut p, "-pix_fmt", "rgb24");
    } else if same_text(f, "bmp") {
        push_pair(&mut p, "-pix_fmt", "bgr24");
    } else {
        push_pair(&mut p, "-q:v", "2");
    }
    assert(views(p@) =~= frame_quality_parts(*v));
    p
}

/// The numbered file pattern frames are written to.
pub fn frame_pattern_text(out: &str, format: &str) -> (r: String)
    requires
        out@.len() < usize::MAX,
    ensures
        r@ == frame_pattern(out@, format@),
{
    if has(out, "%") {
        return owned(out);
    }
    let dir = match path_parent(out) {
        Some(d) => d,
        None => owned("."),
    };
    let stem = stem_or_default(out, "frame");
    let a = cat3(dir.as_str(), "/", stem.as_str());
    cat3(a.as_str(), "_%03d.", format)
}

/// The preview of a frame extraction.
pub fn preview_frame_extract(t: &ProcessingTask) -> (r: Result<String, TaskError>)
    requires
        t.output_file@.len() < usize::MAX,
    ensures
        reports(r, frame_extract_outcome(*t)),
{
    if t.input_files.len() == 0 {
        return refusal(ErrorKind::NoInputFiles);
    }
    let v = match &t.video_settings {
        Some(v) => v,
        None => return refusal(ErrorKind::NoVideoSettings),
    };
    let mut parts: Vec<String> = Vec::new();
    push_text(&mut parts, "ffmpeg");
    push_text(&mut parts, "-i");
    push_string(&mut parts, quote(t.input_files[0].as_str()));
    push_text(&mut parts, "-y");
    push_pair(&mut parts, "-v", "error");
    push_text(&mut parts, "-hide_banner");
    push_text(&mut parts, "-nostats");
    push_text(&mut parts, "-nostdin");
    push_all(&mut parts, frame_mode(v, true));
    push_all(&mut parts, frame_quality(v));
    let pattern = frame_pattern_text(t.output_file.as_str(), v.frame_format.as_str());
    push_string(&mut parts, quote(pattern.as_str()));
    assert(views(parts@) =~= seq!["ffmpeg"@, "-i"@, quoted(first_input(*t)), "-y"@, "-v"@, "error"@,
        "-hide_banner"@, "-nostats"@, "-nostdin"@] + frame_mode_parts(*v, true) + frame_quality_parts(*v)
        + seq![quoted(frame_pattern(t.output_file@, v.frame_format@))]);
    Ok(join_strings(&parts, " "))
}

/// The scale filter of a GIF.
pub fn gif_scale_text(v: &VideoSettings) -> (r: String)
    ensures
        r@ == gif_scale_filter(*v),
{
    let a = cat3("scale=iw*", v.gif_scale.text.as_str(), ":ih*");
    cat(a.as_str(), v.gif_scale.text.as_str())
}

/// The GIF conversion chain.
pub fn gif_chain_list(v: &VideoSettings) -> (r: Vec<String>)
    ensures
        views(r@) == gif_chain(*v),
{
    let mut c: Vec<String> = Vec::new();
    if !v.gif_scale.neutral {
        push_string(&mut c, gif_scale_text(v));
    }
    push_string(&mut c, cat("fps=", decimal_text(v.gif_fps as u64).as_str()));
    assert(views(c@) =~= gif_chain(*v));
    c
}

/// The dithering a palette uses.
pub fn dither_text(d: &str) -> (r: &'static str)
    ensures
        r@ == dither_mode(d@),
{
    if same_text(d, "bayer") {
        "bayer:bayer_scale=5"
    } else if same_text(d, "floyd_steinberg") {
        "floyd_steinberg"
    } else {
        "none"
    }
}

/// The palette stage of a GIF graph.
pub fn palette_text(colors: u32, dither: &str) -> (r: String)
    ensures
        r@ == palette_stage(colors, dither@),
{
    let a = cat3("split[s0][s1];[s0]palettegen=max_colors=", decimal_text(colors as u64).as_str(),
        "[p];[s1][p]paletteuse=dither=");
    cat(a.as_str(), dither)
}

/// The GIF filter parts.
pub fn gif_filters(chain: &Vec<String>, optimize: bool, colors: u32, dither: &str, shown: bool) -> (r: Vec<String>)
    ensures
        views(r@) == gif_filter_parts(views(chain@), optimize, colors, dither@, shown),
{
    let mut p: Vec<String> = Vec::new();
    if optimize {
        let stage = palette_text(colors, dither);
        let pal = if chain.len() == 0 {
            stage
        } else {
            let joined = join_strings(chain, ",");
            cat3(joined.as_str(), "[x];[x]", stage.as_str())
        };
        let shown_pal = if shown { quote(pal.as_str()) } else { pal };
        push_pair(&mut p, "-filter_complex", shown_pal.as_str());
    } else if chain.len() > 0 {
        let joined = join_strings(chain, ",");
        let shown_chain = if shown { quote(joined.as_str()) } else { joined };
        push_pair(&mut p, "-vf", shown_chain.as_str());
    }
    assert(views(p@) =~= gif_filter_parts(views(chain@), optimize, colors, dither@, shown));
    p
}

/// The preview of a GIF conversion.
pub fn preview_video_to_gif(t: &ProcessingTask) -> (r: Result<String, TaskError>)
    ensures
        reports(r, video_to_gif_outcome(*t)),
{
    if t.input_files.len() == 0 {
        return refusal(ErrorKind::NoInputVideo);
    }
    let v = match &t.video_settings {
        Some(v) => v,
        None => return refusal(ErrorKind::NoVideoSettings),
    };
    let mut parts = head_parts(t.input_files[0].as_str());
    let chain = gif_chain_list(v);
    push_all(&mut parts, gif_filters(&chain, v.gif_optimize, v.gif_colors, dither_text(v.gif_dither.as_str()), true));
    push_pair_when(&mut parts, v.gif_loop, "-loop", "0");
    push_string(&mut parts, quote(t.output_file.as_str()));
    assert(views(parts@) =~= head(first_input(*t))
        + gif_filter_parts(gif_chain(*v), v.gif_optimize, v.gif_colors, dither_mode(v.gif_dither@), true)
        + when(v.gif_loop, seq!["-loop"@, "0"@]) + seq![quoted(t.output_file@)]);
    Ok(join_strings(&parts, " "))
}

/// The resize chain of a GIF.
pub fn gif_resize_list(v: &VideoSettings) -> (r: Vec<String>)
    ensures
        views(r@) == gif_resize_chain(*v),
{
    let mut c: Vec<String> = Vec::new();
    if !v.gif_scale.neutral {
        push_string(&mut c, gif_scale_text(v));
    } else {
        match (v.width, v.height) {
            (Some(w), Some(h)) => {
                let a = cat3("scale=", decimal_text(w as u64).as_str(), ":");
                let b = cat(a.as_str(), decimal_text(h as u64).as_str());
                let f = if v.maintain_aspect_ratio {
                    cat(b.as_str(), ":force_original_aspect_ratio=decrease")
                } else {
                    b
                };
                push_string(&mut c, f);
            },
            _ => {},
        }
    }
    assert(views(c@) =~= gif_resize_chain(*v));
    c
}

/// The preview of a GIF resize.
pub fn preview_gif_resize(t: &ProcessingTask) -> (r: Result<String, TaskError>)
    ensures
        reports(r, gif_resize_outcome(*t)),
{
    if t.input_files.len() == 0 {
        return refusal(ErrorKind::NoInputGif);
    }
    let v = match &t.video_settings {
        Some(v) => v,
        None => return refusal(ErrorKind::NoVideoSettings),
    };
    let mut parts = head_parts(t.input_files[0].as_str());
    let chain = gif_resize_list(v);
    push_all(&mut parts, gif_filters(&chain, v.gif_optimize, v.gif_colors, "floyd_steinberg", true));
    push_string(&mut parts, quote(t.output_file.as_str()));
    assert(views(parts@) =~= head(first_input(*t))
        + gif_filter_parts(gif_resize_chain(*v), v.gif_optimize, v.gif_colors, "floyd_steinberg"@, true)
        + seq![quoted(t.output_file@)]);
    Ok(join_strings(&parts, " "))
}

// ----- any operation -----

/// The lengths a preview needs to stay within memory's limits.
pub open spec fn previewable(t: ProcessingTask) -> bool {
    &&& t.output_file@.len() < usize::MAX
    &&& forall|i: int| 0 <= i < t.input_files@.len() ==> t.input_files@[i]@.len() < usize::MAX
    &&& t.audio_settings matches Some(a) ==> a.custom_args@.len() < usize::MAX
    &&& t.video_settings matches Some(v) ==> v.custom_args@.len() < usize::MAX && v.subtitle_file@.len() < usize::MAX
}

/// The outcome of previewing a task, by its operation.
pub open spec fn preview_outcome(c: CodecCatalog, t: ProcessingTask, watermark_exists: bool) -> Outcome {
    match t.operation {
        OperationType::VideoConvert | OperationType::VideoCompress | OperationType::VideoResize => video_convert_outcome(c, t),
        OperationType::AudioConvert | OperationType::AudioCompress | OperationType::AudioResample
        | OperationType::AudioVolume => audio_convert_outcome(c, t),
        OperationType::VideoAudioMerge => video_audio_merge_outcome(c, t),
        OperationType::VideoAudioSplit | OperationType::ExtractAudio => extract_audio_outcome(c, t),
        OperationType::ExtractVideo => extract_video_outcome(c, t),
        OperationType::VideoCrop => video_crop_outcome(c, t),
        OperationType::VideoRotate => video_rotate_outcome(c, t),
        OperationType::VideoFilter => video_filter_outcome(c, t),
        OperationType::AudioTrim => audio_trim_outcome(c, t),
        OperationType::AudioMerge => audio_merge_outcome(c, t),
        OperationType::BatchConvert => batch_convert_outcome(t),
        OperationType::AddSubtitle => add_subtitle_outcome(c, t),
        OperationType::AddWatermark => add_watermark_outcome(c, t, watermark_exists),
        OperationType::FrameExtract => frame_extract_outcome(t),
        OperationType::VideoToGif => video_to_gif_outcome(t),
        OperationType::GifResize => gif_resize_outcome(t),
    }
}

/// The FFmpeg command a task would run, without running it. Whether the
/// watermark image exists is looked up by the caller.
pub fn preview_task(c: &CodecCatalog, t: &ProcessingTask, watermark_exists: bool) -> (r: Result<String, TaskError>)
    requires
        previewable(*t),
    ensures
        reports(r, preview_outcome(*c, *t, watermark_exists)),
{
    match t.operation {
        OperationType::VideoConvert | OperationType::VideoCompress | OperationType::VideoResize => preview_video_convert(c, t),
        OperationType::AudioConvert | OperationType::AudioCompress | OperationType::AudioResample
        | OperationType::AudioVolume => preview_audio_convert(c, t),
        OperationType::VideoAudioMerge => preview_video_audio_merge(c, t),
        OperationType::VideoAudioSplit | OperationType::ExtractAudio => preview_extract_audio(c, t),
        OperationType::ExtractVideo => preview_extract_video(c, t),
        OperationType::VideoCrop => preview_video_crop(c, t),
        OperationType::VideoRotate => preview_video_rotate(c, t),
        OperationType::VideoFilter => preview_video_filter(c, t),
        OperationType::AudioTrim => preview_audio_trim(c, t),
        OperationType::AudioMerge => preview_audio_merge(c, t),
        OperationType::BatchConvert => preview_batch_convert(t),
        OperationType::AddSubtitle => preview_add_subtitle(c, t),
        OperationType::AddWatermark => preview_add_watermark(c, t, watermark_exists),
        OperationType::FrameExtract => preview_frame_extract(t),
        OperationType::VideoToGif => preview_video_to_gif(t),
        OperationType::GifResize => preview_gif_resize(t),
    }
}

} // verus!
