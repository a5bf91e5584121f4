//! What the runs of the editing operations do, stated over all inputs: the
//! turn of each preset rotation, the range of an audio trim, the frame size
//! of a conversion, the operation of each batch kind and the placement of
//! each watermark position.
use vstd::prelude::*;
use crate::text::{decimal, join, quoted, split_char, first_index, is_first_index, has_char};
use crate::settings::{ProcessingTask, VideoSettings, OperationType};
use crate::codecs::CodecCatalog;
use crate::preview::{
    rotation_filters, trim_parts, video_convert_parts, watermark_filter, watermark_place, preview_outcome, spaced,
};
use crate::commands::{
    Edit, edit_plan, audio_trim_plan, video_convert_plan, watermark_plan, batch_operation, is_batch_step,
};

verus! {

/// The turn of a preset rotation, clockwise in degrees: a quarter turn
/// clockwise is `transpose=1`, a quarter turn counter-clockwise (270
/// clockwise) is `transpose=2`, and a half turn is two of those.
pub open spec fn quarter_turn_filter(rotation: i32) -> Seq<char> {
    if rotation == 90 {
        "transpose=1"@
    } else if rotation == 180 {
        "transpose=2,transpose=2"@
    } else {
        "transpose=2"@
    }
}

/// A rotation run on a preset angle of 90, 180 or 270 degrees, without
/// flips, passes exactly that turn as its video filter, right after the
/// eight leading arguments; the turns of 90 and 270 degrees differ.
pub proof fn lemma_rotation_turns(c: CodecCatalog, t: ProcessingTask, v: VideoSettings)
    requires
        t.input_files@.len() > 0,
        t.video_settings == Some(v),
        !v.use_custom_rotation,
        !v.flip_horizontal,
        !v.flip_vertical,
        v.rotation == 90 || v.rotation == 180 || v.rotation == 270,
    ensures
        edit_plan(c, t, Edit::Rotate) matches Ok(a) && a.len() > 9 && a[8] == "-filter:v"@
            && (v.rotation == 90 ==> a[9] == "transpose=1"@)
            && (v.rotation == 180 ==> a[9] == "transpose=2,transpose=2"@)
            && (v.rotation == 270 ==> a[9] == "transpose=2"@),
        quarter_turn_filter(90) != quarter_turn_filter(270),
{
    reveal_strlit("transpose=1");
    reveal_strlit("transpose=2");
    assert(rotation_filters(v) =~= seq![quarter_turn_filter(v.rotation)]);
    assert(join(rotation_filters(v), ","@) == quarter_turn_filter(v.rotation));
    assert("transpose=1"@[10] != "transpose=2"@[10]);
}

/// The preview of a rotation on a preset angle, without flips, shows the
/// same turn as the run: right after the eight leading words comes
/// `-filter:v` and the quoted turn of that angle.
pub proof fn lemma_rotation_preview_turns(c: CodecCatalog, t: ProcessingTask, v: VideoSettings, w: bool)
    requires
        t.operation == OperationType::VideoRotate,
        t.input_files@.len() > 0,
        t.video_settings == Some(v),
        !v.use_custom_rotation,
        !v.flip_horizontal,
        !v.flip_vertical,
        v.rotation == 90 || v.rotation == 180 || v.rotation == 270,
    ensures
        preview_outcome(c, t, w) matches Ok(s) && exists|p: Seq<Seq<char>>|
            #[trigger] spaced(p) == s && p.len() > 9 && p[8] == "-filter:v"@
            && (v.rotation == 90 ==> p[9] == quoted("transpose=1"@))
            && (v.rotation == 180 ==> p[9] == quoted("transpose=2,transpose=2"@))
            && (v.rotation == 270 ==> p[9] == quoted("transpose=2"@)),
{
    let f = rotation_filters(v);
    assert(f =~= seq![quarter_turn_filter(v.rotation)]);
    assert(join(f, ","@) == quarter_turn_filter(v.rotation));
    let p = crate::preview::head(crate::preview::first_input(t)) + seq!["-filter:v"@, quoted(join(f, ","@))]
        + crate::preview::edit_tail(crate::preview::edit_video_codec(c, v, crate::preview::out_ext(t)), t.output_file@);
    assert(p[8] == "-filter:v"@);
    assert(p[9] == quoted(quarter_turn_filter(v.rotation)));
    assert(preview_outcome(c, t, w) == Ok::<Seq<char>, (crate::settings::ErrorKind, Seq<char>)>(spaced(p)));
}

/// A text made of two pieces without commas, joined by one comma, splits
/// into those two pieces.
pub proof fn lemma_split_pair(a: Seq<char>, b: Seq<char>)
    requires
        !has_char(a, ','),
        !has_char(b, ','),
    ensures
        split_char(a + seq![','] + b, ',') == seq![a, b],
{
    let s = a + seq![','] + b;
    let i = a.len() as int;
    assert(s[i] == ',');
    assert forall|j: int| 0 <= j < i implies s[j] != ',' by {
        assert(s[j] == a[j]);
    }
    assert(is_first_index(s, ',', i));
    assert(has_char(s, ','));
    let k = choose|k: int| is_first_index(s, ',', k);
    assert(is_first_index(s, ',', k));
    if k < i {
        assert(s[k] == a[k]);
    }
    assert(first_index(s, ',') == Some(i));
    assert(s.take(i) =~= a);
    assert(s.skip(i + 1) =~= b);
    assert(first_index(b, ',') is None);
    assert(split_char(b, ',') == seq![b]);
    assert(split_char(s, ',') =~= seq![a, b]);
}

/// An audio trim set to `start,duration` starts at `start` and lasts
/// `duration`: right after the eight leading arguments come `-ss start`
/// and `-t duration`, the duration flag and not the end-time flag.
pub proof fn lemma_trim_start_and_duration(c: CodecCatalog, t: ProcessingTask, start: Seq<char>, duration: Seq<char>)
    requires
        t.input_files@.len() > 0,
        t.audio_settings matches Some(au) && au.custom_args@ == start + seq![','] + duration,
        !has_char(start, ','),
        !has_char(duration, ','),
    ensures
        audio_trim_plan(c, t) matches Ok(a) && a.len() >= 12
            && a.subrange(8, 12) == seq!["-ss"@, start, "-t"@, duration],
{
    lemma_split_pair(start, duration);
    let au = t.audio_settings->0;
    assert(au.custom_args@.len() > 0);
    assert(trim_parts(au.custom_args@) == seq!["-ss"@, start, "-t"@, duration]);
    let a = audio_trim_plan(c, t)->Ok_0;
    assert(a.subrange(8, 12) =~= seq!["-ss"@, start, "-t"@, duration]);
}

/// The preview of an audio trim set to `start,duration` shows the same
/// range as the run: right after the program and its quoted input come
/// `-ss start` and `-t duration`.
pub proof fn lemma_trim_preview_range(c: CodecCatalog, t: ProcessingTask, start: Seq<char>, duration: Seq<char>, w: bool)
    requires
        t.operation == OperationType::AudioTrim,
        t.input_files@.len() > 0,
        t.audio_settings matches Some(au) && au.custom_args@ == start + seq![','] + duration,
        !has_char(start, ','),
        !has_char(duration, ','),
    ensures
        preview_outcome(c, t, w) matches Ok(s) && exists|p: Seq<Seq<char>>|
            #[trigger] spaced(p) == s && p.len() >= 7
            && p.subrange(3, 7) == seq!["-ss"@, start, "-t"@, duration],
{
    lemma_split_pair(start, duration);
    let au = t.audio_settings->0;
    assert(au.custom_args@.len() > 0);
    assert(trim_parts(au.custom_args@) == seq!["-ss"@, start, "-t"@, duration]);
    let codec = crate::preview::edit_audio_codec(c, au, crate::preview::out_ext(t));
    let p = seq!["ffmpeg"@, "-i"@, quoted(crate::preview::first_input(t))] + trim_parts(au.custom_args@)
        + seq!["-y"@, "-v"@, "info"@, "-hide_banner"@, "-nostats"@, "-c:a"@, codec,
        quoted(crate::naming::normalized_output(t.output_file@, codec, "auto"@, true))];
    assert(p.subrange(3, 7) =~= seq!["-ss"@, start, "-t"@, duration]);
    assert(preview_outcome(c, t, w) == Ok::<Seq<char>, (crate::settings::ErrorKind, Seq<char>)>(spaced(p)));
}

/// The task with its frame size unset.
pub open spec fn without_size(t: ProcessingTask, v: VideoSettings) -> ProcessingTask {
    ProcessingTask { video_settings: Some(VideoSettings { resolution: (0u32, 0u32), ..v }), ..t }
}

/// Setting a frame size `w`x`h` adds exactly the pair `-s` and `WxH`,
/// width first, to a conversion run, and changes nothing else in it.
#[verifier::rlimit(60)]
pub proof fn lemma_convert_size(c: CodecCatalog, t: ProcessingTask, v: VideoSettings, probed: Option<Seq<char>>)
    requires
        t.input_files@.len() > 0,
        t.video_settings == Some(v),
        v.resolution.0 > 0,
        v.resolution.1 > 0,
    ensures
        ({
            let size = decimal(v.resolution.0 as nat) + "x"@ + decimal(v.resolution.1 as nat);
            &&& video_convert_plan(c, t, probed) matches Ok(a)
            &&& video_convert_plan(c, without_size(t, v), probed) matches Ok(a0)
            &&& exists|k: int| 0 <= k <= a0.len() && a == a0.take(k) + seq!["-s"@, size] + a0.skip(k)
        }),
{
    let size = decimal(v.resolution.0 as nat) + "x"@ + decimal(v.resolution.1 as nat);
    let t0 = without_size(t, v);
    let v0 = VideoSettings { resolution: (0u32, 0u32), ..v };
    let a = video_convert_plan(c, t, probed)->Ok_0;
    let a0 = video_convert_plan(c, t0, probed)->Ok_0;
    let (vcodec, acodec, out) = crate::commands::video_run_choice(c, t, v);
    assert(crate::commands::video_run_choice(c, t0, v0) == (vcodec, acodec, out));
    let pre = crate::codecs::hwaccel_args_checked(probed, vcodec, v.use_hardware_acceleration)
        + crate::commands::progress_flags()
        + seq!["-i"@, crate::preview::first_input(t), "-y"@, "-c:v"@, vcodec]
        + crate::preview::video_quality_parts(v, vcodec)
        + (if v.preset@ != "auto"@ && crate::preview::is_x26x(vcodec) { seq!["-preset"@, v.preset@] } else { Seq::empty() });
    let post = (if v.fps@ != "auto"@ { seq!["-r"@, v.fps@] } else { Seq::empty() })
        + seq!["-c:a"@, acodec] + crate::text::words(v.custom_args@) + seq![out];
    assert(a =~= pre + seq!["-s"@, size] + post);
    assert(a0 =~= pre + post);
    let k = pre.len() as int;
    assert(a0.take(k) =~= pre);
    assert(a0.skip(k) =~= post);
}

/// Setting a frame size `w`x`h` adds exactly the pair `-s` and `WxH`,
/// width first, to a conversion preview, the same pair the run gets, and
/// changes nothing else in it.
#[verifier::rlimit(60)]
pub proof fn lemma_convert_preview_size(c: CodecCatalog, t: ProcessingTask, v: VideoSettings)
    requires
        v.resolution.0 > 0,
        v.resolution.1 > 0,
    ensures
        ({
            let size = decimal(v.resolution.0 as nat) + "x"@ + decimal(v.resolution.1 as nat);
            let v0 = VideoSettings { resolution: (0u32, 0u32), ..v };
            let p = video_convert_parts(c, t, v);
            let p0 = video_convert_parts(c, t, v0);
            exists|k: int| 0 <= k <= p0.len() && p == p0.take(k) + seq!["-s"@, size] + p0.skip(k)
        }),
{
    let size = decimal(v.resolution.0 as nat) + "x"@ + decimal(v.resolution.1 as nat);
    let v0 = VideoSettings { resolution: (0u32, 0u32), ..v };
    let ext = crate::preview::out_ext(t);
    let codec = crate::preview::video_convert_codec(c, v, ext);
    let acodec = match t.audio_settings {
        Some(a) => if a.codec@ == "auto"@ { crate::codecs::best_audio(c, ext) } else { a.codec@ },
        None => "copy"@,
    };
    let pre = crate::preview::head(crate::preview::first_input(t)) + seq!["-c:v"@, codec]
        + crate::preview::video_quality_parts(v, codec)
        + crate::preview::when(v.preset@ != "auto"@ && crate::preview::is_x26x(codec), seq!["-preset"@, v.preset@]);
    let post = crate::preview::when(v.fps@ != "auto"@, seq!["-r"@, v.fps@]) + seq!["-c:a"@, acodec]
        + crate::text::words(v.custom_args@)
        + seq![crate::text::quoted(crate::naming::normalized_output(t.output_file@, codec, v.container_format@, false))];
    let p = video_convert_parts(c, t, v);
    let p0 = video_convert_parts(c, t, v0);
    assert(crate::preview::when(v0.resolution.0 > 0 && v0.resolution.1 > 0, seq!["-s"@, crate::preview::dimensions(0, 0)])
        =~= Seq::<Seq<char>>::empty());
    assert(p =~= pre + seq!["-s"@, size] + post);
    assert(p0 =~= pre + post);
    let k = pre.len() as int;
    assert(p0.take(k) =~= pre);
    assert(p0.skip(k) =~= post);
}

/// Each batch kind runs its own operation on every file: convert, compress,
/// resize, rotate, crop and filter give the video conversion, compression,
/// resizing, rotation, crop and filter, respectively.
pub proof fn lemma_batch_kinds(s: ProcessingTask, t: ProcessingTask, v: VideoSettings, index: int, date: Seq<char>)
    requires
        is_batch_step(s, t, v, index, date),
    ensures
        v.batch_operation_type@ == "convert"@ ==> s.operation == OperationType::VideoConvert,
        v.batch_operation_type@ == "compress"@ ==> s.operation == OperationType::VideoCompress,
        v.batch_operation_type@ == "resize"@ ==> s.operation == OperationType::VideoResize,
        v.batch_operation_type@ == "rotate"@ ==> s.operation == OperationType::VideoRotate,
        v.batch_operation_type@ == "crop"@ ==> s.operation == OperationType::VideoCrop,
        v.batch_operation_type@ == "filter"@ ==> s.operation == OperationType::VideoFilter,
{
    reveal_strlit("convert");
    reveal_strlit("compress");
    reveal_strlit("resize");
    reveal_strlit("rotate");
    reveal_strlit("crop");
    reveal_strlit("filter");
    let k = v.batch_operation_type@;
    if k == "crop"@ {
        assert(k != "compress"@ && k != "resize"@ && k != "rotate"@) by {
            assert(k.len() != "compress"@.len());
            assert(k.len() != "resize"@.len());
            assert(k.len() != "rotate"@.len());
        }
    }
    if k == "filter"@ {
        assert(k != "compress"@ && k != "resize"@ && k != "rotate"@ && k != "crop"@) by {
            assert(k.len() != "compress"@.len());
            assert(k[0] != "resize"@[0]);
            assert(k[0] != "rotate"@[0]);
            assert(k.len() != "crop"@.len());
        }
    }
    if k == "rotate"@ {
        assert(k != "compress"@ && k != "resize"@) by {
            assert(k.len() != "compress"@.len());
            assert(k[1] != "resize"@[1]);
        }
    }
    if k == "resize"@ {
        assert(k != "compress"@) by {
            assert(k.len() != "compress"@.len());
        }
    }
    if k == "convert"@ {
        assert(k != "compress"@ && k != "resize"@ && k != "rotate"@ && k != "crop"@ && k != "filter"@) by {
            assert(k[2] != "compress"@[2]);
            assert(k.len() != "resize"@.len());
            assert(k.len() != "rotate"@.len());
            assert(k.len() != "crop"@.len());
            assert(k.len() != "filter"@.len());
        }
    }
}

/// The five position names are told apart.
proof fn lemma_position_names_differ()
    ensures
        "top-left"@ != "top-right"@,
        "top-left"@ != "bottom-left"@,
        "top-left"@ != "bottom-right"@,
        "top-left"@ != "center"@,
        "top-right"@ != "bottom-left"@,
        "top-right"@ != "bottom-right"@,
        "top-right"@ != "center"@,
        "bottom-left"@ != "bottom-right"@,
        "bottom-left"@ != "center"@,
        "bottom-right"@ != "center"@,
{
    reveal_strlit("top-left");
    reveal_strlit("top-right");
    reveal_strlit("bottom-left");
    reveal_strlit("bottom-right");
    reveal_strlit("center");
    assert("top-left"@[4] != "top-right"@[4]);
    assert("top-left"@[0] != "bottom-left"@[0]);
    assert("top-left"@[0] != "bottom-right"@[0]);
    assert("top-left"@[0] != "center"@[0]);
    assert("top-right"@[0] != "bottom-left"@[0]);
    assert("top-right"@[0] != "bottom-right"@[0]);
    assert("top-right"@[0] != "center"@[0]);
    assert("bottom-left"@.len() != "bottom-right"@.len());
    assert("bottom-left"@[0] != "center"@[0]);
    assert("bottom-right"@[0] != "center"@[0]);
}

/// A watermark at full size and opacity is overlaid at its position's
/// corner or centre: the filter, right after the twelve leading arguments
/// of the run, is `[0:v][1:v]overlay=x:y` with the placement of each
/// position, 10 pixels in from the edges it names; an unknown position
/// goes to the top right.
pub proof fn lemma_watermark_positions(c: CodecCatalog, t: ProcessingTask, v: VideoSettings)
    requires
        t.input_files@.len() > 0,
        t.video_settings == Some(v),
        v.watermark_file@.len() > 0,
        v.watermark_scale.neutral,
        v.watermark_opacity.neutral,
    ensures
        watermark_plan(c, t, true) matches Ok(a) && a.len() > 11 && ({
            let p = v.watermark_position@;
            let f = a[11];
            &&& p == "top-left"@ ==> f == "[0:v][1:v]overlay="@ + "10:10"@
            &&& p == "top-right"@ ==> f == "[0:v][1:v]overlay="@ + "main_w-overlay_w-10:10"@
            &&& p == "bottom-left"@ ==> f == "[0:v][1:v]overlay="@ + "10:main_h-overlay_h-10"@
            &&& p == "bottom-right"@ ==> f == "[0:v][1:v]overlay="@ + "main_w-overlay_w-10:main_h-overlay_h-10"@
            &&& p == "center"@ ==> f == "[0:v][1:v]overlay="@ + "(main_w-overlay_w)/2:(main_h-overlay_h)/2"@
            &&& (p != "top-left"@ && p != "top-right"@ && p != "bottom-left"@ && p != "bottom-right"@
                && p != "center"@) ==> f == "[0:v][1:v]overlay="@ + "main_w-overlay_w-10:10"@
        }),
{
    lemma_position_names_differ();
    assert(watermark_filter(v) == "[0:v][1:v]overlay="@ + watermark_place(v.watermark_position@));
}

/// The preview of a watermark at full size and opacity shows the same
/// placement as the run: the quoted filter after `-filter_complex` is
/// `[0:v][1:v]overlay=` and the bottom-right corner for `bottom-right`,
/// and so on for the other positions.
pub proof fn lemma_watermark_preview_positions(c: CodecCatalog, t: ProcessingTask, v: VideoSettings)
    requires
        t.operation == OperationType::AddWatermark,
        t.input_files@.len() > 0,
        t.video_settings == Some(v),
        v.watermark_file@.len() > 0,
        v.watermark_scale.neutral,
        v.watermark_opacity.neutral,
    ensures
        preview_outcome(c, t, true) matches Ok(s) && exists|p: Seq<Seq<char>>|
            #[trigger] spaced(p) == s && p.len() > 11 && p[10] == "-filter_complex"@ && ({
                let q = v.watermark_position@;
                let f = p[11];
                &&& q == "top-left"@ ==> f == quoted("[0:v][1:v]overlay="@ + "10:10"@)
                &&& q == "top-right"@ ==> f == quoted("[0:v][1:v]overlay="@ + "main_w-overlay_w-10:10"@)
                &&& q == "bottom-left"@ ==> f == quoted("[0:v][1:v]overlay="@ + "10:main_h-overlay_h-10"@)
                &&& q == "bottom-right"@ ==> f == quoted("[0:v][1:v]overlay="@
                    + "main_w-overlay_w-10:main_h-overlay_h-10"@)
                &&& q == "center"@ ==> f == quoted("[0:v][1:v]overlay="@
                    + "(main_w-overlay_w)/2:(main_h-overlay_h)/2"@)
                &&& (q != "top-left"@ && q != "top-right"@ && q != "bottom-left"@ && q != "bottom-right"@
                    && q != "center"@) ==> f == quoted("[0:v][1:v]overlay="@ + "main_w-overlay_w-10:10"@)
            }),
{
    lemma_position_names_differ();
    assert(watermark_filter(v) == "[0:v][1:v]overlay="@ + watermark_place(v.watermark_position@));
    let p = seq!["ffmpeg"@, "-i"@, quoted(crate::preview::first_input(t)), "-i"@, quoted(v.watermark_file@),
        "-y"@, "-v"@, "info"@, "-hide_banner"@, "-nostats"@, "-filter_complex"@,
        quoted(watermark_filter(v)), "-c:v"@, crate::codecs::best_video(c, crate::preview::out_ext(t)),
        "-c:a"@, "copy"@, quoted(t.output_file@)];
    assert(p[10] == "-filter_complex"@);
    assert(p[11] == quoted(watermark_filter(v)));
    assert(preview_outcome(c, t, true) == Ok::<Seq<char>, (crate::settings::ErrorKind, Seq<char>)>(spaced(p)));
}

} // verus!
