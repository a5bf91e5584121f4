use ffmpeg_gui::codecs::CodecCatalog;
use ffmpeg_gui::commands::{
    add_subtitle_plan, edit_args, extract_audio_args, frame_directory_of, frame_extract_args, lists_stream_kind,
    probed_codec_of, video_audio_merge_args, video_audio_split_args, video_to_gif_args, batch_step, Edit,
    StreamPresence,
};
use ffmpeg_gui::settings::{AudioSettings, ErrorKind, OperationType, ProcessingTask, TaskStatus, VideoSettings};

fn task(op: OperationType, inputs: &[&str], output: &str) -> ProcessingTask {
    ProcessingTask {
        id: 7,
        operation: op,
        input_files: inputs.iter().map(|s| s.to_string()).collect(),
        output_file: output.to_string(),
        video_settings: Some(VideoSettings::default()),
        audio_settings: Some(AudioSettings::default()),
        status: TaskStatus::Pending,
        error_message: None,
    }
}

fn strs(v: &[&str]) -> Vec<String> {
    v.iter().map(|s| s.to_string()).collect()
}

#[test]
fn crop_run_uses_size_and_encoder_extension() {
    let c = CodecCatalog::standard();
    let mut t = task(OperationType::VideoCrop, &["in.mp4"], "o.mkv");
    t.video_settings.as_mut().unwrap().resolution = (640, 480);
    let args = edit_args(&c, &t, Edit::Crop).unwrap();
    assert_eq!(
        args,
        strs(&[
            "-i", "in.mp4", "-y", "-v", "error", "-hide_banner", "-nostats", "-nostdin", "-filter:v",
            "crop=640:480", "-c:v", "libx264", "-c:a", "copy", "o.mp4",
        ])
    );
}

#[test]
fn crop_without_size_takes_centred_crop_and_crf() {
    let c = CodecCatalog::standard();
    let mut t = task(OperationType::VideoCrop, &["in.mp4"], "dir/o.mp4");
    t.video_settings.as_mut().unwrap().quality = 20;
    let args = edit_args(&c, &t, Edit::Crop).unwrap();
    assert_eq!(args[9], "crop=iw*0.8:ih*0.8:(iw-ow)/2:(ih-oh)/2");
    assert_eq!(&args[14..16], &strs(&["-crf", "20"])[..]);
    assert_eq!(args[16], "dir/o.mp4");
}

#[test]
fn rotate_and_filter_chains() {
    let c = CodecCatalog::standard();
    let mut t = task(OperationType::VideoRotate, &["in.mp4"], "o.mp4");
    {
        let v = t.video_settings.as_mut().unwrap();
        v.rotation = 90;
        v.flip_horizontal = true;
    }
    let args = edit_args(&c, &t, Edit::Rotate).unwrap();
    assert_eq!(&args[8..10], &strs(&["-filter:v", "transpose=1,hflip"])[..]);

    let mut f = task(OperationType::VideoFilter, &["in.mp4"], "o.mp4");
    {
        let v = f.video_settings.as_mut().unwrap();
        v.denoise = true;
        v.contrast = ffmpeg_gui::settings::Level { text: "1.2".to_string(), neutral: false };
    }
    let args = edit_args(&c, &f, Edit::Filter).unwrap();
    assert_eq!(&args[8..10], &strs(&["-filter:v", "hqdn3d=4:3:6:4.5,eq=contrast=1.2"])[..]);

    let plain = task(OperationType::VideoRotate, &["in.mp4"], "o.mp4");
    let args = edit_args(&c, &plain, Edit::Rotate).unwrap();
    assert_eq!(args[8], "-c:v");
}

#[test]
fn edit_refusals() {
    let c = CodecCatalog::standard();
    let empty = task(OperationType::VideoCrop, &[], "o.mp4");
    assert_eq!(edit_args(&c, &empty, Edit::Crop).unwrap_err().kind, ErrorKind::NoInputFiles);
    let mut bare = task(OperationType::VideoCrop, &["a.mp4"], "o.mp4");
    bare.video_settings = None;
    assert_eq!(edit_args(&c, &bare, Edit::Crop).unwrap_err().kind, ErrorKind::NoVideoSettings);
}

#[test]
fn split_writes_picture_and_sound_to_the_directory() {
    let t = task(OperationType::VideoAudioSplit, &["/v/clip.mov"], "/out");
    let (video, audio) = video_audio_split_args(&t).unwrap();
    assert_eq!(
        video,
        strs(&[
            "-i", "/v/clip.mov", "-y", "-v", "error", "-hide_banner", "-nostats", "-nostdin", "-an", "-c:v",
            "libx264", "-crf", "23", "/out/clip_video.mp4",
        ])
    );
    assert_eq!(
        audio,
        strs(&[
            "-i", "/v/clip.mov", "-y", "-v", "error", "-hide_banner", "-nostats", "-nostdin", "-vn", "-c:a",
            "pcm_s16le", "/out/clip_audio.wav",
        ])
    );
}

#[test]
fn split_with_chosen_encoders() {
    let mut t = task(OperationType::VideoAudioSplit, &["clip.mp4"], "out/");
    t.video_settings.as_mut().unwrap().codec = "libvpx-vp9".to_string();
    t.audio_settings.as_mut().unwrap().codec = "libmp3lame".to_string();
    let (video, audio) = video_audio_split_args(&t).unwrap();
    assert_eq!(&video[9..], &strs(&["-c:v", "libvpx-vp9", "-crf", "23", "out/clip_video.webm"])[..]);
    assert_eq!(&audio[9..], &strs(&["-c:a", "libmp3lame", "-q:a", "2", "out/clip_audio.mp3"])[..]);
    let none = task(OperationType::VideoAudioSplit, &[], "out");
    assert_eq!(video_audio_split_args(&none).unwrap_err().kind, ErrorKind::NoInputFiles);
}

#[test]
fn merge_maps_streams_by_what_the_inputs_hold() {
    let c = CodecCatalog::standard();
    let t = task(OperationType::VideoAudioMerge, &["v.mp4", "a.mp3"], "o.mp4");
    let all = StreamPresence { first_video: true, first_audio: false, second_video: false, second_audio: true };
    assert_eq!(
        video_audio_merge_args(&c, &t, all).unwrap(),
        strs(&[
            "-i", "v.mp4", "-i", "a.mp3", "-y", "-v", "error", "-hide_banner", "-nostats", "-nostdin", "-c:v",
            "copy", "-c:a", "aac", "-b:a", "128k", "-map", "0:v", "-map", "1:a", "o.mp4",
        ])
    );
    let swapped = StreamPresence { first_video: false, first_audio: true, second_video: true, second_audio: false };
    let args = video_audio_merge_args(&c, &t, swapped).unwrap();
    assert_eq!(&args[16..20], &strs(&["-map", "1:v", "-map", "0:a"])[..]);
    let no_video = StreamPresence { first_video: false, first_audio: true, second_video: false, second_audio: true };
    assert_eq!(video_audio_merge_args(&c, &t, no_video).unwrap_err().kind, ErrorKind::NoVideoStream);
    let no_audio = StreamPresence { first_video: true, first_audio: false, second_video: false, second_audio: false };
    assert_eq!(video_audio_merge_args(&c, &t, no_audio).unwrap_err().kind, ErrorKind::NoAudioStream);
    let one = task(OperationType::VideoAudioMerge, &["v.mp4"], "o.mp4");
    let e = video_audio_merge_args(&c, &one, all).unwrap_err();
    assert_eq!(e.message(), "Need at least 2 files for video/audio merge");
}

#[test]
fn audio_extraction_to_mp3_gets_a_bitrate() {
    let c = CodecCatalog::standard();
    let t = task(OperationType::ExtractAudio, &["v.mp4"], "a.mp3");
    assert_eq!(
        extract_audio_args(&c, &t).unwrap(),
        strs(&[
            "-i", "v.mp4", "-y", "-v", "error", "-hide_banner", "-nostats", "-nostdin", "-vn", "-c:a",
            "libmp3lame", "-b:a", "128k", "a.mp3",
        ])
    );
    let mut copy = task(OperationType::ExtractAudio, &["v.mp4"], "a.m4a");
    copy.audio_settings = None;
    let args = extract_audio_args(&c, &copy).unwrap();
    assert_eq!(&args[8..], &strs(&["-vn", "-c:a", "copy", "a.m4a"])[..]);
}

#[test]
fn subtitles_from_webvtt_are_converted_then_burnt_in() {
    let c = CodecCatalog::standard();
    let mut t = task(OperationType::AddSubtitle, &["movie.mp4"], "out.mp4");
    t.video_settings.as_mut().unwrap().subtitle_file = "subs.vtt".to_string();
    let p = add_subtitle_plan(&c, &t, true, true).unwrap();
    assert_eq!(
        p.conversion.unwrap(),
        strs(&["-i", "subs.vtt", "-y", "-v", "error", "-hide_banner", "-nostats", "-nostdin", "subs_temp.srt"])
    );
    assert_eq!(p.temporary.unwrap(), "subs_temp.srt");
    assert_eq!(
        p.args,
        strs(&[
            "-i", "movie.mp4", "-y", "-v", "error", "-hide_banner", "-nostats", "-nostdin", "-vf",
            "subtitles='subs_temp.srt'", "-c:a", "copy", "-c:v", "libx264", "out.mp4",
        ])
    );
}

#[test]
fn soft_subtitles_in_mp4_go_to_matroska() {
    let c = CodecCatalog::standard();
    let mut t = task(OperationType::AddSubtitle, &["movie.mp4"], "out.mp4");
    {
        let v = t.video_settings.as_mut().unwrap();
        v.subtitle_file = "C:\\subs\\a.srt".to_string();
        v.subtitle_mode = "soft".to_string();
    }
    let p = add_subtitle_plan(&c, &t, true, true).unwrap();
    assert!(p.conversion.is_none());
    assert!(p.temporary.is_none());
    assert_eq!(
        p.args,
        strs(&[
            "-i", "movie.mp4", "-i", "C:\\subs\\a.srt", "-y", "-v", "error", "-hide_banner", "-nostats",
            "-nostdin", "-c:v", "copy", "-c:a", "copy", "-c:s", "copy", "-map", "0", "-map", "1", "out.mkv",
        ])
    );
}

#[test]
fn subtitle_refusals() {
    let c = CodecCatalog::standard();
    let mut t = task(OperationType::AddSubtitle, &["movie.mp4"], "out.mp4");
    assert_eq!(add_subtitle_plan(&c, &t, true, true).unwrap_err().kind, ErrorKind::NoSubtitleFile);
    t.video_settings.as_mut().unwrap().subtitle_file = "s.srt".to_string();
    let e = add_subtitle_plan(&c, &t, false, true).unwrap_err();
    assert_eq!(e.message(), "Video file not found: movie.mp4");
    let e = add_subtitle_plan(&c, &t, true, false).unwrap_err();
    assert_eq!(e.message(), "Subtitle file not found: s.srt");
    let mut s = task(OperationType::AddSubtitle, &["x.SRT"], "out.mp4");
    s.video_settings.as_mut().unwrap().subtitle_file = "s.srt".to_string();
    assert_eq!(add_subtitle_plan(&c, &s, true, true).unwrap_err().kind, ErrorKind::SubtitleGivenAsVideo);
    let none = task(OperationType::AddSubtitle, &[], "out.mp4");
    assert_eq!(add_subtitle_plan(&c, &none, true, true).unwrap_err().message(), "No video file specified");
}

#[test]
fn hard_subtitles_escape_colons_and_backslashes() {
    let c = CodecCatalog::standard();
    let mut t = task(OperationType::AddSubtitle, &["movie.avi"], "out.avi");
    t.video_settings.as_mut().unwrap().subtitle_file = "C:\\s.ass".to_string();
    let p = add_subtitle_plan(&c, &t, true, true).unwrap();
    assert_eq!(p.args[9], "subtitles='C\\:\\\\s.ass'");
}

#[test]
fn frames_go_to_a_numbered_pattern() {
    let t = task(OperationType::FrameExtract, &["v.mp4"], "/frames/shot.png");
    assert_eq!(
        frame_extract_args(&t).unwrap(),
        strs(&[
            "-i", "v.mp4", "-y", "-v", "error", "-hide_banner", "-nostats", "-nostdin", "-vf",
            "select='not(mod(n,30))'", "-vsync", "0", "-pix_fmt", "rgb24", "/frames/shot_%03d.png",
        ])
    );
    assert_eq!(frame_directory_of("/frames/shot.png"), Some("/frames".to_string()));
    assert_eq!(frame_directory_of("/frames/f_%04d.png"), None);
    let mut timed = task(OperationType::FrameExtract, &["v.mp4"], "f_%02d.jpg");
    {
        let v = timed.video_settings.as_mut().unwrap();
        v.frame_extract_mode = "time".to_string();
        v.frame_start_time = "5".to_string();
        v.frame_format = "jpg".to_string();
        v.frame_quality = 3;
    }
    let args = frame_extract_args(&timed).unwrap();
    assert_eq!(&args[8..], &strs(&["-ss", "5", "-vf", "fps=1", "-q:v", "3", "f_%02d.jpg"])[..]);
}

#[test]
fn gif_conversion_uses_a_palette() {
    let t = task(OperationType::VideoToGif, &["v.mp4"], "o.gif");
    assert_eq!(
        video_to_gif_args(&t).unwrap(),
        strs(&[
            "-i", "v.mp4", "-y", "-v", "error", "-hide_banner", "-nostats", "-nostdin", "-filter_complex",
            "fps=10[x];[x]split[s0][s1];[s0]palettegen=max_colors=256[p];[s1][p]paletteuse=dither=floyd_steinberg",
            "-loop", "0", "o.gif",
        ])
    );
}

#[test]
fn batch_steps_name_each_output() {
    let t = task(OperationType::BatchConvert, &["/in/a.avi", "/in/b.avi"], "/out/result.mkv");
    let s = batch_step(&t, 1, "123").unwrap();
    assert_eq!(s.id, 1007);
    assert_eq!(s.operation, OperationType::VideoConvert);
    assert_eq!(s.input_files, strs(&["/in/b.avi"]));
    assert_eq!(s.output_file, "/out/b_2.mkv");
    assert_eq!(s.status, TaskStatus::Running);
    let mut dated = task(OperationType::BatchConvert, &["clip.mov"], "out");
    {
        let v = dated.video_settings.as_mut().unwrap();
        v.batch_naming_pattern = "{date}-{name}".to_string();
        v.batch_operation_type = "rotate".to_string();
        v.container_format = "WEBM".to_string();
    }
    let s = batch_step(&dated, 0, "1700000000").unwrap();
    assert_eq!(s.output_file, "1700000000-clip.webm");
    assert_eq!(s.operation, OperationType::VideoRotate);
}

#[test]
fn probes_are_read() {
    assert_eq!(probed_codec_of(" H264\n", true), Some("h264".to_string()));
    assert_eq!(probed_codec_of("h264", false), None);
    assert_eq!(probed_codec_of("  \n", true), None);
    assert!(lists_stream_kind("video\r\naudio\n", "audio"));
    assert!(!lists_stream_kind("video\n", "audio"));
}
