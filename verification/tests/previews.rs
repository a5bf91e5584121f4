use ffmpeg_gui::codecs::CodecCatalog;
use ffmpeg_gui::executor::TaskExecutor;
use ffmpeg_gui::settings::{AudioSettings, ErrorKind, OperationType, ProcessingTask, TaskStatus, VideoSettings};

fn task(op: OperationType, inputs: &[&str], output: &str) -> ProcessingTask {
    ProcessingTask {
        id: 1,
        operation: op,
        input_files: inputs.iter().map(|s| s.to_string()).collect(),
        output_file: output.to_string(),
        video_settings: Some(VideoSettings::default()),
        audio_settings: Some(AudioSettings::default()),
        status: TaskStatus::Pending,
        error_message: None,
    }
}

#[test]
fn audio_conversion_preview_to_mp3() {
    let c = CodecCatalog::standard();
    let t = task(OperationType::AudioConvert, &["in.wav"], "out.mp3");
    assert_eq!(
        TaskExecutor::preview_command(&c, &t, false).unwrap(),
        "ffmpeg -i \"in.wav\" -y -v info -hide_banner -nostats -c:a libmp3lame -b:a 128k -ar 44100 \"out.mp3\""
    );
}

#[test]
fn video_conversion_preview_to_mp4() {
    let c = CodecCatalog::standard();
    let t = task(OperationType::VideoConvert, &["in.avi"], "out.mp4");
    assert_eq!(
        TaskExecutor::preview_command(&c, &t, false).unwrap(),
        "ffmpeg -i \"in.avi\" -y -v info -hide_banner -nostats -c:v libx264 -c:a aac \"out.mp4\""
    );
}

#[test]
fn video_conversion_preview_with_quality_and_size() {
    let c = CodecCatalog::standard();
    let mut t = task(OperationType::VideoCompress, &["in.avi"], "out.mp4");
    {
        let v = t.video_settings.as_mut().unwrap();
        v.codec = "libx265".to_string();
        v.quality = 28;
        v.preset = "slow".to_string();
        v.resolution = (1280, 720);
        v.fps = "30".to_string();
        v.custom_args = " -tag:v  hvc1 ".to_string();
    }
    assert_eq!(
        TaskExecutor::preview_command(&c, &t, false).unwrap(),
        "ffmpeg -i \"in.avi\" -y -v info -hide_banner -nostats -c:v libx265 -crf 28 -preset slow -s 1280x720 -r 30 -c:a aac -tag:v hvc1 \"out.mp4\""
    );
}

#[test]
fn preview_refuses_without_inputs() {
    let c = CodecCatalog::standard();
    let t = task(OperationType::VideoConvert, &[], "out.mp4");
    let e = TaskExecutor::preview_command(&c, &t, false).unwrap_err();
    assert_eq!(e.kind, ErrorKind::NoInputFiles);
    assert_eq!(e.message(), "No input files specified");
    let g = task(OperationType::GifResize, &[], "out.gif");
    assert_eq!(TaskExecutor::preview_command(&c, &g, false).unwrap_err().message(), "No input GIF file specified");
}

#[test]
fn watermark_preview_needs_the_image() {
    let c = CodecCatalog::standard();
    let mut t = task(OperationType::AddWatermark, &["v.mp4"], "o.mp4");
    assert_eq!(TaskExecutor::preview_command(&c, &t, true).unwrap_err().kind, ErrorKind::NoWatermarkFile);
    t.video_settings.as_mut().unwrap().watermark_file = "logo.png".to_string();
    let e = TaskExecutor::preview_command(&c, &t, false).unwrap_err();
    assert_eq!(e.message(), "Watermark file not found: logo.png");
    assert_eq!(
        TaskExecutor::preview_command(&c, &t, true).unwrap(),
        "ffmpeg -i \"v.mp4\" -i \"logo.png\" -y -v info -hide_banner -nostats -filter_complex \"[0:v][1:v]overlay=main_w-overlay_w-10:10\" -c:v libx264 -c:a copy \"o.mp4\""
    );
}

#[test]
fn batch_preview_lists_each_file() {
    let c = CodecCatalog::standard();
    let t = task(OperationType::BatchConvert, &["a.avi", "b.avi"], "/out/x.mp4");
    assert_eq!(
        TaskExecutor::preview_command(&c, &t, false).unwrap(),
        "# Batch conversion will execute the following commands:\n\n# File 1 of 2:\nffmpeg -i \"a.avi\" -y -v info -hide_banner -nostats \"/out/a_1.mp4\"\n\n# File 2 of 2:\nffmpeg -i \"b.avi\" -y -v info -hide_banner -nostats \"/out/b_2.mp4\"\n"
    );
}

#[test]
fn audio_merge_preview_concatenates_inputs() {
    let c = CodecCatalog::standard();
    let t = task(OperationType::AudioMerge, &["a.mp3", "b.mp3", "c.mp3"], "all.mp3");
    assert_eq!(
        TaskExecutor::preview_command(&c, &t, false).unwrap(),
        "ffmpeg -i \"a.mp3\" -i \"b.mp3\" -i \"c.mp3\" -y -v info -hide_banner -nostats -filter_complex [0:0][1:0][2:0]concat=n=3:v=0:a=1[out] -map [out] -c:a libmp3lame \"all.mp3\""
    );
}

#[test]
fn frame_pattern_of_a_bare_output_starts_with_a_separator() {
    let c = CodecCatalog::standard();
    let mut t = task(OperationType::FrameExtract, &["v.mp4"], "f.png");
    let mut v = VideoSettings::default();
    v.frame_extract_mode = "all".to_string();
    v.frame_format = "png".to_string();
    t.video_settings = Some(v);
    let s = TaskExecutor::preview_command(&c, &t, false).unwrap();
    assert!(s.starts_with(
        "ffmpeg -i \"v.mp4\" -y -v error -hide_banner -nostats -nostdin -vsync 0 -pix_fmt rgb24 "
    ));
    assert!(s.ends_with(" \"/f_%03d.png\""));
    t.output_file = "/shots/f.png".to_string();
    assert!(TaskExecutor::preview_command(&c, &t, false).unwrap().ends_with(" \"/shots/f_%03d.png\""));
    assert_eq!(ffmpeg_gui::commands::frame_directory_of("f.png"), Some("".to_string()));
    assert_eq!(ffmpeg_gui::commands::frame_directory_of("/shots/f.png"), Some("/shots".to_string()));
}

#[test]
fn merge_preview_names_the_output_as_an_audio_file() {
    let c = CodecCatalog::standard();
    let mut t = task(OperationType::VideoAudioMerge, &["v.mp4", "a.m4a"], "out.mp4");
    let mut a = AudioSettings::default();
    a.codec = "aac".to_string();
    t.audio_settings = Some(a);
    assert_eq!(
        TaskExecutor::preview_command(&c, &t, false).unwrap(),
        "ffmpeg -i \"v.mp4\" -i \"a.m4a\" -y -v info -hide_banner -nostats -c:v copy -c:a aac -map 0:v:0 -map 1:a:0 \"out.aac\""
    );
}
