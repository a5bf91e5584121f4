use ffmpeg_gui::codecs::CodecCatalog;
use ffmpeg_gui::language::{language_for_locale, Language, Translations};
use ffmpeg_gui::naming::normalize_output_path_with_container;
use ffmpeg_gui::paths::{path_extension, path_file_stem, path_parent};
use ffmpeg_gui::session::{
    get_operation_category, is_auto_generated_filename, is_media_file, streams_in_info, timestamp_text, Category,
    Session,
};
use ffmpeg_gui::settings::{OperationType, TaskStatus};
use ffmpeg_gui::text::{replace_text, split_words, trim_text};
use ffmpeg_gui::ui::{OutputSelector, SettingsPanel};

fn strs(v: &[&str]) -> Vec<String> {
    v.iter().map(|s| s.to_string()).collect()
}

#[test]
fn languages_and_texts() {
    assert_eq!(Language::Chinese.display_name(), "中文");
    assert_eq!(Language::all_languages(), vec![Language::Chinese, Language::English]);
    let en = Translations::new(Language::English);
    let zh = Translations::new(Language::Chinese);
    assert_eq!(en.menu_file(), "File");
    assert_eq!(zh.menu_file(), "文件");
    assert_eq!(en.current_operation("Video Convert"), "Current Operation: Video Convert");
    assert_eq!(zh.task_added("转换"), "已添加任务: 转换");
    assert_eq!(en.command_generation_failed(), "Command generation failed");
    assert_eq!(language_for_locale("zh_CN.UTF-8"), Language::Chinese);
    assert_eq!(language_for_locale("en_US.UTF-8"), Language::English);
    assert_eq!(language_for_locale("z"), Language::English);
}

#[test]
fn output_paths_take_the_encoders_extension() {
    assert_eq!(normalize_output_path_with_container("/a/b/clip.avi", "libx265", "auto", false), "/a/b/clip.mp4");
    assert_eq!(normalize_output_path_with_container("/a/b/clip.avi", "libx265", "mkv", false), "/a/b/clip.mkv");
    assert_eq!(normalize_output_path_with_container("song.wav", "flac", "", true), "song.flac");
    assert_eq!(normalize_output_path_with_container("", "libvpx-vp9", "auto", false), "output.webm");
    assert_eq!(normalize_output_path_with_container("/", "aac", "auto", true), "output.aac");
    assert_eq!(path_extension("archive.tar.gz"), Some("gz".to_string()));
    assert_eq!(path_file_stem("/x/.hidden"), Some(".hidden".to_string()));
    assert_eq!(path_parent("/x"), Some("/".to_string()));
    assert_eq!(path_parent("name"), Some("".to_string()));
}

#[test]
fn text_helpers() {
    assert_eq!(replace_text("a.mp4.mp4", ".mp4", ".mkv"), "a.mkv.mkv");
    assert_eq!(split_words("  -a  b\t-c "), strs(&["-a", "b", "-c"]));
    assert_eq!(trim_text(" \n x y \t"), "x y");
}

#[test]
fn output_filters_follow_the_encoder() {
    let en = Translations::new(Language::English);
    let mut a = ffmpeg_gui::settings::AudioSettings::default();
    a.codec = "aac".to_string();
    let (ext, name, exts) = OutputSelector::get_extension_and_filter(&OperationType::AudioConvert, None, Some(&a), &en);
    assert_eq!((ext.as_str(), name.as_str()), ("aac", "AAC Audio Files"));
    assert_eq!(exts, strs(&["aac", "m4a"]));
    let (ext, name, exts) = OutputSelector::get_video_extension_and_filter("libvpx-vp9", &en);
    assert_eq!((ext.as_str(), name.as_str()), ("webm", "WebM视频文件"));
    assert_eq!(exts, strs(&["webm"]));
    let (_, name, exts) = OutputSelector::get_extension_and_filter(&OperationType::FrameExtract, None, None, &en);
    assert_eq!(name, "Image Files");
    assert_eq!(exts, strs(&["png", "jpg", "bmp"]));
    assert_eq!(OutputSelector::get_default_extension(&OperationType::ExtractAudio), "mp3");
    assert_eq!(OutputSelector::get_default_extension(&OperationType::FrameExtract), "png");
    assert!(!SettingsPanel::codec_supports_bitrate("flac"));
    assert!(SettingsPanel::codec_supports_bitrate("auto"));
    assert!(SettingsPanel::codec_supports_vbr_quality("libopus"));
}

#[test]
fn session_starts_fresh_and_resets() {
    let mut s = Session::new(Language::English);
    assert_eq!(s.status_message, "Ready");
    assert_eq!(s.next_task_id, 1);
    s.video_settings.codec = "libx265".to_string();
    s.output_file = "o.mp4".to_string();
    s.reset_project();
    assert_eq!(s.video_settings.codec, "auto");
    assert_eq!(s.output_file, "");
    assert_eq!(s.status_message, "Project Reset");
}

#[test]
fn switching_groups_keeps_each_groups_files() {
    let mut s = Session::new(Language::English);
    s.switch_operation_category(&OperationType::VideoConvert);
    s.input_files = strs(&["v.mp4"]);
    s.output_file = "v_out.mp4".to_string();
    s.switch_operation_category(&OperationType::AudioConvert);
    assert!(s.input_files.is_empty());
    s.input_files = strs(&["a.wav"]);
    s.switch_operation_category(&OperationType::VideoCrop);
    assert_eq!(s.input_files, strs(&["v.mp4"]));
    assert_eq!(s.output_file, "v_out.mp4");
    s.switch_operation_category(&OperationType::ExtractAudio);
    assert_eq!(s.input_files, strs(&["a.wav"]));
    s.switch_operation_category(&OperationType::AddWatermark);
    assert!(s.input_files.is_empty());
    assert_eq!(s.current_category, Some(Category::Advanced));
    assert_eq!(get_operation_category(&OperationType::VideoAudioSplit), Category::VideoAudio);
}

#[test]
fn requirements_before_queuing() {
    let mut s = Session::new(Language::English);
    assert_eq!(
        s.validate_operation_requirements(&OperationType::AddWatermark),
        (false, Some("Please select a video file".to_string()))
    );
    s.dedicated_video_file = "v.mp4".to_string();
    s.video_settings.watermark_file = "w.png".to_string();
    assert_eq!(
        s.validate_operation_requirements(&OperationType::AddWatermark),
        (false, Some("Please select output file".to_string()))
    );
    s.output_file = "o.mp4".to_string();
    assert_eq!(s.validate_operation_requirements(&OperationType::AddWatermark), (true, None));
    assert_eq!(s.validate_operation_requirements(&OperationType::VideoConvert), (false, None));
}

#[test]
fn compatibility_warnings_and_recommendations() {
    let c = CodecCatalog::standard();
    let mut s = Session::new(Language::English);
    s.current_operation = Some(OperationType::VideoConvert);
    s.video_settings.container_format = "webm".to_string();
    assert!(!s.check_compatibility_and_warn(&c, None));
    assert!(s.show_compatibility_warning);
    assert_eq!(
        s.compatibility_warning_message,
        "WebM format does not support AAC audio codec. The audio will be automatically converted to libopus codec."
    );
    assert_eq!(s.compatibility_recommended_codec, Some("libopus".to_string()));
    s.apply_compatibility_recommendation();
    assert_eq!(s.audio_settings.codec, "libopus");
    assert_eq!(s.status_message, "Applied recommended settings");
    assert!(s.check_compatibility_and_warn(&c, None));

    s.video_settings.codec = "libx264".to_string();
    assert!(!s.check_compatibility_and_warn(&c, None));
    assert_eq!(
        s.compatibility_warning_message,
        "Video codec 'libx264' is not compatible with container format 'webm'. This may cause encoding to fail."
    );
    assert_eq!(s.compatibility_recommended_codec, Some("libvpx-vp9".to_string()));
    s.apply_compatibility_recommendation();
    assert_eq!(s.video_settings.codec, "libvpx-vp9");

    let mut g = Session::new(Language::Chinese);
    g.current_operation = Some(OperationType::ExtractAudio);
    g.input_files = strs(&["silent.mp4"]);
    assert!(!g.check_compatibility_and_warn(&c, Some((true, false))));
    assert_eq!(g.compatibility_warning_message, "所选文件不包含音频流。此操作需要音频输入。");
}

#[test]
fn soft_subtitles_in_mp4_are_warned_about() {
    let c = CodecCatalog::standard();
    let mut s = Session::new(Language::English);
    s.current_operation = Some(OperationType::AddSubtitle);
    s.dedicated_video_file = "v.mp4".to_string();
    s.video_settings.subtitle_file = "s.srt".to_string();
    s.video_settings.subtitle_mode = "soft".to_string();
    s.video_settings.container_format = "mp4".to_string();
    s.output_file = "/o/out.mp4".to_string();
    assert!(!s.check_compatibility_and_warn(&c, None));
    assert_eq!(
        s.compatibility_warning_message,
        "MP4 container format does not support SRT soft subtitles. Recommend changing output format to MKV for better compatibility."
    );
    assert_eq!(s.compatibility_recommended_format, Some("mkv".to_string()));
    s.apply_compatibility_recommendation();
    assert_eq!(s.video_settings.container_format, "mkv");
    assert_eq!(s.output_file, "/o/out.mkv");
}

#[test]
fn encoders_follow_a_new_container() {
    let c = CodecCatalog::standard();
    let mut s = Session::new(Language::English);
    s.check_and_reset_incompatible_codecs(&c, None);
    assert_eq!(s.last_container_format, "auto");
    s.video_settings.codec = "libx264".to_string();
    s.audio_settings.codec = "aac".to_string();
    s.video_settings.container_format = "webm".to_string();
    s.check_and_reset_incompatible_codecs(&c, None);
    assert_eq!(s.video_settings.codec, "libvpx-vp9");
    assert_eq!(s.audio_settings.codec, "libopus");
    assert_eq!(s.status_message, "Video codec automatically adjusted to libvpx-vp9 for webm format compatibility");
    assert_eq!(s.last_container_format, "webm");
}

#[test]
fn queued_tasks_get_unique_outputs() {
    let mut s = Session::new(Language::English);
    s.input_files = strs(&["/in/a.mov"]);
    s.output_file = "/x/movie.mp4".to_string();
    let t = s.force_start_processing(&OperationType::VideoConvert, "1700_5");
    assert_eq!(t.id, 1);
    assert_eq!(t.output_file, "/x/movie_1.mp4");
    assert_eq!(t.input_files, strs(&["/in/a.mov"]));
    assert_eq!(t.status, TaskStatus::Pending);
    assert_eq!(s.next_task_id, 2);
    assert_eq!(s.status_message, "Task added: Video Format Conversion");
    s.output_file = "/x/output_1_2.mkv".to_string();
    s.dedicated_video_file = "/v/film.mp4".to_string();
    let w = s.force_start_processing(&OperationType::AddWatermark, "1800_7");
    assert_eq!(w.output_file, "/x/output_1800_7.mkv");
    assert_eq!(w.input_files, strs(&["/v/film.mp4"]));
    assert_eq!(w.id, 2);
}

#[test]
fn previews_from_the_session() {
    let c = CodecCatalog::standard();
    let mut s = Session::new(Language::English);
    s.force_show_command_preview(&c, &OperationType::VideoConvert, false);
    assert_eq!(s.command_preview, "Error generating command: No input files specified");
    assert_eq!(s.status_message, "Command generation failed");
    s.input_files = strs(&["a.wav"]);
    s.output_file = "b.flac".to_string();
    s.force_show_command_preview(&c, &OperationType::AudioConvert, false);
    assert_eq!(s.command_preview, "ffmpeg -i \"a.wav\" -y -v info -hide_banner -nostats -c:a flac \"b.flac\"");
    assert_eq!(s.status_message, "FFmpeg command generated, please check preview area");
}

#[test]
fn names_and_media_files() {
    assert!(is_auto_generated_filename("/x/output_123_4.mp4"));
    assert!(!is_auto_generated_filename("/x/output_123"));
    assert!(!is_auto_generated_filename("/x/movie.mp4"));
    assert_eq!(timestamp_text(1700, 123456), "1700_456");
    assert!(is_media_file("/m/Clip.MKV"));
    assert!(is_media_file("subs.vtt"));
    assert!(!is_media_file("notes.txt"));
    assert!(!is_media_file("README"));
    assert_eq!(streams_in_info("Stream #0:0: Video: h264"), (true, false));
    assert_eq!(streams_in_info("Stream #0:1 Audio"), (false, true));
}

#[test]
fn normalizing_twice_changes_nothing() {
    let once = normalize_output_path_with_container("/a/b/clip.final.avi", "libvpx-vp9", "auto", false);
    assert_eq!(once, "/a/b/clip.final.webm");
    assert_eq!(normalize_output_path_with_container(&once, "libvpx-vp9", "auto", false), once);
    let audio = normalize_output_path_with_container("track", "libopus", "auto", true);
    assert_eq!(audio, "track.opus");
    assert_eq!(normalize_output_path_with_container(&audio, "libopus", "auto", true), audio);
}

#[test]
fn dropped_files_become_the_input() {
    let mut s = Session::new(Language::English);
    s.current_operation = Some(OperationType::VideoConvert);
    s.accept_dropped_file("/m/a.mp4");
    assert_eq!(s.input_files, strs(&["/m/a.mp4"]));
    s.accept_dropped_file("/m/b.mkv");
    assert_eq!(s.input_files, strs(&["/m/b.mkv"]));
    s.accept_dropped_file("/m/notes.txt");
    assert_eq!(s.status_message, "Unsupported file type: /m/notes.txt");
    assert_eq!(s.input_files, strs(&["/m/b.mkv"]));
    s.current_operation = Some(OperationType::AudioMerge);
    s.accept_dropped_file("/m/c.mp3");
    assert_eq!(s.input_files, strs(&["/m/b.mkv"]));
}

#[test]
fn detected_hardware_encoders_steer_the_video_reset() {
    let c = CodecCatalog::standard();
    let mut s = Session::new(Language::English);
    s.video_settings.container_format = "webm".to_string();
    s.check_and_reset_incompatible_codecs(&c, Some("h264_nvenc"));
    s.video_settings.codec = "libvpx-vp9".to_string();
    s.video_settings.preset = "slow".to_string();
    s.audio_settings.bitrate = "192k".to_string();
    s.video_settings.container_format = "mp4".to_string();
    s.check_and_reset_incompatible_codecs(&c, Some("h264_nvenc"));
    assert_eq!(s.video_settings.codec, "h264_nvenc");
    assert_eq!(s.status_message, "Video codec automatically adjusted to h264_nvenc for mp4 format compatibility");
    assert_eq!(s.video_settings.preset, "slow");
    assert_eq!(s.audio_settings.bitrate, "192k");
    let before = s.status_message.clone();
    s.check_and_reset_incompatible_codecs(&c, Some("hevc_nvenc"));
    assert_eq!(s.video_settings.codec, "h264_nvenc");
    assert_eq!(s.status_message, before);
}

#[test]
fn applying_a_recommendation_keeps_the_other_settings() {
    let c = CodecCatalog::standard();
    let mut s = Session::new(Language::English);
    s.current_operation = Some(OperationType::VideoConvert);
    s.video_settings.container_format = "webm".to_string();
    s.video_settings.resolution = (640, 360);
    s.video_settings.quality = 20;
    s.output_file = "/o/x.webm".to_string();
    assert!(!s.check_compatibility_and_warn(&c, None));
    s.apply_compatibility_recommendation();
    assert_eq!(s.audio_settings.codec, "libopus");
    assert_eq!(s.video_settings.resolution, (640, 360));
    assert_eq!(s.video_settings.quality, 20);
    assert_eq!(s.video_settings.container_format, "webm");
    assert_eq!(s.output_file, "/o/x.webm");
    assert_eq!(s.status_message, "Applied recommended settings");
}

#[test]
fn repeated_separators_and_normalizing_twice() {
    assert_eq!(path_parent("a///b.mp4"), Some("a".to_string()));
    assert_eq!(path_parent("//b.mp4"), Some("/".to_string()));
    let once = normalize_output_path_with_container("a///b.avi", "libx264", "auto", false);
    assert_eq!(once, "a/b.mp4");
    assert_eq!(normalize_output_path_with_container(&once, "libx264", "auto", false), once);
    let bare = normalize_output_path_with_container("clip.wav", "aac", "auto", true);
    assert_eq!(bare, "clip.aac");
    assert_eq!(normalize_output_path_with_container(&bare, "aac", "auto", true), bare);
}

#[test]
fn trailing_separators_and_dots_are_read_as_std_reads_them() {
    assert_eq!(path_parent("a/"), Some("".to_string()));
    assert_eq!(path_parent("/a/./"), Some("/".to_string()));
    assert_eq!(path_parent("a/./b"), Some("a".to_string()));
    assert_eq!(path_parent("./a"), Some(".".to_string()));
    assert_eq!(path_parent("."), Some("".to_string()));
    assert_eq!(path_parent("/"), None);
    assert_eq!(path_parent(""), None);
    assert_eq!(path_file_stem("out/"), Some("out".to_string()));
    assert_eq!(path_file_stem("dir/clip.mp4/."), Some("clip".to_string()));
    assert_eq!(path_file_stem("a/.."), None);
    assert_eq!(path_extension("a."), Some("".to_string()));
    assert_eq!(normalize_output_path_with_container("out/", "libx264", "auto", false), "out.mp4");
    for p in ["out/", "a/./b.avi", "/x//y/", "./c.mkv", "name"] {
        let std_parent = std::path::Path::new(p).parent().map(|d| d.to_str().unwrap().to_string());
        assert_eq!(path_parent(p), std_parent, "parent of {}", p);
        let std_stem = std::path::Path::new(p).file_stem().map(|d| d.to_str().unwrap().to_string());
        assert_eq!(path_file_stem(p), std_stem, "stem of {}", p);
    }
}
