use ffmpeg_gui::codecs::{crf_to_bitrate_estimate, hardware_acceleration_args, CodecCatalog};
use ffmpeg_gui::language::{Language, Translations};
use ffmpeg_gui::presets::{PresetCategory, PresetManager};
use ffmpeg_gui::progress::{
    base_duration, extract_duration, extract_time_progress, failure_text, remember_line, summarize_errors,
};
use ffmpeg_gui::settings::{AudioSettings, OperationType, VideoSettings};

fn lines(v: &[&str]) -> Vec<String> {
    v.iter().map(|s| s.to_string()).collect()
}

#[test]
fn log_fields_are_read() {
    assert_eq!(
        extract_duration("  Duration: 00:01:02.50, start: 0.000000, bitrate: 128 kb/s"),
        Some("00:01:02.50".to_string())
    );
    assert_eq!(extract_duration("Duration: 00:00:05.00"), None);
    assert_eq!(extract_duration("no duration here"), None);
    assert_eq!(
        extract_time_progress("frame=   10 fps=0.0 q=-1.0 size=       0kB time=00:00:01.23 bitrate=N/A"),
        Some("00:00:01.23".to_string())
    );
    assert_eq!(extract_time_progress("out_time=00:00:02.00"), Some("00:00:02.00".to_string()));
    assert_eq!(extract_time_progress("speed=1x"), None);
}

#[test]
fn failures_are_summarised_from_three_critical_lines() {
    let log = lines(&[
        "[error] Something failed here",
        "an ordinary line",
        "Invalid argument",
        "Error opening output",
        "No such file or directory",
    ]);
    assert_eq!(summarize_errors(&log), "Something failed here; Invalid argument; Error opening output");
    assert_eq!(
        failure_text(&log),
        "FFmpeg execution failed: Something failed here; Invalid argument; Error opening output"
    );
    assert_eq!(summarize_errors(&lines(&[])), "FFmpeg operation failed");
    assert_eq!(summarize_errors(&lines(&["all good"])), "FFmpeg operation failed");
    assert_eq!(summarize_errors(&lines(&["  [ERROR]  "])), "FFmpeg operation failed");
}

#[test]
fn the_log_keeps_the_last_hundred_lines() {
    let mut kept: Vec<String> = Vec::new();
    for i in 0..101 {
        remember_line(&mut kept, i.to_string());
    }
    assert_eq!(kept.len(), 100);
    assert_eq!(kept[0], "1");
    assert_eq!(kept[99], "100");
}

#[test]
fn operation_durations() {
    assert_eq!(base_duration(OperationType::VideoToGif), 80);
    assert_eq!(base_duration(OperationType::AudioTrim), 3);
}

#[test]
fn bitrate_estimates_and_acceleration() {
    assert_eq!(crf_to_bitrate_estimate(18), "8000k");
    assert_eq!(crf_to_bitrate_estimate(23), "4000k");
    assert_eq!(crf_to_bitrate_estimate(30), "1000k");
    assert_eq!(crf_to_bitrate_estimate(60), "2000k");
    assert_eq!(hardware_acceleration_args("h264_nvenc", false), lines(&["-hwaccel", "cuda", "-hwaccel_output_format", "cuda"]));
    assert_eq!(hardware_acceleration_args("h264_videotoolbox", false), lines(&["-hwaccel", "videotoolbox"]));
    assert_eq!(hardware_acceleration_args("libx264", true), lines(&["-hwaccel", "auto"]));
    assert!(hardware_acceleration_args("libx264", false).is_empty());
}

#[test]
fn builtin_presets_and_their_categories() {
    let all = PresetManager::get_builtin_presets();
    assert_eq!(all.len(), 9);
    assert_eq!(all[0].name, "YouTube 1080p");
    assert_eq!(all[0].video_settings.quality, 21);
    assert_eq!(all[0].video_settings.resolution, (1920, 1080));
    assert_eq!(all[0].audio_settings.bitrate, "192k");
    assert_eq!(all[8].name, "Twitch Stream");
    let hq: Vec<String> = PresetManager::get_presets_by_category(&PresetCategory::HighQuality).into_iter().map(|p| p.name).collect();
    assert_eq!(hq, lines(&["Master Quality", "ProRes Proxy"]));
    assert!(PresetManager::get_presets_by_category(&PresetCategory::Custom).is_empty());
    let mkv: Vec<String> = PresetManager::recommend_presets_for_format("mkv").into_iter().map(|p| p.name).collect();
    assert_eq!(mkv, lines(&["Master Quality", "Archive H.265"]));
    assert_eq!(PresetManager::get_all_categories().len(), 7);
    let zh = Translations::new(Language::Chinese);
    assert_eq!(PresetCategory::Archive.display_name(&zh), "存档压缩");
    assert_eq!(PresetCategory::Archive.display_name(&Translations::new(Language::English)), "Archive");
}

#[test]
fn presets_are_checked_against_their_format() {
    let c = CodecCatalog::standard();
    let all = PresetManager::get_builtin_presets();
    assert!(PresetManager::validate_preset(&c, &all[0], None, None).is_empty());
    assert_eq!(
        PresetManager::validate_preset(&c, &all[3], None, None),
        lines(&["Video codec issue: prores_ks is not compatible with mov"])
    );
}

#[test]
fn custom_presets_apply_their_settings() {
    let mut v = VideoSettings::default();
    v.codec = "libvpx-vp9".to_string();
    let mut a = AudioSettings::default();
    a.codec = "libopus".to_string();
    let p = PresetManager::create_custom_preset("Mine".to_string(), "My own".to_string(), v, a);
    assert_eq!(p.category, PresetCategory::Custom);
    assert_eq!(p.recommended_formats, lines(&["mp4"]));
    let mut cv = VideoSettings::default();
    let mut ca = AudioSettings::default();
    PresetManager::apply_preset_to_settings(&p, &mut cv, &mut ca);
    assert_eq!(cv.codec, "libvpx-vp9");
    assert_eq!(ca.codec, "libopus");
}

#[test]
fn preset_checks_report_sample_rate_and_bitrate_issues() {
    let c = CodecCatalog::standard();
    let all = PresetManager::get_builtin_presets();
    let mut p = PresetManager::create_custom_preset(
        "mine".to_string(),
        String::new(),
        all[0].video_settings.duplicate(),
        all[0].audio_settings.duplicate(),
    );
    p.audio_settings.sample_rate = "+48000".to_string();
    assert_eq!(
        PresetManager::validate_preset(&c, &p, Some("too high"), Some("too low")),
        lines(&["Sample rate issue: too high", "Bitrate issue: too low"])
    );
    p.audio_settings.sample_rate = "auto".to_string();
    assert_eq!(
        PresetManager::validate_preset(&c, &p, Some("too high"), None),
        Vec::<String>::new()
    );
    assert_eq!(ffmpeg_gui::text::parse_u32("44100"), Some(44100));
    assert_eq!(ffmpeg_gui::text::parse_u32("+7"), Some(7));
    assert_eq!(ffmpeg_gui::text::parse_u32("4294967296"), None);
    assert_eq!(ffmpeg_gui::text::parse_u32("-1"), None);
    assert_eq!(ffmpeg_gui::text::parse_u32(""), None);
    assert_eq!(ffmpeg_gui::text::parse_u32("+"), None);
    assert_eq!(ffmpeg_gui::text::parse_u32("4294967295"), Some(4294967295));
}
