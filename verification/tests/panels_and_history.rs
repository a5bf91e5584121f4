use ffmpeg_gui::codecs::CodecCatalog;
use ffmpeg_gui::executor::TaskExecutor;
use ffmpeg_gui::history::{WorkflowHistory, WORKFLOW_HISTORY_LIMIT};
use ffmpeg_gui::language::{Language, Translations};
use ffmpeg_gui::panels::{
    accepts_dropped_image, accepts_dropped_subtitle, accepts_dropped_video, add_dropped_files,
    batch_settings_preview, clock_text, detected_size_line, elapsed_line, field_value, format_hint,
    frame_mode_note, remaining_line, selection_status, selection_text, settings_sections, split_controls,
    status_line, subtitle_file_status, subtitle_mode_note, task_button_label, task_title, total_time_line,
    video_file_status, watermark_file_status, CropEdge, FileStatus, ResolutionPreset, SettingsSections,
    SplitControls,
};
use ffmpeg_gui::session::{
    allows_multiple_files, describe_file, input_files_label, CompatibilityWarningContext, ProjectConfig, Session,
    WarningAnswer,
};
use ffmpeg_gui::settings::{AudioSettings, Level, OperationType, ProcessingTask, TaskStatus, VideoSettings};
use ffmpeg_gui::text::signed_text;
use ffmpeg_gui::ui::OutputSelector;
use ffmpeg_gui::workflow::{
    assigned_status, check_workflow_runnable, file_node_target, file_parameter_name, run_status, FileNodeTarget,
};

fn strs(v: &[&str]) -> Vec<String> {
    v.iter().map(|s| s.to_string()).collect()
}

fn task(id: usize, status: TaskStatus) -> ProcessingTask {
    ProcessingTask {
        id,
        operation: OperationType::VideoConvert,
        input_files: strs(&["in.mp4"]),
        output_file: "out.mp4".to_string(),
        video_settings: Some(VideoSettings::default()),
        audio_settings: Some(AudioSettings::default()),
        status,
        error_message: None,
    }
}

#[test]
fn file_fields_report_their_kind() {
    assert_eq!(subtitle_file_status(""), FileStatus::Missing);
    assert_eq!(subtitle_file_status("/subs/Movie.SRT"), FileStatus::Ready);
    assert_eq!(subtitle_file_status("/subs/movie.mp4"), FileStatus::WrongKind);
    assert_eq!(watermark_file_status("logo.JPEG"), FileStatus::Ready);
    assert_eq!(watermark_file_status("logo.svg"), FileStatus::WrongKind);
    assert_eq!(video_file_status("clip.m4v"), FileStatus::Ready);
    assert_eq!(video_file_status("clip.mp3"), FileStatus::WrongKind);
    assert_eq!(video_file_status(""), FileStatus::Missing);
}

#[test]
fn drops_are_taken_by_extension() {
    assert!(accepts_dropped_subtitle("/x/y.ASS"));
    assert!(!accepts_dropped_subtitle("/x/y.txt"));
    assert!(!accepts_dropped_subtitle("/x/srt"));
    assert!(accepts_dropped_image("a/b.Jpg"));
    assert!(!accepts_dropped_image("a/b.webp"));
    assert!(accepts_dropped_video("movie.WEBM"));
    assert!(!accepts_dropped_video("movie"));
}

#[test]
fn resolution_presets_follow_the_orientation() {
    let mut v = VideoSettings::default();
    v.apply_landscape_preset(ResolutionPreset::Hd720, Some(true));
    assert_eq!((v.width, v.height, v.resolution), (Some(720), Some(1280), (720, 1280)));
    v.apply_landscape_preset(ResolutionPreset::FullHd1080, None);
    assert_eq!((v.width, v.height, v.resolution), (Some(1920), Some(1080), (1920, 1080)));
    v.apply_landscape_preset(ResolutionPreset::Uhd4k, Some(false));
    assert_eq!(v.resolution, (3840, 2160));
    v.apply_portrait_preset(ResolutionPreset::Uhd4k);
    assert_eq!((v.width, v.height, v.resolution), (Some(2160), Some(3840), (2160, 3840)));
    assert_eq!(v.codec, "auto");
}

#[test]
fn size_fields_keep_the_resolution_in_step() {
    let mut v = VideoSettings::default();
    v.set_custom_width(640);
    assert_eq!((v.width, v.height, v.resolution), (Some(640), None, (0, 0)));
    v.set_custom_height(360);
    assert_eq!(v.resolution, (640, 360));
    v.set_custom_width(0);
    assert_eq!((v.width, v.resolution), (None, (640, 360)));
    v.set_custom_width(-5);
    assert_eq!(v.width, None);
    assert_eq!(field_value(12), Some(12));
    assert_eq!(field_value(0), None);
    v.set_crop_edge(CropEdge::Left, 16);
    v.set_crop_edge(CropEdge::Top, 0);
    assert_eq!((v.crop_left, v.crop_top), (Some(16), None));
    let mut g = VideoSettings::default();
    g.width = Some(500);
    g.ensure_gif_size();
    assert_eq!((g.width, g.height), (Some(500), Some(240)));
}

#[test]
fn panel_hints() {
    assert_eq!(format_hint("mkv", Language::English), "MKV: Supports multiple codecs and subtitles");
    assert_eq!(format_hint("mp4", Language::Chinese), "MP4: 最佳兼容性，适合播放和分享");
    assert_eq!(format_hint("flv", Language::English), "Choose format that suits your needs");
    assert_eq!(subtitle_mode_note("soft", Language::English), None);
    assert_eq!(
        subtitle_mode_note("hard", Language::English),
        Some("💡 Hard subtitles are permanently embedded and cannot be turned off")
    );
    assert_eq!(detected_size_line(1920, 1080, Some(false), Language::English), "🎯 Detected: 1920x1080 (Landscape)");
    assert_eq!(detected_size_line(720, 1280, Some(true), Language::Chinese), "🎯 检测到视频: 720x1280 (竖屏)");
    assert_eq!(frame_mode_note("time", Language::English), "Extract frames from specified time range");
    assert_eq!(frame_mode_note("all", Language::English), "Extract all frames from the video");
}

#[test]
fn split_panel_controls() {
    assert_eq!(
        split_controls("libx264", "pcm_s16le"),
        SplitControls { video_quality: true, video_preset: true, audio_bitrate: false }
    );
    assert_eq!(
        split_controls("copy", "aac"),
        SplitControls { video_quality: false, video_preset: false, audio_bitrate: true }
    );
    assert_eq!(
        split_controls("libvpx-vp9", "flac"),
        SplitControls { video_quality: true, video_preset: false, audio_bitrate: false }
    );
}

#[test]
fn shared_settings_sections() {
    assert_eq!(
        settings_sections(&OperationType::VideoConvert),
        SettingsSections { video: true, audio: false, stacked: true }
    );
    assert_eq!(
        settings_sections(&OperationType::VideoAudioMerge),
        SettingsSections { video: true, audio: true, stacked: false }
    );
    assert_eq!(
        settings_sections(&OperationType::AddWatermark),
        SettingsSections { video: false, audio: false, stacked: false }
    );
}

#[test]
fn batch_summary_lines() {
    let mut v = VideoSettings::default();
    v.container_format = "mkv".to_string();
    v.codec = "libx265".to_string();
    assert_eq!(
        batch_settings_preview(&v, Language::English),
        strs(&["📄 Output Format → mkv", "📄 Codec → libx265"])
    );
    v.batch_operation_type = "compress".to_string();
    v.target_size_mb = 50;
    assert_eq!(batch_settings_preview(&v, Language::English), strs(&["🎯 CRF: 23", "📏 Target Size: 50 MB"]));
    v.batch_operation_type = "resize".to_string();
    assert_eq!(
        batch_settings_preview(&v, Language::English),
        strs(&["⚠ Please set target size in \"Video Resize\" first"])
    );
    v.width = Some(1280);
    v.height = Some(720);
    assert_eq!(batch_settings_preview(&v, Language::Chinese), strs(&["📐 新尺寸: 1280x720"]));
    v.batch_operation_type = "rotate".to_string();
    v.rotation = 90;
    v.flip_horizontal = true;
    v.flip_vertical = true;
    assert_eq!(batch_settings_preview(&v, Language::English), strs(&["🔄 Rotation: 90°", "↔️ Flip H+V"]));
    v.batch_operation_type = "crop".to_string();
    v.crop_top = Some(10);
    assert_eq!(batch_settings_preview(&v, Language::English), strs(&["✂️ Crop: T:10 B:0 L:0 R:0"]));
    v.batch_operation_type = "filter".to_string();
    assert_eq!(
        batch_settings_preview(&v, Language::English),
        strs(&["⚠ Please set filter parameters in \"Video Filter\" first"])
    );
    v.denoise = true;
    v.stabilize = true;
    v.brightness = Level { text: "0.2".to_string(), neutral: false };
    assert_eq!(
        batch_settings_preview(&v, Language::English),
        strs(&["🎨 Filters: Denoise, Stabilize", "⚡ Color Adjust: B:0.2 C:1 S:1"])
    );
    v.batch_operation_type = "other".to_string();
    assert!(batch_settings_preview(&v, Language::English).is_empty());
}

#[test]
fn task_list_texts() {
    let en = Translations::new(Language::English);
    assert_eq!(clock_text(125), "2:05");
    assert_eq!(clock_text(3600), "60:00");
    assert_eq!(task_title(0, &OperationType::VideoConvert, &en), "Task 1: Video Format Conversion");
    assert_eq!(status_line(TaskStatus::Running, &en), "Status: Running");
    assert_eq!(task_button_label(TaskStatus::Running, &en), "Cancel");
    assert_eq!(task_button_label(TaskStatus::Failed, &en), "Delete");
    assert_eq!(elapsed_line(61, Language::English), "⏱ Elapsed: 1:01");
    assert_eq!(remaining_line(None, Language::English), "⏳ Calculating...");
    assert_eq!(remaining_line(Some(9), Language::Chinese), "⏳ 剩余时间: 0:09");
    assert_eq!(total_time_line(600, Language::English), "✅ Total Time: 10:00");
    assert_eq!(signed_text(-45), "-45");
    assert_eq!(signed_text(7), "7");
}

#[test]
fn dropped_files_join_the_list_once() {
    let mut files = strs(&["a.mp4", "b.mp4"]);
    add_dropped_files(&mut files, &strs(&["b.mp4", "c.mp4", "c.mp4"]), true);
    assert_eq!(files, strs(&["a.mp4", "b.mp4", "c.mp4"]));
    add_dropped_files(&mut files, &strs(&["d.mp4", "e.mp4"]), false);
    assert_eq!(files, strs(&["d.mp4"]));
    add_dropped_files(&mut files, &Vec::new(), false);
    assert_eq!(files, strs(&["d.mp4"]));
    assert_eq!(selection_text(&Vec::new(), true, true), "📁 Drop files here");
    assert_eq!(selection_text(&Vec::new(), false, false), "📁 Click to select file or drag & drop here");
    assert_eq!(selection_text(&strs(&["x", "y"]), true, false), "📁 2 files selected");
    assert_eq!(selection_text(&strs(&["/m/clip.mov"]), true, false), "📁 clip.mov");
    assert_eq!(selection_status(0, true), "⚠ Please select input files");
    assert_eq!(selection_status(3, true), "✅ 3 files ready");
    assert_eq!(selection_status(1, false), "✅ File ready");
}

#[test]
fn output_field_choices() {
    assert_eq!(OutputSelector::suggested_file_name(1700, "mkv"), "output_1700.mkv");
    assert_eq!(OutputSelector::output_for_dropped_location("/videos", true, 5, "mp4"), "/videos/output_5.mp4");
    assert_eq!(OutputSelector::output_for_dropped_location("/videos/a.avi", false, 5, "mp3"), "/videos/output_5.mp3");
    assert_eq!(OutputSelector::output_text("", true), "💾 Drop folder here to set output location");
    assert_eq!(OutputSelector::output_text("/o/final.mp4", false), "💾 final.mp4");
    assert_eq!(OutputSelector::output_status("", true), "⚠ Please select an output location");
    assert_eq!(OutputSelector::output_status("/o/x.mp4", false), "⚠ Output directory does not exist");
    assert_eq!(OutputSelector::output_status("/o/x.mp4", true), "✅ Output location ready");
}

#[test]
fn workflow_history_undo_and_redo() {
    let mut h: WorkflowHistory<&str> = WorkflowHistory::new(WORKFLOW_HISTORY_LIMIT);
    assert_eq!(h.snapshot(), None);
    assert!(!h.can_undo());
    h.save("one");
    h.save("two");
    h.save("three");
    assert_eq!(h.snapshot(), Some(&"three"));
    assert!(h.can_undo());
    assert!(!h.can_redo());
    assert!(h.undo());
    assert_eq!(h.snapshot(), Some(&"two"));
    assert!(h.can_redo());
    assert!(h.redo());
    assert_eq!(h.snapshot(), Some(&"three"));
    assert!(!h.redo());
    assert!(h.undo());
    assert!(h.undo());
    assert!(!h.undo());
    assert_eq!(h.snapshot(), Some(&"one"));
    h.save("four");
    assert_eq!(h.len(), 2);
    assert!(!h.can_redo());
    assert!(h.undo());
    assert_eq!(h.snapshot(), Some(&"one"));
}

#[test]
fn workflow_history_keeps_at_most_its_limit() {
    let mut h: WorkflowHistory<u32> = WorkflowHistory::new(3);
    for i in 0..5u32 {
        h.save(i);
    }
    assert_eq!(h.len(), 3);
    assert_eq!(h.snapshot(), Some(&4));
    assert!(h.undo());
    assert!(h.undo());
    assert_eq!(h.snapshot(), Some(&2));
    assert!(!h.undo());
}

#[test]
fn file_selection_in_the_session() {
    let mut s = Session::new(Language::English);
    s.current_operation = Some(OperationType::AddSubtitle);
    s.video_settings.container_format = "mkv".to_string();
    s.drop_dedicated_video("/films/notes.txt", "1_2");
    assert_eq!(s.dedicated_video_file, "");
    s.drop_dedicated_video("/films/movie.MP4", "1_2");
    assert_eq!(s.dedicated_video_file, "/films/movie.MP4");
    assert_eq!(s.output_file, "/films/output_1_2.mkv");

    let mut t = Session::new(Language::English);
    t.current_operation = Some(OperationType::VideoConvert);
    t.video_settings.container_format = "mp4".to_string();
    t.input_files = strs(&["/in/a.avi"]);
    t.refresh_output_after_selection(false, "9_9");
    assert_eq!(t.output_file, "");
    t.refresh_output_after_selection(true, "9_9");
    assert_eq!(t.output_file, "/in/output_9_9.mp4");
    t.output_file = "/mine/keep.mp4".to_string();
    t.refresh_output_after_selection(true, "1_1");
    assert_eq!(t.output_file, "/mine/keep.mp4");

    assert_eq!(t.is_portrait_video(), None);
    t.note_video_size(1080, 1920);
    assert_eq!(t.detected_resolution, Some((1080, 1920)));
    assert_eq!(t.is_portrait_video(), Some(true));

    let en = Translations::new(Language::English);
    assert!(allows_multiple_files(&OperationType::AudioMerge));
    assert!(!allows_multiple_files(&OperationType::VideoConvert));
    assert_eq!(input_files_label(&OperationType::BatchConvert, &en), "Batch Input Files");
    assert_eq!(input_files_label(&OperationType::VideoCrop, &en), "Input Files");
    assert_eq!(describe_file("a.mp4", "12.50", 1, 0), "File: a.mp4\nDuration: 12.50s\nVideo: 1 streams\nAudio: None");
}

#[test]
fn session_menus() {
    let mut s = Session::new(Language::English);
    s.status_message = "busy".to_string();
    s.change_language(Language::English);
    assert_eq!(s.status_message, "busy");
    s.change_language(Language::Chinese);
    assert_eq!(s.translations.language, Language::Chinese);
    assert_eq!(s.status_message, "就绪");
    s.video_settings.codec = "libx264".to_string();
    s.audio_settings.codec = "aac".to_string();
    s.reset_settings();
    assert_eq!((s.video_settings.codec.as_str(), s.audio_settings.codec.as_str()), ("auto", "auto"));
    s.output_file = "/o/Clip.MKV".to_string();
    assert_eq!(s.recommendation_format(&OperationType::VideoConvert), Some("mkv".to_string()));
    assert_eq!(s.recommendation_format(&OperationType::VideoToGif), None);
    s.output_file = "/o/clip".to_string();
    assert_eq!(s.recommendation_format(&OperationType::VideoConvert), None);
}

#[test]
fn warnings_hold_back_the_start_until_answered() {
    let c = CodecCatalog::standard();
    let mut s = Session::new(Language::English);
    s.current_operation = Some(OperationType::VideoConvert);
    s.video_settings.container_format = "webm".to_string();
    s.input_files = strs(&["/in/a.mp4"]);
    s.output_file = "/out/a.webm".to_string();
    let op = OperationType::VideoConvert;
    assert!(s.start_processing(&c, Some((true, true)), &op, "1_1").is_none());
    assert!(s.show_compatibility_warning);
    assert_eq!(s.compatibility_warning_context, CompatibilityWarningContext::StartProcessing(op));
    assert_eq!(s.next_task_id, 1);

    let resume = s.answer_compatibility_warning(WarningAnswer::ApplyRecommendation);
    assert_eq!(resume, CompatibilityWarningContext::StartProcessing(op));
    assert!(!s.show_compatibility_warning);
    assert_eq!(s.compatibility_warning_context, CompatibilityWarningContext::Idle);
    assert_eq!(s.audio_settings.codec, "libopus");

    let t = s.start_processing(&c, Some((true, true)), &op, "1_1").expect("compatible now");
    assert_eq!(t.id, 1);
    assert_eq!(t.output_file, "/out/a_1.webm");
    assert_eq!(s.next_task_id, 2);

    s.audio_settings.codec = "aac".to_string();
    assert!(!s.show_command_preview(&c, Some((true, true)), &op, false));
    assert_eq!(s.compatibility_warning_context, CompatibilityWarningContext::PreviewCommand(op));
    assert_eq!(s.answer_compatibility_warning(WarningAnswer::Cancel), CompatibilityWarningContext::Idle);
    assert_eq!(s.audio_settings.codec, "aac");
    assert!(!s.show_compatibility_warning);
    assert!(!s.show_command_preview(&c, Some((true, true)), &op, false));
    assert_eq!(
        s.answer_compatibility_warning(WarningAnswer::ContinueAnyway),
        CompatibilityWarningContext::PreviewCommand(op)
    );
    assert_eq!(s.audio_settings.codec, "aac");
}

#[test]
fn running_tasks_are_counted() {
    let mut e = TaskExecutor::new(vec![
        task(1, TaskStatus::Running),
        task(2, TaskStatus::Pending),
        task(3, TaskStatus::Completed),
    ]);
    assert_eq!(e.running_count(), 1);
    e.start();
    let _ = e.next_step();
    assert_eq!(e.running_count(), 2);
    assert!(e.keeps_simulating(2));
    assert!(!e.keeps_simulating(3));
    assert!(e.keeps_simulating(99));
}

#[test]
fn projects_round_trip_through_the_session() {
    let mut s = Session::new(Language::English);
    s.current_operation = Some(OperationType::AudioTrim);
    s.input_files = strs(&["/a/song.wav"]);
    s.output_file = "/a/cut.mp3".to_string();
    s.audio_settings.bitrate = "192k".to_string();
    let p = s.project_config();
    assert_eq!(p.current_operation, Some(OperationType::AudioTrim));
    assert_eq!(p.input_files, strs(&["/a/song.wav"]));

    s.note_project_saved(Ok(()));
    assert_eq!(s.status_message, "Project saved");
    s.note_project_saved(Err("disk full".to_string()));
    assert_eq!(s.status_message, "Save failed: disk full");

    let mut t = Session::new(Language::Chinese);
    t.load_project(Err("bad file".to_string()));
    assert_eq!(t.status_message, "加载失败: bad file");
    assert_eq!(t.current_operation, None);
    t.load_project(Ok(p));
    assert_eq!(t.status_message, "项目已加载");
    assert_eq!(t.current_operation, Some(OperationType::AudioTrim));
    assert_eq!(t.output_file, "/a/cut.mp3");
    assert_eq!(t.audio_settings.bitrate, "192k");

    let empty = ProjectConfig {
        current_operation: None,
        input_files: Vec::new(),
        output_file: String::new(),
        video_settings: VideoSettings::default(),
        audio_settings: AudioSettings::default(),
    };
    t.load_project(Ok(empty));
    assert_eq!(t.current_operation, None);
    assert!(t.input_files.is_empty());
}

#[test]
fn dropped_files_find_their_workflow_node() {
    let ins = strs(&["in_1", "in_2"]);
    let outs = strs(&["out_1"]);
    assert!(matches!(file_node_target(&Vec::new(), &Vec::new(), 0, None), FileNodeTarget::Ignored));
    assert!(matches!(file_node_target(&Vec::new(), &Vec::new(), 3, None), FileNodeTarget::NoFileNodes));
    match file_node_target(&ins, &outs, 4, Some("out_1")) {
        FileNodeTarget::Assign { id, output } => assert_eq!((id.as_str(), output), ("out_1", true)),
        _ => panic!("expected an assignment"),
    }
    match file_node_target(&ins, &outs, 4, Some("filter_9")) {
        FileNodeTarget::Assign { id, output } => assert_eq!((id.as_str(), output), ("in_1", false)),
        _ => panic!("expected an assignment"),
    }
    match file_node_target(&Vec::new(), &outs, 2, None) {
        FileNodeTarget::Assign { id, output } => assert_eq!((id.as_str(), output), ("out_1", true)),
        _ => panic!("expected an assignment"),
    }
    assert_eq!(file_parameter_name(true), "output_path");
    assert_eq!(assigned_status(false, "/v/clip.mp4"), "File assigned to Input node: clip.mp4");
    assert_eq!(check_workflow_runnable(0, true, true), Err("No nodes in workflow"));
    assert_eq!(check_workflow_runnable(2, false, true), Err("No input file node found"));
    assert_eq!(check_workflow_runnable(2, true, false), Err("No output file node found"));
    assert_eq!(check_workflow_runnable(2, true, true), Ok(()));
    assert_eq!(run_status(Err("boom".to_string())), "Workflow execution failed: boom");
}
