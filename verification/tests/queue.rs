use ffmpeg_gui::codecs::CodecCatalog;
use ffmpeg_gui::commands::StreamPresence;
use ffmpeg_gui::executor::{RunFacts, RunPlan, Step, TaskExecutor};
use ffmpeg_gui::settings::{AudioSettings, ErrorKind, OperationType, ProcessingTask, TaskStatus, VideoSettings};

fn task(id: usize, status: TaskStatus) -> ProcessingTask {
    ProcessingTask {
        id,
        operation: OperationType::ExtractAudio,
        input_files: vec!["in.mp4".to_string()],
        output_file: "out.mp3".to_string(),
        video_settings: Some(VideoSettings::default()),
        audio_settings: Some(AudioSettings::default()),
        status,
        error_message: None,
    }
}

fn facts() -> RunFacts {
    RunFacts {
        input_codec: None,
        streams: StreamPresence { first_video: true, first_audio: true, second_video: false, second_audio: true },
        video_exists: true,
        subtitle_exists: true,
        watermark_exists: true,
    }
}

#[test]
fn worker_claims_pending_tasks_in_order() {
    let mut ex = TaskExecutor::new(vec![
        task(1, TaskStatus::Completed),
        task(2, TaskStatus::Pending),
        task(3, TaskStatus::Pending),
    ]);
    assert_eq!(ex.next_step(), Step::Stop);
    ex.start();
    assert_eq!(ex.next_step(), Step::Run(1));
    assert_eq!(ex.tasks[1].status, TaskStatus::Running);
    assert_eq!(ex.tasks[2].status, TaskStatus::Pending);
    ex.record_outcome(2, Ok(()));
    assert_eq!(ex.tasks[1].status, TaskStatus::Completed);
    assert_eq!(ex.tasks[1].error_message, None);
    assert_eq!(ex.next_step(), Step::Run(2));
    ex.record_outcome(3, Err("FFmpeg execution failed: boom".to_string()));
    assert_eq!(ex.tasks[2].status, TaskStatus::Failed);
    assert_eq!(ex.tasks[2].error_message, Some("FFmpeg execution failed: boom".to_string()));
    assert_eq!(ex.next_step(), Step::Idle);
    ex.stop();
    assert_eq!(ex.next_step(), Step::Stop);
}

#[test]
fn recording_an_unknown_id_changes_nothing() {
    let mut ex = TaskExecutor::new(vec![task(1, TaskStatus::Running)]);
    ex.record_outcome(9, Ok(()));
    assert_eq!(ex.tasks[0].status, TaskStatus::Running);
    assert!(!ex.is_cancelled(1));
    assert!(!ex.is_cancelled(9));
}

#[test]
fn clearing_keeps_unfinished_tasks() {
    let mut ex = TaskExecutor::new(vec![
        task(1, TaskStatus::Completed),
        task(2, TaskStatus::Pending),
        task(3, TaskStatus::Failed),
        task(4, TaskStatus::Cancelled),
        task(5, TaskStatus::Running),
    ]);
    ex.clear_completed_tasks();
    let ids: Vec<usize> = ex.tasks.iter().map(|t| t.id).collect();
    assert_eq!(ids, vec![2, 4, 5]);
    ex.clear_completed_tasks();
    assert_eq!(ex.tasks.len(), 3);
}

#[test]
fn task_button_cancels_running_and_removes_others() {
    let mut ex = TaskExecutor::new(vec![task(1, TaskStatus::Running), task(2, TaskStatus::Pending)]);
    ex.press_task_button(0);
    assert_eq!(ex.tasks[0].status, TaskStatus::Cancelled);
    assert!(ex.is_cancelled(1));
    ex.press_task_button(1);
    assert_eq!(ex.tasks.len(), 1);
    ex.add_task(task(3, TaskStatus::Pending));
    assert_eq!(ex.tasks[1].id, 3);
}

#[test]
fn execute_task_plans_a_run() {
    let c = CodecCatalog::standard();
    let t = task(1, TaskStatus::Running);
    match TaskExecutor::execute_task(&c, &t, &facts()).unwrap() {
        RunPlan::Run(args) => assert_eq!(args[args.len() - 1], "out.mp3"),
        other => panic!("unexpected plan {:?}", other),
    }
    let mut split = task(2, TaskStatus::Running);
    split.operation = OperationType::VideoAudioSplit;
    split.output_file = "/parts".to_string();
    match TaskExecutor::execute_task(&c, &split, &facts()).unwrap() {
        RunPlan::Split { directory, video, audio } => {
            assert_eq!(directory, "/parts");
            assert_eq!(video[video.len() - 1], "/parts/in_video.mp4");
            assert_eq!(audio[audio.len() - 1], "/parts/in_audio.wav");
        },
        other => panic!("unexpected plan {:?}", other),
    }
    let mut batch = task(3, TaskStatus::Running);
    batch.operation = OperationType::BatchConvert;
    batch.input_files = vec!["a.avi".to_string(), "b.avi".to_string()];
    match TaskExecutor::execute_task(&c, &batch, &facts()).unwrap() {
        RunPlan::Batch { files } => assert_eq!(files, 2),
        other => panic!("unexpected plan {:?}", other),
    }
    batch.video_settings = None;
    assert_eq!(TaskExecutor::execute_task(&c, &batch, &facts()).unwrap_err().kind, ErrorKind::NoVideoSettings);
}

#[test]
fn video_conversion_run_reports_progress_and_accelerates() {
    let c = CodecCatalog::standard();
    let mut t = task(4, TaskStatus::Running);
    t.operation = OperationType::VideoConvert;
    t.output_file = "clip.mkv".to_string();
    t.video_settings.as_mut().unwrap().codec = "libx265".to_string();
    t.video_settings.as_mut().unwrap().use_hardware_acceleration = true;
    let mut f = facts();
    f.input_codec = Some("h264".to_string());
    match TaskExecutor::execute_task(&c, &t, &f).unwrap() {
        RunPlan::Run(args) => {
            let expected: Vec<String> = [
                "-hwaccel", "auto", "-v", "info", "-hide_banner", "-stats", "-nostdin", "-progress", "pipe:2",
                "-i", "in.mp4", "-y", "-c:v", "libx265", "-c:a", "aac", "clip.mp4",
            ]
            .iter()
            .map(|s| s.to_string())
            .collect();
            assert_eq!(args, expected);
        },
        other => panic!("unexpected plan {:?}", other),
    }
}
