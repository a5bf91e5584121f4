//! The task queue and the decisions of the worker that runs it: which task
//! runs next, how its outcome is recorded, and what a task runs.
use vstd::prelude::*;
use crate::text::views;
use crate::settings::{ProcessingTask, OperationType, TaskStatus, ErrorKind, TaskError};
use crate::codecs::CodecCatalog;
use crate::preview::{reports, preview_outcome, previewable, preview_task};
use crate::commands::{
    Planned, StreamPresence, SubtitlePlan, Edit, subtitle_refusal, subtitle_plan_fits, split_video_args,
    split_audio_args, frame_extract_plan, frame_directory, video_convert_plan, audio_convert_plan,
    video_audio_merge_plan, extract_audio_plan, extract_video_plan, edit_plan, audio_trim_plan,
    audio_merge_plan, watermark_plan, video_to_gif_plan, gif_resize_plan, video_audio_split_args,
    add_subtitle_plan, frame_extract_args, frame_directory_of, video_convert_args, audio_convert_args,
    video_audio_merge_args, extract_audio_args, extract_video_args, edit_args, audio_trim_args,
    audio_merge_args, add_watermark_args, video_to_gif_args, gif_resize_args,
};

verus! {

/// The task list and whether the worker is to keep running.
#[derive(Debug)]
pub struct TaskExecutor {
    pub tasks: Vec<ProcessingTask>,
    pub running: bool,
}

/// What the worker does next.
#[derive(Clone, Copy, Debug, PartialEq, Eq, Structural)]
pub enum Step {
    /// The worker has been stopped.
    Stop,
    /// Nothing waits; look again shortly.
    Idle,
    /// Run the task at this index, now marked running.
    Run(usize),
}

/// The task with its status replaced.
pub open spec fn with_status(t: ProcessingTask, status: TaskStatus) -> ProcessingTask {
    ProcessingTask { status: status, ..t }
}

/// `i` is the index of the first pending task.
pub open spec fn is_first_pending(s: Seq<ProcessingTask>, i: int) -> bool {
    &&& 0 <= i < s.len()
    &&& s[i].status == TaskStatus::Pending
    &&& forall|j: int| 0 <= j < i ==> s[j].status != TaskStatus::Pending
}

/// Some task is pending.
pub open spec fn has_pending(s: Seq<ProcessingTask>) -> bool {
    exists|i: int| 0 <= i < s.len() && s[i].status == TaskStatus::Pending
}

/// The first pending task, if any.
pub open spec fn first_pending(s: Seq<ProcessingTask>) -> Option<int> {
    if has_pending(s) {
        Some(choose|i: int| is_first_pending(s, i))
    } else {
        None
    }
}

/// The worker's next step on a queue, and the queue after it.
pub open spec fn stepped(s: Seq<ProcessingTask>, running: bool) -> (Step, Seq<ProcessingTask>) {
    if !running {
        (Step::Stop, s)
    } else {
        match first_pending(s) {
            Some(i) => (Step::Run(i as usize), s.update(i, with_status(s[i], TaskStatus::Running))),
            None => (Step::Idle, s),
        }
    }
}

/// How many of the tasks are running.
pub open spec fn count_running(s: Seq<ProcessingTask>) -> nat
    decreases s.len(),
{
    if s.len() == 0 {
        0
    } else {
        count_running(s.drop_last()) + if s.last().status == TaskStatus::Running { 1nat } else { 0nat }
    }
}

/// `i` is the index of the first task with the id.
pub open spec fn is_first_with_id(s: Seq<ProcessingTask>, id: usize, i: int) -> bool {
    &&& 0 <= i < s.len()
    &&& s[i].id == id
    &&& forall|j: int| 0 <= j < i ==> s[j].id != id
}

/// The first task with the id, if any.
pub open spec fn find_id(s: Seq<ProcessingTask>, id: usize) -> Option<int> {
    if exists|i: int| 0 <= i < s.len() && s[i].id == id {
        Some(choose|i: int| is_first_with_id(s, id, i))
    } else {
        None
    }
}

/// A task settled by its run's outcome: completed with no error, or failed
/// with the error's message.
pub open spec fn settled(t: ProcessingTask, outcome: Result<(), String>) -> ProcessingTask {
    match outcome {
        Ok(_) => ProcessingTask { status: TaskStatus::Completed, error_message: None, ..t },
        Err(m) => ProcessingTask { status: TaskStatus::Failed, error_message: Some(m), ..t },
    }
}

/// The queue once a run's outcome is recorded on the first task with the id.
pub open spec fn recorded(s: Seq<ProcessingTask>, id: usize, outcome: Result<(), String>) -> Seq<ProcessingTask> {
    match find_id(s, id) {
        Some(i) => s.update(i, settled(s[i], outcome)),
        None => s,
    }
}

/// A task is done with: completed or failed.
pub open spec fn is_finished(t: ProcessingTask) -> bool {
    t.status == TaskStatus::Completed || t.status == TaskStatus::Failed
}

/// The tasks that are not done with, in order.
pub open spec fn unfinished(s: Seq<ProcessingTask>) -> Seq<ProcessingTask>
    decreases s.len(),
{
    if s.len() == 0 {
        s
    } else if is_finished(s.last()) {
        unfinished(s.drop_last())
    } else {
        unfinished(s.drop_last()).push(s.last())
    }
}

/// The queue after the button beside task `i` is pressed: a running task is
/// cancelled, any other is removed.
pub open spec fn pressed(s: Seq<ProcessingTask>, i: int) -> Seq<ProcessingTask> {
    if s[i].status == TaskStatus::Running {
        s.update(i, with_status(s[i], TaskStatus::Cancelled))
    } else {
        s.remove(i)
    }
}

/// The first task with the id.
fn index_of_id(tasks: &Vec<ProcessingTask>, id: usize) -> (r: Option<usize>)
    ensures
        match find_id(tasks@, id) {
            Some(i) => r matches Some(u) && u as int == i && is_first_with_id(tasks@, id, i),
            None => r is None,
        },
{
    let mut i: usize = 0;
    while i < tasks.len()
        invariant
            i <= tasks@.len(),
            forall|j: int| 0 <= j < i ==> tasks@[j].id != id,
        decreases tasks@.len() - i,
    {
        if tasks[i].id == id {
            proof {
                assert(is_first_with_id(tasks@, id, i as int));
                let k = choose|k: int| is_first_with_id(tasks@, id, k);
                assert(is_first_with_id(tasks@, id, k));
                assert(k == i);
            }
            return Some(i);
        }
        i = i + 1;
    }
    None
}

/// Replaces the status of the task at `i`.
fn set_status(tasks: &mut Vec<ProcessingTask>, i: usize, status: TaskStatus)
    requires
        i < old(tasks)@.len(),
    ensures
        final(tasks)@ == old(tasks)@.update(i as int, with_status(old(tasks)@[i as int], status)),
{
    let mut t = tasks.remove(i);
    t.status = status;
    tasks.insert(i, t);
    assert(tasks@ =~= old(tasks)@.update(i as int, with_status(old(tasks)@[i as int], status)));
}

impl TaskExecutor {
    /// A stopped worker over the tasks.
    pub fn new(tasks: Vec<ProcessingTask>) -> (r: TaskExecutor)
        ensures
            r.tasks@ == tasks@,
            !r.running,
    {
        TaskExecutor { tasks, running: false }
    }

    /// Lets the worker run.
    pub fn start(&mut self)
        ensures
            final(self).running,
            final(self).tasks@ == old(self).tasks@,
    {
        self.running = true;
    }

    /// Makes the worker stop at its next step.
    pub fn stop(&mut self)
        ensures
            !final(self).running,
            final(self).tasks@ == old(self).tasks@,
    {
        self.running = false;
    }

    /// How many tasks are running, as the status bar counts them.
    pub fn running_count(&self) -> (r: usize)
        ensures
            r == count_running(self.tasks@),
    {
        let mut n: usize = 0;
        let mut i: usize = 0;
        while i < self.tasks.len()
            invariant
                i <= self.tasks@.len(),
                n == count_running(self.tasks@.take(i as int)),
                n <= i,
            decreases self.tasks@.len() - i,
        {
            assert(self.tasks@.take(i + 1).drop_last() =~= self.tasks@.take(i as int));
            let running = match self.tasks[i].status {
                TaskStatus::Running => true,
                _ => false,
            };
            if running {
                n = n + 1;
            }
            i = i + 1;
        }
        assert(self.tasks@.take(self.tasks@.len() as int) =~= self.tasks@);
        n
    }

    /// Adds a task at the end of the queue.
    pub fn add_task(&mut self, task: ProcessingTask)
        ensures
            final(self).tasks@ == old(self).tasks@.push(task),
            final(self).running == old(self).running,
    {
        self.tasks.push(task);
    }

    /// The worker's next step: stop when stopped, else claim the first
    /// pending task and mark it running, else wait.
    pub fn next_step(&mut self) -> (r: Step)
        ensures
            (r, final(self).tasks@) == stepped(old(self).tasks@, old(self).running),
            final(self).running == old(self).running,
            r matches Step::Run(i) ==> is_first_pending(old(self).tasks@, i as int),
    {
        if !self.running {
            return Step::Stop;
        }
        let mut i: usize = 0;
        while i < self.tasks.len()
            invariant
                i <= self.tasks@.len(),
                self.running,
                self.running == old(self).running,
                self.tasks@ == old(self).tasks@,
                forall|j: int| 0 <= j < i ==> self.tasks@[j].status != TaskStatus::Pending,
            decreases self.tasks@.len() - i,
        {
            if self.tasks[i].status == TaskStatus::Pending {
                proof {
                    assert(is_first_pending(self.tasks@, i as int));
                    assert(has_pending(self.tasks@));
                    let k = choose|k: int| is_first_pending(self.tasks@, k);
                    assert(is_first_pending(self.tasks@, k));
                    assert(k == i);
                }
                set_status(&mut self.tasks, i, TaskStatus::Running);
                return Step::Run(i);
            }
            i = i + 1;
        }
        Step::Idle
    }

    /// Whether the first task with the id has been cancelled.
    pub fn is_cancelled(&self, id: usize) -> (r: bool)
        ensures
            r == (match find_id(self.tasks@, id) {
                Some(i) => self.tasks@[i].status == TaskStatus::Cancelled,
                None => false,
            }),
    {
        match index_of_id(&self.tasks, id) {
            Some(i) => self.tasks[i].status == TaskStatus::Cancelled,
            None => false,
        }
    }

    /// Whether the estimated progress of a task is still to be advanced:
    /// while the first task with the id runs, or while no such task is listed.
    pub fn keeps_simulating(&self, id: usize) -> (r: bool)
        ensures
            r == (match find_id(self.tasks@, id) {
                Some(i) => self.tasks@[i].status == TaskStatus::Running,
                None => true,
            }),
    {
        match index_of_id(&self.tasks, id) {
            Some(i) => self.tasks[i].status == TaskStatus::Running,
            None => true,
        }
    }

    /// Records a run's outcome on the first task with the id.
    pub fn record_outcome(&mut self, id: usize, outcome: Result<(), String>)
        ensures
            final(self).tasks@ == recorded(old(self).tasks@, id, outcome),
            final(self).running == old(self).running,
    {
        match index_of_id(&self.tasks, id) {
            Some(i) => {
                let mut t = self.tasks.remove(i);
                let ghost before = t;
                match outcome {
                    Ok(()) => {
                        t.status = TaskStatus::Completed;
                        t.error_message = None;
                    },
                    Err(m) => {
                        t.status = TaskStatus::Failed;
                        t.error_message = Some(m);
                    },
                }
                assert(t == settled(before, outcome));
                self.tasks.insert(i, t);
                assert(self.tasks@ =~= recorded(old(self).tasks@, id, outcome));
            },
            None => {},
        }
    }

    /// Removes the completed and failed tasks.
    pub fn clear_completed_tasks(&mut self)
        ensures
            final(self).tasks@ == unfinished(old(self).tasks@),
            final(self).running == old(self).running,
    {
        let ghost all = self.tasks@;
        let mut kept: Vec<ProcessingTask> = Vec::new();
        let mut rest: Vec<ProcessingTask> = Vec::new();
        std::mem::swap(&mut rest, &mut self.tasks);
        let ghost n = rest@.len();
        let _len = rest.len();
        assert(rest@ =~= all.skip(0));
        let mut k: usize = 0;
        while rest.len() > 0
            invariant
                n == all.len(),
                n <= usize::MAX,
                k + rest@.len() == n,
                rest@ == all.skip(k as int),
                kept@ == unfinished(all.take(k as int)),
            decreases rest@.len(),
        {
            let t = rest.remove(0);
            assert(all.take(k + 1).drop_last() =~= all.take(k as int));
            assert(all.take(k + 1).last() == all[k as int]);
            assert(all.skip(k + 1) =~= all.skip(k as int).drop_first());
            if !(t.status == TaskStatus::Completed || t.status == TaskStatus::Failed) {
                kept.push(t);
            }
            k = k + 1;
        }
        assert(all.take(n as int) =~= all);
        self.tasks = kept;
    }

    /// What the button beside task `i` does: cancels it when running,
    /// removes it otherwise.
    pub fn press_task_button(&mut self, i: usize)
        requires
            i < old(self).tasks@.len(),
        ensures
            final(self).tasks@ == pressed(old(self).tasks@, i as int),
            final(self).running == old(self).running,
    {
        if self.tasks[i].status == TaskStatus::Running {
            set_status(&mut self.tasks, i, TaskStatus::Cancelled);
        } else {
            let _removed = self.tasks.remove(i);
        }
    }

    /// The FFmpeg command a task would run, as shown to the user. Whether
    /// the watermark image exists is looked up by the caller.
    pub fn preview_command(c: &CodecCatalog, t: &ProcessingTask, watermark_exists: bool) -> (r: Result<String, TaskError>)
        requires
            previewable(*t),
        ensures
            reports(r, preview_outcome(*c, *t, watermark_exists)),
    {
        preview_task(c, t, watermark_exists)
    }
}

/// What the caller found out about a task's files before it runs.
#[derive(Debug)]
pub struct RunFacts {
    /// The codec of the input's first video stream, when a probe found one.
    pub input_codec: Option<String>,
    /// Which inputs of a merge hold video and audio.
    pub streams: StreamPresence,
    /// Whether the input video, the subtitle file and the watermark image exist.
    pub video_exists: bool,
    pub subtitle_exists: bool,
    pub watermark_exists: bool,
}

/// What running a task takes.
#[derive(Debug)]
pub enum RunPlan {
    /// One run of FFmpeg with these arguments.
    Run(Vec<String>),
    /// The directory to create, then the run for the picture and the run for the sound.
    Split { directory: String, video: Vec<String>, audio: Vec<String> },
    /// Adding subtitles, with a conversion of the subtitles first when needed.
    Subtitle(SubtitlePlan),
    /// The directory to create when there is one, then the extraction run.
    Frames { folder: Option<String>, args: Vec<String> },
    /// One task per input file, each built by `batch_step` and run in turn.
    Batch { files: usize },
}

/// The probed codec as a view.
pub open spec fn probed_view(f: RunFacts) -> Option<Seq<char>> {
    match f.input_codec {
        Some(c) => Some(c@),
        None => None,
    }
}

/// The single run an operation takes, for operations that take one.
pub open spec fn single_run(c: CodecCatalog, t: ProcessingTask, f: RunFacts) -> Option<Planned> {
    match t.operation {
        OperationType::VideoConvert | OperationType::VideoCompress | OperationType::VideoResize =>
            Some(video_convert_plan(c, t, probed_view(f))),
        OperationType::AudioConvert | OperationType::AudioCompress | OperationType::AudioResample
        | OperationType::AudioVolume => Some(audio_convert_plan(c, t)),
        OperationType::VideoAudioMerge => Some(video_audio_merge_plan(c, t, f.streams)),
        OperationType::ExtractAudio => Some(extract_audio_plan(c, t)),
        OperationType::ExtractVideo => Some(extract_video_plan(c, t)),
        OperationType::VideoCrop => Some(edit_plan(c, t, Edit::Crop)),
        OperationType::VideoRotate => Some(edit_plan(c, t, Edit::Rotate)),
        OperationType::VideoFilter => Some(edit_plan(c, t, Edit::Filter)),
        OperationType::AudioTrim => Some(audio_trim_plan(c, t)),
        OperationType::AudioMerge => Some(audio_merge_plan(c, t)),
        OperationType::AddWatermark => Some(watermark_plan(c, t, f.watermark_exists)),
        OperationType::VideoToGif => Some(video_to_gif_plan(t)),
        OperationType::GifResize => Some(gif_resize_plan(t)),
        _ => None,
    }
}

/// The refusal `r` is.
pub open spec fn refused(r: Result<RunPlan, TaskError>, k: ErrorKind, d: Seq<char>) -> bool {
    r matches Err(e) && e.kind == k && e.detail@ == d
}

/// `r` is what running the task takes, given the facts.
pub open spec fn runs_as(r: Result<RunPlan, TaskError>, c: CodecCatalog, t: ProcessingTask, f: RunFacts) -> bool {
    match single_run(c, t, f) {
        Some(Ok(a)) => r matches Ok(RunPlan::Run(v)) && views(v@) == a,
        Some(Err((k, d))) => refused(r, k, d),
        None => match t.operation {
            OperationType::VideoAudioSplit => if t.input_files@.len() == 0 {
                refused(r, ErrorKind::NoInputFiles, Seq::empty())
            } else {
                r matches Ok(RunPlan::Split { directory, video, audio }) && directory@ == t.output_file@
                    && views(video@) == split_video_args(t) && views(audio@) == split_audio_args(t)
            },
            OperationType::AddSubtitle => match subtitle_refusal(t, f.video_exists, f.subtitle_exists) {
                Some((k, d)) => refused(r, k, d),
                None => r matches Ok(RunPlan::Subtitle(p)) && subtitle_plan_fits(p, c, t),
            },
            OperationType::FrameExtract => match frame_extract_plan(t) {
                Err((k, d)) => refused(r, k, d),
                Ok(a) => r matches Ok(RunPlan::Frames { folder, args }) && views(args@) == a
                    && match folder {
                        Some(d) => frame_directory(t.output_file@) == Some(d@),
                        None => frame_directory(t.output_file@) is None,
                    },
            },
            _ => if t.input_files@.len() == 0 {
                refused(r, ErrorKind::NoInputFiles, Seq::empty())
            } else if t.video_settings is None {
                refused(r, ErrorKind::NoVideoSettings, Seq::empty())
            } else {
                r matches Ok(RunPlan::Batch { files }) && files == t.input_files@.len()
            },
        },
    }
}

/// A single run from arguments or a refusal.
fn single(r: Result<Vec<String>, TaskError>) -> (p: Result<RunPlan, TaskError>)
    ensures
        match r {
            Ok(v) => p matches Ok(RunPlan::Run(w)) && w@ == v@,
            Err(e) => p matches Err(e2) && e2.kind == e.kind && e2.detail@ == e.detail@,
        },
{
    match r {
        Ok(v) => Ok(RunPlan::Run(v)),
        Err(e) => Err(e),
    }
}

impl TaskExecutor {
    /// What running a task takes, given what was found out about its files.
    pub fn execute_task(c: &CodecCatalog, t: &ProcessingTask, f: &RunFacts) -> (r: Result<RunPlan, TaskError>)
        requires
            previewable(*t),
        ensures
            runs_as(r, *c, *t, *f),
    {
        match t.operation {
            OperationType::VideoConvert | OperationType::VideoCompress | OperationType::VideoResize => {
                let probed: Option<&str> = match &f.input_codec {
                    Some(s) => Some(s.as_str()),
                    None => None,
                };
                single(video_convert_args(c, t, probed))
            },
            OperationType::AudioConvert | OperationType::AudioCompress | OperationType::AudioResample
            | OperationType::AudioVolume => single(audio_convert_args(c, t)),
            OperationType::VideoAudioMerge => single(video_audio_merge_args(c, t, f.streams)),
            OperationType::ExtractAudio => single(extract_audio_args(c, t)),
            OperationType::ExtractVideo => single(extract_video_args(c, t)),
            OperationType::VideoCrop => single(edit_args(c, t, Edit::Crop)),
            OperationType::VideoRotate => single(edit_args(c, t, Edit::Rotate)),
            OperationType::VideoFilter => single(edit_args(c, t, Edit::Filter)),
            OperationType::AudioTrim => single(audio_trim_args(c, t)),
            OperationType::AudioMerge => single(audio_merge_args(c, t)),
            OperationType::AddWatermark => single(add_watermark_args(c, t, f.watermark_exists)),
            OperationType::VideoToGif => single(video_to_gif_args(t)),
            OperationType::GifResize => single(gif_resize_args(t)),
            OperationType::VideoAudioSplit => match video_audio_split_args(t) {
                Ok((video, audio)) => Ok(RunPlan::Split { directory: t.output_file.clone(), video, audio }),
                Err(e) => Err(e),
            },
            OperationType::AddSubtitle => match add_subtitle_plan(c, t, f.video_exists, f.subtitle_exists) {
                Ok(p) => Ok(RunPlan::Subtitle(p)),
                Err(e) => Err(e),
            },
            OperationType::FrameExtract => match frame_extract_args(t) {
                Ok(args) => Ok(RunPlan::Frames { folder: frame_directory_of(t.output_file.as_str()), args }),
                Err(e) => Err(e),
            },
            OperationType::BatchConvert => {
                if t.input_files.len() == 0 {
                    Err(TaskError::plain(ErrorKind::NoInputFiles))
                } else if t.video_settings.is_none() {
                    Err(TaskError::plain(ErrorKind::NoVideoSettings))
                } else {
                    Ok(RunPlan::Batch { files: t.input_files.len() })
                }
            },
        }
    }
}

// ----- laws of the queue -----

/// A stopped worker claims nothing and leaves the queue as it is.
pub proof fn lemma_stopped_worker_idles(s: Seq<ProcessingTask>)
    ensures
        stepped(s, false) == (Step::Stop, s),
{
}

/// A running worker claims a task exactly when one is pending: the first
/// pending one, now running; every other task stays as it was.
pub proof fn lemma_claim_first_pending(s: Seq<ProcessingTask>)
    requires
        s.len() <= usize::MAX,
    ensures
        has_pending(s) ==> {
            let (step, after) = stepped(s, true);
            &&& step matches Step::Run(i) && is_first_pending(s, i as int)
            &&& after.len() == s.len()
            &&& after[step->0 as int].status == TaskStatus::Running
            &&& forall|j: int| 0 <= j < s.len() && j != step->0 as int ==> after[j] == s[j]
        },
        !has_pending(s) ==> stepped(s, true) == (Step::Idle, s),
{
    if has_pending(s) {
        let w = choose|i: int| 0 <= i < s.len() && s[i].status == TaskStatus::Pending;
        lemma_first_pending_exists(s, w);
        let i = choose|i: int| is_first_pending(s, i);
        assert(is_first_pending(s, i));
        assert((i as usize) as int == i);
    }
}

/// Where some task is pending, a first one is.
proof fn lemma_first_pending_exists(s: Seq<ProcessingTask>, w: int)
    requires
        0 <= w < s.len(),
        s[w].status == TaskStatus::Pending,
    ensures
        exists|i: int| is_first_pending(s, i),
    decreases w,
{
    if forall|j: int| 0 <= j < w ==> s[j].status != TaskStatus::Pending {
        assert(is_first_pending(s, w));
    } else {
        let u = choose|j: int| 0 <= j < w && s[j].status == TaskStatus::Pending;
        lemma_first_pending_exists(s, u);
    }
}

/// Where some task has the id, a first one does.
proof fn lemma_first_with_id_exists(s: Seq<ProcessingTask>, id: usize, w: int)
    requires
        0 <= w < s.len(),
        s[w].id == id,
    ensures
        exists|i: int| is_first_with_id(s, id, i),
    decreases w,
{
    if forall|j: int| 0 <= j < w ==> s[j].id != id {
        assert(is_first_with_id(s, id, w));
    } else {
        let u = choose|j: int| 0 <= j < w && s[j].id == id;
        lemma_first_with_id_exists(s, id, u);
    }
}

/// A task claimed and then reported done ends completed with no error;
/// a task claimed and then reported failed ends failed with the report's
/// message. No other task changes, the queue keeps its length, and the
/// task keeps its id, operation, files and settings.
pub proof fn lemma_claim_then_record(s: Seq<ProcessingTask>, outcome: Result<(), String>)
    requires
        s.len() <= usize::MAX,
        has_pending(s),
        forall|a: int, b: int| 0 <= a < b < s.len() ==> s[a].id != s[b].id,
    ensures
        ({
            let (step, claimed) = stepped(s, true);
            let i = step->0 as int;
            let done = recorded(claimed, s[i].id, outcome);
            &&& done.len() == s.len()
            &&& done[i] == settled(s[i], outcome)
            &&& (outcome is Ok ==> done[i].status == TaskStatus::Completed && done[i].error_message is None)
            &&& (outcome matches Err(m) ==> done[i].status == TaskStatus::Failed && done[i].error_message == Some(m))
            &&& forall|j: int| 0 <= j < s.len() && j != i ==> done[j] == s[j]
        }),
{
    lemma_claim_first_pending(s);
    let (step, claimed) = stepped(s, true);
    let i = step->0 as int;
    let id = s[i].id;
    assert(claimed[i].id == id);
    lemma_first_with_id_exists(claimed, id, i);
    let k = choose|k: int| is_first_with_id(claimed, id, k);
    assert(is_first_with_id(claimed, id, k));
    if k != i {
        assert(claimed[k] == s[k]);
    }
    assert(k == i);
    assert(settled(claimed[i], outcome) == settled(s[i], outcome));
}

/// Clearing keeps no finished task and every unfinished one, in order;
/// clearing again changes nothing.
pub proof fn lemma_clear_keeps_unfinished(s: Seq<ProcessingTask>)
    ensures
        forall|j: int| 0 <= j < unfinished(s).len() ==> !is_finished(#[trigger] unfinished(s)[j]),
        unfinished(unfinished(s)) == unfinished(s),
        unfinished(s).len() <= s.len(),
    decreases s.len(),
{
    if s.len() > 0 {
        lemma_clear_keeps_unfinished(s.drop_last());
        let u = unfinished(s.drop_last());
        if !is_finished(s.last()) {
            assert(u.push(s.last()).drop_last() =~= u);
        }
    }
}

/// The button beside a running task cancels it and keeps every other task;
/// beside any other task it removes just that one.
pub proof fn lemma_button(s: Seq<ProcessingTask>, i: int)
    requires
        0 <= i < s.len(),
    ensures
        s[i].status == TaskStatus::Running ==> pressed(s, i).len() == s.len()
            && pressed(s, i)[i].status == TaskStatus::Cancelled
            && forall|j: int| 0 <= j < s.len() && j != i ==> pressed(s, i)[j] == s[j],
        s[i].status != TaskStatus::Running ==> pressed(s, i).len() == s.len() - 1
            && forall|j: int| 0 <= j < i ==> pressed(s, i)[j] == s[j],
{
}

/// Replacing one task changes the running count by what the two tasks add.
proof fn lemma_count_after_update(s: Seq<ProcessingTask>, i: int, t: ProcessingTask)
    requires
        0 <= i < s.len(),
    ensures
        count_running(s.update(i, t)) + (if s[i].status == TaskStatus::Running { 1int } else { 0int })
            == count_running(s) + (if t.status == TaskStatus::Running { 1int } else { 0int }),
    decreases s.len(),
{
    let u = s.update(i, t);
    if i == s.len() - 1 {
        assert(u.drop_last() =~= s.drop_last());
    } else {
        assert(u.drop_last() =~= s.drop_last().update(i, t));
        lemma_count_after_update(s.drop_last(), i, t);
    }
}

/// A running worker that claims a task has one more task running.
pub proof fn lemma_claim_adds_running(s: Seq<ProcessingTask>)
    requires
        s.len() <= usize::MAX,
        has_pending(s),
    ensures
        count_running(stepped(s, true).1) == count_running(s) + 1,
{
    lemma_claim_first_pending(s);
    let (step, after) = stepped(s, true);
    let i = step->0 as int;
    lemma_count_after_update(s, i, with_status(s[i], TaskStatus::Running));
}


/// No task goes back to waiting: the queue keeps its length, and a task that
/// is not pending stays not pending.
pub open spec fn keeps_progress(before: Seq<ProcessingTask>, after: Seq<ProcessingTask>) -> bool {
    &&& after.len() == before.len()
    &&& forall|j: int| 0 <= j < before.len() && before[j].status != TaskStatus::Pending
        ==> after[j].status != TaskStatus::Pending
}

/// Neither of the worker's steps, claiming a task or recording an outcome,
/// puts a task back to waiting.
pub proof fn lemma_worker_never_reopens(s: Seq<ProcessingTask>, running: bool, id: usize, outcome: Result<(), String>)
    requires
        s.len() <= usize::MAX,
    ensures
        keeps_progress(s, stepped(s, running).1),
        keeps_progress(s, recorded(s, id, outcome)),
{
    if running {
        lemma_claim_first_pending(s);
    }
    if exists|w: int| 0 <= w < s.len() && s[w].id == id {
        let w = choose|w: int| 0 <= w < s.len() && s[w].id == id;
        lemma_first_with_id_exists(s, id, w);
        let i = choose|i: int| is_first_with_id(s, id, i);
        assert(is_first_with_id(s, id, i));
        assert(recorded(s, id, outcome) == s.update(i, settled(s[i], outcome)));
    }
}

/// One round of the worker, on a queue where no task runs: it claims the
/// first pending task, which is then the only one running; once the run's
/// outcome is recorded the task is completed or failed and no task runs
/// again. So between rounds no task runs, the worker runs one task at a
/// time, and no task goes back to waiting.
pub proof fn lemma_worker_round(s: Seq<ProcessingTask>, outcome: Result<(), String>)
    requires
        s.len() <= usize::MAX,
        has_pending(s),
        forall|a: int, b: int| 0 <= a < b < s.len() ==> s[a].id != s[b].id,
        count_running(s) == 0,
    ensures
        ({
            let (step, claimed) = stepped(s, true);
            let i = step->0 as int;
            let done = recorded(claimed, s[i].id, outcome);
            &&& step is Run
            &&& is_first_pending(s, i)
            &&& claimed[i].status == TaskStatus::Running
            &&& count_running(claimed) == 1
            &&& is_finished(done[i])
            &&& count_running(done) == 0
            &&& keeps_progress(s, claimed)
            &&& keeps_progress(claimed, done)
        }),
{
    lemma_claim_first_pending(s);
    lemma_claim_adds_running(s);
    lemma_claim_then_record(s, outcome);
    let (step, claimed) = stepped(s, true);
    let i = step->0 as int;
    let done = recorded(claimed, s[i].id, outcome);
    assert(done =~= s.update(i, settled(s[i], outcome)));
    lemma_count_after_update(s, i, settled(s[i], outcome));
    lemma_worker_never_reopens(s, true, 0, outcome);
    lemma_worker_never_reopens(claimed, true, s[i].id, outcome);
}


/// No two tasks share an id.
pub open spec fn distinct_ids(s: Seq<ProcessingTask>) -> bool {
    forall|a: int, b: int| 0 <= a < b < s.len() ==> s[a].id != s[b].id
}

/// The queue after the worker has run rounds with these outcomes in turn:
/// each round claims the first pending task and records its outcome; the
/// worker stops when no task is pending.
pub open spec fn after_rounds(s: Seq<ProcessingTask>, outcomes: Seq<Result<(), String>>) -> Seq<ProcessingTask>
    decreases outcomes.len(),
{
    if outcomes.len() == 0 || !has_pending(s) {
        s
    } else {
        let (step, claimed) = stepped(s, true);
        after_rounds(recorded(claimed, s[step->0 as int].id, outcomes[0]), outcomes.drop_first())
    }
}

/// Over any number of rounds of the worker, started on a queue with distinct
/// ids and no task running: no task is running between rounds (so at most
/// one runs at a time, by `lemma_worker_round`), no task ever goes back to
/// waiting, and the queue keeps its length and its distinct ids.
pub proof fn lemma_worker_rounds(s: Seq<ProcessingTask>, outcomes: Seq<Result<(), String>>)
    requires
        s.len() <= usize::MAX,
        distinct_ids(s),
        count_running(s) == 0,
    ensures
        count_running(after_rounds(s, outcomes)) == 0,
        keeps_progress(s, after_rounds(s, outcomes)),
        distinct_ids(after_rounds(s, outcomes)),
    decreases outcomes.len(),
{
    if outcomes.len() > 0 && has_pending(s) {
        lemma_worker_round(s, outcomes[0]);
        lemma_claim_then_record(s, outcomes[0]);
        let (step, claimed) = stepped(s, true);
        let i = step->0 as int;
        let done = recorded(claimed, s[i].id, outcomes[0]);
        assert(done =~= s.update(i, settled(s[i], outcomes[0])));
        assert forall|a: int, b: int| 0 <= a < b < done.len() implies done[a].id != done[b].id by {
            assert(done[a].id == s[a].id);
            assert(done[b].id == s[b].id);
        }
        lemma_worker_rounds(done, outcomes.drop_first());
        let fin = after_rounds(done, outcomes.drop_first());
        assert(fin == after_rounds(s, outcomes));
        assert forall|j: int| 0 <= j < s.len() && s[j].status != TaskStatus::Pending
            implies fin[j].status != TaskStatus::Pending by {
            assert(claimed[j].status != TaskStatus::Pending);
            assert(done[j].status != TaskStatus::Pending);
        }
    }
}

} // verus!
