//! The state of one editing session: the chosen operation, its files and
//! settings, and the decisions made on them before a task is queued.
use vstd::prelude::*;
use crate::text::{
    views, owned, cat, cat3, same_text, is_blank, has_prefix, has_char, has_suffix, occurs_at,
    copy_texts, decimal, decimal_text, contains, contains_text, lowercase, to_lower, replace_all,
    replace_text, uppercase, to_upper,
};
use crate::paths::{
    lemma_file_name_of_join,
    file_name, extension, file_stem, parent, join_path, extension_lower, path_file_name,
    path_extension, path_file_stem, path_parent, path_join, path_extension_lower,
};
use crate::language::{Language, Translations, pick};
use crate::settings::{
    OperationType, TaskStatus, ProcessingTask, VideoSettings, AudioSettings, is_default_video,
    is_default_audio, same_video, same_audio,
};
use crate::codecs::{CodecCatalog, compatible, best_video, best_audio};
use crate::preview::{preview_outcome, preview_task};
use crate::settings::error_message;
use crate::panels::{video_extension, accepts_dropped_video};

verus! {

/// The groups of operations whose files the session keeps apart.
#[derive(Clone, Copy, Debug, PartialEq, Eq, Structural)]
pub enum Category {
    Video,
    Audio,
    VideoAudio,
    Batch,
    Advanced,
}

/// The group an operation belongs to.
pub open spec fn category_of(op: OperationType) -> Category {
    match op {
        OperationType::VideoConvert | OperationType::VideoCompress | OperationType::VideoResize
        | OperationType::VideoCrop | OperationType::VideoRotate | OperationType::VideoFilter
        | OperationType::ExtractVideo => Category::Video,
        OperationType::AudioConvert | OperationType::AudioCompress | OperationType::AudioResample
        | OperationType::AudioVolume | OperationType::AudioTrim | OperationType::AudioMerge
        | OperationType::ExtractAudio => Category::Audio,
        OperationType::VideoAudioMerge | OperationType::VideoAudioSplit => Category::VideoAudio,
        OperationType::BatchConvert => Category::Batch,
        _ => Category::Advanced,
    }
}

/// The group an operation belongs to.
pub fn get_operation_category(op: &OperationType) -> (r: Category)
    ensures
        r == category_of(*op),
{
    match op {
        OperationType::VideoConvert | OperationType::VideoCompress | OperationType::VideoResize
        | OperationType::VideoCrop | OperationType::VideoRotate | OperationType::VideoFilter
        | OperationType::ExtractVideo => Category::Video,
        OperationType::AudioConvert | OperationType::AudioCompress | OperationType::AudioResample
        | OperationType::AudioVolume | OperationType::AudioTrim | OperationType::AudioMerge
        | OperationType::ExtractAudio => Category::Audio,
        OperationType::VideoAudioMerge | OperationType::VideoAudioSplit => Category::VideoAudio,
        OperationType::BatchConvert => Category::Batch,
        _ => Category::Advanced,
    }
}

impl OperationType {
    /// The operation's name in the interface language.
    pub fn display_name(&self, t: &Translations) -> (r: &'static str)
        ensures
            r@ == operation_name(*self, t.language),
    {
        match self {
            OperationType::VideoConvert => t.video_convert(),
            OperationType::VideoCompress => t.video_compress(),
            OperationType::VideoResize => t.video_resize(),
            OperationType::VideoCrop => t.video_crop(),
            OperationType::VideoRotate => t.video_rotate(),
            OperationType::VideoFilter => t.video_filter(),
            OperationType::AudioConvert => t.audio_convert(),
            OperationType::AudioCompress => t.audio_compress(),
            OperationType::AudioResample => t.audio_resample(),
            OperationType::AudioVolume => t.audio_volume(),
            OperationType::AudioTrim => t.audio_trim(),
            OperationType::AudioMerge => t.audio_merge(),
            OperationType::VideoAudioMerge => t.video_audio_merge(),
            OperationType::VideoAudioSplit => t.video_audio_split(),
            OperationType::ExtractAudio => t.extract_audio(),
            OperationType::ExtractVideo => t.extract_video(),
            OperationType::BatchConvert => t.batch_convert(),
            OperationType::AddSubtitle => t.add_subtitle(),
            OperationType::AddWatermark => t.add_watermark(),
            OperationType::FrameExtract => t.frame_extract(),
            OperationType::VideoToGif => t.video_to_gif(),
            OperationType::GifResize => t.gif_resize(),
        }
    }
}

/// An operation's name in a language.
pub open spec fn operation_name(op: OperationType, lang: Language) -> Seq<char> {
    match op {
        OperationType::VideoConvert => pick(lang, "视频格式转换"@, "Video Format Conversion"@),
        OperationType::VideoCompress => pick(lang, "视频压缩"@, "Video Compression"@),
        OperationType::VideoResize => pick(lang, "视频缩放"@, "Video Resize"@),
        OperationType::VideoCrop => pick(lang, "视频裁剪"@, "Video Crop"@),
        OperationType::VideoRotate => pick(lang, "视频旋转"@, "Video Rotate"@),
        OperationType::VideoFilter => pick(lang, "视频滤镜"@, "Video Filter"@),
        OperationType::AudioConvert => pick(lang, "音频格式转换"@, "Audio Format Conversion"@),
        OperationType::AudioCompress => pick(lang, "音频压缩"@, "Audio Compression"@),
        OperationType::AudioResample => pick(lang, "音频重采样"@, "Audio Resample"@),
        OperationType::AudioVolume => pick(lang, "音量调整"@, "Volume Adjustment"@),
        OperationType::AudioTrim => pick(lang, "音频裁剪"@, "Audio Trim"@),
        OperationType::AudioMerge => pick(lang, "音频合并"@, "Audio Merge"@),
        OperationType::VideoAudioMerge => pick(lang, "音视频合成"@, "Video/Audio Merge"@),
        OperationType::VideoAudioSplit => pick(lang, "音视频分离"@, "Video/Audio Split"@),
        OperationType::ExtractAudio => pick(lang, "提取音频"@, "Extract Audio"@),
        OperationType::ExtractVideo => pick(lang, "提取视频"@, "Extract Video"@),
        OperationType::BatchConvert => pick(lang, "批量转换"@, "Batch Convert"@),
        OperationType::AddSubtitle => pick(lang, "添加字幕"@, "Add Subtitle"@),
        OperationType::AddWatermark => pick(lang, "添加水印"@, "Add Watermark"@),
        OperationType::FrameExtract => pick(lang, "提取帧"@, "Extract Frames"@),
        OperationType::VideoToGif => pick(lang, "视频转GIF"@, "Video to GIF"@),
        OperationType::GifResize => pick(lang, "GIF尺寸调整"@, "GIF Resize"@),
    }
}

/// What waits on the answer to a compatibility warning: nothing, queueing
/// an operation, or previewing its command.
#[derive(Clone, Copy, Debug, PartialEq, Eq, Structural)]
pub enum CompatibilityWarningContext {
    Idle,
    StartProcessing(OperationType),
    PreviewCommand(OperationType),
}

/// What the session holds: the chosen operation, the files of the current
/// group and those kept for each other group, the settings, the next task's
/// id, the messages shown, and the compatibility warning waiting for the user.
#[derive(Debug)]
pub struct Session {
    pub current_operation: Option<OperationType>,
    pub input_files: Vec<String>,
    pub output_file: String,
    pub dedicated_video_file: String,
    pub video_input_files: Vec<String>,
    pub video_output_file: String,
    pub audio_input_files: Vec<String>,
    pub audio_output_file: String,
    pub batch_input_files: Vec<String>,
    pub batch_output_file: String,
    pub current_category: Option<Category>,
    pub video_settings: VideoSettings,
    pub audio_settings: AudioSettings,
    pub next_task_id: usize,
    pub status_message: String,
    pub file_info: String,
    pub translations: Translations,
    pub show_compatibility_warning: bool,
    pub compatibility_warning_message: String,
    pub compatibility_recommended_codec: Option<String>,
    pub compatibility_recommended_format: Option<String>,
    pub last_container_format: String,
    pub detected_resolution: Option<(u32, u32)>,
    pub command_preview: String,
    pub compatibility_warning_context: CompatibilityWarningContext,
}

/// The files a group keeps while another is shown; none for groups that keep none.
pub open spec fn kept_files(s: Session, c: Category) -> Option<(Seq<Seq<char>>, Seq<char>)> {
    match c {
        Category::Video => Some((views(s.video_input_files@), s.video_output_file@)),
        Category::Audio => Some((views(s.audio_input_files@), s.audio_output_file@)),
        Category::Batch => Some((views(s.batch_input_files@), s.batch_output_file@)),
        _ => None,
    }
}

/// A fresh session in a language: nothing chosen, fresh settings, task ids
/// from one, and the ready message.
pub open spec fn is_fresh(s: Session, lang: Language) -> bool {
    &&& s.current_operation is None
    &&& s.input_files@.len() == 0
    &&& s.output_file@.len() == 0
    &&& s.dedicated_video_file@.len() == 0
    &&& s.video_input_files@.len() == 0 && s.video_output_file@.len() == 0
    &&& s.audio_input_files@.len() == 0 && s.audio_output_file@.len() == 0
    &&& s.batch_input_files@.len() == 0 && s.batch_output_file@.len() == 0
    &&& s.current_category is None
    &&& is_default_video(s.video_settings)
    &&& is_default_audio(s.audio_settings)
    &&& s.next_task_id == 1
    &&& s.status_message@ == pick(lang, "就绪"@, "Ready"@)
    &&& s.file_info@.len() == 0
    &&& s.translations.language == lang
    &&& !s.show_compatibility_warning
    &&& s.compatibility_warning_message@.len() == 0
    &&& s.compatibility_recommended_codec is None
    &&& s.compatibility_recommended_format is None
    &&& s.last_container_format@.len() == 0
    &&& s.detected_resolution is None
    &&& s.command_preview@.len() == 0
    &&& s.compatibility_warning_context == CompatibilityWarningContext::Idle
}

/// The extension an operation's output gets from the settings.
pub open spec fn output_extension_for(op: Option<OperationType>, v: VideoSettings, a: AudioSettings) -> Seq<char> {
    match op {
        Some(op) => match op {
            OperationType::VideoConvert | OperationType::VideoCompress | OperationType::VideoResize
            | OperationType::VideoCrop | OperationType::VideoRotate | OperationType::VideoFilter
            | OperationType::AddSubtitle | OperationType::AddWatermark => v.container_format@,
            OperationType::AudioConvert | OperationType::AudioCompress | OperationType::AudioResample
            | OperationType::AudioVolume | OperationType::AudioTrim | OperationType::AudioMerge => a.format@,
            OperationType::FrameExtract => v.frame_format@,
            OperationType::VideoToGif | OperationType::GifResize => "gif"@,
            _ => "mp4"@,
        },
        None => "mp4"@,
    }
}

/// A name the session gave an output: `output_` followed by a stamp and an extension.
pub open spec fn is_generated_name(path: Seq<char>) -> bool {
    match file_name(path) {
        Some(n) => occurs_at(n, 0, "output_"@) && has_char(n, '.'),
        None => false,
    }
}

/// `output_stamp.ext` beside `file`, when `file` lies in a directory.
pub open spec fn generated_output(file: Seq<char>, stamp: Seq<char>, ext: Seq<char>) -> Option<Seq<char>> {
    match parent(file) {
        Some(d) => Some(join_path(d, "output_"@ + stamp + "."@ + ext)),
        None => None,
    }
}

/// The time stamp of a generated name: milliseconds, then a number below a thousand.
pub open spec fn stamp(millis: u64, random: u128) -> Seq<char> {
    decimal(millis as nat) + "_"@ + decimal((random % 1000) as nat)
}

/// Media and subtitle files by their extension, in any case.
pub open spec fn is_media_name(path: Seq<char>) -> bool {
    match extension(path) {
        Some(e) => {
            let x = lowercase(e);
            ||| x == "mp4"@ || x == "avi"@ || x == "mov"@ || x == "mkv"@ || x == "wmv"@ || x == "flv"@
            ||| x == "webm"@ || x == "3gp"@ || x == "ogv"@ || x == "mp3"@ || x == "wav"@ || x == "flac"@
            ||| x == "aac"@ || x == "ogg"@ || x == "wma"@ || x == "opus"@ || x == "m4a"@ || x == "jpg"@
            ||| x == "jpeg"@ || x == "png"@ || x == "gif"@ || x == "bmp"@ || x == "tiff"@ || x == "webp"@
            ||| x == "srt"@ || x == "ass"@ || x == "ssa"@ || x == "vtt"@ || x == "sub"@
        },
        None => false,
    }
}

/// Whether the file is a media or subtitle file, by its extension.
pub fn is_media_file(file_path: &str) -> (r: bool)
    ensures
        r == is_media_name(file_path@),
{
    match path_extension(file_path) {
        None => false,
        Some(e) => {
            let x = to_lower(e.as_str());
            let x = x.as_str();
            same_text(x, "mp4") || same_text(x, "avi") || same_text(x, "mov") || same_text(x, "mkv")
                || same_text(x, "wmv") || same_text(x, "flv") || same_text(x, "webm") || same_text(x, "3gp")
                || same_text(x, "ogv") || same_text(x, "mp3") || same_text(x, "wav") || same_text(x, "flac")
                || same_text(x, "aac") || same_text(x, "ogg") || same_text(x, "wma") || same_text(x, "opus")
                || same_text(x, "m4a") || same_text(x, "jpg") || same_text(x, "jpeg") || same_text(x, "png")
                || same_text(x, "gif") || same_text(x, "bmp") || same_text(x, "tiff") || same_text(x, "webp")
                || same_text(x, "srt") || same_text(x, "ass") || same_text(x, "ssa") || same_text(x, "vtt")
                || same_text(x, "sub")
        },
    }
}

/// Whether a path is a name the session generated.
pub fn is_auto_generated_filename(filename: &str) -> (r: bool)
    ensures
        r == is_generated_name(filename@),
{
    match path_file_name(filename) {
        Some(n) => has_prefix(n.as_str(), "output_") && crate::text::index_of_char(n.as_str(), '.').is_some(),
        None => false,
    }
}

/// The stamp of a generated name.
pub fn timestamp_text(millis: u64, random: u128) -> (r: String)
    ensures
        r@ == stamp(millis, random),
{
    let suffix = (random % 1000) as u64;
    cat3(decimal_text(millis).as_str(), "_", decimal_text(suffix).as_str())
}

/// A name the session generates beside a file is recognised as generated,
/// for a stamp and an extension without `/`.
pub proof fn lemma_generated_names_are_recognised(file: Seq<char>, stamp: Seq<char>, ext: Seq<char>)
    requires
        !has_char(stamp, '/'),
        !has_char(ext, '/'),
    ensures
        generated_output(file, stamp, ext) matches Some(o) ==> is_generated_name(o),
{
    reveal_strlit("output_");
    reveal_strlit(".");
    let name = "output_"@ + stamp + "."@ + ext;
    assert forall|i: int| 0 <= i < name.len() implies name[i] != '/' by {
        if i < 7 {
        } else if i < 7 + stamp.len() {
            assert(name[i] == stamp[i - 7]);
        } else if i == 7 + stamp.len() {
        } else {
            assert(name[i] == ext[i - 8 - stamp.len()]);
        }
    }
    assert(name.len() >= 8);
    assert(name != seq!['.']);
    assert(name != seq!['.', '.']);
    match parent(file) {
        Some(d) => {
            lemma_file_name_of_join(d, name);
            assert(name.subrange(0, 7) =~= "output_"@);
            assert(occurs_at(name, 0, "output_"@));
            assert(name[7 + stamp.len() as int] == '.');
        },
        None => {},
    }
}

impl Session {
    /// A fresh session in a language.
    pub fn new(language: Language) -> (r: Session)
        ensures
            is_fresh(r, language),
    {
        let translations = Translations::new(language);
        Session {
            current_operation: None,
            input_files: Vec::new(),
            output_file: String::new(),
            dedicated_video_file: String::new(),
            video_input_files: Vec::new(),
            video_output_file: String::new(),
            audio_input_files: Vec::new(),
            audio_output_file: String::new(),
            batch_input_files: Vec::new(),
            batch_output_file: String::new(),
            current_category: None,
            video_settings: VideoSettings::default(),
            audio_settings: AudioSettings::default(),
            next_task_id: 1,
            status_message: owned(translations.ready()),
            file_info: String::new(),
            translations,
            show_compatibility_warning: false,
            compatibility_warning_message: String::new(),
            compatibility_recommended_codec: None,
            compatibility_recommended_format: None,
            last_container_format: String::new(),
            detected_resolution: None,
            command_preview: String::new(),
            compatibility_warning_context: CompatibilityWarningContext::Idle,
        }
    }

    /// Clears the operation, files, settings and file information, and says so.
    pub fn reset_project(&mut self)
        ensures
            final(self).current_operation is None,
            final(self).input_files@.len() == 0,
            final(self).output_file@.len() == 0,
            is_default_video(final(self).video_settings),
            is_default_audio(final(self).audio_settings),
            final(self).file_info@.len() == 0,
            final(self).status_message@ == pick(old(self).translations.language, "项目已重置"@, "Project Reset"@),
            final(self).translations == old(self).translations,
            final(self).next_task_id == old(self).next_task_id,
            final(self).dedicated_video_file == old(self).dedicated_video_file,
            final(self).current_category == old(self).current_category,
    {
        self.current_operation = None;
        self.input_files = Vec::new();
        self.output_file = String::new();
        self.video_settings = VideoSettings::default();
        self.audio_settings = AudioSettings::default();
        self.file_info = String::new();
        self.status_message = owned(self.translations.project_reset());
    }

    /// The extension the current operation's output gets from the settings.
    pub fn get_output_extension_for_current_operation(&self) -> (r: String)
        ensures
            r@ == output_extension_for(self.current_operation, self.video_settings, self.audio_settings),
    {
        match self.current_operation {
            Some(op) => match op {
                OperationType::VideoConvert | OperationType::VideoCompress | OperationType::VideoResize
                | OperationType::VideoCrop | OperationType::VideoRotate | OperationType::VideoFilter
                | OperationType::AddSubtitle | OperationType::AddWatermark => self.video_settings.container_format.clone(),
                OperationType::AudioConvert | OperationType::AudioCompress | OperationType::AudioResample
                | OperationType::AudioVolume | OperationType::AudioTrim | OperationType::AudioMerge => self.audio_settings.format.clone(),
                OperationType::FrameExtract => self.video_settings.frame_format.clone(),
                OperationType::VideoToGif | OperationType::GifResize => owned("gif"),
                _ => owned("mp4"),
            },
            None => owned("mp4"),
        }
    }

    /// Names the output `output_stamp.ext` beside the dedicated video file,
    /// when there is one in a directory.
    pub fn generate_output_filename_from_video(&mut self, stamp: &str)
        ensures
            ({
                let ext = output_extension_for(old(self).current_operation, old(self).video_settings, old(self).audio_settings);
                match generated_output(old(self).dedicated_video_file@, stamp@, ext) {
                    Some(o) if old(self).dedicated_video_file@.len() > 0 => final(self).output_file@ == o,
                    _ => final(self).output_file == old(self).output_file,
                }
            }),
            final(self).input_files == old(self).input_files,
            final(self).dedicated_video_file == old(self).dedicated_video_file,
    {
        if !is_blank(self.dedicated_video_file.as_str()) {
            match path_parent(self.dedicated_video_file.as_str()) {
                Some(d) => {
                    let ext = self.get_output_extension_for_current_operation();
                    let name = cat3("output_", stamp, ".");
                    self.output_file = path_join(d.as_str(), cat(name.as_str(), ext.as_str()).as_str());
                    assert(name@ + ext@ =~= "output_"@ + stamp@ + "."@ + ext@);
                },
                None => {},
            }
        }
    }

    /// Names the output `output_stamp.ext` beside the first input, when it
    /// lies in a directory.
    pub fn generate_output_filename_from_input(&mut self, stamp: &str)
        ensures
            ({
                let ext = output_extension_for(old(self).current_operation, old(self).video_settings, old(self).audio_settings);
                if old(self).input_files@.len() > 0 {
                    match generated_output(old(self).input_files@[0]@, stamp@, ext) {
                        Some(o) => final(self).output_file@ == o,
                        None => final(self).output_file == old(self).output_file,
                    }
                } else {
                    final(self).output_file == old(self).output_file
                }
            }),
            final(self).input_files == old(self).input_files,
    {
        if self.input_files.len() > 0 {
            match path_parent(self.input_files[0].as_str()) {
                Some(d) => {
                    let ext = self.get_output_extension_for_current_operation();
                    let name = cat3("output_", stamp, ".");
                    self.output_file = path_join(d.as_str(), cat(name.as_str(), ext.as_str()).as_str());
                    assert(name@ + ext@ =~= "output_"@ + stamp@ + "."@ + ext@);
                },
                None => {},
            }
        }
    }
}

/// The files shown after switching to the group of an operation: the new
/// group's kept files; nothing for a group that keeps none when another
/// group was shown; unchanged when no group was shown yet or it is the same.
pub open spec fn shown_after_switch(s: Session, new: Category) -> (Seq<Seq<char>>, Seq<char>) {
    let now = (views(s.input_files@), s.output_file@);
    match s.current_category {
        Some(cur) => if cur == new {
            now
        } else {
            match kept_files(s, new) {
                Some(k) => k,
                None => (Seq::empty(), Seq::empty()),
            }
        },
        None => match kept_files(s, new) {
            Some(k) => k,
            None => now,
        },
    }
}

/// `after` is `before` once switched to the group of `op`: that group is
/// current, its files are shown, the files of the group left are kept,
/// the other groups' kept files and the settings stay as they were.
pub open spec fn switched(before: Session, after: Session, op: OperationType) -> bool {
    let new = category_of(op);
    &&& after.current_category == Some(new)
    &&& (views(after.input_files@), after.output_file@) == shown_after_switch(before, new)
    &&& match before.current_category {
        Some(cur) if cur != new && kept_files(before, cur) is Some =>
            kept_files(after, cur) == Some((views(before.input_files@), before.output_file@)),
        _ => true,
    }
    &&& (before.current_category != Some(Category::Video) ==> after.video_input_files == before.video_input_files
        && after.video_output_file == before.video_output_file)
    &&& (before.current_category != Some(Category::Audio) ==> after.audio_input_files == before.audio_input_files
        && after.audio_output_file == before.audio_output_file)
    &&& (before.current_category != Some(Category::Batch) ==> after.batch_input_files == before.batch_input_files
        && after.batch_output_file == before.batch_output_file)
    &&& after.video_settings == before.video_settings
    &&& after.audio_settings == before.audio_settings
}

/// Leaving a group that keeps files for another group and coming back
/// shows the files the group had when it was left.
pub proof fn lemma_switch_back(s0: Session, s1: Session, s2: Session, a: OperationType, b: OperationType)
    requires
        s0.current_category == Some(category_of(a)),
        kept_files(s0, category_of(a)) is Some,
        category_of(b) != category_of(a),
        switched(s0, s1, b),
        switched(s1, s2, a),
    ensures
        views(s2.input_files@) == views(s0.input_files@),
        s2.output_file@ == s0.output_file@,
        s2.current_category == s0.current_category,
{
}

impl Session {
    /// Keeps the files of the group being left and shows those of the
    /// operation's group.
    pub fn switch_operation_category(&mut self, new_operation: &OperationType)
        ensures
            switched(*old(self), *final(self), *new_operation),
    {
        let new = get_operation_category(new_operation);
        match self.current_category {
            Some(cur) => {
                if cur != new {
                    match cur {
                        Category::Video => {
                            self.video_input_files = copy_texts(&self.input_files);
                            self.video_output_file = self.output_file.clone();
                        },
                        Category::Audio => {
                            self.audio_input_files = copy_texts(&self.input_files);
                            self.audio_output_file = self.output_file.clone();
                        },
                        Category::Batch => {
                            self.batch_input_files = copy_texts(&self.input_files);
                            self.batch_output_file = self.output_file.clone();
                        },
                        _ => {},
                    }
                    let ghost mid = *self;
                    assert(kept_files(*old(self), cur) is Some ==> kept_files(mid, cur)
                        == Some((views(old(self).input_files@), old(self).output_file@)));
                    self.show_kept(new, true);
                }
            },
            None => self.show_kept(new, false),
        }
        self.current_category = Some(new);
    }

    /// Shows the kept files of a group; for a group that keeps none, clears
    /// the shown files when asked.
    fn show_kept(&mut self, c: Category, clear_otherwise: bool)
        ensures
            (views(final(self).input_files@), final(self).output_file@) == match kept_files(*old(self), c) {
                Some(k) => k,
                None => if clear_otherwise {
                    (Seq::<Seq<char>>::empty(), Seq::<char>::empty())
                } else {
                    (views(old(self).input_files@), old(self).output_file@)
                },
            },
            final(self).video_input_files == old(self).video_input_files,
            final(self).video_output_file == old(self).video_output_file,
            final(self).audio_input_files == old(self).audio_input_files,
            final(self).audio_output_file == old(self).audio_output_file,
            final(self).batch_input_files == old(self).batch_input_files,
            final(self).batch_output_file == old(self).batch_output_file,
            final(self).current_category == old(self).current_category,
            final(self).video_settings == old(self).video_settings,
            final(self).audio_settings == old(self).audio_settings,
    {
        match c {
            Category::Video => {
                self.input_files = copy_texts(&self.video_input_files);
                self.output_file = self.video_output_file.clone();
            },
            Category::Audio => {
                self.input_files = copy_texts(&self.audio_input_files);
                self.output_file = self.audio_output_file.clone();
            },
            Category::Batch => {
                self.input_files = copy_texts(&self.batch_input_files);
                self.output_file = self.batch_output_file.clone();
            },
            _ => {
                if clear_otherwise {
                    self.input_files = Vec::new();
                    self.output_file = String::new();
                    assert(views(self.input_files@) =~= Seq::<Seq<char>>::empty());
                }
            },
        }
    }

    /// Whether the operation can be queued, with a message when it cannot
    /// or has something to say: subtitles and watermarks need the video, their
    /// file and an output; other operations need inputs and an output.
    pub fn validate_operation_requirements(&self, operation: &OperationType) -> (r: (bool, Option<String>))
        ensures
            ({
                let lang = self.translations.language;
                let m = match r.1 { Some(m) => Some(m@), None => None };
                (r.0, m) == requirements(*self, *operation, lang)
            }),
    {
        match operation {
            OperationType::AddSubtitle => {
                if is_blank(self.dedicated_video_file.as_str()) {
                    return (false, Some(owned(self.translations.video_file_required())));
                }
                if is_blank(self.video_settings.subtitle_file.as_str()) {
                    return (false, Some(owned(self.translations.subtitle_file_required())));
                }
                if is_blank(self.output_file.as_str()) {
                    return (false, Some(owned("Please select output file")));
                }
                (true, Some(owned(SUBTITLE_NOTE)))
            },
            OperationType::AddWatermark => {
                if is_blank(self.dedicated_video_file.as_str()) {
                    return (false, Some(owned(self.translations.video_file_required())));
                }
                if is_blank(self.video_settings.watermark_file.as_str()) {
                    return (false, Some(owned(self.translations.watermark_file_required())));
                }
                if is_blank(self.output_file.as_str()) {
                    return (false, Some(owned("Please select output file")));
                }
                (true, None)
            },
            _ => (self.input_files.len() > 0 && !is_blank(self.output_file.as_str()), None),
        }
    }
}

/// The note shown before subtitles are added.
pub const SUBTITLE_NOTE: &'static str = "Note: Subtitle operations are experimental in static library mode. If the operation fails, the system will fallback to safe file copy.";

/// Whether an operation can be queued, and the message shown.
pub open spec fn requirements(s: Session, op: OperationType, lang: Language) -> (bool, Option<Seq<char>>) {
    let video_needed = pick(lang, "请选择视频文件"@, "Please select a video file"@);
    let output_needed = "Please select output file"@;
    match op {
        OperationType::AddSubtitle => if s.dedicated_video_file@.len() == 0 {
            (false, Some(video_needed))
        } else if s.video_settings.subtitle_file@.len() == 0 {
            (false, Some(pick(lang, "请选择字幕文件"@, "Please select a subtitle file"@)))
        } else if s.output_file@.len() == 0 {
            (false, Some(output_needed))
        } else {
            (true, Some(SUBTITLE_NOTE@))
        },
        OperationType::AddWatermark => if s.dedicated_video_file@.len() == 0 {
            (false, Some(video_needed))
        } else if s.video_settings.watermark_file@.len() == 0 {
            (false, Some(pick(lang, "请选择水印图片文件"@, "Please select a watermark image file"@)))
        } else if s.output_file@.len() == 0 {
            (false, Some(output_needed))
        } else {
            (true, None)
        },
        _ => (s.input_files@.len() > 0 && s.output_file@.len() > 0, None),
    }
}

// ----- compatibility -----

/// A warning for the user: its message, and the encoder or format it recommends.
pub type Warning = (Seq<char>, Option<Seq<char>>, Option<Seq<char>>);

/// What the file information says of the streams: a video and an audio stream.
pub open spec fn info_streams(info: Seq<char>) -> (bool, bool) {
    let l = lowercase(info);
    (
        contains(l, "video:"@) || (contains(l, "stream #"@) && contains(l, "video"@)),
        contains(l, "audio:"@) || (contains(l, "stream #"@) && contains(l, "audio"@)),
    )
}

/// The operation reads a video stream.
pub open spec fn needs_video(op: OperationType) -> bool {
    match op {
        OperationType::VideoConvert | OperationType::VideoCompress | OperationType::VideoResize
        | OperationType::VideoCrop | OperationType::VideoRotate | OperationType::VideoFilter
        | OperationType::ExtractVideo | OperationType::VideoToGif => true,
        _ => false,
    }
}

/// The operation reads an audio stream.
pub open spec fn needs_audio(op: OperationType) -> bool {
    match op {
        OperationType::AudioConvert | OperationType::AudioCompress | OperationType::AudioResample
        | OperationType::AudioVolume | OperationType::AudioTrim | OperationType::ExtractAudio => true,
        _ => false,
    }
}

/// The container the settings write: the video container when chosen, else
/// the audio format, else none.
pub open spec fn chosen_container(s: Session) -> Seq<char> {
    let v = s.video_settings.container_format@;
    if v.len() > 0 && v != "auto"@ {
        v
    } else {
        s.audio_settings.format@
    }
}

/// The audio encoder `auto` stands for in a container.
pub open spec fn auto_audio_codec(container: Seq<char>) -> Seq<char> {
    if container == "webm"@ {
        "libopus"@
    } else if container == "ogg"@ {
        "libvorbis"@
    } else {
        "aac"@
    }
}

/// Why an encoder does not suit a container.
pub open spec fn codec_warning(lang: Language, is_audio: bool, codec: Seq<char>, container: Seq<char>) -> Seq<char> {
    match lang {
        Language::Chinese => (if is_audio { "音频编码器 '"@ } else { "视频编码器 '"@ }) + codec + "' 与容器格式 '"@
            + container + "' 不兼容。这可能导致编码失败。"@,
        Language::English => (if is_audio { "Audio codec '"@ } else { "Video codec '"@ }) + codec
            + "' is not compatible with container format '"@ + container + "'. This may cause encoding to fail."@,
    }
}

/// The warning about a missing stream.
pub open spec fn stream_warning(lang: Language, video: bool) -> Seq<char> {
    if video {
        pick(lang, "所选文件不包含视频流。此操作需要视频输入。"@,
            "The selected file does not contain a video stream. This operation requires video input."@)
    } else {
        pick(lang, "所选文件不包含音频流。此操作需要音频输入。"@,
            "The selected file does not contain an audio stream. This operation requires audio input."@)
    }
}

/// The warning that WebM takes another audio encoder.
pub open spec fn webm_warning(lang: Language, codec: Seq<char>) -> Seq<char> {
    match lang {
        Language::Chinese => "WebM格式不支持AAC音频编码器。音频将自动转换为"@ + codec + "编码器。"@,
        Language::English => "WebM format does not support AAC audio codec. The audio will be automatically converted to "@
            + codec + " codec."@,
    }
}

/// The warning that MP4 cannot hold soft subtitles of a format.
pub open spec fn subtitle_warning(lang: Language, format: Seq<char>) -> Seq<char> {
    match lang {
        Language::Chinese => "MP4容器格式不支持"@ + format + "软字幕。建议更改输出格式为MKV以获得更好的兼容性。"@,
        Language::English => "MP4 container format does not support "@ + format
            + " soft subtitles. Recommend changing output format to MKV for better compatibility."@,
    }
}

/// A text that is neither empty nor `auto`.
pub open spec fn chosen(t: Seq<char>) -> bool {
    t.len() > 0 && t != "auto"@
}

/// The warning the session's choices call for, if any, given what a probe of
/// a single input found of its streams. GIF operations are not checked. An
/// operation on one input needs the streams it reads (taken as present when
/// the input's size is known, else from the probe, else from the file
/// information). Then the chosen encoders must suit the chosen container;
/// WebM with automatic audio is always worth a warning. Last, MP4 output
/// cannot hold soft subtitles in SRT, WebVTT or ASS.
pub open spec fn compatibility_warning(s: Session, c: CodecCatalog, probe: Option<(bool, bool)>) -> Option<Warning> {
    let lang = s.translations.language;
    let op = s.current_operation;
    let container = chosen_container(s);
    let streams = if s.detected_resolution is Some {
        (true, true)
    } else {
        match probe {
            Some(p) => p,
            None => info_streams(s.file_info@),
        }
    };
    let vcodec = s.video_settings.codec@;
    let acodec = s.audio_settings.codec@;
    let audio_auto = acodec == "auto"@ || acodec.len() == 0;
    let checked_audio = if audio_auto { auto_audio_codec(container) } else { acodec };
    if op == Some(OperationType::VideoToGif) || op == Some(OperationType::GifResize) {
        None
    } else if s.input_files@.len() == 1 && op is Some && needs_video(op->0) && !streams.0 {
        Some((stream_warning(lang, true), None, None))
    } else if s.input_files@.len() == 1 && op is Some && needs_audio(op->0) && !streams.1 {
        Some((stream_warning(lang, false), None, None))
    } else if container.len() == 0 {
        None
    } else if chosen(vcodec) && !compatible(c, vcodec, container, false) {
        Some((codec_warning(lang, false, vcodec, container), Some(best_video(c, container)), None))
    } else if audio_auto && container == "webm"@ {
        Some((webm_warning(lang, auto_audio_codec(container)), Some(auto_audio_codec(container)), None))
    } else if chosen(checked_audio) && !compatible(c, checked_audio, container, true) {
        Some((codec_warning(lang, true, checked_audio, container), Some(best_audio(c, container)), None))
    } else if op == Some(OperationType::AddSubtitle) && s.dedicated_video_file@.len() > 0
        && s.video_settings.subtitle_file@.len() > 0 && extension_lower(s.output_file@) == "mp4"@
        && {
            let se = extension_lower(s.video_settings.subtitle_file@);
            se == "srt"@ || se == "vtt"@ || se == "ass"@
        } && s.video_settings.subtitle_mode@ == "soft"@ {
        Some((subtitle_warning(lang, uppercase(extension_lower(s.video_settings.subtitle_file@))), None, Some("mkv"@)))
    } else {
        None
    }
}

/// The session shows the warning, with its recommendations.
pub open spec fn shows_warning(s: Session, w: Warning) -> bool {
    &&& s.show_compatibility_warning
    &&& s.compatibility_warning_message@ == w.0
    &&& match (s.compatibility_recommended_codec, w.1) {
        (Some(a), Some(b)) => a@ == b,
        (None, None) => true,
        _ => false,
    }
    &&& match (s.compatibility_recommended_format, w.2) {
        (Some(a), Some(b)) => a@ == b,
        (None, None) => true,
        _ => false,
    }
}

/// What the file information says of the streams.
pub fn streams_in_info(info: &str) -> (r: (bool, bool))
    ensures
        r == info_streams(info@),
{
    let l = to_lower(info);
    let t = l.as_str();
    let stream = contains_text(t, "stream #");
    (
        contains_text(t, "video:") || (stream && contains_text(t, "video")),
        contains_text(t, "audio:") || (stream && contains_text(t, "audio")),
    )
}

impl Session {
    /// Shows a warning with its recommendations.
    fn warn(&mut self, message: String, codec: Option<String>, format: Option<String>)
        ensures
            *final(self) == (Session {
                show_compatibility_warning: true,
                compatibility_warning_message: message,
                compatibility_recommended_codec: codec,
                compatibility_recommended_format: format,
                ..*old(self)
            }),
    {
        self.compatibility_warning_message = message;
        self.compatibility_recommended_codec = codec;
        self.compatibility_recommended_format = format;
        self.show_compatibility_warning = true;
    }

    /// Checks the session's choices before a task is queued or previewed:
    /// true when nothing is wrong; otherwise false, with the warning shown.
    /// `probe` is what a probe of the single input found of its streams.
    pub fn check_compatibility_and_warn(&mut self, c: &CodecCatalog, probe: Option<(bool, bool)>) -> (r: bool)
        ensures
            checked_compatibility(*old(self), *final(self), *c, probe, r),
    {
        let lang = self.translations.language;
        let zh = lang == Language::Chinese;
        match self.current_operation {
            Some(OperationType::VideoToGif) | Some(OperationType::GifResize) => return true,
            _ => {},
        }
        if self.input_files.len() == 1 {
            match self.current_operation {
                Some(op) => {
                    let (has_video, has_audio) = if self.detected_resolution.is_some() {
                        (true, true)
                    } else {
                        match probe {
                            Some(p) => p,
                            None => streams_in_info(self.file_info.as_str()),
                        }
                    };
                    let nv = match op {
                        OperationType::VideoConvert | OperationType::VideoCompress | OperationType::VideoResize
                        | OperationType::VideoCrop | OperationType::VideoRotate | OperationType::VideoFilter
                        | OperationType::ExtractVideo | OperationType::VideoToGif => true,
                        _ => false,
                    };
                    let na = match op {
                        OperationType::AudioConvert | OperationType::AudioCompress | OperationType::AudioResample
                        | OperationType::AudioVolume | OperationType::AudioTrim | OperationType::ExtractAudio => true,
                        _ => false,
                    };
                    if nv && !has_video {
                        let m = if zh { "所选文件不包含视频流。此操作需要视频输入。" } else {
                            "The selected file does not contain a video stream. This operation requires video input."
                        };
                        self.warn(owned(m), None, None);
                        return false;
                    }
                    if na && !has_audio {
                        let m = if zh { "所选文件不包含音频流。此操作需要音频输入。" } else {
                            "The selected file does not contain an audio stream. This operation requires audio input."
                        };
                        self.warn(owned(m), None, None);
                        return false;
                    }
                },
                None => {},
            }
        }
        let vcf = self.video_settings.container_format.as_str();
        let container = if !is_blank(vcf) && !same_text(vcf, "auto") {
            self.video_settings.container_format.clone()
        } else {
            self.audio_settings.format.clone()
        };
        let ct = container.as_str();
        if is_blank(ct) {
            return true;
        }
        let vcodec = self.video_settings.codec.as_str();
        if !is_blank(vcodec) && !same_text(vcodec, "auto") && !c.is_compatible(vcodec, ct, false) {
            let m = self.codec_warning_text(false, vcodec, ct);
            let best = c.best_video_codec(ct);
            self.warn(m, Some(best), None);
            return false;
        }
        let acodec = self.audio_settings.codec.as_str();
        let audio_auto = same_text(acodec, "auto") || is_blank(acodec);
        let auto_codec: &str = if same_text(ct, "webm") { "libopus" } else if same_text(ct, "ogg") { "libvorbis" } else { "aac" };
        if audio_auto && same_text(ct, "webm") {
            let m = if zh {
                cat3("WebM格式不支持AAC音频编码器。音频将自动转换为", auto_codec, "编码器。")
            } else {
                cat3("WebM format does not support AAC audio codec. The audio will be automatically converted to ", auto_codec, " codec.")
            };
            self.warn(m, Some(owned(auto_codec)), None);
            return false;
        }
        let checked: String = if audio_auto { owned(auto_codec) } else { self.audio_settings.codec.clone() };
        let ck = checked.as_str();
        if !is_blank(ck) && !same_text(ck, "auto") && !c.is_compatible(ck, ct, true) {
            let m = self.codec_warning_text(true, ck, ct);
            let best = c.best_audio_codec(ct);
            self.warn(m, Some(best), None);
            return false;
        }
        if self.current_operation == Some(OperationType::AddSubtitle) && !is_blank(self.dedicated_video_file.as_str())
            && !is_blank(self.video_settings.subtitle_file.as_str()) {
            let oe = path_extension_lower(self.output_file.as_str());
            let se = path_extension_lower(self.video_settings.subtitle_file.as_str());
            let x = se.as_str();
            if same_text(oe.as_str(), "mp4") && (same_text(x, "srt") || same_text(x, "vtt") || same_text(x, "ass"))
                && same_text(self.video_settings.subtitle_mode.as_str(), "soft") {
                let upper = to_upper(x);
                let m = if zh {
                    cat3("MP4容器格式不支持", upper.as_str(), "软字幕。建议更改输出格式为MKV以获得更好的兼容性。")
                } else {
                    cat3("MP4 container format does not support ", upper.as_str(),
                        " soft subtitles. Recommend changing output format to MKV for better compatibility.")
                };
                self.warn(m, None, Some(owned("mkv")));
                return false;
            }
        }
        true
    }

    /// Why an encoder does not suit a container, in the session's language.
    fn codec_warning_text(&self, is_audio: bool, codec: &str, container: &str) -> (r: String)
        ensures
            r@ == codec_warning(self.translations.language, is_audio, codec@, container@),
    {
        match self.translations.language {
            Language::Chinese => {
                let a = cat3(if is_audio { "音频编码器 '" } else { "视频编码器 '" }, codec, "' 与容器格式 '");
                cat3(a.as_str(), container, "' 不兼容。这可能导致编码失败。")
            },
            Language::English => {
                let a = cat3(if is_audio { "Audio codec '" } else { "Video codec '" }, codec,
                    "' is not compatible with container format '");
                cat3(a.as_str(), container, "'. This may cause encoding to fail.")
            },
        }
    }
}

/// A recommended encoder is for the video when the warning speaks of the
/// video codec, for the audio when it speaks of the audio codec or WebM.
pub open spec fn codec_is_for_video(m: Seq<char>) -> bool {
    contains(m, "Video codec"@) || contains(m, "视频编码器"@)
}

/// See `codec_is_for_video`.
pub open spec fn codec_is_for_audio(m: Seq<char>) -> bool {
    !codec_is_for_video(m) && (contains(m, "Audio codec"@) || contains(m, "音频编码器"@) || contains(m, "WebM"@))
}

/// A recommended format is for the video container when the warning speaks
/// of video, for the audio format when it speaks of audio, and for the video
/// container and the output file when it speaks of MP4 subtitles.
pub open spec fn format_is_for_video(m: Seq<char>) -> bool {
    contains(m, "Video"@) || contains(m, "视频"@)
}

/// See `format_is_for_video`.
pub open spec fn format_is_for_audio(m: Seq<char>) -> bool {
    !format_is_for_video(m) && (contains(m, "Audio"@) || contains(m, "音频"@))
}

/// See `format_is_for_video`.
pub open spec fn format_is_for_subtitles(m: Seq<char>) -> bool {
    !format_is_for_video(m) && !format_is_for_audio(m) && contains(m, "MP4"@)
        && (contains(m, "subtitle"@) || contains(m, "字幕"@))
}

/// The output after a subtitle warning's format is applied: an `.mp4`
/// ending makes every `.mp4` in it the format's extension.
pub open spec fn output_with_format(out: Seq<char>, format: Seq<char>) -> Seq<char> {
    if out.len() >= 4 && out.skip(out.len() - 4) == ".mp4"@ {
        replace_all(out, ".mp4"@, "."@ + format)
    } else {
        out
    }
}

/// `after` is `before` once the check has run with result `r`: unchanged
/// and `r` true when nothing is wrong, else `r` false and the warning shown;
/// the settings and language stay as they were either way.
pub open spec fn checked_compatibility(before: Session, after: Session, c: CodecCatalog, probe: Option<(bool, bool)>, r: bool) -> bool {
    &&& match compatibility_warning(before, c, probe) {
        None => r && after == before,
        Some(w) => !r && shows_warning(after, w),
    }
    &&& after.video_settings == before.video_settings
    &&& after.audio_settings == before.audio_settings
    &&& after.translations == before.translations
    &&& after.output_file == before.output_file
    &&& after.input_files == before.input_files
    &&& after.dedicated_video_file == before.dedicated_video_file
    &&& after.next_task_id == before.next_task_id
    &&& after.compatibility_warning_context == before.compatibility_warning_context
}

/// `after` is `before` once the warning's recommendations are applied: the
/// encoder goes to the video or audio side and the format to the video
/// container, the audio format, or the video container and the output file,
/// as the warning speaks of them; the session says so.
pub open spec fn recommendation_applied(before: Session, after: Session) -> bool {
    let m = before.compatibility_warning_message@;
    let ov = before.video_settings;
    let oa = before.audio_settings;
    let nv = after.video_settings;
    let na = after.audio_settings;
    let codec = before.compatibility_recommended_codec;
    let format = before.compatibility_recommended_format;
    &&& match codec {
        Some(c) if codec_is_for_video(m) => nv.codec@ == c@,
        _ => nv.codec == ov.codec,
    }
    &&& match codec {
        Some(c) if codec_is_for_audio(m) => na.codec@ == c@,
        _ => na.codec == oa.codec,
    }
    &&& match format {
        Some(f) if format_is_for_video(m) || format_is_for_subtitles(m) => nv.container_format@ == f@,
        _ => nv.container_format == ov.container_format,
    }
    &&& match format {
        Some(f) if format_is_for_audio(m) => na.format@ == f@,
        _ => na.format == oa.format,
    }
    &&& match format {
        Some(f) if format_is_for_subtitles(m) && ends_with_mp4(before.output_file@) =>
            after.output_file@ == output_with_format(before.output_file@, f@),
        _ => after.output_file == before.output_file,
    }
    &&& after.status_message@ == pick(before.translations.language, "已应用推荐设置"@, "Applied recommended settings"@)
    &&& after.translations == before.translations
    &&& nv == (VideoSettings { codec: nv.codec, container_format: nv.container_format, ..ov })
    &&& na == (AudioSettings { codec: na.codec, format: na.format, ..oa })
}

/// The output ends with `.mp4`.
pub open spec fn ends_with_mp4(out: Seq<char>) -> bool {
    out.len() >= 4 && out.skip(out.len() - 4) == ".mp4"@
}

/// The warning the check gives about a video encoder that does not suit the
/// container, with the container's preferred encoder as its recommendation.
pub open spec fn video_codec_warning(s: Session, c: CodecCatalog) -> Warning {
    let f = chosen_container(s);
    (codec_warning(s.translations.language, false, s.video_settings.codec@, f), Some(best_video(c, f)), None)
}

/// Checking a session whose video encoder does not suit its container, then
/// applying the recommendation, puts the container's preferred encoder in
/// place and keeps the container; that encoder suits the container whenever
/// the catalog pairs them.
pub proof fn lemma_video_recommendation(
    s0: Session,
    s1: Session,
    s2: Session,
    c: CodecCatalog,
    probe: Option<(bool, bool)>,
    r: bool,
)
    requires
        compatibility_warning(s0, c, probe) == Some(video_codec_warning(s0, c)),
        checked_compatibility(s0, s1, c, probe, r),
        recommendation_applied(s1, s2),
    ensures
        !r,
        s2.video_settings.codec@ == best_video(c, chosen_container(s0)),
        chosen_container(s2) == chosen_container(s0),
        compatible(c, best_video(c, chosen_container(s0)), chosen_container(s0), false)
            ==> compatible(c, s2.video_settings.codec@, chosen_container(s2), false),
{
    let f = chosen_container(s0);
    let m = s1.compatibility_warning_message@;
    let codec = s0.video_settings.codec@;
    reveal_strlit("Video codec");
    reveal_strlit("Video codec '");
    reveal_strlit("视频编码器");
    reveal_strlit("视频编码器 '");
    match s0.translations.language {
        Language::English => {
            assert(m.subrange(0, 11) =~= "Video codec"@);
            assert(occurs_at(m, 0, "Video codec"@));
        },
        Language::Chinese => {
            assert(m.subrange(0, 5) =~= "视频编码器"@);
            assert(occurs_at(m, 0, "视频编码器"@));
        },
    }
    assert(codec_is_for_video(m));
}

/// Puts the given value in place, or keeps the old one.
fn replace_if_given(slot: &mut String, value: Option<String>)
    ensures
        match value {
            Some(v) => *final(slot) == v,
            None => *final(slot) == *old(slot),
        },
{
    match value {
        Some(v) => { *slot = v; },
        None => {},
    }
}

impl Session {
    /// The encoders, formats and output the warning's recommendations put
    /// in place, each only where the warning speaks of it.
    fn recommended_values(&self) -> (r: (Option<String>, Option<String>, Option<String>, Option<String>, Option<String>))
        ensures
            ({
                let m = self.compatibility_warning_message@;
                let codec = self.compatibility_recommended_codec;
                let format = self.compatibility_recommended_format;
                &&& match (r.0, codec) {
                    (Some(x), Some(c)) => codec_is_for_video(m) && x@ == c@,
                    (None, Some(c)) => !codec_is_for_video(m),
                    (None, None) => true,
                    _ => false,
                }
                &&& match (r.1, codec) {
                    (Some(x), Some(c)) => codec_is_for_audio(m) && x@ == c@,
                    (None, Some(c)) => !codec_is_for_audio(m),
                    (None, None) => true,
                    _ => false,
                }
                &&& match (r.2, format) {
                    (Some(x), Some(f)) => (format_is_for_video(m) || format_is_for_subtitles(m)) && x@ == f@,
                    (None, Some(f)) => !(format_is_for_video(m) || format_is_for_subtitles(m)),
                    (None, None) => true,
                    _ => false,
                }
                &&& match (r.3, format) {
                    (Some(x), Some(f)) => format_is_for_audio(m) && x@ == f@,
                    (None, Some(f)) => !format_is_for_audio(m),
                    (None, None) => true,
                    _ => false,
                }
                &&& match (r.4, format) {
                    (Some(x), Some(f)) => format_is_for_subtitles(m) && ends_with_mp4(self.output_file@)
                        && x@ == output_with_format(self.output_file@, f@),
                    (None, Some(f)) => !(format_is_for_subtitles(m) && ends_with_mp4(self.output_file@)),
                    (None, None) => true,
                    _ => false,
                }
            }),
    {
        let mt = self.compatibility_warning_message.as_str();
        let for_video = contains_text(mt, "Video codec") || contains_text(mt, "视频编码器");
        let for_audio = contains_text(mt, "Audio codec") || contains_text(mt, "音频编码器") || contains_text(mt, "WebM");
        let mut vcodec: Option<String> = None;
        let mut acodec: Option<String> = None;
        match &self.compatibility_recommended_codec {
            Some(c) => {
                if for_video {
                    vcodec = Some(c.clone());
                } else if for_audio {
                    acodec = Some(c.clone());
                }
            },
            None => {},
        }
        let f_video = contains_text(mt, "Video") || contains_text(mt, "视频");
        let f_audio = contains_text(mt, "Audio") || contains_text(mt, "音频");
        let f_sub = contains_text(mt, "MP4") && (contains_text(mt, "subtitle") || contains_text(mt, "字幕"));
        let mut container: Option<String> = None;
        let mut aformat: Option<String> = None;
        let mut out: Option<String> = None;
        proof {
            reveal_strlit(".mp4");
        }
        match &self.compatibility_recommended_format {
            Some(f) => {
                if f_video {
                    container = Some(f.clone());
                } else if f_audio {
                    aformat = Some(f.clone());
                } else if f_sub {
                    container = Some(f.clone());
                    if has_suffix(self.output_file.as_str(), ".mp4") {
                        let ext = cat(".", f.as_str());
                        out = Some(replace_text(self.output_file.as_str(), ".mp4", ext.as_str()));
                    }
                }
            },
            None => {},
        }
        (vcodec, acodec, container, aformat, out)
    }

    /// Applies the warning's recommendations and says so; what the warning
    /// does not speak of stays as it was.
    pub fn apply_compatibility_recommendation(&mut self)
        ensures
            recommendation_applied(*old(self), *final(self)),
            *final(self) == (Session {
                video_settings: final(self).video_settings,
                audio_settings: final(self).audio_settings,
                output_file: final(self).output_file,
                status_message: final(self).status_message,
                ..*old(self)
            }),
    {
        let (vcodec, acodec, container, aformat, out) = self.recommended_values();
        replace_if_given(&mut self.video_settings.codec, vcodec);
        replace_if_given(&mut self.video_settings.container_format, container);
        replace_if_given(&mut self.audio_settings.codec, acodec);
        replace_if_given(&mut self.audio_settings.format, aformat);
        replace_if_given(&mut self.output_file, out);
        self.status_message = owned(if self.translations.language == Language::Chinese {
            "已应用推荐设置"
        } else {
            "Applied recommended settings"
        });
    }

    /// When the video container has changed since last seen, replaces the
    /// encoders that do not suit it and says so; remembers the container.
    /// An audio encoder gives way to the container's preferred one. A video
    /// encoder gives way to `smart_video_codec`, the encoder the smart
    /// chooser recommends once hardware encoders have been detected, and
    /// otherwise to the container's preferred one. Nothing else changes.
    pub fn check_and_reset_incompatible_codecs(&mut self, c: &CodecCatalog, smart_video_codec: Option<&str>)
        ensures
            ({
                let f = old(self).video_settings.container_format@;
                let last = old(self).last_container_format@;
                let ac = old(self).audio_settings.codec@;
                let vc = old(self).video_settings.codec@;
                let changed = last.len() > 0 && last != f;
                let reset_audio = changed && chosen(ac) && !compatible(*c, ac, f, true);
                let reset_video = changed && chosen(vc) && !compatible(*c, vc, f, false);
                let new_video = match smart_video_codec {
                    Some(v) => v@,
                    None => best_video(*c, f),
                };
                &&& final(self).last_container_format@ == f
                &&& final(self).audio_settings.codec@ == if reset_audio { best_audio(*c, f) } else { ac }
                &&& final(self).video_settings.codec@ == if reset_video { new_video } else { vc }
                &&& final(self).status_message@ == if reset_video {
                    adjusted_message(old(self).translations.language, false, new_video, f)
                } else if reset_audio {
                    adjusted_message(old(self).translations.language, true, best_audio(*c, f), f)
                } else {
                    old(self).status_message@
                }
            }),
            final(self).video_settings == (VideoSettings {
                codec: final(self).video_settings.codec,
                ..old(self).video_settings
            }),
            final(self).audio_settings == (AudioSettings {
                codec: final(self).audio_settings.codec,
                ..old(self).audio_settings
            }),
            *final(self) == (Session {
                video_settings: final(self).video_settings,
                audio_settings: final(self).audio_settings,
                last_container_format: final(self).last_container_format,
                status_message: final(self).status_message,
                ..*old(self)
            }),
    {
        let f = self.video_settings.container_format.clone();
        if is_blank(self.last_container_format.as_str()) {
            self.last_container_format = f;
            return;
        }
        if !same_text(self.last_container_format.as_str(), f.as_str()) {
            let (acodec, vcodec, message) = self.codec_resets(c, f.as_str(), smart_video_codec);
            self.audio_settings.codec = acodec;
            self.video_settings.codec = vcodec;
            self.status_message = message;
            self.last_container_format = f;
        }
    }

    /// The encoders and message after the container changed to `f`.
    fn codec_resets(&self, c: &CodecCatalog, f: &str, smart_video_codec: Option<&str>) -> (r: (String, String, String))
        ensures
            ({
                let ac = self.audio_settings.codec@;
                let vc = self.video_settings.codec@;
                let reset_audio = chosen(ac) && !compatible(*c, ac, f@, true);
                let reset_video = chosen(vc) && !compatible(*c, vc, f@, false);
                let new_video = match smart_video_codec {
                    Some(v) => v@,
                    None => best_video(*c, f@),
                };
                &&& r.0@ == if reset_audio { best_audio(*c, f@) } else { ac }
                &&& r.1@ == if reset_video { new_video } else { vc }
                &&& r.2@ == if reset_video {
                    adjusted_message(self.translations.language, false, new_video, f@)
                } else if reset_audio {
                    adjusted_message(self.translations.language, true, best_audio(*c, f@), f@)
                } else {
                    self.status_message@
                }
            }),
    {
        let mut acodec = self.audio_settings.codec.clone();
        let mut vcodec = self.video_settings.codec.clone();
        let mut message = self.status_message.clone();
        let ac = self.audio_settings.codec.as_str();
        if !is_blank(ac) && !same_text(ac, "auto") && !c.is_compatible(ac, f, true) {
            let best = c.best_audio_codec(f);
            message = self.adjusted_text(true, best.as_str(), f);
            acodec = best;
        }
        let vc = self.video_settings.codec.as_str();
        if !is_blank(vc) && !same_text(vc, "auto") && !c.is_compatible(vc, f, false) {
            let best = match smart_video_codec {
                Some(v) => owned(v),
                None => c.best_video_codec(f),
            };
            message = self.adjusted_text(false, best.as_str(), f);
            vcodec = best;
        }
        (acodec, vcodec, message)
    }

    /// The message that an encoder was adjusted for a format.
    fn adjusted_text(&self, is_audio: bool, codec: &str, format: &str) -> (r: String)
        ensures
            r@ == adjusted_message(self.translations.language, is_audio, codec@, format@),
    {
        match self.translations.language {
            Language::Chinese => {
                let a = cat3(if is_audio { "音频编码器已自动调整为" } else { "视频编码器已自动调整为" }, codec, "（兼容");
                cat3(a.as_str(), format, "格式）")
            },
            Language::English => {
                let a = cat3(if is_audio { "Audio codec automatically adjusted to " } else {
                    "Video codec automatically adjusted to "
                }, codec, " for ");
                cat3(a.as_str(), format, " format compatibility")
            },
        }
    }
}

/// The message that an encoder was adjusted for a format.
pub open spec fn adjusted_message(lang: Language, is_audio: bool, codec: Seq<char>, format: Seq<char>) -> Seq<char> {
    match lang {
        Language::Chinese => (if is_audio { "音频编码器已自动调整为"@ } else { "视频编码器已自动调整为"@ }) + codec + "（兼容"@
            + format + "格式）"@,
        Language::English => (if is_audio { "Audio codec automatically adjusted to "@ } else {
            "Video codec automatically adjusted to "@
        }) + codec + " for "@ + format + " format compatibility"@,
    }
}

// ----- queuing and previewing -----

/// The files an operation reads: the dedicated video for subtitles and
/// watermarks, the session's inputs otherwise.
pub open spec fn operation_inputs(s: Session, op: OperationType) -> Seq<Seq<char>> {
    if op == OperationType::AddSubtitle || op == OperationType::AddWatermark {
        seq![s.dedicated_video_file@]
    } else {
        views(s.input_files@)
    }
}

/// The output of a queued task, made unique: a generated name gets a new
/// stamp; another name gets the task's id after its stem.
pub open spec fn unique_output(out: Seq<char>, stamp: Seq<char>, id: usize) -> Seq<char> {
    let ext = match extension(out) { Some(e) => e, None => "mp4"@ };
    if is_generated_name(out) {
        match parent(out) {
            Some(d) => join_path(d, "output_"@ + stamp + "."@ + ext),
            None => out,
        }
    } else {
        let stem = match file_stem(out) { Some(n) => n, None => "output"@ };
        let name = stem + "_"@ + decimal(id as nat) + "."@ + ext;
        match parent(out) {
            Some(d) => join_path(d, name),
            None => name,
        }
    }
}

/// `t` is the task the session queues or previews for the operation.
pub open spec fn is_session_task(t: ProcessingTask, s: Session, op: OperationType, id: usize, out: Seq<char>) -> bool {
    &&& t.id == id
    &&& t.operation == op
    &&& views(t.input_files@) == operation_inputs(s, op)
    &&& t.output_file@ == out
    &&& (t.video_settings matches Some(v) && same_video(v, s.video_settings))
    &&& (t.audio_settings matches Some(a) && same_audio(a, s.audio_settings))
    &&& t.status == TaskStatus::Pending
    &&& t.error_message is None
}

/// `after` is `before` showing the command the operation would run on the
/// session's files, or why it cannot, and saying which.
pub open spec fn shows_preview(before: Session, after: Session, c: CodecCatalog, op: OperationType, watermark_exists: bool) -> bool {
    &&& exists|t: ProcessingTask| #[trigger] is_session_task(t, before, op, 0, before.output_file@)
        && match preview_outcome(c, t, watermark_exists) {
            Ok(text) => after.command_preview@ == text
                && after.status_message@ == pick(before.translations.language,
                    "FFmpeg命令已生成，请查看预览区域"@, "FFmpeg command generated, please check preview area"@),
            Err((k, d)) => after.command_preview@ == pick(before.translations.language,
                    "生成命令时出错"@, "Error generating command"@) + ": "@ + error_message(k, d)
                && after.status_message@ == pick(before.translations.language,
                    "命令生成失败"@, "Command generation failed"@),
        }
    &&& after.output_file == before.output_file
    &&& after.video_settings == before.video_settings
    &&& after.audio_settings == before.audio_settings
    &&& after.next_task_id == before.next_task_id
}

impl Session {
    /// The task for an operation on the session's files and settings.
    fn task_for(&self, operation: &OperationType, id: usize, output: String) -> (r: ProcessingTask)
        ensures
            is_session_task(r, *self, *operation, id, output@),
    {
        let inputs = match operation {
            OperationType::AddSubtitle | OperationType::AddWatermark => {
                let mut v: Vec<String> = Vec::new();
                v.push(self.dedicated_video_file.clone());
                assert(views(v@) =~= seq![self.dedicated_video_file@]);
                v
            },
            _ => copy_texts(&self.input_files),
        };
        ProcessingTask {
            id,
            operation: *operation,
            input_files: inputs,
            output_file: output,
            video_settings: Some(self.video_settings.duplicate()),
            audio_settings: Some(self.audio_settings.duplicate()),
            status: TaskStatus::Pending,
            error_message: None,
        }
    }

    /// The task to queue for an operation, with a unique output; the next
    /// task gets the next id, and the session says the task was added.
    /// `stamp` is a fresh time stamp for generated names.
    pub fn force_start_processing(&mut self, operation: &OperationType, stamp: &str) -> (r: ProcessingTask)
        requires
            old(self).next_task_id < usize::MAX,
        ensures
            is_session_task(r, *old(self), *operation, old(self).next_task_id,
                unique_output(old(self).output_file@, stamp@, old(self).next_task_id)),
            final(self).next_task_id == old(self).next_task_id + 1,
            final(self).status_message@ == pick(old(self).translations.language, "已添加任务: "@, "Task added: "@)
                + operation_name(*operation, old(self).translations.language),
            final(self).output_file == old(self).output_file,
            final(self).input_files == old(self).input_files,
            final(self).video_settings == old(self).video_settings,
            final(self).audio_settings == old(self).audio_settings,
            final(self).translations == old(self).translations,
    {
        let out = self.output_file.as_str();
        let id = self.next_task_id;
        let ext = match path_extension(out) { Some(e) => e, None => owned("mp4") };
        let unique = if is_auto_generated_filename(out) {
            match path_parent(out) {
                Some(d) => {
                    let a = cat3("output_", stamp, ".");
                    let name = cat(a.as_str(), ext.as_str());
                    assert(name@ =~= "output_"@ + stamp@ + "."@ + ext@);
                    path_join(d.as_str(), name.as_str())
                },
                None => owned(out),
            }
        } else {
            let stem = match path_file_stem(out) { Some(n) => n, None => owned("output") };
            let a = cat3(stem.as_str(), "_", decimal_text(id as u64).as_str());
            let name = cat3(a.as_str(), ".", ext.as_str());
            match path_parent(out) {
                Some(d) => path_join(d.as_str(), name.as_str()),
                None => name,
            }
        };
        let task = self.task_for(operation, id, unique);
        self.next_task_id = id + 1;
        self.status_message = self.translations.task_added(operation.display_name(&self.translations));
        task
    }

    /// Shows the command an operation would run on the session's files, or
    /// why it cannot, and says which. Whether the watermark image exists is
    /// looked up by the caller.
    pub fn force_show_command_preview(&mut self, c: &CodecCatalog, operation: &OperationType, watermark_exists: bool)
        requires
            preview_fits(*old(self)),
        ensures
            shows_preview(*old(self), *final(self), *c, *operation, watermark_exists),
    {
        let task = self.task_for(operation, 0, self.output_file.clone());
        let ghost tv = views(task.input_files@);
        assert(tv.len() == task.input_files@.len());
        assert forall|i: int| 0 <= i < task.input_files@.len() implies task.input_files@[i]@.len() < usize::MAX by {
            assert(tv[i] == task.input_files@[i]@);
            if *operation == OperationType::AddSubtitle || *operation == OperationType::AddWatermark {
                assert(tv == seq![old(self).dedicated_video_file@]);
            } else {
                let ov = views(old(self).input_files@);
                assert(tv == ov);
                assert(ov.len() == old(self).input_files@.len());
                assert(ov[i] == old(self).input_files@[i]@);
            }
        }
        match preview_task(c, &task, watermark_exists) {
            Ok(command) => {
                self.command_preview = command;
                self.status_message = self.translations.command_generated();
            },
            Err(e) => {
                self.command_preview = cat3(self.translations.command_generation_error(), ": ", e.message().as_str());
                self.status_message = self.translations.command_generation_failed();
            },
        }
        assert(is_session_task(task, *old(self), *operation, 0, old(self).output_file@));
    }
}

// ----- dropped files -----

/// The operation takes several input files, which its own file list collects.
pub open spec fn takes_many_files(op: Option<OperationType>) -> bool {
    op == Some(OperationType::AudioMerge) || op == Some(OperationType::BatchConvert)
        || op == Some(OperationType::VideoAudioMerge)
}

impl Session {
    /// A file dropped on the window: a media file becomes the input of a
    /// single-file operation (in place of the first input); operations on
    /// several files leave it to their file list; any other file is refused
    /// with a message.
    pub fn accept_dropped_file(&mut self, file_path: &str)
        ensures
            is_media_name(file_path@) && !takes_many_files(old(self).current_operation) ==> {
                if old(self).input_files@.len() > 0 {
                    final(self).input_files@ == old(self).input_files@.update(0, final(self).input_files@[0])
                        && final(self).input_files@[0]@ == file_path@
                } else {
                    views(final(self).input_files@) == seq![file_path@]
                }
            } && final(self).status_message == old(self).status_message,
            is_media_name(file_path@) && takes_many_files(old(self).current_operation) ==>
                final(self).input_files == old(self).input_files && final(self).status_message == old(self).status_message,
            !is_media_name(file_path@) ==> final(self).input_files == old(self).input_files
                && final(self).status_message@ == "Unsupported file type: "@ + file_path@,
            final(self).output_file == old(self).output_file,
            final(self).current_operation == old(self).current_operation,
    {
        if is_media_file(file_path) {
            let many = match self.current_operation {
                Some(OperationType::AudioMerge) | Some(OperationType::BatchConvert)
                | Some(OperationType::VideoAudioMerge) => true,
                _ => false,
            };
            if !many {
                if self.input_files.len() > 0 {
                    let _old = self.input_files.remove(0);
                    self.input_files.insert(0, owned(file_path));
                    assert(self.input_files@ =~= old(self).input_files@.update(0, self.input_files@[0]));
                } else {
                    self.input_files.push(owned(file_path));
                    assert(views(self.input_files@) =~= seq![file_path@]);
                }
            }
        } else {
            self.status_message = cat("Unsupported file type: ", file_path);
        }
    }
}

impl Session {
    /// A file dropped on the video field of the subtitle and watermark
    /// operations: a video file, by its extension in any case, becomes the
    /// field's file and names the output beside it; any other file is ignored.
    pub fn drop_dedicated_video(&mut self, path: &str, stamp: &str)
        ensures
            video_extension(extension_lower(path@)) ==> {
                &&& final(self).dedicated_video_file@ == path@
                &&& final(self).input_files == old(self).input_files
                &&& {
                    let ext = output_extension_for(old(self).current_operation, old(self).video_settings, old(self).audio_settings);
                    match generated_output(path@, stamp@, ext) {
                        Some(o) if path@.len() > 0 => final(self).output_file@ == o,
                        _ => final(self).output_file == old(self).output_file,
                    }
                }
            },
            !video_extension(extension_lower(path@)) ==> *final(self) == *old(self),
    {
        if accepts_dropped_video(path) {
            self.dedicated_video_file = owned(path);
            self.generate_output_filename_from_video(stamp);
        }
    }

    /// After the input file list changed: names the output beside the first
    /// input, unless the user typed an output name of their own.
    pub fn refresh_output_after_selection(&mut self, files_changed: bool, stamp: &str)
        ensures
            ({
                let ext = output_extension_for(old(self).current_operation, old(self).video_settings, old(self).audio_settings);
                if files_changed && old(self).input_files@.len() > 0
                    && (old(self).output_file@.len() == 0 || is_generated_name(old(self).output_file@)) {
                    match generated_output(old(self).input_files@[0]@, stamp@, ext) {
                        Some(o) => final(self).output_file@ == o,
                        None => final(self).output_file == old(self).output_file,
                    }
                } else {
                    *final(self) == *old(self)
                }
            }),
            final(self).input_files == old(self).input_files,
    {
        if files_changed && self.input_files.len() > 0 {
            if is_blank(self.output_file.as_str()) || is_auto_generated_filename(self.output_file.as_str()) {
                self.generate_output_filename_from_input(stamp);
            }
        }
    }

    /// Records the size of the input's first video stream.
    pub fn note_video_size(&mut self, width: u32, height: u32)
        ensures
            *final(self) == (Session { detected_resolution: Some((width, height)), ..*old(self) }),
    {
        self.detected_resolution = Some((width, height));
    }

    /// Whether the input stands upright, once its size is known.
    pub fn is_portrait_video(&self) -> (r: Option<bool>)
        ensures
            r == (match self.detected_resolution {
                Some((w, h)) => Some(h > w),
                None => None,
            }),
    {
        match self.detected_resolution {
            Some((w, h)) => Some(h > w),
            None => None,
        }
    }
}

/// Whether the file list of an operation takes several files.
pub fn allows_multiple_files(op: &OperationType) -> (r: bool)
    ensures
        r == takes_many_files(Some(*op)),
{
    match op {
        OperationType::AudioMerge | OperationType::BatchConvert | OperationType::VideoAudioMerge => true,
        _ => false,
    }
}

/// The heading of an operation's file list.
pub open spec fn input_heading(op: OperationType, lang: Language) -> Seq<char> {
    match op {
        OperationType::VideoAudioMerge => pick(lang, "输入文件 (视频和音频)"@, "Input Files (Video and Audio)"@),
        OperationType::AudioMerge => pick(lang, "输入音频文件"@, "Input Audio Files"@),
        OperationType::BatchConvert => pick(lang, "批量输入文件"@, "Batch Input Files"@),
        _ => pick(lang, "输入文件"@, "Input Files"@),
    }
}

/// The heading of an operation's file list.
pub fn input_files_label(op: &OperationType, t: &Translations) -> (r: &'static str)
    ensures
        r@ == input_heading(*op, t.language),
{
    match op {
        OperationType::VideoAudioMerge => t.input_files_video_audio(),
        OperationType::AudioMerge => t.input_audio_files(),
        OperationType::BatchConvert => t.batch_input_files(),
        _ => t.input_files(),
    }
}

/// How a stream count reads in the file summary.
pub open spec fn stream_count(n: nat) -> Seq<char> {
    if n == 0 {
        "None"@
    } else {
        decimal(n) + " streams"@
    }
}

/// The summary of an analysed input file, its duration already written out.
pub open spec fn file_summary(name: Seq<char>, duration: Seq<char>, video: nat, audio: nat) -> Seq<char> {
    "File: "@ + name + "\nDuration: "@ + duration + "s\nVideo: "@ + stream_count(video) + "\nAudio: "@
        + stream_count(audio)
}

/// How a stream count reads in the file summary.
fn stream_count_text(n: usize) -> (r: String)
    ensures
        r@ == stream_count(n as nat),
{
    if n == 0 {
        proof {
            reveal_strlit("None");
        }
        owned("None")
    } else {
        cat(decimal_text(n as u64).as_str(), " streams")
    }
}

/// The summary of an analysed input file: its name, its duration as the
/// caller wrote it, and how many video and audio streams it holds.
pub fn describe_file(name: &str, duration: &str, video_streams: usize, audio_streams: usize) -> (r: String)
    ensures
        r@ == file_summary(name@, duration@, video_streams as nat, audio_streams as nat),
{
    let mut r = owned("File: ");
    r.append(name);
    r.append("\nDuration: ");
    r.append(duration);
    r.append("s\nVideo: ");
    r.append(stream_count_text(video_streams).as_str());
    r.append("\nAudio: ");
    r.append(stream_count_text(audio_streams).as_str());
    r
}

// ----- the compatibility warning -----

/// The answers the compatibility warning offers.
#[derive(Clone, Copy, Debug, PartialEq, Eq, Structural)]
pub enum WarningAnswer {
    ApplyRecommendation,
    ContinueAnyway,
    Cancel,
}

/// What resumes once the warning is answered: what was waiting, unless the
/// user cancelled.
pub open spec fn resumed(waiting: CompatibilityWarningContext, answer: WarningAnswer) -> CompatibilityWarningContext {
    if answer == WarningAnswer::Cancel {
        CompatibilityWarningContext::Idle
    } else {
        waiting
    }
}

/// The preview needs lengths that fit in a `usize`.
pub open spec fn preview_fits(s: Session) -> bool {
    &&& s.output_file@.len() < usize::MAX
    &&& forall|i: int| 0 <= i < s.input_files@.len() ==> s.input_files@[i]@.len() < usize::MAX
    &&& s.dedicated_video_file@.len() < usize::MAX
    &&& s.video_settings.custom_args@.len() < usize::MAX
    &&& s.video_settings.subtitle_file@.len() < usize::MAX
    &&& s.audio_settings.custom_args@.len() < usize::MAX
}

impl Session {
    /// The start button: checks the choices first. On a warning nothing is
    /// queued and the operation waits for the answer; otherwise the task to queue.
    pub fn start_processing(&mut self, c: &CodecCatalog, probe: Option<(bool, bool)>, operation: &OperationType, stamp: &str)
        -> (r: Option<ProcessingTask>)
        requires
            old(self).next_task_id < usize::MAX,
        ensures
            match compatibility_warning(*old(self), *c, probe) {
                Some(w) => {
                    &&& r is None
                    &&& shows_warning(*final(self), w)
                    &&& final(self).compatibility_warning_context == CompatibilityWarningContext::StartProcessing(*operation)
                    &&& final(self).next_task_id == old(self).next_task_id
                },
                None => {
                    &&& r matches Some(t) && is_session_task(t, *old(self), *operation, old(self).next_task_id,
                        unique_output(old(self).output_file@, stamp@, old(self).next_task_id))
                    &&& final(self).next_task_id == old(self).next_task_id + 1
                },
            },
            final(self).video_settings == old(self).video_settings,
            final(self).audio_settings == old(self).audio_settings,
            final(self).output_file == old(self).output_file,
    {
        if !self.check_compatibility_and_warn(c, probe) {
            self.compatibility_warning_context = CompatibilityWarningContext::StartProcessing(*operation);
            return None;
        }
        Some(self.force_start_processing(operation, stamp))
    }

    /// The preview button: checks the choices first. On a warning nothing is
    /// shown and the preview waits for the answer; otherwise the command is shown.
    pub fn show_command_preview(&mut self, c: &CodecCatalog, probe: Option<(bool, bool)>, operation: &OperationType,
        watermark_exists: bool) -> (previewed: bool)
        requires
            preview_fits(*old(self)),
        ensures
            match compatibility_warning(*old(self), *c, probe) {
                Some(w) => {
                    &&& !previewed
                    &&& shows_warning(*final(self), w)
                    &&& final(self).compatibility_warning_context == CompatibilityWarningContext::PreviewCommand(*operation)
                    &&& final(self).video_settings == old(self).video_settings
                    &&& final(self).audio_settings == old(self).audio_settings
                },
                None => previewed && shows_preview(*old(self), *final(self), *c, *operation, watermark_exists),
            },
    {
        if !self.check_compatibility_and_warn(c, probe) {
            self.compatibility_warning_context = CompatibilityWarningContext::PreviewCommand(*operation);
            return false;
        }
        self.force_show_command_preview(c, operation, watermark_exists);
        true
    }

    /// An answer to the compatibility warning: the warning closes, the
    /// recommendation is applied when asked for, and what waited on the
    /// answer is returned for the caller to carry out.
    pub fn answer_compatibility_warning(&mut self, answer: WarningAnswer) -> (r: CompatibilityWarningContext)
        ensures
            r == resumed(old(self).compatibility_warning_context, answer),
            !final(self).show_compatibility_warning,
            final(self).compatibility_warning_context == CompatibilityWarningContext::Idle,
            answer == WarningAnswer::ApplyRecommendation ==> recommendation_applied(*old(self), *final(self)),
            answer != WarningAnswer::ApplyRecommendation ==> {
                &&& final(self).video_settings == old(self).video_settings
                &&& final(self).audio_settings == old(self).audio_settings
                &&& final(self).output_file == old(self).output_file
                &&& final(self).status_message == old(self).status_message
            },
    {
        let waiting = self.compatibility_warning_context;
        let apply = match answer {
            WarningAnswer::ApplyRecommendation => true,
            _ => false,
        };
        if apply {
            self.apply_compatibility_recommendation();
        }
        self.show_compatibility_warning = false;
        self.compatibility_warning_context = CompatibilityWarningContext::Idle;
        match answer {
            WarningAnswer::Cancel => CompatibilityWarningContext::Idle,
            _ => waiting,
        }
    }

    /// The reset button: fresh video and audio settings.
    pub fn reset_settings(&mut self)
        ensures
            is_default_video(final(self).video_settings),
            is_default_audio(final(self).audio_settings),
            final(self).input_files == old(self).input_files,
            final(self).output_file == old(self).output_file,
            final(self).current_operation == old(self).current_operation,
    {
        self.video_settings = VideoSettings::default();
        self.audio_settings = AudioSettings::default();
    }
}

impl Session {
    /// Picks the interface language: a new one replaces the texts and the
    /// session says it is ready; the language already in use changes nothing.
    pub fn change_language(&mut self, language: Language)
        ensures
            language != old(self).translations.language ==> *final(self) == (Session {
                translations: Translations { language },
                status_message: final(self).status_message,
                ..*old(self)
            }) && final(self).status_message@ == pick(language, "就绪"@, "Ready"@),
            language == old(self).translations.language ==> *final(self) == *old(self),
    {
        if language != self.translations.language {
            self.translations = Translations::new(language);
            self.status_message = owned(self.translations.ready());
        }
    }

    /// The output's extension, in lower case, for which the smart
    /// recommendations and presets are offered: none for the GIF operations,
    /// an empty output or one without an extension.
    pub fn recommendation_format(&self, operation: &OperationType) -> (r: Option<String>)
        ensures
            match r {
                Some(e) => {
                    &&& *operation != OperationType::VideoToGif && *operation != OperationType::GifResize
                    &&& self.output_file@.len() > 0
                    &&& e@ == extension_lower(self.output_file@)
                    &&& e@.len() > 0
                },
                None => *operation == OperationType::VideoToGif || *operation == OperationType::GifResize
                    || self.output_file@.len() == 0 || extension_lower(self.output_file@).len() == 0,
            },
    {
        match operation {
            OperationType::VideoToGif | OperationType::GifResize => return None,
            _ => {},
        }
        if is_blank(self.output_file.as_str()) {
            return None;
        }
        let e = path_extension_lower(self.output_file.as_str());
        if is_blank(e.as_str()) {
            None
        } else {
            Some(e)
        }
    }
}

// ----- projects -----

/// What a project file keeps of a session: the operation, its files and the settings.
#[derive(Debug)]
pub struct ProjectConfig {
    pub current_operation: Option<OperationType>,
    pub input_files: Vec<String>,
    pub output_file: String,
    pub video_settings: VideoSettings,
    pub audio_settings: AudioSettings,
}

/// The project holds the session's operation, files and settings.
pub open spec fn holds_session(p: ProjectConfig, s: Session) -> bool {
    &&& p.current_operation == s.current_operation
    &&& views(p.input_files@) == views(s.input_files@)
    &&& p.output_file@ == s.output_file@
    &&& same_video(p.video_settings, s.video_settings)
    &&& same_audio(p.audio_settings, s.audio_settings)
}

impl Session {
    /// The project to save for the session.
    pub fn project_config(&self) -> (r: ProjectConfig)
        ensures
            holds_session(r, *self),
    {
        ProjectConfig {
            current_operation: self.current_operation,
            input_files: copy_texts(&self.input_files),
            output_file: self.output_file.clone(),
            video_settings: self.video_settings.duplicate(),
            audio_settings: self.audio_settings.duplicate(),
        }
    }

    /// After the project was written: says it was saved, or why it was not.
    pub fn note_project_saved(&mut self, outcome: Result<(), String>)
        ensures
            final(self).status_message@ == (match outcome {
                Ok(_) => pick(old(self).translations.language, "项目已保存"@, "Project saved"@),
                Err(e) => pick(old(self).translations.language, "保存失败"@, "Save failed"@) + ": "@ + e@,
            }),
            *final(self) == (Session { status_message: final(self).status_message, ..*old(self) }),
    {
        match outcome {
            Ok(_) => {
                self.status_message = owned(self.translations.project_saved());
            },
            Err(e) => {
                self.status_message = cat3(self.translations.save_error(), ": ", e.as_str());
            },
        }
    }

    /// A project read back: its operation, files and settings replace the
    /// session's and the session says so; when it could not be read, the
    /// session says why and keeps what it had.
    pub fn load_project(&mut self, loaded: Result<ProjectConfig, String>)
        ensures
            match loaded {
                Ok(p) => {
                    &&& final(self).current_operation == p.current_operation
                    &&& final(self).input_files == p.input_files
                    &&& final(self).output_file == p.output_file
                    &&& final(self).video_settings == p.video_settings
                    &&& final(self).audio_settings == p.audio_settings
                    &&& final(self).status_message@ == pick(old(self).translations.language, "项目已加载"@, "Project loaded"@)
                    &&& final(self).translations == old(self).translations
                    &&& final(self).next_task_id == old(self).next_task_id
                },
                Err(e) => {
                    &&& final(self).status_message@ == pick(old(self).translations.language, "加载失败"@, "Load failed"@) + ": "@ + e@
                    &&& *final(self) == (Session { status_message: final(self).status_message, ..*old(self) })
                },
            },
    {
        match loaded {
            Ok(p) => {
                self.current_operation = p.current_operation;
                self.input_files = p.input_files;
                self.output_file = p.output_file;
                self.video_settings = p.video_settings;
                self.audio_settings = p.audio_settings;
                self.status_message = owned(self.translations.project_loaded());
            },
            Err(e) => {
                self.status_message = cat3(self.translations.load_error(), ": ", e.as_str());
            },
        }
    }
}

/// Saving a project and loading it back restores the session's operation,
/// files and settings.
pub proof fn lemma_project_round_trip(s: Session, p: ProjectConfig, after: Session)
    requires
        holds_session(p, s),
        after.current_operation == p.current_operation,
        after.input_files == p.input_files,
        after.output_file == p.output_file,
        after.video_settings == p.video_settings,
        after.audio_settings == p.audio_settings,
    ensures
        after.current_operation == s.current_operation,
        views(after.input_files@) == views(s.input_files@),
        after.output_file@ == s.output_file@,
        same_video(after.video_settings, s.video_settings),
        same_audio(after.audio_settings, s.audio_settings),
{
}

} // verus!
