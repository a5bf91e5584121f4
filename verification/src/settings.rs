//! Operations, task states, and the video and audio settings a task carries.
use vstd::prelude::*;

verus! {

/// The processing operations the tool offers.
#[derive(Clone, Copy, Debug, PartialEq, Eq, Structural)]
pub enum OperationType {
    VideoConvert,
    VideoCompress,
    VideoResize,
    VideoCrop,
    VideoRotate,
    VideoFilter,
    AudioConvert,
    AudioCompress,
    AudioResample,
    AudioVolume,
    AudioTrim,
    AudioMerge,
    VideoAudioMerge,
    VideoAudioSplit,
    ExtractAudio,
    ExtractVideo,
    BatchConvert,
    AddSubtitle,
    AddWatermark,
    FrameExtract,
    VideoToGif,
    GifResize,
}

/// Where a task stands.
#[derive(Clone, Copy, Debug, PartialEq, Eq, Structural)]
pub enum TaskStatus {
    Pending,
    Running,
    Completed,
    Failed,
    Cancelled,
}

/// A fractional setting as the user interface holds it: the text it prints
/// as, and whether it lies at its neutral value (within 0.01 of it).
#[derive(Debug)]
pub struct Level {
    pub text: String,
    pub neutral: bool,
}

impl Level {
    /// A level at its neutral value, printed as `text`.
    pub fn neutral_at(text: &str) -> (r: Level)
        ensures
            r.text@ == text@,
            r.neutral,
    {
        Level { text: String::from_str(text), neutral: true }
    }

    /// A copy of the level.
    pub fn duplicate(&self) -> (r: Level)
        ensures
            r.text@ == self.text@,
            r.neutral == self.neutral,
    {
        Level { text: self.text.clone(), neutral: self.neutral }
    }
}

/// Settings for the video side of an operation.
#[derive(Debug)]
pub struct VideoSettings {
    pub codec: String,
    pub container_format: String,
    pub preset: String,
    pub profile: String,
    pub tune: String,
    pub quality: i32,
    pub crf: i32,
    pub bitrate: String,
    pub fps: String,
    pub resolution: (u32, u32),
    pub use_hardware_acceleration: bool,
    pub custom_args: String,
    pub target_size_mb: i32,
    pub width: Option<u32>,
    pub height: Option<u32>,
    pub maintain_aspect_ratio: bool,
    pub crop_top: Option<u32>,
    pub crop_bottom: Option<u32>,
    pub crop_left: Option<u32>,
    pub crop_right: Option<u32>,
    pub rotation: i32,
    pub use_custom_rotation: bool,
    /// The custom angle: `text` is the angle in radians, `neutral` means an angle of zero.
    pub custom_rotation: Level,
    pub flip_horizontal: bool,
    pub flip_vertical: bool,
    pub denoise: bool,
    pub deinterlace: bool,
    pub stabilize: bool,
    pub brightness: Level,
    pub contrast: Level,
    pub saturation: Level,
    pub subtitle_file: String,
    pub subtitle_mode: String,
    pub subtitle_font_family: String,
    pub subtitle_font_size: u32,
    pub subtitle_font_color: String,
    pub watermark_file: String,
    pub watermark_position: String,
    pub watermark_opacity: Level,
    pub watermark_scale: Level,
    pub frame_extract_mode: String,
    pub frame_interval: u32,
    pub frame_start_time: String,
    pub frame_end_time: String,
    pub frame_format: String,
    pub frame_quality: u32,
    pub gif_fps: u32,
    pub gif_scale: Level,
    pub gif_loop: bool,
    pub gif_optimize: bool,
    pub gif_colors: u32,
    pub gif_dither: String,
    pub batch_operation_type: String,
    pub batch_naming_pattern: String,
}

/// Settings for the audio side of an operation.
#[derive(Debug)]
pub struct AudioSettings {
    pub codec: String,
    pub format: String,
    pub bitrate: String,
    pub sample_rate: String,
    pub channels: String,
    pub volume: Level,
    pub quality: String,
    pub custom_args: String,
    pub sync_audio: bool,
}

/// The encoding fields of fresh video settings: automatic choices, no
/// quality, size or arguments, no hardware acceleration.
pub open spec fn default_video_encoding(s: VideoSettings) -> bool {
    &&& s.codec@ == "auto"@
    &&& s.preset@ == "auto"@
    &&& s.profile@ == "auto"@
    &&& s.tune@ == "auto"@
    &&& s.quality == 0
    &&& s.bitrate@ == "auto"@
    &&& s.fps@ == "auto"@
    &&& s.resolution == (0u32, 0u32)
    &&& !s.use_hardware_acceleration
    &&& s.custom_args@ == Seq::<char>::empty()
}

/// The fields of fresh video settings other than the encoding ones.
pub open spec fn default_video_extras(s: VideoSettings) -> bool {
    &&& s.container_format@ == "auto"@
    &&& s.crf == 23
    &&& s.target_size_mb == 0
    &&& s.width is None
    &&& s.height is None
    &&& s.maintain_aspect_ratio
    &&& s.crop_top is None
    &&& s.crop_bottom is None
    &&& s.crop_left is None
    &&& s.crop_right is None
    &&& s.rotation == 0
    &&& !s.use_custom_rotation
    &&& s.custom_rotation.text@ == "0"@ && s.custom_rotation.neutral
    &&& !s.flip_horizontal
    &&& !s.flip_vertical
    &&& !s.denoise
    &&& !s.deinterlace
    &&& !s.stabilize
    &&& s.brightness.text@ == "0"@ && s.brightness.neutral
    &&& s.contrast.text@ == "1"@ && s.contrast.neutral
    &&& s.saturation.text@ == "1"@ && s.saturation.neutral
    &&& s.subtitle_file@ == Seq::<char>::empty()
    &&& s.subtitle_mode@ == "hard"@
    &&& s.subtitle_font_family@ == "Arial"@
    &&& s.subtitle_font_size == 16
    &&& s.subtitle_font_color@ == "white"@
    &&& s.watermark_file@ == Seq::<char>::empty()
    &&& s.watermark_position@ == "top-right"@
    &&& s.watermark_opacity.text@ == "1"@ && s.watermark_opacity.neutral
    &&& s.watermark_scale.text@ == "1"@ && s.watermark_scale.neutral
    &&& s.frame_extract_mode@ == "interval"@
    &&& s.frame_interval == 30
    &&& s.frame_start_time@ == Seq::<char>::empty()
    &&& s.frame_end_time@ == Seq::<char>::empty()
    &&& s.frame_format@ == "png"@
    &&& s.frame_quality == 2
    &&& s.gif_fps == 10
    &&& s.gif_scale.text@ == "1"@ && s.gif_scale.neutral
    &&& s.gif_loop
    &&& s.gif_optimize
    &&& s.gif_colors == 256
    &&& s.gif_dither@ == "floyd_steinberg"@
    &&& s.batch_operation_type@ == "convert"@
    &&& s.batch_naming_pattern@ == "{name}_{index}"@
}

/// The values a fresh set of video settings holds.
pub open spec fn is_default_video(s: VideoSettings) -> bool {
    default_video_encoding(s) && default_video_extras(s)
}

/// The encoding fields of fresh audio settings: automatic choices and no arguments.
pub open spec fn default_audio_encoding(s: AudioSettings) -> bool {
    &&& s.codec@ == "auto"@
    &&& s.bitrate@ == "auto"@
    &&& s.sample_rate@ == "auto"@
    &&& s.channels@ == "auto"@
    &&& s.quality@ == "auto"@
    &&& s.custom_args@ == Seq::<char>::empty()
}

/// The fields of fresh audio settings other than the encoding ones.
pub open spec fn default_audio_extras(s: AudioSettings) -> bool {
    &&& s.format@ == "auto"@
    &&& s.volume.text@ == "1"@ && s.volume.neutral
    &&& !s.sync_audio
}

/// The values a fresh set of audio settings holds.
pub open spec fn is_default_audio(s: AudioSettings) -> bool {
    default_audio_encoding(s) && default_audio_extras(s)
}

impl Default for VideoSettings {
    fn default() -> (r: VideoSettings)
        ensures
            is_default_video(r),
    {
        VideoSettings {
            codec: String::from_str("auto"),
            container_format: String::from_str("auto"),
            preset: String::from_str("auto"),
            profile: String::from_str("auto"),
            tune: String::from_str("auto"),
            quality: 0,
            crf: 23,
            bitrate: String::from_str("auto"),
            fps: String::from_str("auto"),
            resolution: (0, 0),
            use_hardware_acceleration: false,
            custom_args: String::new(),
            target_size_mb: 0,
            width: None,
            height: None,
            maintain_aspect_ratio: true,
            crop_top: None,
            crop_bottom: None,
            crop_left: None,
            crop_right: None,
            rotation: 0,
            use_custom_rotation: false,
            custom_rotation: Level::neutral_at("0"),
            flip_horizontal: false,
            flip_vertical: false,
            denoise: false,
            deinterlace: false,
            stabilize: false,
            brightness: Level::neutral_at("0"),
            contrast: Level::neutral_at("1"),
            saturation: Level::neutral_at("1"),
            subtitle_file: String::new(),
            subtitle_mode: String::from_str("hard"),
            subtitle_font_family: String::from_str("Arial"),
            subtitle_font_size: 16,
            subtitle_font_color: String::from_str("white"),
            watermark_file: String::new(),
            watermark_position: String::from_str("top-right"),
            watermark_opacity: Level::neutral_at("1"),
            watermark_scale: Level::neutral_at("1"),
            frame_extract_mode: String::from_str("interval"),
            frame_interval: 30,
            frame_start_time: String::new(),
            frame_end_time: String::new(),
            frame_format: String::from_str("png"),
            frame_quality: 2,
            gif_fps: 10,
            gif_scale: Level::neutral_at("1"),
            gif_loop: true,
            gif_optimize: true,
            gif_colors: 256,
            gif_dither: String::from_str("floyd_steinberg"),
            batch_operation_type: String::from_str("convert"),
            batch_naming_pattern: String::from_str("{name}_{index}"),
        }
    }
}

impl Default for AudioSettings {
    fn default() -> (r: AudioSettings)
        ensures
            is_default_audio(r),
    {
        AudioSettings {
            codec: String::from_str("auto"),
            format: String::from_str("auto"),
            bitrate: String::from_str("auto"),
            sample_rate: String::from_str("auto"),
            channels: String::from_str("auto"),
            volume: Level::neutral_at("1"),
            quality: String::from_str("auto"),
            custom_args: String::new(),
            sync_audio: false,
        }
    }
}

/// Two video settings agree in every field, texts by their characters.
pub open spec fn same_video(a: VideoSettings, b: VideoSettings) -> bool {
    &&& a.codec@ == b.codec@
    &&& a.container_format@ == b.container_format@
    &&& a.preset@ == b.preset@
    &&& a.profile@ == b.profile@
    &&& a.tune@ == b.tune@
    &&& a.quality == b.quality
    &&& a.crf == b.crf
    &&& a.bitrate@ == b.bitrate@
    &&& a.fps@ == b.fps@
    &&& a.resolution == b.resolution
    &&& a.use_hardware_acceleration == b.use_hardware_acceleration
    &&& a.custom_args@ == b.custom_args@
    &&& a.target_size_mb == b.target_size_mb
    &&& a.width == b.width
    &&& a.height == b.height
    &&& a.maintain_aspect_ratio == b.maintain_aspect_ratio
    &&& a.crop_top == b.crop_top
    &&& a.crop_bottom == b.crop_bottom
    &&& a.crop_left == b.crop_left
    &&& a.crop_right == b.crop_right
    &&& a.rotation == b.rotation
    &&& a.use_custom_rotation == b.use_custom_rotation
    &&& a.custom_rotation.text@ == b.custom_rotation.text@
    &&& a.custom_rotation.neutral == b.custom_rotation.neutral
    &&& a.flip_horizontal == b.flip_horizontal
    &&& a.flip_vertical == b.flip_vertical
    &&& a.denoise == b.denoise
    &&& a.deinterlace == b.deinterlace
    &&& a.stabilize == b.stabilize
    &&& a.brightness.text@ == b.brightness.text@
    &&& a.brightness.neutral == b.brightness.neutral
    &&& a.contrast.text@ == b.contrast.text@
    &&& a.contrast.neutral == b.contrast.neutral
    &&& a.saturation.text@ == b.saturation.text@
    &&& a.saturation.neutral == b.saturation.neutral
    &&& a.subtitle_file@ == b.subtitle_file@
    &&& a.subtitle_mode@ == b.subtitle_mode@
    &&& a.subtitle_font_family@ == b.subtitle_font_family@
    &&& a.subtitle_font_size == b.subtitle_font_size
    &&& a.subtitle_font_color@ == b.subtitle_font_color@
    &&& a.watermark_file@ == b.watermark_file@
    &&& a.watermark_position@ == b.watermark_position@
    &&& a.watermark_opacity.text@ == b.watermark_opacity.text@
    &&& a.watermark_opacity.neutral == b.watermark_opacity.neutral
    &&& a.watermark_scale.text@ == b.watermark_scale.text@
    &&& a.watermark_scale.neutral == b.watermark_scale.neutral
    &&& a.frame_extract_mode@ == b.frame_extract_mode@
    &&& a.frame_interval == b.frame_interval
    &&& a.frame_start_time@ == b.frame_start_time@
    &&& a.frame_end_time@ == b.frame_end_time@
    &&& a.frame_format@ == b.frame_format@
    &&& a.frame_quality == b.frame_quality
    &&& a.gif_fps == b.gif_fps
    &&& a.gif_scale.text@ == b.gif_scale.text@
    &&& a.gif_scale.neutral == b.gif_scale.neutral
    &&& a.gif_loop == b.gif_loop
    &&& a.gif_optimize == b.gif_optimize
    &&& a.gif_colors == b.gif_colors
    &&& a.gif_dither@ == b.gif_dither@
    &&& a.batch_operation_type@ == b.batch_operation_type@
    &&& a.batch_naming_pattern@ == b.batch_naming_pattern@
}

/// Two audio settings agree in every field, texts by their characters.
pub open spec fn same_audio(a: AudioSettings, b: AudioSettings) -> bool {
    &&& a.codec@ == b.codec@
    &&& a.format@ == b.format@
    &&& a.bitrate@ == b.bitrate@
    &&& a.sample_rate@ == b.sample_rate@
    &&& a.channels@ == b.channels@
    &&& a.volume.text@ == b.volume.text@
    &&& a.volume.neutral == b.volume.neutral
    &&& a.quality@ == b.quality@
    &&& a.custom_args@ == b.custom_args@
    &&& a.sync_audio == b.sync_audio
}

/// Two optional audio settings are both absent, or both present and alike.
pub open spec fn same_audio_choice(a: Option<AudioSettings>, b: Option<AudioSettings>) -> bool {
    match (a, b) {
        (None, None) => true,
        (Some(x), Some(y)) => same_audio(x, y),
        _ => false,
    }
}

impl VideoSettings {
    /// A field-for-field copy.
    pub fn duplicate(&self) -> (r: VideoSettings)
        ensures
            same_video(r, *self),
    {
        VideoSettings {
            codec: self.codec.clone(),
            container_format: self.container_format.clone(),
            preset: self.preset.clone(),
            profile: self.profile.clone(),
            tune: self.tune.clone(),
            quality: self.quality,
            crf: self.crf,
            bitrate: self.bitrate.clone(),
            fps: self.fps.clone(),
            resolution: self.resolution,
            use_hardware_acceleration: self.use_hardware_acceleration,
            custom_args: self.custom_args.clone(),
            target_size_mb: self.target_size_mb,
            width: self.width,
            height: self.height,
            maintain_aspect_ratio: self.maintain_aspect_ratio,
            crop_top: self.crop_top,
            crop_bottom: self.crop_bottom,
            crop_left: self.crop_left,
            crop_right: self.crop_right,
            rotation: self.rotation,
            use_custom_rotation: self.use_custom_rotation,
            custom_rotation: self.custom_rotation.duplicate(),
            flip_horizontal: self.flip_horizontal,
            flip_vertical: self.flip_vertical,
            denoise: self.denoise,
            deinterlace: self.deinterlace,
            stabilize: self.stabilize,
            brightness: self.brightness.duplicate(),
            contrast: self.contrast.duplicate(),
            saturation: self.saturation.duplicate(),
            subtitle_file: self.subtitle_file.clone(),
            subtitle_mode: self.subtitle_mode.clone(),
            subtitle_font_family: self.subtitle_font_family.clone(),
            subtitle_font_size: self.subtitle_font_size,
            subtitle_font_color: self.subtitle_font_color.clone(),
            watermark_file: self.watermark_file.clone(),
            watermark_position: self.watermark_position.clone(),
            watermark_opacity: self.watermark_opacity.duplicate(),
            watermark_scale: self.watermark_scale.duplicate(),
            frame_extract_mode: self.frame_extract_mode.clone(),
            frame_interval: self.frame_interval,
            frame_start_time: self.frame_start_time.clone(),
            frame_end_time: self.frame_end_time.clone(),
            frame_format: self.frame_format.clone(),
            frame_quality: self.frame_quality,
            gif_fps: self.gif_fps,
            gif_scale: self.gif_scale.duplicate(),
            gif_loop: self.gif_loop,
            gif_optimize: self.gif_optimize,
            gif_colors: self.gif_colors,
            gif_dither: self.gif_dither.clone(),
            batch_operation_type: self.batch_operation_type.clone(),
            batch_naming_pattern: self.batch_naming_pattern.clone(),
        }
    }
}

impl AudioSettings {
    /// A field-for-field copy.
    pub fn duplicate(&self) -> (r: AudioSettings)
        ensures
            same_audio(r, *self),
    {
        AudioSettings {
            codec: self.codec.clone(),
            format: self.format.clone(),
            bitrate: self.bitrate.clone(),
            sample_rate: self.sample_rate.clone(),
            channels: self.channels.clone(),
            volume: self.volume.duplicate(),
            quality: self.quality.clone(),
            custom_args: self.custom_args.clone(),
            sync_audio: self.sync_audio,
        }
    }
}

/// A copy of optional audio settings.
pub fn duplicate_audio_choice(a: &Option<AudioSettings>) -> (r: Option<AudioSettings>)
    ensures
        same_audio_choice(r, *a),
{
    match a {
        Some(x) => Some(x.duplicate()),
        None => None,
    }
}

/// One unit of work: an operation on input files, with its settings and state.
#[derive(Debug)]
pub struct ProcessingTask {
    pub id: usize,
    pub operation: OperationType,
    pub input_files: Vec<String>,
    pub output_file: String,
    pub video_settings: Option<VideoSettings>,
    pub audio_settings: Option<AudioSettings>,
    pub status: TaskStatus,
    pub error_message: Option<String>,
}

/// Why a command cannot be built for a task.
#[derive(Clone, Copy, Debug, PartialEq, Eq, Structural)]
pub enum ErrorKind {
    NoInputFiles,
    NoInputVideo,
    NoInputGif,
    NoVideoFile,
    NeedTwoForVideoAudioMerge,
    NeedTwoForAudioMerge,
    NoAudioSettings,
    NoVideoSettings,
    NoSubtitleFile,
    NoWatermarkFile,
    WatermarkNotFound,
    VideoNotFound,
    SubtitleNotFound,
    SubtitleGivenAsVideo,
    NoVideoStream,
    NoAudioStream,
}

/// A refusal to build a command, with the file it concerns where there is one.
#[derive(Debug)]
pub struct TaskError {
    pub kind: ErrorKind,
    pub detail: String,
}

/// The message a refusal reads as.
pub open spec fn error_message(kind: ErrorKind, detail: Seq<char>) -> Seq<char> {
    match kind {
        ErrorKind::NoInputFiles => "No input files specified"@,
        ErrorKind::NoInputVideo => "No input video file specified"@,
        ErrorKind::NoInputGif => "No input GIF file specified"@,
        ErrorKind::NoVideoFile => "No video file specified"@,
        ErrorKind::NeedTwoForVideoAudioMerge => "Need at least 2 files for video/audio merge"@,
        ErrorKind::NeedTwoForAudioMerge => "Need at least 2 files for audio merge"@,
        ErrorKind::NoAudioSettings => "No audio settings specified"@,
        ErrorKind::NoVideoSettings => "No video settings specified"@,
        ErrorKind::NoSubtitleFile => "No subtitle file specified"@,
        ErrorKind::NoWatermarkFile => "No watermark file specified"@,
        ErrorKind::WatermarkNotFound => "Watermark file not found: "@ + detail,
        ErrorKind::VideoNotFound => "Video file not found: "@ + detail,
        ErrorKind::SubtitleNotFound => "Subtitle file not found: "@ + detail,
        ErrorKind::SubtitleGivenAsVideo => "First input must be a video file, not a subtitle file"@,
        ErrorKind::NoVideoStream => "No video stream found in either input file"@,
        ErrorKind::NoAudioStream => "No audio stream found in either input file"@,
    }
}

impl TaskError {
    /// A refusal that concerns no file.
    pub fn plain(kind: ErrorKind) -> (r: TaskError)
        ensures
            r.kind == kind,
            r.detail@ == Seq::<char>::empty(),
    {
        TaskError { kind, detail: String::new() }
    }

    /// A refusal that concerns the file `path`.
    pub fn about(kind: ErrorKind, path: &str) -> (r: TaskError)
        ensures
            r.kind == kind,
            r.detail@ == path@,
    {
        TaskError { kind, detail: String::from_str(path) }
    }

    /// The message the refusal reads as.
    pub fn message(&self) -> (r: String)
        ensures
            r@ == error_message(self.kind, self.detail@),
    {
        let mut r = String::from_str(
            match self.kind {
                ErrorKind::NoInputFiles => "No input files specified",
                ErrorKind::NoInputVideo => "No input video file specified",
                ErrorKind::NoInputGif => "No input GIF file specified",
                ErrorKind::NoVideoFile => "No video file specified",
                ErrorKind::NeedTwoForVideoAudioMerge => "Need at least 2 files for video/audio merge",
                ErrorKind::NeedTwoForAudioMerge => "Need at least 2 files for audio merge",
                ErrorKind::NoAudioSettings => "No audio settings specified",
                ErrorKind::NoVideoSettings => "No video settings specified",
                ErrorKind::NoSubtitleFile => "No subtitle file specified",
                ErrorKind::NoWatermarkFile => "No watermark file specified",
                ErrorKind::WatermarkNotFound => "Watermark file not found: ",
                ErrorKind::VideoNotFound => "Video file not found: ",
                ErrorKind::SubtitleNotFound => "Subtitle file not found: ",
                ErrorKind::SubtitleGivenAsVideo => "First input must be a video file, not a subtitle file",
                ErrorKind::NoVideoStream => "No video stream found in either input file",
                ErrorKind::NoAudioStream => "No audio stream found in either input file",
            },
        );
        match self.kind {
            ErrorKind::WatermarkNotFound | ErrorKind::VideoNotFound | ErrorKind::SubtitleNotFound => {
                r.append(self.detail.as_str());
            },
            _ => {},
        }
        r
    }
}

} // verus!
