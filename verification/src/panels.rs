//! The decisions the settings panels make: which files a field accepts and
//! how it reports them, what the resolution buttons and size fields write,
//! and the hints and summaries the panels show.
use vstd::prelude::*;
use crate::text::{
    lowercase, to_lower, has_suffix, is_blank, same_text, decimal, signed_decimal, join, views,
    decimal_text, signed_text, owned, push_string, join_strings,
};
use crate::paths::{extension_lower, path_extension_lower, file_name, path_file_name};
use crate::settings::{VideoSettings, OperationType, TaskStatus};
use crate::session::operation_name;
use crate::language::{Language, Translations, pick, pick_text};

verus! {

// ----- file fields -----

/// What a file field holds: nothing yet, a file of the kind it asks for,
/// or a file of another kind.
#[derive(Clone, Copy, Debug, PartialEq, Eq, Structural)]
pub enum FileStatus {
    Missing,
    Ready,
    WrongKind,
}

/// `s` ends with `p`.
pub open spec fn ends_with(s: Seq<char>, p: Seq<char>) -> bool {
    p.len() <= s.len() && s.skip(s.len() - p.len()) == p
}

/// A lower-cased path names a subtitle file.
pub open spec fn subtitle_suffix(lower: Seq<char>) -> bool {
    ends_with(lower, ".srt"@) || ends_with(lower, ".ass"@) || ends_with(lower, ".vtt"@)
        || ends_with(lower, ".sub"@)
}

/// A lower-cased path names an image file.
pub open spec fn image_suffix(lower: Seq<char>) -> bool {
    ends_with(lower, ".png"@) || ends_with(lower, ".jpg"@) || ends_with(lower, ".jpeg"@)
        || ends_with(lower, ".bmp"@) || ends_with(lower, ".gif"@)
}

/// A lower-cased path names a video file.
pub open spec fn video_suffix(lower: Seq<char>) -> bool {
    ends_with(lower, ".mp4"@) || ends_with(lower, ".avi"@) || ends_with(lower, ".mkv"@)
        || ends_with(lower, ".mov"@) || ends_with(lower, ".webm"@) || ends_with(lower, ".flv"@)
        || ends_with(lower, ".wmv"@) || ends_with(lower, ".m4v"@)
}

/// The status of a field holding `path`, given whether its name is of the
/// kind asked for.
pub open spec fn status_of(path: Seq<char>, of_kind: bool) -> FileStatus {
    if path.len() == 0 {
        FileStatus::Missing
    } else if of_kind {
        FileStatus::Ready
    } else {
        FileStatus::WrongKind
    }
}

/// The status of the subtitle file field.
pub fn subtitle_file_status(path: &str) -> (r: FileStatus)
    ensures
        r == status_of(path@, subtitle_suffix(lowercase(path@))),
{
    if is_blank(path) {
        return FileStatus::Missing;
    }
    let lower = to_lower(path);
    let l = lower.as_str();
    if has_suffix(l, ".srt") || has_suffix(l, ".ass") || has_suffix(l, ".vtt") || has_suffix(l, ".sub") {
        FileStatus::Ready
    } else {
        FileStatus::WrongKind
    }
}

/// The status of the watermark image field.
pub fn watermark_file_status(path: &str) -> (r: FileStatus)
    ensures
        r == status_of(path@, image_suffix(lowercase(path@))),
{
    if is_blank(path) {
        return FileStatus::Missing;
    }
    let lower = to_lower(path);
    let l = lower.as_str();
    if has_suffix(l, ".png") || has_suffix(l, ".jpg") || has_suffix(l, ".jpeg") || has_suffix(l, ".bmp")
        || has_suffix(l, ".gif") {
        FileStatus::Ready
    } else {
        FileStatus::WrongKind
    }
}

/// The status of the video file field of the subtitle and watermark operations.
pub fn video_file_status(path: &str) -> (r: FileStatus)
    ensures
        r == status_of(path@, video_suffix(lowercase(path@))),
{
    if is_blank(path) {
        return FileStatus::Missing;
    }
    let lower = to_lower(path);
    let l = lower.as_str();
    if has_suffix(l, ".mp4") || has_suffix(l, ".avi") || has_suffix(l, ".mkv") || has_suffix(l, ".mov")
        || has_suffix(l, ".webm") || has_suffix(l, ".flv") || has_suffix(l, ".wmv") || has_suffix(l, ".m4v") {
        FileStatus::Ready
    } else {
        FileStatus::WrongKind
    }
}

/// The extensions a subtitle field takes from a drop.
pub open spec fn subtitle_extension(x: Seq<char>) -> bool {
    x == "srt"@ || x == "ass"@ || x == "vtt"@ || x == "sub"@
}

/// The extensions a watermark field takes from a drop.
pub open spec fn image_extension(x: Seq<char>) -> bool {
    x == "png"@ || x == "jpg"@ || x == "jpeg"@ || x == "bmp"@ || x == "gif"@
}

/// The extensions a video field takes from a drop.
pub open spec fn video_extension(x: Seq<char>) -> bool {
    x == "mp4"@ || x == "avi"@ || x == "mkv"@ || x == "mov"@ || x == "webm"@ || x == "flv"@
        || x == "wmv"@ || x == "m4v"@
}

/// Whether the subtitle field takes a dropped file, by its extension in any case.
pub fn accepts_dropped_subtitle(path: &str) -> (r: bool)
    ensures
        r == subtitle_extension(extension_lower(path@)),
{
    let e = path_extension_lower(path);
    let x = e.as_str();
    same_text(x, "srt") || same_text(x, "ass") || same_text(x, "vtt") || same_text(x, "sub")
}

/// Whether the watermark field takes a dropped file, by its extension in any case.
pub fn accepts_dropped_image(path: &str) -> (r: bool)
    ensures
        r == image_extension(extension_lower(path@)),
{
    let e = path_extension_lower(path);
    let x = e.as_str();
    same_text(x, "png") || same_text(x, "jpg") || same_text(x, "jpeg") || same_text(x, "bmp")
        || same_text(x, "gif")
}

/// Whether the video field takes a dropped file, by its extension in any case.
pub fn accepts_dropped_video(path: &str) -> (r: bool)
    ensures
        r == video_extension(extension_lower(path@)),
{
    let e = path_extension_lower(path);
    let x = e.as_str();
    same_text(x, "mp4") || same_text(x, "avi") || same_text(x, "mkv") || same_text(x, "mov")
        || same_text(x, "webm") || same_text(x, "flv") || same_text(x, "wmv") || same_text(x, "m4v")
}

// ----- output size -----

/// The resolution buttons of the resize panel.
#[derive(Clone, Copy, Debug, PartialEq, Eq, Structural)]
pub enum ResolutionPreset {
    Hd720,
    FullHd1080,
    Uhd4k,
}

/// The size a preset stands for, upright when `portrait`.
pub open spec fn preset_size(p: ResolutionPreset, portrait: bool) -> (u32, u32) {
    let (long, short): (u32, u32) = match p {
        ResolutionPreset::Hd720 => (1280, 720),
        ResolutionPreset::FullHd1080 => (1920, 1080),
        ResolutionPreset::Uhd4k => (3840, 2160),
    };
    if portrait {
        (short, long)
    } else {
        (long, short)
    }
}

/// The settings with the output size set to `size`, in the width, the
/// height and the resolution alike.
pub open spec fn sized(s: VideoSettings, size: (u32, u32)) -> VideoSettings {
    VideoSettings { width: Some(size.0), height: Some(size.1), resolution: size, ..s }
}

/// A size field's value as the settings keep it: none for zero or less.
pub open spec fn from_field(v: int) -> Option<u32> {
    if v > 0 {
        Some(v as u32)
    } else {
        None
    }
}

/// The resolution after a size field changed: the width and height when
/// both are set, else the one before.
pub open spec fn synced_resolution(s: VideoSettings) -> (u32, u32) {
    match (s.width, s.height) {
        (Some(w), Some(h)) => (w, h),
        _ => s.resolution,
    }
}

/// The settings after the width field was set to `v`.
pub open spec fn with_width(s: VideoSettings, v: int) -> VideoSettings {
    let t = VideoSettings { width: from_field(v), ..s };
    VideoSettings { resolution: synced_resolution(t), ..t }
}

/// The settings after the height field was set to `v`.
pub open spec fn with_height(s: VideoSettings, v: int) -> VideoSettings {
    let t = VideoSettings { height: from_field(v), ..s };
    VideoSettings { resolution: synced_resolution(t), ..t }
}

/// A size field's value as the settings keep it.
pub fn field_value(v: i32) -> (r: Option<u32>)
    ensures
        r == from_field(v as int),
{
    if v > 0 {
        Some(v as u32)
    } else {
        None
    }
}

impl VideoSettings {
    /// A landscape preset button: the preset's size, turned upright when
    /// the input was detected as portrait.
    pub fn apply_landscape_preset(&mut self, preset: ResolutionPreset, is_portrait: Option<bool>)
        ensures
            *final(self) == sized(*old(self), preset_size(preset, is_portrait == Some(true))),
    {
        let portrait = match is_portrait {
            Some(p) => p,
            None => false,
        };
        self.set_preset_size(preset, portrait);
    }

    /// A portrait preset button: the preset's size, upright.
    pub fn apply_portrait_preset(&mut self, preset: ResolutionPreset)
        ensures
            *final(self) == sized(*old(self), preset_size(preset, true)),
    {
        self.set_preset_size(preset, true);
    }

    fn set_preset_size(&mut self, preset: ResolutionPreset, portrait: bool)
        ensures
            *final(self) == sized(*old(self), preset_size(preset, portrait)),
    {
        let (long, short): (u32, u32) = match preset {
            ResolutionPreset::Hd720 => (1280, 720),
            ResolutionPreset::FullHd1080 => (1920, 1080),
            ResolutionPreset::Uhd4k => (3840, 2160),
        };
        let (w, h) = if portrait { (short, long) } else { (long, short) };
        self.width = Some(w);
        self.height = Some(h);
        self.resolution = (w, h);
    }

    /// The custom width field changed to `v`.
    pub fn set_custom_width(&mut self, v: i32)
        ensures
            *final(self) == with_width(*old(self), v as int),
    {
        self.width = field_value(v);
        match (self.width, self.height) {
            (Some(w), Some(h)) => { self.resolution = (w, h); },
            _ => {},
        }
    }

    /// The custom height field changed to `v`.
    pub fn set_custom_height(&mut self, v: i32)
        ensures
            *final(self) == with_height(*old(self), v as int),
    {
        self.height = field_value(v);
        match (self.width, self.height) {
            (Some(w), Some(h)) => { self.resolution = (w, h); },
            _ => {},
        }
    }
}

/// A preset gives the same size as the width and height fields set to it
/// one after the other.
pub proof fn lemma_preset_is_typed_size(s: VideoSettings, p: ResolutionPreset, portrait: bool)
    ensures
        ({
            let size = preset_size(p, portrait);
            with_height(with_width(s, size.0 as int), size.1 as int) == sized(s, size)
        }),
{
}

/// Once both size fields hold positive values, the resolution is the two of them.
pub proof fn lemma_fields_set_resolution(s: VideoSettings, w: i32, h: i32)
    requires
        w > 0,
        h > 0,
    ensures
        with_height(with_width(s, w as int), h as int).resolution == (w as u32, h as u32),
        with_width(with_height(s, h as int), w as int).resolution == (w as u32, h as u32),
{
}

/// A portrait preset is taller than wide and a landscape one wider than tall.
pub proof fn lemma_preset_orientation(p: ResolutionPreset)
    ensures
        preset_size(p, true).0 < preset_size(p, true).1,
        preset_size(p, false).0 > preset_size(p, false).1,
        preset_size(p, true) == (preset_size(p, false).1, preset_size(p, false).0),
{
}

/// The four fields of the crop panel.
#[derive(Clone, Copy, Debug, PartialEq, Eq, Structural)]
pub enum CropEdge {
    Top,
    Bottom,
    Left,
    Right,
}

/// The settings after a crop field was set to `v`.
pub open spec fn with_crop(s: VideoSettings, edge: CropEdge, v: int) -> VideoSettings {
    match edge {
        CropEdge::Top => VideoSettings { crop_top: from_field(v), ..s },
        CropEdge::Bottom => VideoSettings { crop_bottom: from_field(v), ..s },
        CropEdge::Left => VideoSettings { crop_left: from_field(v), ..s },
        CropEdge::Right => VideoSettings { crop_right: from_field(v), ..s },
    }
}

impl VideoSettings {
    /// A crop field changed to `v`: zero or less leaves that edge uncropped.
    pub fn set_crop_edge(&mut self, edge: CropEdge, v: i32)
        ensures
            *final(self) == with_crop(*old(self), edge, v as int),
    {
        let value = field_value(v);
        match edge {
            CropEdge::Top => { self.crop_top = value; },
            CropEdge::Bottom => { self.crop_bottom = value; },
            CropEdge::Left => { self.crop_left = value; },
            CropEdge::Right => { self.crop_right = value; },
        }
    }
}

/// Which of the shared encoding panels an operation shows, and whether they
/// stand one above the other rather than side by side.
#[derive(Clone, Copy, Debug, PartialEq, Eq, Structural)]
pub struct SettingsSections {
    pub video: bool,
    pub audio: bool,
    pub stacked: bool,
}

/// The shared encoding panels of an operation: the video one for the video
/// operations, the merge and the video extraction; the audio one for the
/// audio operations, the merge and the audio extraction; stacked for the
/// video conversion only.
pub open spec fn sections_of(op: OperationType) -> SettingsSections {
    SettingsSections {
        video: match op {
            OperationType::VideoConvert | OperationType::VideoCompress | OperationType::VideoResize
            | OperationType::VideoCrop | OperationType::VideoRotate | OperationType::VideoFilter
            | OperationType::VideoAudioMerge | OperationType::ExtractVideo => true,
            _ => false,
        },
        audio: match op {
            OperationType::AudioConvert | OperationType::AudioCompress | OperationType::AudioResample
            | OperationType::AudioVolume | OperationType::AudioTrim | OperationType::AudioMerge
            | OperationType::VideoAudioMerge | OperationType::ExtractAudio => true,
            _ => false,
        },
        stacked: op == OperationType::VideoConvert,
    }
}

/// The shared encoding panels an operation shows.
pub fn settings_sections(op: &OperationType) -> (r: SettingsSections)
    ensures
        r == sections_of(*op),
{
    let video = match op {
        OperationType::VideoConvert | OperationType::VideoCompress | OperationType::VideoResize
        | OperationType::VideoCrop | OperationType::VideoRotate | OperationType::VideoFilter
        | OperationType::VideoAudioMerge | OperationType::ExtractVideo => true,
        _ => false,
    };
    let audio = match op {
        OperationType::AudioConvert | OperationType::AudioCompress | OperationType::AudioResample
        | OperationType::AudioVolume | OperationType::AudioTrim | OperationType::AudioMerge
        | OperationType::VideoAudioMerge | OperationType::ExtractAudio => true,
        _ => false,
    };
    let stacked = match op {
        OperationType::VideoConvert => true,
        _ => false,
    };
    SettingsSections { video, audio, stacked }
}

/// The GIF size fields start at 320 by 240 when no size is set.
pub open spec fn gif_sized(s: VideoSettings) -> VideoSettings {
    VideoSettings {
        width: match s.width { Some(w) => Some(w), None => Some(320u32) },
        height: match s.height { Some(h) => Some(h), None => Some(240u32) },
        ..s
    }
}

impl VideoSettings {
    /// Fills in the GIF panel's starting size where no size is set.
    pub fn ensure_gif_size(&mut self)
        ensures
            *final(self) == gif_sized(*old(self)),
    {
        if self.width.is_none() {
            self.width = Some(320);
        }
        if self.height.is_none() {
            self.height = Some(240);
        }
    }
}

// ----- hints -----

/// The hint the conversion panel gives for an output container.
pub open spec fn container_hint(container: Seq<char>, lang: Language) -> Seq<char> {
    if container == "mp4"@ {
        pick(lang, "MP4: 最佳兼容性，适合播放和分享"@, "MP4: Best compatibility for playback and sharing"@)
    } else if container == "mkv"@ {
        pick(lang, "MKV: 支持多种编码器和字幕"@, "MKV: Supports multiple codecs and subtitles"@)
    } else if container == "webm"@ {
        pick(lang, "WebM: 适合网页播放，开源格式"@, "WebM: Optimized for web playback, open source"@)
    } else if container == "avi"@ {
        pick(lang, "AVI: 传统格式，广泛支持"@, "AVI: Legacy format with wide support"@)
    } else if container == "mov"@ {
        pick(lang, "MOV: Apple格式，适合Mac和专业编辑"@, "MOV: Apple format, ideal for Mac and pro editing"@)
    } else {
        pick(lang, "选择适合您需求的格式"@, "Choose format that suits your needs"@)
    }
}

/// The hint the conversion panel gives for an output container.
pub fn format_hint(container: &str, lang: Language) -> (r: &'static str)
    ensures
        r@ == container_hint(container@, lang),
{
    if same_text(container, "mp4") {
        pick_text(lang, "MP4: 最佳兼容性，适合播放和分享", "MP4: Best compatibility for playback and sharing")
    } else if same_text(container, "mkv") {
        pick_text(lang, "MKV: 支持多种编码器和字幕", "MKV: Supports multiple codecs and subtitles")
    } else if same_text(container, "webm") {
        pick_text(lang, "WebM: 适合网页播放，开源格式", "WebM: Optimized for web playback, open source")
    } else if same_text(container, "avi") {
        pick_text(lang, "AVI: 传统格式，广泛支持", "AVI: Legacy format with wide support")
    } else if same_text(container, "mov") {
        pick_text(lang, "MOV: Apple格式，适合Mac和专业编辑", "MOV: Apple format, ideal for Mac and pro editing")
    } else {
        pick_text(lang, "选择适合您需求的格式", "Choose format that suits your needs")
    }
}

/// The note under the subtitle mode: hard subtitles cannot be turned off.
pub open spec fn subtitle_mode_hint(mode: Seq<char>, lang: Language) -> Option<Seq<char>> {
    if mode == "hard"@ {
        Some(pick(lang, "💡 硬字幕会永久嵌入视频，无法关闭"@, "💡 Hard subtitles are permanently embedded and cannot be turned off"@))
    } else {
        None
    }
}

/// The note under the subtitle mode, for hard subtitles only.
pub fn subtitle_mode_note(mode: &str, lang: Language) -> (r: Option<&'static str>)
    ensures
        match (r, subtitle_mode_hint(mode@, lang)) {
            (Some(a), Some(b)) => a@ == b,
            (None, None) => true,
            _ => false,
        },
{
    if same_text(mode, "hard") {
        Some(pick_text(lang, "💡 硬字幕会永久嵌入视频，无法关闭", "💡 Hard subtitles are permanently embedded and cannot be turned off"))
    } else {
        None
    }
}

/// The line the resize panel shows for a detected input size.
pub open spec fn detected_line(w: u32, h: u32, is_portrait: Option<bool>, lang: Language) -> Seq<char> {
    let upright = is_portrait == Some(true);
    match lang {
        Language::Chinese => "🎯 检测到视频: "@ + decimal(w as nat) + "x"@ + decimal(h as nat) + " "@
            + if upright { "(竖屏)"@ } else { "(横屏)"@ },
        Language::English => "🎯 Detected: "@ + decimal(w as nat) + "x"@ + decimal(h as nat) + " "@
            + if upright { "(Portrait)"@ } else { "(Landscape)"@ },
    }
}

/// The line the resize panel shows for a detected input size.
pub fn detected_size_line(w: u32, h: u32, is_portrait: Option<bool>, lang: Language) -> (r: String)
    ensures
        r@ == detected_line(w, h, is_portrait, lang),
{
    let upright = match is_portrait {
        Some(p) => p,
        None => false,
    };
    let head = pick_text(lang, "🎯 检测到视频: ", "🎯 Detected: ");
    let tail = match lang {
        Language::Chinese => if upright { "(竖屏)" } else { "(横屏)" },
        Language::English => if upright { "(Portrait)" } else { "(Landscape)" },
    };
    let mut r = owned(head);
    r.append(decimal_text(w as u64).as_str());
    r.append("x");
    r.append(decimal_text(h as u64).as_str());
    r.append(" ");
    r.append(tail);
    r
}

/// Which controls the split panel shows for its codecs: the quality and
/// preset of the video codec, and the bitrate of the audio codec.
#[derive(Clone, Copy, Debug, PartialEq, Eq, Structural)]
pub struct SplitControls {
    pub video_quality: bool,
    pub video_preset: bool,
    pub audio_bitrate: bool,
}

/// The split panel shows a quality unless the video is copied or kept in
/// Matroska, a preset besides for the x264 and x265 encoders, and a bitrate
/// unless the audio is copied or lossless.
pub open spec fn split_controls_for(video_codec: Seq<char>, audio_codec: Seq<char>) -> SplitControls {
    let quality = video_codec != "copy"@ && video_codec != "mkv"@;
    SplitControls {
        video_quality: quality,
        video_preset: quality && crate::text::contains(video_codec, "libx26"@),
        audio_bitrate: audio_codec != "copy"@ && !crate::text::occurs_at(audio_codec, 0, "pcm_"@)
            && audio_codec != "flac"@,
    }
}

/// The controls the split panel shows.
pub fn split_controls(video_codec: &str, audio_codec: &str) -> (r: SplitControls)
    ensures
        r == split_controls_for(video_codec@, audio_codec@),
{
    let quality = !same_text(video_codec, "copy") && !same_text(video_codec, "mkv");
    let preset = quality && crate::text::contains_text(video_codec, "libx26");
    let pcm = crate::text::has_prefix(audio_codec, "pcm_");
    let bitrate = !same_text(audio_codec, "copy") && !pcm && !same_text(audio_codec, "flac");
    SplitControls { video_quality: quality, video_preset: preset, audio_bitrate: bitrate }
}

// ----- the batch panel's summary -----

/// The flip a rotation applies, as the batch summary names it.
pub open spec fn flip_label(h: bool, v: bool, lang: Language) -> Seq<char> {
    if h && v {
        pick(lang, "水平+垂直翻转"@, "Flip H+V"@)
    } else if h {
        pick(lang, "水平翻转"@, "Flip H"@)
    } else if v {
        pick(lang, "垂直翻转"@, "Flip V"@)
    } else {
        Seq::empty()
    }
}

/// The names of the filters turned on, in panel order.
pub open spec fn filter_names(v: VideoSettings, lang: Language) -> Seq<Seq<char>> {
    (if v.denoise { seq![pick(lang, "降噪"@, "Denoise"@)] } else { Seq::empty() })
        + (if v.deinterlace { seq![pick(lang, "去隔行"@, "Deinterlace"@)] } else { Seq::empty() })
        + (if v.stabilize { seq![pick(lang, "视频稳定"@, "Stabilize"@)] } else { Seq::empty() })
}

/// A number that may be unset, written as zero when it is.
pub open spec fn or_zero(n: Option<u32>) -> Seq<char> {
    match n {
        Some(x) => decimal(x as nat),
        None => "0"@,
    }
}

/// The lines the batch panel shows for the settings its operation uses.
pub open spec fn batch_summary(v: VideoSettings, lang: Language) -> Seq<Seq<char>> {
    let op = v.batch_operation_type@;
    if op == "convert"@ {
        seq![
            "📄 "@ + pick(lang, "输出格式"@, "Output Format"@) + " → "@ + v.container_format@,
            "📄 "@ + pick(lang, "编码器"@, "Codec"@) + " → "@ + v.codec@,
        ]
    } else if op == "compress"@ {
        seq!["🎯 CRF: "@ + signed_decimal(v.crf as int)] + if v.target_size_mb > 0 {
            seq!["📏 "@ + pick(lang, "目标大小:"@, "Target Size:"@) + " "@ + decimal(v.target_size_mb as nat) + " MB"@]
        } else {
            Seq::empty()
        }
    } else if op == "resize"@ {
        match (v.width, v.height) {
            (Some(w), Some(h)) => seq![
                "📐 "@ + pick(lang, "新尺寸:"@, "New Size:"@) + " "@ + decimal(w as nat) + "x"@ + decimal(h as nat),
            ],
            _ => seq![pick(lang, "⚠ 请先在\"视频尺寸调整\"中设置目标尺寸"@, "⚠ Please set target size in \"Video Resize\" first"@)],
        }
    } else if op == "rotate"@ {
        seq![
            if v.use_custom_rotation {
                "🔄 "@ + pick(lang, "自定义角度:"@, "Custom Angle:"@) + " "@ + v.custom_rotation.text@ + "°"@
            } else {
                "🔄 "@ + pick(lang, "旋转角度:"@, "Rotation:"@) + " "@ + signed_decimal(v.rotation as int) + "°"@
            },
        ] + if v.flip_horizontal || v.flip_vertical {
            seq!["\u{2194}\u{fe0f} "@ + flip_label(v.flip_horizontal, v.flip_vertical, lang)]
        } else {
            Seq::empty()
        }
    } else if op == "crop"@ {
        if v.crop_top is Some || v.crop_bottom is Some || v.crop_left is Some || v.crop_right is Some {
            seq![
                "\u{2702}\u{fe0f} "@ + pick(lang, "裁剪:"@, "Crop:"@) + " T:"@ + or_zero(v.crop_top) + " B:"@
                    + or_zero(v.crop_bottom) + " L:"@ + or_zero(v.crop_left) + " R:"@ + or_zero(v.crop_right),
            ]
        } else {
            seq![pick(lang, "⚠ 请先在\"视频裁剪\"中设置裁剪参数"@, "⚠ Please set crop parameters in \"Video Crop\" first"@)]
        }
    } else if op == "filter"@ {
        let names = filter_names(v, lang);
        let neutral = v.brightness.neutral && v.contrast.neutral && v.saturation.neutral;
        (if names.len() > 0 {
            seq!["🎨 "@ + pick(lang, "滤镜"@, "Filters"@) + ": "@ + join(names, ", "@)]
        } else {
            Seq::empty()
        }) + (if !neutral {
            seq![
                "⚡ "@ + pick(lang, "色彩调整:"@, "Color Adjust:"@) + " B:"@ + v.brightness.text@ + " C:"@
                    + v.contrast.text@ + " S:"@ + v.saturation.text@,
            ]
        } else {
            Seq::empty()
        }) + (if names.len() == 0 && neutral {
            seq![pick(lang, "⚠ 请先在\"视频滤镜\"中设置滤镜参数"@, "⚠ Please set filter parameters in \"Video Filter\" first"@)]
        } else {
            Seq::empty()
        })
    } else {
        Seq::empty()
    }
}

/// The flip a rotation applies, as the batch summary names it.
fn flip_text(h: bool, v: bool, lang: Language) -> (r: &'static str)
    ensures
        r@ == flip_label(h, v, lang),
{
    if h && v {
        pick_text(lang, "水平+垂直翻转", "Flip H+V")
    } else if h {
        pick_text(lang, "水平翻转", "Flip H")
    } else if v {
        pick_text(lang, "垂直翻转", "Flip V")
    } else {
        proof {
            reveal_strlit("");
        }
        ""
    }
}

/// A number that may be unset, written as zero when it is.
fn number_or_zero(n: Option<u32>) -> (r: String)
    ensures
        r@ == or_zero(n),
{
    match n {
        Some(x) => decimal_text(x as u64),
        None => {
            proof {
                reveal_strlit("0");
            }
            owned("0")
        },
    }
}

/// The names of the filters turned on, in panel order.
fn filter_name_list(v: &VideoSettings, lang: Language) -> (r: Vec<String>)
    ensures
        views(r@) == filter_names(*v, lang),
{
    let mut names: Vec<String> = Vec::new();
    if v.denoise {
        names.push(owned(pick_text(lang, "降噪", "Denoise")));
    }
    let ghost first = views(names@);
    if v.deinterlace {
        names.push(owned(pick_text(lang, "去隔行", "Deinterlace")));
    }
    let ghost second = views(names@);
    if v.stabilize {
        names.push(owned(pick_text(lang, "视频稳定", "Stabilize")));
    }
    assert(first =~= (if v.denoise { seq![pick(lang, "降噪"@, "Denoise"@)] } else { Seq::empty() }));
    assert(second =~= first + (if v.deinterlace { seq![pick(lang, "去隔行"@, "Deinterlace"@)] } else { Seq::empty() }));
    assert(views(names@) =~= second + (if v.stabilize { seq![pick(lang, "视频稳定"@, "Stabilize"@)] } else { Seq::empty() }));
    names
}

/// The lines the batch panel shows for the settings its operation uses.
pub fn batch_settings_preview(v: &VideoSettings, lang: Language) -> (r: Vec<String>)
    ensures
        views(r@) == batch_summary(*v, lang),
{
    let op = v.batch_operation_type.as_str();
    let mut lines: Vec<String> = Vec::new();
    if same_text(op, "convert") {
        let mut a = owned("📄 ");
        a.append(pick_text(lang, "输出格式", "Output Format"));
        a.append(" → ");
        a.append(v.container_format.as_str());
        let mut b = owned("📄 ");
        b.append(pick_text(lang, "编码器", "Codec"));
        b.append(" → ");
        b.append(v.codec.as_str());
        lines.push(a);
        lines.push(b);
        assert(views(lines@) =~= batch_summary(*v, lang));
    } else if same_text(op, "compress") {
        let mut a = owned("🎯 CRF: ");
        a.append(signed_text(v.crf).as_str());
        lines.push(a);
        if v.target_size_mb > 0 {
            let mut b = owned("📏 ");
            b.append(pick_text(lang, "目标大小:", "Target Size:"));
            b.append(" ");
            b.append(decimal_text(v.target_size_mb as u64).as_str());
            b.append(" MB");
            lines.push(b);
        }
        assert(views(lines@) =~= batch_summary(*v, lang));
    } else if same_text(op, "resize") {
        match (v.width, v.height) {
            (Some(w), Some(h)) => {
                let mut a = owned("📐 ");
                a.append(pick_text(lang, "新尺寸:", "New Size:"));
                a.append(" ");
                a.append(decimal_text(w as u64).as_str());
                a.append("x");
                a.append(decimal_text(h as u64).as_str());
                lines.push(a);
            },
            _ => {
                lines.push(owned(pick_text(lang, "⚠ 请先在\"视频尺寸调整\"中设置目标尺寸", "⚠ Please set target size in \"Video Resize\" first")));
            },
        }
        assert(views(lines@) =~= batch_summary(*v, lang));
    } else if same_text(op, "rotate") {
        let mut a = owned("🔄 ");
        if v.use_custom_rotation {
            a.append(pick_text(lang, "自定义角度:", "Custom Angle:"));
            a.append(" ");
            a.append(v.custom_rotation.text.as_str());
        } else {
            a.append(pick_text(lang, "旋转角度:", "Rotation:"));
            a.append(" ");
            a.append(signed_text(v.rotation).as_str());
        }
        a.append("°");
        lines.push(a);
        if v.flip_horizontal || v.flip_vertical {
            let mut b = owned("\u{2194}\u{fe0f} ");
            b.append(flip_text(v.flip_horizontal, v.flip_vertical, lang));
            lines.push(b);
        }
        assert(views(lines@) =~= batch_summary(*v, lang));
    } else if same_text(op, "crop") {
        if v.crop_top.is_some() || v.crop_bottom.is_some() || v.crop_left.is_some() || v.crop_right.is_some() {
            let mut a = owned("\u{2702}\u{fe0f} ");
            a.append(pick_text(lang, "裁剪:", "Crop:"));
            a.append(" T:");
            a.append(number_or_zero(v.crop_top).as_str());
            a.append(" B:");
            a.append(number_or_zero(v.crop_bottom).as_str());
            a.append(" L:");
            a.append(number_or_zero(v.crop_left).as_str());
            a.append(" R:");
            a.append(number_or_zero(v.crop_right).as_str());
            lines.push(a);
        } else {
            lines.push(owned(pick_text(lang, "⚠ 请先在\"视频裁剪\"中设置裁剪参数", "⚠ Please set crop parameters in \"Video Crop\" first")));
        }
        assert(views(lines@) =~= batch_summary(*v, lang));
    } else if same_text(op, "filter") {
        let names = filter_name_list(v, lang);
        let neutral = v.brightness.neutral && v.contrast.neutral && v.saturation.neutral;
        if names.len() > 0 {
            let mut a = owned("🎨 ");
            a.append(pick_text(lang, "滤镜", "Filters"));
            a.append(": ");
            a.append(join_strings(&names, ", ").as_str());
            lines.push(a);
        }
        let ghost named = views(lines@);
        if !neutral {
            let mut b = owned("⚡ ");
            b.append(pick_text(lang, "色彩调整:", "Color Adjust:"));
            b.append(" B:");
            b.append(v.brightness.text.as_str());
            b.append(" C:");
            b.append(v.contrast.text.as_str());
            b.append(" S:");
            b.append(v.saturation.text.as_str());
            lines.push(b);
        }
        let ghost adjusted = views(lines@);
        if names.len() == 0 && neutral {
            lines.push(owned(pick_text(lang, "⚠ 请先在\"视频滤镜\"中设置滤镜参数", "⚠ Please set filter parameters in \"Video Filter\" first")));
        }
        proof {
            let ns = filter_names(*v, lang);
            assert(named =~= (if ns.len() > 0 {
                seq!["🎨 "@ + pick(lang, "滤镜"@, "Filters"@) + ": "@ + join(ns, ", "@)]
            } else {
                Seq::empty()
            }));
        }
        assert(views(lines@) =~= batch_summary(*v, lang));
    } else {
        assert(views(lines@) =~= batch_summary(*v, lang));
    }
    lines
}

// ----- the task list -----

/// A number below a hundred in at least two digits.
pub open spec fn two_digits(n: nat) -> Seq<char> {
    if n < 10 {
        "0"@ + decimal(n)
    } else {
        decimal(n)
    }
}

/// A duration in seconds as minutes and two-digit seconds.
pub open spec fn clock(secs: nat) -> Seq<char> {
    decimal(secs / 60) + ":"@ + two_digits(secs % 60)
}

/// A duration in seconds as minutes and two-digit seconds.
pub fn clock_text(secs: u64) -> (r: String)
    ensures
        r@ == clock(secs as nat),
{
    proof {
        reveal_strlit("0");
    }
    let mut r = decimal_text(secs / 60);
    r.append(":");
    let s = secs % 60;
    if s < 10 {
        r.append("0");
    }
    r.append(decimal_text(s).as_str());
    r
}

/// The heading of the task at `index` in the list.
pub open spec fn task_heading(index: nat, op: OperationType, lang: Language) -> Seq<char> {
    pick(lang, "任务"@, "Task"@) + " "@ + decimal(index + 1) + ": "@ + operation_name(op, lang)
}

/// The heading of the task at `index` in the list, counted from one.
pub fn task_title(index: usize, op: &OperationType, t: &Translations) -> (r: String)
    requires
        index < usize::MAX,
    ensures
        r@ == task_heading(index as nat, *op, t.language),
{
    let mut r = owned(t.task());
    r.append(" ");
    r.append(decimal_text((index + 1) as u64).as_str());
    r.append(": ");
    r.append(op.display_name(t));
    r
}

/// How a status reads in the task list.
pub open spec fn status_word(s: TaskStatus) -> Seq<char> {
    match s {
        TaskStatus::Pending => "Pending"@,
        TaskStatus::Running => "Running"@,
        TaskStatus::Completed => "Completed"@,
        TaskStatus::Failed => "Failed"@,
        TaskStatus::Cancelled => "Cancelled"@,
    }
}

/// The status line of a task.
pub fn status_line(status: TaskStatus, t: &Translations) -> (r: String)
    ensures
        r@ == pick(t.language, "状态"@, "Status"@) + ": "@ + status_word(status),
{
    let word = match status {
        TaskStatus::Pending => "Pending",
        TaskStatus::Running => "Running",
        TaskStatus::Completed => "Completed",
        TaskStatus::Failed => "Failed",
        TaskStatus::Cancelled => "Cancelled",
    };
    let mut r = owned(t.status());
    r.append(": ");
    r.append(word);
    r
}

/// The button beside a task: cancel while it runs, delete otherwise.
pub fn task_button_label(status: TaskStatus, t: &Translations) -> (r: &'static str)
    ensures
        r@ == if status == TaskStatus::Running { pick(t.language, "取消"@, "Cancel"@) } else {
            pick(t.language, "删除"@, "Delete"@)
        },
{
    match status {
        TaskStatus::Running => t.cancel(),
        _ => t.delete(),
    }
}

/// How long a running task has run.
pub fn elapsed_line(secs: u64, lang: Language) -> (r: String)
    ensures
        r@ == "⏱ "@ + pick(lang, "已用时间"@, "Elapsed"@) + ": "@ + clock(secs as nat),
{
    let mut r = owned("⏱ ");
    r.append(pick_text(lang, "已用时间", "Elapsed"));
    r.append(": ");
    r.append(clock_text(secs).as_str());
    r
}

/// How long a running task has left, while there is an estimate.
pub fn remaining_line(remaining: Option<u64>, lang: Language) -> (r: String)
    ensures
        r@ == match remaining {
            Some(secs) => "⏳ "@ + pick(lang, "剩余时间"@, "Remaining"@) + ": "@ + clock(secs as nat),
            None => pick(lang, "⏳ 计算中..."@, "⏳ Calculating..."@),
        },
{
    match remaining {
        Some(secs) => {
            let mut r = owned("⏳ ");
            r.append(pick_text(lang, "剩余时间", "Remaining"));
            r.append(": ");
            r.append(clock_text(secs).as_str());
            r
        },
        None => owned(pick_text(lang, "⏳ 计算中...", "⏳ Calculating...")),
    }
}

/// How long a finished task took.
pub fn total_time_line(secs: u64, lang: Language) -> (r: String)
    ensures
        r@ == "✅ "@ + pick(lang, "总用时"@, "Total Time"@) + ": "@ + clock(secs as nat),
{
    let mut r = owned("✅ ");
    r.append(pick_text(lang, "总用时", "Total Time"));
    r.append(": ");
    r.append(clock_text(secs).as_str());
    r
}

// ----- the file list -----

/// The files after a drop onto a file list: a list of several files gains
/// each dropped file it does not hold yet, in order; a single-file list
/// holds the first dropped file; a drop with no files changes nothing.
pub open spec fn with_dropped(files: Seq<Seq<char>>, dropped: Seq<Seq<char>>, allow_multiple: bool) -> Seq<Seq<char>> {
    if dropped.len() == 0 {
        files
    } else if allow_multiple {
        added_new(files, dropped)
    } else {
        seq![dropped[0]]
    }
}

/// `files` followed by each of `dropped` that is not already there.
pub open spec fn added_new(files: Seq<Seq<char>>, dropped: Seq<Seq<char>>) -> Seq<Seq<char>>
    decreases dropped.len(),
{
    if dropped.len() == 0 {
        files
    } else {
        let before = added_new(files, dropped.drop_last());
        if before.contains(dropped.last()) {
            before
        } else {
            before.push(dropped.last())
        }
    }
}

/// No path occurs twice.
pub open spec fn distinct_paths(s: Seq<Seq<char>>) -> bool {
    forall|i: int, j: int| 0 <= i < j < s.len() ==> s[i] != s[j]
}

/// Whether the list holds the path.
pub fn holds_path(files: &Vec<String>, p: &str) -> (r: bool)
    ensures
        r == views(files@).contains(p@),
{
    let ghost all = views(files@);
    let mut i: usize = 0;
    while i < files.len()
        invariant
            all == views(files@),
            i <= files@.len(),
            forall|j: int| 0 <= j < i ==> all[j] != p@,
        decreases files@.len() - i,
    {
        if same_text(files[i].as_str(), p) {
            assert(all[i as int] == p@);
            return true;
        }
        i = i + 1;
    }
    false
}

/// Files dropped onto a file list.
pub fn add_dropped_files(files: &mut Vec<String>, dropped: &Vec<String>, allow_multiple: bool)
    ensures
        views(final(files)@) == with_dropped(views(old(files)@), views(dropped@), allow_multiple),
{
    let ghost start = views(files@);
    let ghost d = views(dropped@);
    if dropped.len() == 0 {
        return;
    }
    if allow_multiple {
        let mut i: usize = 0;
        assert(d.take(0) =~= Seq::<Seq<char>>::empty());
        while i < dropped.len()
            invariant
                d == views(dropped@),
                i <= dropped@.len(),
                views(files@) == added_new(start, d.take(i as int)),
            decreases dropped@.len() - i,
        {
            assert(d.take(i + 1).drop_last() =~= d.take(i as int));
            assert(d.take(i + 1).last() == dropped@[i as int]@);
            if !holds_path(files, dropped[i].as_str()) {
                push_string(files, dropped[i].clone());
            }
            i = i + 1;
        }
        assert(d.take(dropped@.len() as int) =~= d);
    } else {
        let first = dropped[0].clone();
        *files = Vec::new();
        push_string(files, first);
        assert(views(files@) =~= seq![d[0]]);
    }
}

/// A drop onto a list of several files keeps the files it held, in order,
/// holds every dropped file afterwards, and adds no second copy of a path.
pub proof fn lemma_drop_adds_each_path_once(files: Seq<Seq<char>>, dropped: Seq<Seq<char>>)
    ensures
        added_new(files, dropped).len() >= files.len(),
        added_new(files, dropped).take(files.len() as int) == files,
        forall|k: int| 0 <= k < dropped.len() ==> added_new(files, dropped).contains(#[trigger] dropped[k]),
        distinct_paths(files) ==> distinct_paths(added_new(files, dropped)),
    decreases dropped.len(),
{
    if dropped.len() > 0 {
        let rest = dropped.drop_last();
        lemma_drop_adds_each_path_once(files, rest);
        let before = added_new(files, rest);
        let after = added_new(files, dropped);
        if !before.contains(dropped.last()) {
            assert(after == before.push(dropped.last()));
            assert(after.take(files.len() as int) =~= before.take(files.len() as int));
            assert forall|k: int| 0 <= k < dropped.len() implies after.contains(#[trigger] dropped[k]) by {
                if k < dropped.len() - 1 {
                    assert(rest[k] == dropped[k]);
                    let w = choose|w: int| 0 <= w < before.len() && before[w] == rest[k];
                    assert(after[w] == dropped[k]);
                } else {
                    assert(after[before.len() as int] == dropped[k]);
                }
            }
        } else {
            assert forall|k: int| 0 <= k < dropped.len() implies after.contains(#[trigger] dropped[k]) by {
                if k < dropped.len() - 1 {
                    assert(rest[k] == dropped[k]);
                }
            }
        }
    }
}

/// What the drop area of a file list says.
pub open spec fn selection_summary(files: Seq<Seq<char>>, allow_multiple: bool, can_accept_drop: bool) -> Seq<char> {
    if files.len() == 0 {
        if can_accept_drop {
            if allow_multiple { "📁 Drop files here"@ } else { "📁 Drop file here"@ }
        } else if allow_multiple {
            "📁 Click to select files or drag & drop here"@
        } else {
            "📁 Click to select file or drag & drop here"@
        }
    } else if allow_multiple && files.len() > 1 {
        "📁 "@ + decimal(files.len()) + " files selected"@
    } else {
        "📁 "@ + match file_name(files[0]) {
            Some(n) => n,
            None => "Unknown"@,
        }
    }
}

/// What the drop area of a file list says.
pub fn selection_text(files: &Vec<String>, allow_multiple: bool, can_accept_drop: bool) -> (r: String)
    ensures
        r@ == selection_summary(views(files@), allow_multiple, can_accept_drop),
{
    let ghost v = views(files@);
    if files.len() == 0 {
        let t = if can_accept_drop {
            if allow_multiple { "📁 Drop files here" } else { "📁 Drop file here" }
        } else if allow_multiple {
            "📁 Click to select files or drag & drop here"
        } else {
            "📁 Click to select file or drag & drop here"
        };
        owned(t)
    } else if allow_multiple && files.len() > 1 {
        let mut r = owned("📁 ");
        r.append(decimal_text(files.len() as u64).as_str());
        r.append(" files selected");
        r
    } else {
        assert(v[0] == files@[0]@);
        let mut r = owned("📁 ");
        match path_file_name(files[0].as_str()) {
            Some(n) => r.append(n.as_str()),
            None => r.append("Unknown"),
        }
        r
    }
}

/// The status under a file list.
pub open spec fn selection_state(count: nat, allow_multiple: bool) -> Seq<char> {
    if count == 0 {
        if allow_multiple { "⚠ Please select input files"@ } else { "⚠ Please select input file"@ }
    } else if allow_multiple {
        "✅ "@ + decimal(count) + " files ready"@
    } else {
        "✅ File ready"@
    }
}

/// The status under a file list.
pub fn selection_status(count: usize, allow_multiple: bool) -> (r: String)
    ensures
        r@ == selection_state(count as nat, allow_multiple),
{
    if count == 0 {
        owned(if allow_multiple { "⚠ Please select input files" } else { "⚠ Please select input file" })
    } else if allow_multiple {
        let mut r = owned("✅ ");
        r.append(decimal_text(count as u64).as_str());
        r.append(" files ready");
        r
    } else {
        owned("✅ File ready")
    }
}

/// What the frame panel says of its extraction mode.
pub open spec fn frame_mode_hint(mode: Seq<char>, lang: Language) -> Seq<char> {
    if mode == "interval"@ {
        pick(lang, "每隔N帧提取一张图片"@, "Extract one frame every N frames"@)
    } else if mode == "time"@ {
        pick(lang, "从指定时间范围提取帧"@, "Extract frames from specified time range"@)
    } else {
        pick(lang, "提取视频中的所有帧"@, "Extract all frames from the video"@)
    }
}

/// What the frame panel says of its extraction mode.
pub fn frame_mode_note(mode: &str, lang: Language) -> (r: &'static str)
    ensures
        r@ == frame_mode_hint(mode@, lang),
{
    if same_text(mode, "interval") {
        pick_text(lang, "每隔N帧提取一张图片", "Extract one frame every N frames")
    } else if same_text(mode, "time") {
        pick_text(lang, "从指定时间范围提取帧", "Extract frames from specified time range")
    } else {
        pick_text(lang, "提取视频中的所有帧", "Extract all frames from the video")
    }
}

} // verus!
