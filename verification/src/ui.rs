//! The choices the interface panels make: which extension and file-type
//! filter an output gets, and which codec settings a panel offers.
use vstd::prelude::*;
use crate::text::{views, owned, same_text, cat3, cat, decimal, decimal_text, is_blank};
use crate::paths::{parent, join_path, file_name, path_parent, path_join, path_file_name};
use crate::language::{Translations, Language, pick};
use crate::settings::{OperationType, VideoSettings, AudioSettings};
use crate::codecs::{supports_bitrate, supports_vbr_quality, owned_all, text_views};

verus! {

/// An output's default extension, the name of its file-type filter, and the
/// extensions the filter lists.
pub type FileFilter = (String, String, Vec<String>);

/// A filter as views.
pub open spec fn filter_view(f: FileFilter) -> (Seq<char>, Seq<char>, Seq<Seq<char>>) {
    (f.0@, f.1@, views(f.2@))
}

/// "Audio files" in the language.
pub open spec fn audio_files(lang: Language) -> Seq<char> {
    pick(lang, "音频文件"@, "Audio Files"@)
}

/// "Video files" in the language.
pub open spec fn video_files(lang: Language) -> Seq<char> {
    pick(lang, "视频文件"@, "Video Files"@)
}

/// An audio filter named after its format.
pub open spec fn named_audio(ext: Seq<char>, key: Seq<char>, exts: Seq<Seq<char>>, lang: Language) -> (Seq<char>, Seq<char>, Seq<Seq<char>>) {
    (ext, key + " "@ + audio_files(lang), exts)
}

/// The audio filter for an encoder: its format named before "audio files",
/// every common format for `auto`, MP3 for encoders it does not know.
pub open spec fn audio_filter(codec: Seq<char>, lang: Language) -> (Seq<char>, Seq<char>, Seq<Seq<char>>) {
    let named = |ext: Seq<char>, key: Seq<char>, exts: Seq<Seq<char>>| named_audio(ext, key, exts, lang);
    if codec == "libmp3lame"@ {
        named("mp3"@, "MP3"@, seq!["mp3"@])
    } else if codec == "aac"@ {
        named("aac"@, "AAC"@, seq!["aac"@, "m4a"@])
    } else if codec == "flac"@ {
        named("flac"@, "FLAC"@, seq!["flac"@])
    } else if codec == "pcm_s16le"@ {
        named("wav"@, "WAV"@, seq!["wav"@])
    } else if codec == "libvorbis"@ {
        named("ogg"@, "OGG"@, seq!["ogg"@])
    } else if codec == "libopus"@ {
        named("opus"@, "Opus"@, seq!["opus"@])
    } else if codec == "ac3"@ {
        named("ac3"@, "AC3"@, seq!["ac3"@])
    } else if codec == "auto"@ {
        ("mp3"@, audio_files(lang), seq!["mp3"@, "aac"@, "flac"@, "wav"@])
    } else {
        ("mp3"@, audio_files(lang), seq!["mp3"@])
    }
}

/// The video filter for an encoder: MP4 (or MOV) for H.264, H.265 and AV1,
/// WebM for VP9, the common containers for `auto`, MP4 otherwise.
pub open spec fn video_filter(codec: Seq<char>, lang: Language) -> (Seq<char>, Seq<char>, Seq<Seq<char>>) {
    if codec == "libx264"@ || codec == "libx265"@ || codec == "libaom-av1"@ {
        ("mp4"@, "MP4视频文件"@, seq!["mp4"@, "mov"@])
    } else if codec == "libvpx-vp9"@ {
        ("webm"@, "WebM视频文件"@, seq!["webm"@])
    } else if codec == "auto"@ {
        ("mp4"@, video_files(lang), seq!["mp4"@, "mkv"@, "avi"@, "mov"@])
    } else {
        ("mp4"@, video_files(lang), seq!["mp4"@])
    }
}

/// The operation writes audio.
pub open spec fn is_audio_operation(op: OperationType) -> bool {
    match op {
        OperationType::AudioConvert | OperationType::AudioCompress | OperationType::AudioResample
        | OperationType::AudioVolume | OperationType::AudioTrim | OperationType::AudioMerge
        | OperationType::ExtractAudio => true,
        _ => false,
    }
}

/// The operation writes video with the video settings' encoder.
pub open spec fn is_video_operation(op: OperationType) -> bool {
    match op {
        OperationType::VideoConvert | OperationType::VideoCompress | OperationType::VideoResize
        | OperationType::VideoCrop | OperationType::VideoRotate | OperationType::VideoFilter
        | OperationType::ExtractVideo | OperationType::VideoAudioMerge => true,
        _ => false,
    }
}

/// The filter of an operation's output.
pub open spec fn output_filter(op: OperationType, v: Option<VideoSettings>, a: Option<AudioSettings>, lang: Language) -> (Seq<char>, Seq<char>, Seq<Seq<char>>) {
    if is_audio_operation(op) {
        match a {
            Some(a) => audio_filter(a.codec@, lang),
            None => ("mp3"@, audio_files(lang), seq!["mp3"@]),
        }
    } else if is_video_operation(op) {
        match v {
            Some(v) => video_filter(v.codec@, lang),
            None => ("mp4"@, video_files(lang), seq!["mp4"@]),
        }
    } else if op == OperationType::FrameExtract {
        ("png"@, pick(lang, "图片文件"@, "Image Files"@), seq!["png"@, "jpg"@, "bmp"@])
    } else if op == OperationType::VideoToGif || op == OperationType::GifResize {
        ("gif"@, pick(lang, "GIF文件"@, "GIF Files"@), seq!["gif"@])
    } else {
        ("mp4"@, video_files(lang), seq!["mp4"@])
    }
}

/// The extension an operation's output defaults to.
pub open spec fn default_extension(op: OperationType) -> Seq<char> {
    if is_audio_operation(op) {
        "mp3"@
    } else if op == OperationType::FrameExtract {
        "png"@
    } else {
        "mp4"@
    }
}

/// The panel where the output file is chosen.
#[derive(Debug)]
pub struct OutputSelector;

/// A filter from its parts.
fn filter(ext: &str, name: &str, exts: &[&str]) -> (r: FileFilter)
    ensures
        filter_view(r) == (ext@, name@, text_views(exts@)),
{
    (owned(ext), owned(name), owned_all(exts))
}

impl OutputSelector {
    /// The filter of an operation's output, by its settings' encoder.
    pub fn get_extension_and_filter(
        operation: &OperationType,
        video_settings: Option<&VideoSettings>,
        audio_settings: Option<&AudioSettings>,
        translations: &Translations,
    ) -> (r: FileFilter)
        ensures
            filter_view(r) == output_filter(
                *operation,
                match video_settings { Some(v) => Some(*v), None => None },
                match audio_settings { Some(a) => Some(*a), None => None },
                translations.language,
            ),
    {
        let zh = translations.language == Language::Chinese;
        match operation {
            OperationType::AudioConvert | OperationType::AudioCompress | OperationType::AudioResample
            | OperationType::AudioVolume | OperationType::AudioTrim | OperationType::AudioMerge
            | OperationType::ExtractAudio => match audio_settings {
                Some(a) => Self::get_audio_extension_and_filter(a.codec.as_str(), translations),
                None => {
                    let r = filter("mp3", if zh { "音频文件" } else { "Audio Files" }, &["mp3"]);
                    assert(views(r.2@) =~= seq!["mp3"@]);
                    r
                },
            },
            OperationType::VideoConvert | OperationType::VideoCompress | OperationType::VideoResize
            | OperationType::VideoCrop | OperationType::VideoRotate | OperationType::VideoFilter
            | OperationType::ExtractVideo | OperationType::VideoAudioMerge => match video_settings {
                Some(v) => Self::get_video_extension_and_filter(v.codec.as_str(), translations),
                None => {
                    let r = filter("mp4", translations.video_files(), &["mp4"]);
                    assert(views(r.2@) =~= seq!["mp4"@]);
                    r
                },
            },
            OperationType::FrameExtract => {
                let r = filter("png", translations.image_files(), &["png", "jpg", "bmp"]);
                assert(views(r.2@) =~= seq!["png"@, "jpg"@, "bmp"@]);
                r
            },
            OperationType::VideoToGif | OperationType::GifResize => {
                let r = filter("gif", if zh { "GIF文件" } else { "GIF Files" }, &["gif"]);
                assert(views(r.2@) =~= seq!["gif"@]);
                r
            },
            _ => {
                let r = filter("mp4", translations.video_files(), &["mp4"]);
                assert(views(r.2@) =~= seq!["mp4"@]);
                r
            },
        }
    }

    /// The filter of an audio output, by its encoder.
    pub fn get_audio_extension_and_filter(codec: &str, translations: &Translations) -> (r: FileFilter)
        ensures
            filter_view(r) == audio_filter(codec@, translations.language),
    {
        let files: &str = if translations.language == Language::Chinese { "音频文件" } else { "Audio Files" };
        let r = if same_text(codec, "libmp3lame") {
            Self::named_audio_filter("mp3", "MP3", &["mp3"], files)
        } else if same_text(codec, "aac") {
            Self::named_audio_filter("aac", "AAC", &["aac", "m4a"], files)
        } else if same_text(codec, "flac") {
            Self::named_audio_filter("flac", "FLAC", &["flac"], files)
        } else if same_text(codec, "pcm_s16le") {
            Self::named_audio_filter("wav", "WAV", &["wav"], files)
        } else if same_text(codec, "libvorbis") {
            Self::named_audio_filter("ogg", "OGG", &["ogg"], files)
        } else if same_text(codec, "libopus") {
            Self::named_audio_filter("opus", "Opus", &["opus"], files)
        } else if same_text(codec, "ac3") {
            Self::named_audio_filter("ac3", "AC3", &["ac3"], files)
        } else if same_text(codec, "auto") {
            filter("mp3", files, &["mp3", "aac", "flac", "wav"])
        } else {
            filter("mp3", files, &["mp3"])
        };
        assert(views(r.2@) =~= audio_filter(codec@, translations.language).2);
        r
    }

    /// An audio filter named after its format.
    fn named_audio_filter(ext: &str, key: &str, exts: &[&str], files: &str) -> (r: FileFilter)
        ensures
            filter_view(r) == (ext@, key@ + " "@ + files@, text_views(exts@)),
    {
        (owned(ext), cat3(key, " ", files), owned_all(exts))
    }

    /// The filter of a video output, by its encoder.
    pub fn get_video_extension_and_filter(codec: &str, translations: &Translations) -> (r: FileFilter)
        ensures
            filter_view(r) == video_filter(codec@, translations.language),
    {
        let files: &str = if translations.language == Language::Chinese { "视频文件" } else { "Video Files" };
        let r = if same_text(codec, "libx264") || same_text(codec, "libx265") || same_text(codec, "libaom-av1") {
            filter("mp4", "MP4视频文件", &["mp4", "mov"])
        } else if same_text(codec, "libvpx-vp9") {
            filter("webm", "WebM视频文件", &["webm"])
        } else if same_text(codec, "auto") {
            filter("mp4", files, &["mp4", "mkv", "avi", "mov"])
        } else {
            filter("mp4", files, &["mp4"])
        };
        assert(views(r.2@) =~= video_filter(codec@, translations.language).2);
        r
    }

    /// The extension an operation's output defaults to.
    pub fn get_default_extension(operation: &OperationType) -> (r: &'static str)
        ensures
            r@ == default_extension(*operation),
    {
        match operation {
            OperationType::AudioConvert | OperationType::AudioCompress | OperationType::AudioResample
            | OperationType::AudioVolume | OperationType::AudioTrim | OperationType::AudioMerge
            | OperationType::ExtractAudio => "mp3",
            OperationType::FrameExtract => "png",
            _ => "mp4",
        }
    }
}

/// The panel of encoder settings.
#[derive(Debug)]
pub struct SettingsPanel;

impl SettingsPanel {
    /// Whether the codec accepts a bitrate setting.
    pub fn codec_supports_bitrate(codec: &str) -> (r: bool)
        ensures
            r == supports_bitrate(codec@),
    {
        !(same_text(codec, "flac") || same_text(codec, "pcm_s16le") || same_text(codec, "pcm_s24le")
            || same_text(codec, "copy"))
    }

    /// Whether the codec accepts a variable-bitrate quality setting.
    pub fn codec_supports_vbr_quality(codec: &str) -> (r: bool)
        ensures
            r == supports_vbr_quality(codec@),
    {
        same_text(codec, "libmp3lame") || same_text(codec, "aac") || same_text(codec, "libvorbis")
            || same_text(codec, "libopus")
    }
}

/// The output a location dropped on the output field gives: a file named
/// `output_millis.ext` in the dropped folder, or beside the dropped file.
pub open spec fn dropped_output(path: Seq<char>, is_dir: bool, millis: u64, ext: Seq<char>) -> Seq<char> {
    let dir = if is_dir {
        path
    } else {
        match parent(path) {
            Some(d) => d,
            None => path,
        }
    };
    join_path(dir, "output_"@ + decimal(millis as nat) + "."@ + ext)
}

/// What the output field says.
pub open spec fn output_summary(output: Seq<char>, can_accept_drop: bool) -> Seq<char> {
    if output.len() == 0 {
        if can_accept_drop {
            "💾 Drop folder here to set output location"@
        } else {
            "💾 Click to select output location or drag folder here"@
        }
    } else {
        "💾 "@ + match file_name(output) {
            Some(n) => n,
            None => "Unknown"@,
        }
    }
}

/// The status under the output field, given whether the output's folder exists.
pub open spec fn output_state(output: Seq<char>, parent_exists: bool) -> Seq<char> {
    if output.len() == 0 {
        "⚠ Please select an output location"@
    } else if parent_exists {
        "✅ Output location ready"@
    } else {
        "⚠ Output directory does not exist"@
    }
}

impl OutputSelector {
    /// The file name the save dialog proposes: `output_millis.ext`.
    pub fn suggested_file_name(millis: u64, ext: &str) -> (r: String)
        ensures
            r@ == "output_"@ + decimal(millis as nat) + "."@ + ext@,
    {
        let mut r = owned("output_");
        r.append(decimal_text(millis).as_str());
        r.append(".");
        r.append(ext);
        r
    }

    /// The output a dropped location gives; whether it is a folder is looked
    /// up by the caller.
    pub fn output_for_dropped_location(path: &str, is_dir: bool, millis: u64, ext: &str) -> (r: String)
        ensures
            r@ == dropped_output(path@, is_dir, millis, ext@),
    {
        let name = Self::suggested_file_name(millis, ext);
        if is_dir {
            path_join(path, name.as_str())
        } else {
            match path_parent(path) {
                Some(d) => path_join(d.as_str(), name.as_str()),
                None => path_join(path, name.as_str()),
            }
        }
    }

    /// What the output field says.
    pub fn output_text(output: &str, can_accept_drop: bool) -> (r: String)
        ensures
            r@ == output_summary(output@, can_accept_drop),
    {
        if is_blank(output) {
            if can_accept_drop {
                owned("💾 Drop folder here to set output location")
            } else {
                owned("💾 Click to select output location or drag folder here")
            }
        } else {
            match path_file_name(output) {
                Some(n) => cat("💾 ", n.as_str()),
                None => cat("💾 ", "Unknown"),
            }
        }
    }

    /// The status under the output field; whether the output's folder exists
    /// is looked up by the caller.
    pub fn output_status(output: &str, parent_exists: bool) -> (r: &'static str)
        ensures
            r@ == output_state(output@, parent_exists),
    {
        if is_blank(output) {
            "⚠ Please select an output location"
        } else if parent_exists {
            "✅ Output location ready"
        } else {
            "⚠ Output directory does not exist"
        }
    }
}

} // verus!
