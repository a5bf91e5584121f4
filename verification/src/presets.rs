//! Encoding presets: the built-in ones, custom ones, and how they apply.
use vstd::prelude::*;
use crate::text::{views, owned, same_text, cat, cat3, parsed_u32, parse_u32};
use crate::language::{Translations, pick};
use crate::settings::{
    VideoSettings, AudioSettings, default_video_extras, default_audio_extras, same_video, same_audio,
};
use crate::codecs::{CodecCatalog, compatible, owned_all};

verus! {

/// The kinds of preset.
#[derive(Clone, Copy, Debug, PartialEq, Eq, Structural)]
pub enum PresetCategory {
    WebOptimized,
    HighQuality,
    FastEncoding,
    MobileOptimized,
    Archive,
    Streaming,
    Custom,
}

impl PresetCategory {
    /// The category's name in the interface language.
    pub fn display_name(&self, translations: &Translations) -> (r: &'static str)
        ensures
            r@ == match *self {
                PresetCategory::WebOptimized => pick(translations.language, "网络优化"@, "Web Optimized"@),
                PresetCategory::HighQuality => pick(translations.language, "高质量"@, "High Quality"@),
                PresetCategory::FastEncoding => pick(translations.language, "快速编码"@, "Fast Encoding"@),
                PresetCategory::MobileOptimized => pick(translations.language, "移动设备优化"@, "Mobile Optimized"@),
                PresetCategory::Archive => pick(translations.language, "存档压缩"@, "Archive"@),
                PresetCategory::Streaming => pick(translations.language, "流媒体"@, "Streaming"@),
                PresetCategory::Custom => pick(translations.language, "自定义"@, "Custom"@),
            },
    {
        match self {
            PresetCategory::WebOptimized => match translations.language {
                crate::language::Language::Chinese => "网络优化",
                crate::language::Language::English => "Web Optimized",
            },
            PresetCategory::HighQuality => match translations.language {
                crate::language::Language::Chinese => "高质量",
                crate::language::Language::English => "High Quality",
            },
            PresetCategory::FastEncoding => match translations.language {
                crate::language::Language::Chinese => "快速编码",
                crate::language::Language::English => "Fast Encoding",
            },
            PresetCategory::MobileOptimized => match translations.language {
                crate::language::Language::Chinese => "移动设备优化",
                crate::language::Language::English => "Mobile Optimized",
            },
            PresetCategory::Archive => match translations.language {
                crate::language::Language::Chinese => "存档压缩",
                crate::language::Language::English => "Archive",
            },
            PresetCategory::Streaming => match translations.language {
                crate::language::Language::Chinese => "流媒体",
                crate::language::Language::English => "Streaming",
            },
            PresetCategory::Custom => match translations.language {
                crate::language::Language::Chinese => "自定义",
                crate::language::Language::English => "Custom",
            },
        }
    }
}

/// A named set of video and audio settings, with the formats it suits.
#[derive(Debug)]
pub struct EncodingPreset {
    pub name: String,
    pub description: String,
    pub category: PresetCategory,
    pub video_settings: VideoSettings,
    pub audio_settings: AudioSettings,
    pub recommended_formats: Vec<String>,
}

/// Video settings with these encoding choices, fresh in every other field.
pub open spec fn encodes_video(
    v: VideoSettings,
    codec: Seq<char>,
    preset: Seq<char>,
    profile: Seq<char>,
    tune: Seq<char>,
    quality: i32,
    bitrate: Seq<char>,
    fps: Seq<char>,
    resolution: (u32, u32),
    hardware: bool,
    args: Seq<char>,
) -> bool {
    &&& v.codec@ == codec
    &&& v.preset@ == preset
    &&& v.profile@ == profile
    &&& v.tune@ == tune
    &&& v.quality == quality
    &&& v.bitrate@ == bitrate
    &&& v.fps@ == fps
    &&& v.resolution == resolution
    &&& v.use_hardware_acceleration == hardware
    &&& v.custom_args@ == args
    &&& default_video_extras(v)
}

/// Audio settings with these encoding choices and no custom arguments,
/// fresh in every other field.
pub open spec fn encodes_audio(a: AudioSettings, codec: Seq<char>, bitrate: Seq<char>, rate: Seq<char>, channels: Seq<char>, quality: Seq<char>) -> bool {
    &&& a.codec@ == codec
    &&& a.bitrate@ == bitrate
    &&& a.sample_rate@ == rate
    &&& a.channels@ == channels
    &&& a.quality@ == quality
    &&& a.custom_args@ == Seq::<char>::empty()
    &&& default_audio_extras(a)
}

/// A preset's name, description, category and formats.
pub open spec fn names_preset(p: EncodingPreset, name: Seq<char>, description: Seq<char>, category: PresetCategory, formats: Seq<Seq<char>>) -> bool {
    &&& p.name@ == name
    &&& p.description@ == description
    &&& p.category == category
    &&& views(p.recommended_formats@) == formats
}

/// The built-in presets, in order.
pub open spec fn builtin_presets_ok(s: Seq<EncodingPreset>) -> bool {
    &&& s.len() == 9
    &&& names_preset(s[0], "YouTube 1080p"@, "Optimized settings for YouTube 1080p uploads"@, PresetCategory::WebOptimized, seq!["mp4"@])
    &&& encodes_video(s[0].video_settings, "libx264"@, "slow"@, "high"@, "film"@, 21, "auto"@,
        "auto"@, (1920u32, 1080u32), false, "-movflags +faststart -maxrate 8M -bufsize 12M"@)
    &&& encodes_audio(s[0].audio_settings, "aac"@, "192k"@, "48000"@, "2"@, "auto"@)
    &&& names_preset(s[1], "Web H.265 4K"@, "Efficient 4K web video using H.265 encoding"@, PresetCategory::WebOptimized, seq!["mp4"@])
    &&& encodes_video(s[1].video_settings, "libx265"@, "medium"@, "main"@, "auto"@, 24, "auto"@,
        "auto"@, (3840u32, 2160u32), false, "-movflags +faststart -tag:v hvc1"@)
    &&& encodes_audio(s[1].audio_settings, "aac"@, "256k"@, "48000"@, "2"@, "auto"@)
    &&& names_preset(s[2], "Master Quality"@, "Highest quality settings for master storage"@, PresetCategory::HighQuality, seq!["mkv"@, "mov"@])
    &&& encodes_video(s[2].video_settings, "libx264"@, "veryslow"@, "high"@, "film"@, 16, "auto"@,
        "auto"@, (0u32, 0u32), false, "-movflags +faststart"@)
    &&& encodes_audio(s[2].audio_settings, "flac"@, "lossless"@, "48000"@, "auto"@, "8"@)
    &&& names_preset(s[3], "ProRes Proxy"@, "Professional proxy files suitable for editing"@, PresetCategory::HighQuality, seq!["mov"@])
    &&& encodes_video(s[3].video_settings, "prores_ks"@, "auto"@, "proxy"@, "auto"@, 0, "auto"@,
        "auto"@, (0u32, 0u32), false, "-profile:v 0"@)
    &&& encodes_audio(s[3].audio_settings, "pcm_s16le"@, "lossless"@, "48000"@, "auto"@, "auto"@)
    &&& names_preset(s[4], "Fast H.264"@, "Fast H.264 encoding for batch file conversion"@, PresetCategory::FastEncoding, seq!["mp4"@])
    &&& encodes_video(s[4].video_settings, "libx264"@, "ultrafast"@, "main"@, "fastdecode"@, 28, "auto"@,
        "auto"@, (0u32, 0u32), true, "-movflags +faststart"@)
    &&& encodes_audio(s[4].audio_settings, "aac"@, "128k"@, "44100"@, "auto"@, "auto"@)
    &&& names_preset(s[5], "NVENC Fast"@, "NVIDIA hardware accelerated fast encoding"@, PresetCategory::FastEncoding, seq!["mp4"@])
    &&& encodes_video(s[5].video_settings, "h264_nvenc"@, "fast"@, "high"@, "auto"@, 25, "auto"@,
        "auto"@, (0u32, 0u32), true, "-rc vbr_hq -surfaces 32"@)
    &&& encodes_audio(s[5].audio_settings, "aac"@, "128k"@, "48000"@, "auto"@, "auto"@)
    &&& names_preset(s[6], "Mobile H.264"@, "Mobile device compatible H.264 encoding"@, PresetCategory::MobileOptimized, seq!["mp4"@])
    &&& encodes_video(s[6].video_settings, "libx264"@, "medium"@, "baseline"@, "fastdecode"@, 26, "auto"@,
        "30"@, (1280u32, 720u32), false, "-movflags +faststart -level 3.1"@)
    &&& encodes_audio(s[6].audio_settings, "aac"@, "96k"@, "44100"@, "2"@, "auto"@)
    &&& names_preset(s[7], "Archive H.265"@, "High compression archive settings using H.265"@, PresetCategory::Archive, seq!["mp4"@, "mkv"@])
    &&& encodes_video(s[7].video_settings, "libx265"@, "veryslow"@, "main"@, "auto"@, 28, "auto"@,
        "auto"@, (0u32, 0u32), false, "-x265-params log-level=error"@)
    &&& encodes_audio(s[7].audio_settings, "aac"@, "96k"@, "44100"@, "auto"@, "auto"@)
    &&& names_preset(s[8], "Twitch Stream"@, "Recommended settings for Twitch streaming"@, PresetCategory::Streaming, seq!["mp4"@, "flv"@])
    &&& encodes_video(s[8].video_settings, "libx264"@, "veryfast"@, "main"@, "zerolatency"@, 0, "6000k"@,
        "60"@, (1920u32, 1080u32), false, "-keyint_min 60 -g 120"@)
    &&& encodes_audio(s[8].audio_settings, "aac"@, "160k"@, "44100"@, "2"@, "auto"@)
}

/// Video settings with the encoding choices, fresh otherwise.
fn video_of(
    codec: &str,
    preset: &str,
    profile: &str,
    tune: &str,
    quality: i32,
    bitrate: &str,
    fps: &str,
    resolution: (u32, u32),
    hardware: bool,
    args: &str,
) -> (r: VideoSettings)
    ensures
        encodes_video(r, codec@, preset@, profile@, tune@, quality, bitrate@, fps@, resolution, hardware, args@),
{
    let mut v = VideoSettings::default();
    v.codec = owned(codec);
    v.preset = owned(preset);
    v.profile = owned(profile);
    v.tune = owned(tune);
    v.quality = quality;
    v.bitrate = owned(bitrate);
    v.fps = owned(fps);
    v.resolution = resolution;
    v.use_hardware_acceleration = hardware;
    v.custom_args = owned(args);
    v
}

/// Audio settings with the encoding choices, fresh otherwise.
fn audio_of(codec: &str, bitrate: &str, rate: &str, channels: &str, quality: &str) -> (r: AudioSettings)
    ensures
        encodes_audio(r, codec@, bitrate@, rate@, channels@, quality@),
{
    let mut a = AudioSettings::default();
    a.codec = owned(codec);
    a.bitrate = owned(bitrate);
    a.sample_rate = owned(rate);
    a.channels = owned(channels);
    a.quality = owned(quality);
    a
}

/// A preset from its parts.
fn preset_of(
    name: &str,
    description: &str,
    category: PresetCategory,
    video_settings: VideoSettings,
    audio_settings: AudioSettings,
    formats: &[&str],
) -> (r: EncodingPreset)
    ensures
        r.name@ == name@,
        r.description@ == description@,
        r.category == category,
        r.video_settings == video_settings,
        r.audio_settings == audio_settings,
        views(r.recommended_formats@) == crate::codecs::text_views(formats@),
{
    EncodingPreset {
        name: owned(name),
        description: owned(description),
        category,
        video_settings,
        audio_settings,
        recommended_formats: owned_all(formats),
    }
}

/// The presets the tool offers.
#[derive(Debug)]
pub struct PresetManager;

impl PresetManager {
    /// The built-in presets.
    #[verifier::rlimit(50)]
    pub fn get_builtin_presets() -> (r: Vec<EncodingPreset>)
        ensures
            builtin_presets_ok(r@),
    {
        let mut r: Vec<EncodingPreset> = Vec::new();
        let p = preset_of(
            "YouTube 1080p",
            "Optimized settings for YouTube 1080p uploads",
            PresetCategory::WebOptimized,
            video_of("libx264", "slow", "high", "film", 21, "auto", "auto", (1920, 1080),
                false, "-movflags +faststart -maxrate 8M -bufsize 12M"),
            audio_of("aac", "192k", "48000", "2", "auto"),
            &["mp4"],
        );
        assert(views(p.recommended_formats@) =~= seq!["mp4"@]);
        assert(names_preset(p, "YouTube 1080p"@, "Optimized settings for YouTube 1080p uploads"@, PresetCategory::WebOptimized, seq!["mp4"@]));
        r.push(p);
        let p = preset_of(
            "Web H.265 4K",
            "Efficient 4K web video using H.265 encoding",
            PresetCategory::WebOptimized,
            video_of("libx265", "medium", "main", "auto", 24, "auto", "auto", (3840, 2160),
                false, "-movflags +faststart -tag:v hvc1"),
            audio_of("aac", "256k", "48000", "2", "auto"),
            &["mp4"],
        );
        assert(views(p.recommended_formats@) =~= seq!["mp4"@]);
        assert(names_preset(p, "Web H.265 4K"@, "Efficient 4K web video using H.265 encoding"@, PresetCategory::WebOptimized, seq!["mp4"@]));
        r.push(p);
        let p = preset_of(
            "Master Quality",
            "Highest quality settings for master storage",
            PresetCategory::HighQuality,
            video_of("libx264", "veryslow", "high", "film", 16, "auto", "auto", (0, 0),
                false, "-movflags +faststart"),
            audio_of("flac", "lossless", "48000", "auto", "8"),
            &["mkv", "mov"],
        );
        assert(views(p.recommended_formats@) =~= seq!["mkv"@, "mov"@]);
        assert(names_preset(p, "Master Quality"@, "Highest quality settings for master storage"@, PresetCategory::HighQuality, seq!["mkv"@, "mov"@]));
        r.push(p);
        let p = preset_of(
            "ProRes Proxy",
            "Professional proxy files suitable for editing",
            PresetCategory::HighQuality,
            video_of("prores_ks", "auto", "proxy", "auto", 0, "auto", "auto", (0, 0),
                false, "-profile:v 0"),
            audio_of("pcm_s16le", "lossless", "48000", "auto", "auto"),
            &["mov"],
        );
        assert(views(p.recommended_formats@) =~= seq!["mov"@]);
        assert(names_preset(p, "ProRes Proxy"@, "Professional proxy files suitable for editing"@, PresetCategory::HighQuality, seq!["mov"@]));
        r.push(p);
        let p = preset_of(
            "Fast H.264",
            "Fast H.264 encoding for batch file conversion",
            PresetCategory::FastEncoding,
            video_of("libx264", "ultrafast", "main", "fastdecode", 28, "auto", "auto", (0, 0),
                true, "-movflags +faststart"),
            audio_of("aac", "128k", "44100", "auto", "auto"),
            &["mp4"],
        );
        assert(views(p.recommended_formats@) =~= seq!["mp4"@]);
        assert(names_preset(p, "Fast H.264"@, "Fast H.264 encoding for batch file conversion"@, PresetCategory::FastEncoding, seq!["mp4"@]));
        r.push(p);
        let p = preset_of(
            "NVENC Fast",
            "NVIDIA hardware accelerated fast encoding",
            PresetCategory::FastEncoding,
            video_of("h264_nvenc", "fast", "high", "auto", 25, "auto", "auto", (0, 0),
                true, "-rc vbr_hq -surfaces 32"),
            audio_of("aac", "128k", "48000", "auto", "auto"),
            &["mp4"],
        );
        assert(views(p.recommended_formats@) =~= seq!["mp4"@]);
        assert(names_preset(p, "NVENC Fast"@, "NVIDIA hardware accelerated fast encoding"@, PresetCategory::FastEncoding, seq!["mp4"@]));
        r.push(p);
        let p = preset_of(
            "Mobile H.264",
            "Mobile device compatible H.264 encoding",
            PresetCategory::MobileOptimized,
            video_of("libx264", "medium", "baseline", "fastdecode", 26, "auto", "30", (1280, 720),
                false, "-movflags +faststart -level 3.1"),
            audio_of("aac", "96k", "44100", "2", "auto"),
            &["mp4"],
        );
        assert(views(p.recommended_formats@) =~= seq!["mp4"@]);
        assert(names_preset(p, "Mobile H.264"@, "Mobile device compatible H.264 encoding"@, PresetCategory::MobileOptimized, seq!["mp4"@]));
        r.push(p);
        let p = preset_of(
            "Archive H.265",
            "High compression archive settings using H.265",
            PresetCategory::Archive,
            video_of("libx265", "veryslow", "main", "auto", 28, "auto", "auto", (0, 0),
                false, "-x265-params log-level=error"),
            audio_of("aac", "96k", "44100", "auto", "auto"),
            &["mp4", "mkv"],
        );
        assert(views(p.recommended_formats@) =~= seq!["mp4"@, "mkv"@]);
        assert(names_preset(p, "Archive H.265"@, "High compression archive settings using H.265"@, PresetCategory::Archive, seq!["mp4"@, "mkv"@]));
        r.push(p);
        let p = preset_of(
            "Twitch Stream",
            "Recommended settings for Twitch streaming",
            PresetCategory::Streaming,
            video_of("libx264", "veryfast", "main", "zerolatency", 0, "6000k", "60", (1920, 1080),
                false, "-keyint_min 60 -g 120"),
            audio_of("aac", "160k", "44100", "2", "auto"),
            &["mp4", "flv"],
        );
        assert(views(p.recommended_formats@) =~= seq!["mp4"@, "flv"@]);
        assert(names_preset(p, "Twitch Stream"@, "Recommended settings for Twitch streaming"@, PresetCategory::Streaming, seq!["mp4"@, "flv"@]));
        r.push(p);
        assert(builtin_presets_ok(r@));
        r
    }
}

/// The presets of a category, in order.
pub open spec fn in_category(s: Seq<EncodingPreset>, c: PresetCategory) -> Seq<EncodingPreset>
    decreases s.len(),
{
    if s.len() == 0 {
        s
    } else if s.last().category == c {
        in_category(s.drop_last(), c).push(s.last())
    } else {
        in_category(s.drop_last(), c)
    }
}

/// The preset lists the format among those it suits.
pub open spec fn suits(p: EncodingPreset, format: Seq<char>) -> bool {
    exists|j: int| 0 <= j < p.recommended_formats@.len() && #[trigger] p.recommended_formats@[j]@ == format
}

/// The presets that suit a format, in order.
pub open spec fn suiting(s: Seq<EncodingPreset>, format: Seq<char>) -> Seq<EncodingPreset>
    decreases s.len(),
{
    if s.len() == 0 {
        s
    } else if suits(s.last(), format) {
        suiting(s.drop_last(), format).push(s.last())
    } else {
        suiting(s.drop_last(), format)
    }
}

/// Every category, in menu order.
pub open spec fn all_categories() -> Seq<PresetCategory> {
    seq![
        PresetCategory::WebOptimized,
        PresetCategory::HighQuality,
        PresetCategory::FastEncoding,
        PresetCategory::MobileOptimized,
        PresetCategory::Archive,
        PresetCategory::Streaming,
        PresetCategory::Custom,
    ]
}

/// The format a preset is checked against: its first recommended one, else MP4.
pub open spec fn checked_format(p: EncodingPreset) -> Seq<char> {
    if p.recommended_formats@.len() > 0 { p.recommended_formats@[0]@ } else { "mp4"@ }
}

/// Why an encoder does not suit a format.
pub open spec fn mismatch(codec: Seq<char>, format: Seq<char>) -> Seq<char> {
    codec + " is not compatible with "@ + format
}

/// The warnings about a preset: its video, then its audio encoder, when it
/// does not suit the format the preset is checked against; then what the
/// encoder's sample-rate check said of the preset's rate, when that rate is
/// a number; then what the encoder's bitrate check said of its bitrate.
pub open spec fn preset_warnings(
    c: CodecCatalog,
    p: EncodingPreset,
    sample_rate_issue: Option<Seq<char>>,
    bitrate_issue: Option<Seq<char>>,
) -> Seq<Seq<char>> {
    let f = checked_format(p);
    let vc = p.video_settings.codec@;
    let ac = p.audio_settings.codec@;
    (if !compatible(c, vc, f, false) { seq!["Video codec issue: "@ + mismatch(vc, f)] } else { Seq::empty() })
        + (if !compatible(c, ac, f, true) { seq!["Audio codec issue: "@ + mismatch(ac, f)] } else { Seq::empty() })
        + (match (parsed_u32(p.audio_settings.sample_rate@), sample_rate_issue) {
            (Some(_), Some(e)) => seq!["Sample rate issue: "@ + e],
            _ => Seq::empty(),
        })
        + (match bitrate_issue {
            Some(e) => seq!["Bitrate issue: "@ + e],
            None => Seq::empty(),
        })
}

/// The presets of a list that are of a category, in order.
pub fn presets_in_category(presets: Vec<EncodingPreset>, category: PresetCategory) -> (r: Vec<EncodingPreset>)
    ensures
        r@ == in_category(presets@, category),
{
    let ghost all = presets@;
    let mut rest = presets;
    let mut kept: Vec<EncodingPreset> = Vec::new();
    let _n = rest.len();
    let mut k: usize = 0;
    assert(rest@ =~= all.skip(0));
    while rest.len() > 0
        invariant
            all.len() <= usize::MAX,
            k + rest@.len() == all.len(),
            rest@ == all.skip(k as int),
            kept@ == in_category(all.take(k as int), category),
        decreases rest@.len(),
    {
        let p = rest.remove(0);
        assert(all.take(k + 1).drop_last() =~= all.take(k as int));
        assert(all.take(k + 1).last() == all[k as int]);
        assert(all.skip(k + 1) =~= all.skip(k as int).drop_first());
        if p.category == category {
            kept.push(p);
        }
        k = k + 1;
    }
    assert(all.take(all.len() as int) =~= all);
    kept
}

/// Whether the preset suits the format.
pub fn suits_format(p: &EncodingPreset, format: &str) -> (r: bool)
    ensures
        r == suits(*p, format@),
{
    let mut j: usize = 0;
    while j < p.recommended_formats.len()
        invariant
            j <= p.recommended_formats@.len(),
            forall|i: int| 0 <= i < j ==> p.recommended_formats@[i]@ != format@,
        decreases p.recommended_formats@.len() - j,
    {
        if same_text(p.recommended_formats[j].as_str(), format) {
            return true;
        }
        j = j + 1;
    }
    false
}

/// The presets of a list that suit a format, in order.
pub fn presets_for_format(presets: Vec<EncodingPreset>, format: &str) -> (r: Vec<EncodingPreset>)
    ensures
        r@ == suiting(presets@, format@),
{
    let ghost all = presets@;
    let mut rest = presets;
    let mut kept: Vec<EncodingPreset> = Vec::new();
    let _n = rest.len();
    let mut k: usize = 0;
    assert(rest@ =~= all.skip(0));
    while rest.len() > 0
        invariant
            all.len() <= usize::MAX,
            k + rest@.len() == all.len(),
            rest@ == all.skip(k as int),
            kept@ == suiting(all.take(k as int), format@),
        decreases rest@.len(),
    {
        let p = rest.remove(0);
        assert(all.take(k + 1).drop_last() =~= all.take(k as int));
        assert(all.take(k + 1).last() == all[k as int]);
        assert(all.skip(k + 1) =~= all.skip(k as int).drop_first());
        if suits_format(&p, format) {
            kept.push(p);
        }
        k = k + 1;
    }
    assert(all.take(all.len() as int) =~= all);
    kept
}

impl PresetManager {
    /// The built-in presets of a category, in order.
    pub fn get_presets_by_category(category: &PresetCategory) -> (r: Vec<EncodingPreset>)
        ensures
            exists|b: Seq<EncodingPreset>| #[trigger] builtin_presets_ok(b) && r@ == in_category(b, *category),
            forall|b: Seq<EncodingPreset>| #[trigger] builtin_presets_ok(b) ==> same_presets(r@, in_category(b, *category)),
    {
        let all = Self::get_builtin_presets();
        let ghost b = all@;
        let r = presets_in_category(all, *category);
        assert(builtin_presets_ok(b) && r@ == in_category(b, *category));
        assert forall|b2: Seq<EncodingPreset>| #[trigger] builtin_presets_ok(b2) implies same_presets(r@, in_category(b2, *category)) by {
            lemma_builtins_agree(b, b2);
            lemma_in_category_agree(b, b2, *category);
        }
        r
    }

    /// Every category, in menu order.
    pub fn get_all_categories() -> (r: Vec<PresetCategory>)
        ensures
            r@ == all_categories(),
    {
        let mut r: Vec<PresetCategory> = Vec::new();
        r.push(PresetCategory::WebOptimized);
        r.push(PresetCategory::HighQuality);
        r.push(PresetCategory::FastEncoding);
        r.push(PresetCategory::MobileOptimized);
        r.push(PresetCategory::Archive);
        r.push(PresetCategory::Streaming);
        r.push(PresetCategory::Custom);
        assert(r@ =~= all_categories());
        r
    }

    /// The built-in presets that list the format, in order.
    pub fn recommend_presets_for_format(format: &str) -> (r: Vec<EncodingPreset>)
        ensures
            exists|b: Seq<EncodingPreset>| #[trigger] builtin_presets_ok(b) && r@ == suiting(b, format@),
            forall|b: Seq<EncodingPreset>| #[trigger] builtin_presets_ok(b) ==> same_presets(r@, suiting(b, format@)),
    {
        let all = Self::get_builtin_presets();
        let ghost b = all@;
        let r = presets_for_format(all, format);
        assert(builtin_presets_ok(b) && r@ == suiting(b, format@));
        assert forall|b2: Seq<EncodingPreset>| #[trigger] builtin_presets_ok(b2) implies same_presets(r@, suiting(b2, format@)) by {
            lemma_builtins_agree(b, b2);
            lemma_suiting_agree(b, b2, format@);
        }
        r
    }

    /// A custom preset of the settings, suited to MP4.
    pub fn create_custom_preset(
        name: String,
        description: String,
        video_settings: VideoSettings,
        audio_settings: AudioSettings,
    ) -> (r: EncodingPreset)
        ensures
            r.name == name,
            r.description == description,
            r.category == PresetCategory::Custom,
            r.video_settings == video_settings,
            r.audio_settings == audio_settings,
            views(r.recommended_formats@) == seq!["mp4"@],
    {
        let formats = owned_all(&["mp4"]);
        assert(views(formats@) =~= seq!["mp4"@]);
        EncodingPreset {
            name,
            description,
            category: PresetCategory::Custom,
            video_settings,
            audio_settings,
            recommended_formats: formats,
        }
    }

    /// The warnings about a preset's encoders and the format it is checked
    /// against, and about its sample rate and bitrate; none for a preset that
    /// suits them. The sample-rate and bitrate limits of each encoder are not
    /// part of this library: `sample_rate_issue` is what the encoder's
    /// sample-rate check reports for the preset's rate (consulted only when
    /// the rate is a number) and `bitrate_issue` what its bitrate check
    /// reports, `None` where a check finds nothing.
    pub fn validate_preset(
        c: &CodecCatalog,
        preset: &EncodingPreset,
        sample_rate_issue: Option<&str>,
        bitrate_issue: Option<&str>,
    ) -> (r: Vec<String>)
        ensures
            views(r@) == preset_warnings(
                *c,
                *preset,
                match sample_rate_issue { Some(e) => Some(e@), None => None },
                match bitrate_issue { Some(e) => Some(e@), None => None },
            ),
    {
        let f = if preset.recommended_formats.len() > 0 { preset.recommended_formats[0].clone() } else { owned("mp4") };
        let vc = preset.video_settings.codec.as_str();
        let ac = preset.audio_settings.codec.as_str();
        let mut r: Vec<String> = Vec::new();
        if !c.is_compatible(vc, f.as_str(), false) {
            let m = cat3(vc, " is not compatible with ", f.as_str());
            r.push(cat("Video codec issue: ", m.as_str()));
        }
        if !c.is_compatible(ac, f.as_str(), true) {
            let m = cat3(ac, " is not compatible with ", f.as_str());
            r.push(cat("Audio codec issue: ", m.as_str()));
        }
        let ghost second = views(r@);
        match (parse_u32(preset.audio_settings.sample_rate.as_str()), sample_rate_issue) {
            (Some(_), Some(e)) => r.push(cat("Sample rate issue: ", e)),
            _ => {},
        }
        let ghost third = views(r@);
        match bitrate_issue {
            Some(e) => r.push(cat("Bitrate issue: ", e)),
            None => {},
        }
        proof {
            let sr = match sample_rate_issue { Some(e) => Some(e@), None => None };
            let br = match bitrate_issue { Some(e) => Some(e@), None => None };
            assert(third =~= second + (match (parsed_u32(preset.audio_settings.sample_rate@), sr) {
                (Some(_), Some(e)) => seq!["Sample rate issue: "@ + e],
                _ => Seq::empty(),
            }));
            assert(views(r@) =~= third + (match br {
                Some(e) => seq!["Bitrate issue: "@ + e],
                None => Seq::empty(),
            }));
        }
        assert(views(r@) =~= preset_warnings(
            *c,
            *preset,
            match sample_rate_issue { Some(e) => Some(e@), None => None },
            match bitrate_issue { Some(e) => Some(e@), None => None },
        ));
        r
    }

    /// Puts a preset's settings in place of the current ones.
    pub fn apply_preset_to_settings(preset: &EncodingPreset, video_settings: &mut VideoSettings, audio_settings: &mut AudioSettings)
        ensures
            same_video(*final(video_settings), preset.video_settings),
            same_audio(*final(audio_settings), preset.audio_settings),
    {
        *video_settings = preset.video_settings.duplicate();
        *audio_settings = preset.audio_settings.duplicate();
    }
}

/// The presets of a category are all of that category, and every preset of
/// the category is among them.
pub proof fn lemma_in_category(s: Seq<EncodingPreset>, c: PresetCategory)
    ensures
        forall|j: int| 0 <= j < in_category(s, c).len() ==> (#[trigger] in_category(s, c)[j]).category == c,
        forall|i: int| 0 <= i < s.len() && s[i].category == c ==> in_category(s, c).contains(#[trigger] s[i]),
        in_category(s, c).len() <= s.len(),
    decreases s.len(),
{
    if s.len() > 0 {
        lemma_in_category(s.drop_last(), c);
        let rest = in_category(s.drop_last(), c);
        assert forall|i: int| 0 <= i < s.len() && s[i].category == c implies in_category(s, c).contains(#[trigger] s[i]) by {
            if i < s.len() - 1 {
                assert(s.drop_last()[i] == s[i]);
                let w = choose|w: int| 0 <= w < rest.len() && rest[w] == s[i];
                if s.last().category == c {
                    assert(rest.push(s.last())[w] == s[i]);
                }
            } else {
                assert(in_category(s, c).last() == s[i]);
            }
        }
    }
}


/// Two presets agree in every field, texts by their characters.
pub open spec fn same_preset(a: EncodingPreset, b: EncodingPreset) -> bool {
    &&& a.name@ == b.name@
    &&& a.description@ == b.description@
    &&& a.category == b.category
    &&& same_video(a.video_settings, b.video_settings)
    &&& same_audio(a.audio_settings, b.audio_settings)
    &&& views(a.recommended_formats@) == views(b.recommended_formats@)
}

/// Two lists of presets agree preset for preset.
pub open spec fn same_presets(s: Seq<EncodingPreset>, t: Seq<EncodingPreset>) -> bool {
    &&& s.len() == t.len()
    &&& forall|i: int| 0 <= i < s.len() ==> same_preset(#[trigger] s[i], t[i])
}

/// Two presets described alike by the built-in description agree.
proof fn lemma_described_alike(
    a: EncodingPreset,
    b: EncodingPreset,
    name: Seq<char>,
    description: Seq<char>,
    category: PresetCategory,
    formats: Seq<Seq<char>>,
)
    requires
        names_preset(a, name, description, category, formats),
        names_preset(b, name, description, category, formats),
        a.video_settings.codec@ == b.video_settings.codec@,
        a.video_settings.preset@ == b.video_settings.preset@,
        a.video_settings.profile@ == b.video_settings.profile@,
        a.video_settings.tune@ == b.video_settings.tune@,
        a.video_settings.quality == b.video_settings.quality,
        a.video_settings.bitrate@ == b.video_settings.bitrate@,
        a.video_settings.fps@ == b.video_settings.fps@,
        a.video_settings.resolution == b.video_settings.resolution,
        a.video_settings.use_hardware_acceleration == b.video_settings.use_hardware_acceleration,
        a.video_settings.custom_args@ == b.video_settings.custom_args@,
        default_video_extras(a.video_settings),
        default_video_extras(b.video_settings),
        a.audio_settings.codec@ == b.audio_settings.codec@,
        a.audio_settings.bitrate@ == b.audio_settings.bitrate@,
        a.audio_settings.sample_rate@ == b.audio_settings.sample_rate@,
        a.audio_settings.channels@ == b.audio_settings.channels@,
        a.audio_settings.quality@ == b.audio_settings.quality@,
        a.audio_settings.custom_args@ == b.audio_settings.custom_args@,
        default_audio_extras(a.audio_settings),
        default_audio_extras(b.audio_settings),
    ensures
        same_preset(a, b),
{
}

/// Any two lists meeting the built-in description agree preset for preset.
#[verifier::rlimit(60)]
pub proof fn lemma_builtins_agree(b1: Seq<EncodingPreset>, b2: Seq<EncodingPreset>)
    requires
        builtin_presets_ok(b1),
        builtin_presets_ok(b2),
    ensures
        same_presets(b1, b2),
{
    assert forall|i: int| 0 <= i < b1.len() implies same_preset(#[trigger] b1[i], b2[i]) by {
        let x = b1[i];
        let y = b2[i];
        lemma_described_alike(x, y, x.name@, x.description@, x.category, views(x.recommended_formats@));
    }
}

/// Filtering lists that agree preset for preset by a category gives lists
/// that agree preset for preset.
proof fn lemma_in_category_agree(s: Seq<EncodingPreset>, t: Seq<EncodingPreset>, c: PresetCategory)
    requires
        same_presets(s, t),
    ensures
        same_presets(in_category(s, c), in_category(t, c)),
    decreases s.len(),
{
    if s.len() > 0 {
        assert(same_preset(s[s.len() - 1], t[t.len() - 1]));
        assert forall|i: int| 0 <= i < s.drop_last().len() implies same_preset(#[trigger] s.drop_last()[i], t.drop_last()[i]) by {
            assert(same_preset(s[i], t[i]));
        }
        lemma_in_category_agree(s.drop_last(), t.drop_last(), c);
        let a = in_category(s.drop_last(), c);
        let b = in_category(t.drop_last(), c);
        if s.last().category == c {
            assert forall|i: int| 0 <= i < a.push(s.last()).len() implies same_preset(#[trigger] a.push(s.last())[i], b.push(t.last())[i]) by {
                if i < a.len() {
                    assert(same_preset(a[i], b[i]));
                }
            }
        }
    }
}

/// Presets that agree suit the same formats.
proof fn lemma_suits_agree(a: EncodingPreset, b: EncodingPreset, f: Seq<char>)
    requires
        same_preset(a, b),
    ensures
        suits(a, f) == suits(b, f),
{
    let va = views(a.recommended_formats@);
    let vb = views(b.recommended_formats@);
    assert(va.len() == a.recommended_formats@.len());
    assert(vb.len() == b.recommended_formats@.len());
    if suits(a, f) {
        let j = choose|j: int| 0 <= j < a.recommended_formats@.len() && #[trigger] a.recommended_formats@[j]@ == f;
        assert(va[j] == a.recommended_formats@[j]@);
        assert(vb[j] == b.recommended_formats@[j]@);
    }
    if suits(b, f) {
        let j = choose|j: int| 0 <= j < b.recommended_formats@.len() && #[trigger] b.recommended_formats@[j]@ == f;
        assert(va[j] == a.recommended_formats@[j]@);
        assert(vb[j] == b.recommended_formats@[j]@);
    }
}

/// Filtering lists that agree preset for preset by a format gives lists
/// that agree preset for preset.
proof fn lemma_suiting_agree(s: Seq<EncodingPreset>, t: Seq<EncodingPreset>, f: Seq<char>)
    requires
        same_presets(s, t),
    ensures
        same_presets(suiting(s, f), suiting(t, f)),
    decreases s.len(),
{
    if s.len() > 0 {
        assert(same_preset(s[s.len() - 1], t[t.len() - 1]));
        lemma_suits_agree(s.last(), t.last(), f);
        assert forall|i: int| 0 <= i < s.drop_last().len() implies same_preset(#[trigger] s.drop_last()[i], t.drop_last()[i]) by {
            assert(same_preset(s[i], t[i]));
        }
        lemma_suiting_agree(s.drop_last(), t.drop_last(), f);
        let a = suiting(s.drop_last(), f);
        let b = suiting(t.drop_last(), f);
        if suits(s.last(), f) {
            assert forall|i: int| 0 <= i < a.push(s.last()).len() implies same_preset(#[trigger] a.push(s.last())[i], b.push(t.last())[i]) by {
                if i < a.len() {
                    assert(same_preset(a[i], b[i]));
                }
            }
        }
    }
}

} // verus!
