//! Codec knowledge: which codec suits which container, hardware encoders and
//! decoders, and the decode-acceleration arguments they call for.
use vstd::prelude::*;
use crate::text::{lowercase, same_text, owned, to_lower};

verus! {

/// A key and the value it maps to.
#[derive(Debug)]
pub struct Pairing {
    pub key: String,
    pub value: String,
}

/// The pairs as character sequences.
pub open spec fn pair_views(e: Seq<Pairing>) -> Seq<(Seq<char>, Seq<char>)> {
    e.map_values(|p: Pairing| (p.key@, p.value@))
}

/// The value of the first entry with the given key.
pub open spec fn lookup(e: Seq<Pairing>, key: Seq<char>) -> Option<Seq<char>>
    decreases e.len(),
{
    if e.len() == 0 {
        None
    } else if e[0].key@ == key {
        Some(e[0].value@)
    } else {
        lookup(e.drop_first(), key)
    }
}

/// Some entry pairs `key` with `value`.
pub open spec fn has_pair(e: Seq<Pairing>, key: Seq<char>, value: Seq<char>) -> bool {
    exists|i: int| 0 <= i < e.len() && e[i].key@ == key && e[i].value@ == value
}

/// What the tool knows of codecs and containers: the preferred video and
/// audio codec of each container, the codec taken for a container not
/// listed, and the codec–container pairs that work together.
#[derive(Debug)]
pub struct CodecCatalog {
    /// Container format to preferred video codec.
    pub video_by_format: Vec<Pairing>,
    /// Container format to preferred audio codec.
    pub audio_by_format: Vec<Pairing>,
    pub video_default: String,
    pub audio_default: String,
    /// Video codec to a container format it can be stored in.
    pub video_pairs: Vec<Pairing>,
    /// Audio codec to a container format it can be stored in.
    pub audio_pairs: Vec<Pairing>,
}

/// The preferred video codec for a container format.
pub open spec fn best_video(c: CodecCatalog, format: Seq<char>) -> Seq<char> {
    match lookup(c.video_by_format@, format) {
        Some(v) => v,
        None => c.video_default@,
    }
}

/// The preferred audio codec for a container format.
pub open spec fn best_audio(c: CodecCatalog, format: Seq<char>) -> Seq<char> {
    match lookup(c.audio_by_format@, format) {
        Some(v) => v,
        None => c.audio_default@,
    }
}

/// The codec can be stored in the container format.
pub open spec fn compatible(c: CodecCatalog, codec: Seq<char>, format: Seq<char>, is_audio: bool) -> bool {
    if is_audio {
        has_pair(c.audio_pairs@, codec, format)
    } else {
        has_pair(c.video_pairs@, codec, format)
    }
}

/// The value of the first entry with the given key.
pub fn find_value(e: &Vec<Pairing>, key: &str) -> (r: Option<String>)
    ensures
        r matches Some(v) ==> lookup(e@, key@) == Some(v@),
        r is None ==> lookup(e@, key@) is None,
{
    let mut i: usize = 0;
    assert(e@.skip(0) =~= e@);
    while i < e.len()
        invariant
            i <= e.len(),
            lookup(e@, key@) == lookup(e@.skip(i as int), key@),
        decreases e.len() - i,
    {
        assert(e@.skip(i as int)[0] == e@[i as int]);
        if same_text(e[i].key.as_str(), key) {
            return Some(e[i].value.clone());
        }
        assert(e@.skip(i as int).drop_first() =~= e@.skip(i + 1));
        i = i + 1;
    }
    None
}

/// Whether some entry pairs `key` with `value`.
pub fn find_pair(e: &Vec<Pairing>, key: &str, value: &str) -> (r: bool)
    ensures
        r == has_pair(e@, key@, value@),
{
    let mut i: usize = 0;
    while i < e.len()
        invariant
            i <= e.len(),
            forall|j: int| 0 <= j < i ==> !(e@[j].key@ == key@ && e@[j].value@ == value@),
        decreases e.len() - i,
    {
        if same_text(e[i].key.as_str(), key) && same_text(e[i].value.as_str(), value) {
            return true;
        }
        i = i + 1;
    }
    false
}

/// A pairing of two texts.
pub fn pairing(key: &str, value: &str) -> (r: Pairing)
    ensures
        r.key@ == key@,
        r.value@ == value@,
{
    Pairing { key: owned(key), value: owned(value) }
}

/// A list of pairings from a list of text pairs.
pub fn pairings(items: &[(&str, &str)]) -> (r: Vec<Pairing>)
    ensures
        r@.len() == items@.len(),
        forall|i: int| 0 <= i < items@.len() ==> r@[i].key@ == items@[i].0@ && r@[i].value@ == items@[i].1@,
{
    let mut r: Vec<Pairing> = Vec::new();
    let mut i: usize = 0;
    while i < items.len()
        invariant
            i <= items@.len(),
            r@.len() == i,
            forall|j: int| 0 <= j < i ==> r@[j].key@ == items@[j].0@ && r@[j].value@ == items@[j].1@,
        decreases items@.len() - i,
    {
        let (k, v) = items[i];
        r.push(pairing(k, v));
        i = i + 1;
    }
    r
}

impl CodecCatalog {
    /// The preferred video codec for a container format.
    pub fn best_video_codec(&self, format: &str) -> (r: String)
        ensures
            r@ == best_video(*self, format@),
    {
        match find_value(&self.video_by_format, format) {
            Some(v) => v,
            None => self.video_default.clone(),
        }
    }

    /// The preferred audio codec for a container format.
    pub fn best_audio_codec(&self, format: &str) -> (r: String)
        ensures
            r@ == best_audio(*self, format@),
    {
        match find_value(&self.audio_by_format, format) {
            Some(v) => v,
            None => self.audio_default.clone(),
        }
    }

    /// Whether the codec can be stored in the container format.
    pub fn is_compatible(&self, codec: &str, format: &str, is_audio: bool) -> (r: bool)
        ensures
            r == compatible(*self, codec@, format@, is_audio),
    {
        if is_audio {
            find_pair(&self.audio_pairs, codec, format)
        } else {
            find_pair(&self.video_pairs, codec, format)
        }
    }

    /// The pairings this tool's command builders rely on: the codec each
    /// container defaults to, and the containers each codec is written to.
    pub fn standard() -> (r: CodecCatalog)
        ensures
            r.video_default@ == "libx264"@,
            r.audio_default@ == "aac"@,
            pair_views(r.video_by_format@) == seq![
                ("mp4"@, "libx264"@), ("mov"@, "libx264"@), ("mkv"@, "libx264"@),
                ("avi"@, "libx264"@), ("webm"@, "libvpx-vp9"@),
            ],
            pair_views(r.audio_by_format@) == seq![
                ("mp3"@, "libmp3lame"@), ("aac"@, "aac"@), ("m4a"@, "aac"@), ("flac"@, "flac"@),
                ("wav"@, "pcm_s16le"@), ("ogg"@, "libvorbis"@), ("opus"@, "libopus"@),
                ("ac3"@, "ac3"@), ("mp4"@, "aac"@), ("mov"@, "aac"@), ("mkv"@, "aac"@),
                ("webm"@, "libopus"@),
            ],
            pair_views(r.video_pairs@) == seq![
                ("libx264"@, "mp4"@), ("libx264"@, "mov"@), ("libx264"@, "mkv"@), ("libx264"@, "avi"@),
                ("libx265"@, "mp4"@), ("libx265"@, "mov"@), ("libx265"@, "mkv"@),
                ("libaom-av1"@, "mp4"@), ("libaom-av1"@, "mkv"@), ("libaom-av1"@, "webm"@),
                ("libvpx-vp9"@, "webm"@), ("libvpx-vp9"@, "mkv"@),
            ],
            pair_views(r.audio_pairs@) == seq![
                ("libmp3lame"@, "mp3"@), ("libmp3lame"@, "avi"@), ("libmp3lame"@, "mkv"@),
                ("aac"@, "aac"@), ("aac"@, "m4a"@), ("aac"@, "mp4"@), ("aac"@, "mov"@), ("aac"@, "mkv"@),
                ("flac"@, "flac"@), ("flac"@, "mkv"@),
                ("pcm_s16le"@, "wav"@), ("pcm_s16le"@, "mov"@), ("pcm_s16le"@, "mkv"@),
                ("libvorbis"@, "ogg"@), ("libvorbis"@, "webm"@), ("libvorbis"@, "mkv"@),
                ("libopus"@, "opus"@), ("libopus"@, "ogg"@), ("libopus"@, "webm"@), ("libopus"@, "mkv"@),
                ("ac3"@, "ac3"@), ("ac3"@, "mkv"@), ("ac3"@, "mp4"@),
            ],
    {
        let video_by_format = pairings(
            &[("mp4", "libx264"), ("mov", "libx264"), ("mkv", "libx264"), ("avi", "libx264"), ("webm", "libvpx-vp9")],
        );
        let audio_by_format = pairings(
            &[
                ("mp3", "libmp3lame"), ("aac", "aac"), ("m4a", "aac"), ("flac", "flac"), ("wav", "pcm_s16le"),
                ("ogg", "libvorbis"), ("opus", "libopus"), ("ac3", "ac3"), ("mp4", "aac"), ("mov", "aac"),
                ("mkv", "aac"), ("webm", "libopus"),
            ],
        );
        let video_pairs = pairings(
            &[
                ("libx264", "mp4"), ("libx264", "mov"), ("libx264", "mkv"), ("libx264", "avi"),
                ("libx265", "mp4"), ("libx265", "mov"), ("libx265", "mkv"),
                ("libaom-av1", "mp4"), ("libaom-av1", "mkv"), ("libaom-av1", "webm"),
                ("libvpx-vp9", "webm"), ("libvpx-vp9", "mkv"),
            ],
        );
        let audio_pairs = pairings(
            &[
                ("libmp3lame", "mp3"), ("libmp3lame", "avi"), ("libmp3lame", "mkv"),
                ("aac", "aac"), ("aac", "m4a"), ("aac", "mp4"), ("aac", "mov"), ("aac", "mkv"),
                ("flac", "flac"), ("flac", "mkv"),
                ("pcm_s16le", "wav"), ("pcm_s16le", "mov"), ("pcm_s16le", "mkv"),
                ("libvorbis", "ogg"), ("libvorbis", "webm"), ("libvorbis", "mkv"),
                ("libopus", "opus"), ("libopus", "ogg"), ("libopus", "webm"), ("libopus", "mkv"),
                ("ac3", "ac3"), ("ac3", "mkv"), ("ac3", "mp4"),
            ],
        );
        let r = CodecCatalog {
            video_by_format,
            audio_by_format,
            video_default: owned("libx264"),
            audio_default: owned("aac"),
            video_pairs,
            audio_pairs,
        };
        assert(pair_views(r.video_by_format@) =~= seq![
            ("mp4"@, "libx264"@), ("mov"@, "libx264"@), ("mkv"@, "libx264"@),
            ("avi"@, "libx264"@), ("webm"@, "libvpx-vp9"@),
        ]);
        assert(pair_views(r.audio_by_format@) =~= seq![
            ("mp3"@, "libmp3lame"@), ("aac"@, "aac"@), ("m4a"@, "aac"@), ("flac"@, "flac"@),
            ("wav"@, "pcm_s16le"@), ("ogg"@, "libvorbis"@), ("opus"@, "libopus"@),
            ("ac3"@, "ac3"@), ("mp4"@, "aac"@), ("mov"@, "aac"@), ("mkv"@, "aac"@),
            ("webm"@, "libopus"@),
        ]);
        assert(pair_views(r.video_pairs@) =~= seq![
            ("libx264"@, "mp4"@), ("libx264"@, "mov"@), ("libx264"@, "mkv"@), ("libx264"@, "avi"@),
            ("libx265"@, "mp4"@), ("libx265"@, "mov"@), ("libx265"@, "mkv"@),
            ("libaom-av1"@, "mp4"@), ("libaom-av1"@, "mkv"@), ("libaom-av1"@, "webm"@),
            ("libvpx-vp9"@, "webm"@), ("libvpx-vp9"@, "mkv"@),
        ]);
        assert(pair_views(r.audio_pairs@) =~= seq![
            ("libmp3lame"@, "mp3"@), ("libmp3lame"@, "avi"@), ("libmp3lame"@, "mkv"@),
            ("aac"@, "aac"@), ("aac"@, "m4a"@), ("aac"@, "mp4"@), ("aac"@, "mov"@), ("aac"@, "mkv"@),
            ("flac"@, "flac"@), ("flac"@, "mkv"@),
            ("pcm_s16le"@, "wav"@), ("pcm_s16le"@, "mov"@), ("pcm_s16le"@, "mkv"@),
            ("libvorbis"@, "ogg"@), ("libvorbis"@, "webm"@), ("libvorbis"@, "mkv"@),
            ("libopus"@, "opus"@), ("libopus"@, "ogg"@), ("libopus"@, "webm"@), ("libopus"@, "mkv"@),
            ("ac3"@, "ac3"@), ("ac3"@, "mkv"@), ("ac3"@, "mp4"@),
        ]);
        r
    }
}



/// `c` is one of the texts in `l`.
pub open spec fn listed(c: Seq<char>, l: Seq<Seq<char>>) -> bool {
    exists|i: int| 0 <= i < l.len() && l[i] == c
}

/// NVIDIA encoders.
pub open spec fn is_nvenc(c: Seq<char>) -> bool {
    c == "h264_nvenc"@ || c == "hevc_nvenc"@ || c == "av1_nvenc"@ || c == "vp9_nvenc"@
}

/// Intel QuickSync encoders.
pub open spec fn is_qsv(c: Seq<char>) -> bool {
    c == "h264_qsv"@ || c == "hevc_qsv"@ || c == "av1_qsv"@ || c == "vp9_qsv"@
}

/// Apple VideoToolbox encoders.
pub open spec fn is_videotoolbox(c: Seq<char>) -> bool {
    c == "h264_videotoolbox"@ || c == "hevc_videotoolbox"@ || c == "prores_videotoolbox"@
}

/// VAAPI encoders.
pub open spec fn is_vaapi(c: Seq<char>) -> bool {
    c == "h264_vaapi"@ || c == "hevc_vaapi"@ || c == "av1_vaapi"@ || c == "vp8_vaapi"@ || c == "vp9_vaapi"@
}

/// AMD AMF encoders.
pub open spec fn is_amf(c: Seq<char>) -> bool {
    c == "h264_amf"@ || c == "hevc_amf"@ || c == "av1_amf"@
}

/// The codec is a hardware encoder.
pub open spec fn is_hardware_encoder(c: Seq<char>) -> bool {
    is_nvenc(c) || is_qsv(c) || is_videotoolbox(c) || is_vaapi(c) || is_amf(c)
}

/// The decode acceleration a hardware encoder pairs with.
pub open spec fn hwaccel_family(c: Seq<char>) -> Option<Seq<char>> {
    if is_nvenc(c) {
        Some("cuda"@)
    } else if is_qsv(c) {
        Some("qsv"@)
    } else if is_videotoolbox(c) {
        Some("videotoolbox"@)
    } else if is_vaapi(c) {
        Some("vaapi"@)
    } else if is_amf(c) {
        Some("d3d11va"@)
    } else {
        None
    }
}

/// H.264 and H.265 under their usual names.
pub open spec fn is_h26x(c: Seq<char>) -> bool {
    c == "h264"@ || c == "h.264"@ || c == "avc1"@ || c == "avc"@ || c == "hevc"@ || c == "h265"@
        || c == "h.265"@ || c == "hvc1"@
}

/// The decoder family handles the input codec, given in lower case.
pub open spec fn decodes(family: Seq<char>, c: Seq<char>) -> bool {
    if family == "cuda"@ {
        is_h26x(c) || c == "av1"@ || c == "av01"@ || c == "vp8"@ || c == "vp9"@ || c == "mpeg2video"@
            || c == "mpeg2"@ || c == "mpeg4"@
    } else if family == "qsv"@ {
        is_h26x(c) || c == "av1"@ || c == "av01"@ || c == "vp9"@ || c == "mpeg2video"@ || c == "mpeg2"@
            || c == "vc1"@
    } else if family == "videotoolbox"@ {
        is_h26x(c) || c == "prores"@ || c == "mpeg4"@
    } else if family == "vaapi"@ {
        is_h26x(c) || c == "av1"@ || c == "av01"@ || c == "vp8"@ || c == "vp9"@ || c == "mpeg2video"@
            || c == "mpeg2"@
    } else if family == "d3d11va"@ {
        is_h26x(c) || c == "av1"@ || c == "av01"@ || c == "vp9"@
    } else {
        false
    }
}

/// The decoder family can handle the input codec.
pub open spec fn can_decode(input_codec: Seq<char>, family: Seq<char>) -> bool {
    decodes(family, lowercase(input_codec))
}

/// The arguments that turn on decode acceleration for a hardware encoder's family.
pub open spec fn family_args(family: Seq<char>) -> Seq<Seq<char>> {
    if family == "cuda"@ {
        seq!["-hwaccel"@, "cuda"@, "-hwaccel_output_format"@, "cuda"@]
    } else if family == "qsv"@ {
        seq!["-hwaccel"@, "qsv"@, "-hwaccel_output_format"@, "qsv"@]
    } else if family == "videotoolbox"@ {
        seq!["-hwaccel"@, "videotoolbox"@]
    } else if family == "vaapi"@ {
        seq!["-hwaccel"@, "vaapi"@, "-hwaccel_output_format"@, "vaapi"@]
    } else {
        seq!["-hwaccel"@, "d3d11va"@, "-hwaccel_output_format"@, "d3d11"@]
    }
}

/// Decode-acceleration arguments for an encoder: the family's for a hardware
/// encoder, automatic selection when the user asked for it, else none.
pub open spec fn hwaccel_args(codec: Seq<char>, use_hw: bool) -> Seq<Seq<char>> {
    match hwaccel_family(codec) {
        Some(f) => family_args(f),
        None => if use_hw { seq!["-hwaccel"@, "auto"@] } else { Seq::empty() },
    }
}

/// Decode-acceleration arguments once the input codec is known: none when it
/// could not be detected, none when a hardware encoder's decoder cannot read it.
pub open spec fn hwaccel_args_checked(input_codec: Option<Seq<char>>, codec: Seq<char>, use_hw: bool) -> Seq<Seq<char>> {
    match input_codec {
        None => Seq::empty(),
        Some(ic) => match hwaccel_family(codec) {
            Some(f) => if can_decode(ic, f) { family_args(f) } else { Seq::empty() },
            None => if use_hw { seq!["-hwaccel"@, "auto"@] } else { Seq::empty() },
        },
    }
}

fn nvenc(c: &str) -> (r: bool)
    ensures
        r == is_nvenc(c@),
{
    same_text(c, "h264_nvenc") || same_text(c, "hevc_nvenc") || same_text(c, "av1_nvenc") || same_text(c, "vp9_nvenc")
}

fn qsv(c: &str) -> (r: bool)
    ensures
        r == is_qsv(c@),
{
    same_text(c, "h264_qsv") || same_text(c, "hevc_qsv") || same_text(c, "av1_qsv") || same_text(c, "vp9_qsv")
}

fn videotoolbox(c: &str) -> (r: bool)
    ensures
        r == is_videotoolbox(c@),
{
    same_text(c, "h264_videotoolbox") || same_text(c, "hevc_videotoolbox") || same_text(c, "prores_videotoolbox")
}

fn vaapi(c: &str) -> (r: bool)
    ensures
        r == is_vaapi(c@),
{
    same_text(c, "h264_vaapi") || same_text(c, "hevc_vaapi") || same_text(c, "av1_vaapi")
        || same_text(c, "vp8_vaapi") || same_text(c, "vp9_vaapi")
}

fn amf(c: &str) -> (r: bool)
    ensures
        r == is_amf(c@),
{
    same_text(c, "h264_amf") || same_text(c, "hevc_amf") || same_text(c, "av1_amf")
}

fn h26x(c: &str) -> (r: bool)
    ensures
        r == is_h26x(c@),
{
    same_text(c, "h264") || same_text(c, "h.264") || same_text(c, "avc1") || same_text(c, "avc")
        || same_text(c, "hevc") || same_text(c, "h265") || same_text(c, "h.265") || same_text(c, "hvc1")
}

/// Whether the codec is a hardware encoder.
pub fn is_hardware_encoder_codec(codec: &str) -> (r: bool)
    ensures
        r == is_hardware_encoder(codec@),
{
    nvenc(codec) || qsv(codec) || videotoolbox(codec) || vaapi(codec) || amf(codec)
}

/// The decode acceleration a hardware encoder pairs with.
pub fn hwaccel_family_of(codec: &str) -> (r: Option<&'static str>)
    ensures
        r matches Some(f) ==> hwaccel_family(codec@) == Some(f@),
        r is None ==> hwaccel_family(codec@) is None,
{
    if nvenc(codec) {
        Some("cuda")
    } else if qsv(codec) {
        Some("qsv")
    } else if videotoolbox(codec) {
        Some("videotoolbox")
    } else if vaapi(codec) {
        Some("vaapi")
    } else if amf(codec) {
        Some("d3d11va")
    } else {
        None
    }
}

/// Whether a hardware decoder family can read the input codec.
pub fn can_hardware_decode_codec(input_codec: &str, family: &str) -> (r: bool)
    ensures
        r == can_decode(input_codec@, family@),
{
    let lower = to_lower(input_codec);
    let c = lower.as_str();
    if same_text(family, "cuda") {
        h26x(c) || same_text(c, "av1") || same_text(c, "av01") || same_text(c, "vp8") || same_text(c, "vp9")
            || same_text(c, "mpeg2video") || same_text(c, "mpeg2") || same_text(c, "mpeg4")
    } else if same_text(family, "qsv") {
        h26x(c) || same_text(c, "av1") || same_text(c, "av01") || same_text(c, "vp9")
            || same_text(c, "mpeg2video") || same_text(c, "mpeg2") || same_text(c, "vc1")
    } else if same_text(family, "videotoolbox") {
        h26x(c) || same_text(c, "prores") || same_text(c, "mpeg4")
    } else if same_text(family, "vaapi") {
        h26x(c) || same_text(c, "av1") || same_text(c, "av01") || same_text(c, "vp8") || same_text(c, "vp9")
            || same_text(c, "mpeg2video") || same_text(c, "mpeg2")
    } else if same_text(family, "d3d11va") {
        h26x(c) || same_text(c, "av1") || same_text(c, "av01") || same_text(c, "vp9")
    } else {
        false
    }
}

/// The character sequences of a list of texts.
pub open spec fn text_views(l: Seq<&str>) -> Seq<Seq<char>> {
    l.map_values(|t: &str| t@)
}

/// A list of owned texts from a list of texts.
pub fn owned_all(items: &[&str]) -> (r: Vec<String>)
    ensures
        crate::text::views(r@) == text_views(items@),
{
    let mut r: Vec<String> = Vec::new();
    let mut i: usize = 0;
    while i < items.len()
        invariant
            i <= items@.len(),
            r@.len() == i,
            forall|j: int| 0 <= j < i ==> r@[j]@ == items@[j]@,
        decreases items@.len() - i,
    {
        r.push(owned(items[i]));
        i = i + 1;
    }
    assert(crate::text::views(r@) =~= text_views(items@));
    r
}

/// The arguments that turn on a decoder family's acceleration.
fn family_arguments(family: &str) -> (r: Vec<String>)
    requires
        family@ == "cuda"@ || family@ == "qsv"@ || family@ == "videotoolbox"@ || family@ == "vaapi"@
            || family@ == "d3d11va"@,
    ensures
        crate::text::views(r@) == family_args(family@),
{
    let r = if same_text(family, "cuda") {
        owned_all(&["-hwaccel", "cuda", "-hwaccel_output_format", "cuda"])
    } else if same_text(family, "qsv") {
        owned_all(&["-hwaccel", "qsv", "-hwaccel_output_format", "qsv"])
    } else if same_text(family, "videotoolbox") {
        owned_all(&["-hwaccel", "videotoolbox"])
    } else if same_text(family, "vaapi") {
        owned_all(&["-hwaccel", "vaapi", "-hwaccel_output_format", "vaapi"])
    } else {
        owned_all(&["-hwaccel", "d3d11va", "-hwaccel_output_format", "d3d11"])
    };
    r
}

/// Decode-acceleration arguments for an encoder.
pub fn hardware_acceleration_args(codec: &str, use_hw_accel: bool) -> (r: Vec<String>)
    ensures
        crate::text::views(r@) == hwaccel_args(codec@, use_hw_accel),
{
    match hwaccel_family_of(codec) {
        Some(f) => family_arguments(f),
        None => {
            if use_hw_accel {
                owned_all(&["-hwaccel", "auto"])
            } else {
                let r: Vec<String> = Vec::new();
                assert(crate::text::views(r@) =~= Seq::<Seq<char>>::empty());
                r
            }
        },
    }
}

/// Decode-acceleration arguments once the input codec has been probed.
pub fn hardware_acceleration_args_checked(input_codec: Option<&str>, codec: &str, use_hw_accel: bool) -> (r: Vec<String>)
    ensures
        crate::text::views(r@) == hwaccel_args_checked(
            match input_codec { Some(c) => Some(c@), None => None },
            codec@,
            use_hw_accel,
        ),
{
    let none: Vec<String> = Vec::new();
    assert(crate::text::views(none@) =~= Seq::<Seq<char>>::empty());
    match input_codec {
        None => none,
        Some(ic) => match hwaccel_family_of(codec) {
            Some(f) => {
                if can_hardware_decode_codec(ic, f) {
                    family_arguments(f)
                } else {
                    none
                }
            },
            None => {
                if use_hw_accel {
                    owned_all(&["-hwaccel", "auto"])
                } else {
                    none
                }
            },
        },
    }
}

/// Estimated bitrate for a CRF quality value.
pub open spec fn crf_bitrate(crf: int) -> Seq<char> {
    if 0 <= crf <= 18 {
        "8000k"@
    } else if 19 <= crf <= 23 {
        "4000k"@
    } else if 24 <= crf <= 28 {
        "2000k"@
    } else if 29 <= crf <= 35 {
        "1000k"@
    } else if 36 <= crf <= 51 {
        "500k"@
    } else {
        "2000k"@
    }
}

/// Estimated bitrate for a CRF quality value.
pub fn crf_to_bitrate_estimate(crf: i32) -> (r: String)
    ensures
        r@ == crf_bitrate(crf as int),
{
    owned(
        if 0 <= crf && crf <= 18 {
            "8000k"
        } else if 19 <= crf && crf <= 23 {
            "4000k"
        } else if 24 <= crf && crf <= 28 {
            "2000k"
        } else if 29 <= crf && crf <= 35 {
            "1000k"
        } else if 36 <= crf && crf <= 51 {
            "500k"
        } else {
            "2000k"
        },
    )
}

/// The codec accepts a bitrate setting.
pub open spec fn supports_bitrate(c: Seq<char>) -> bool {
    !(c == "flac"@ || c == "pcm_s16le"@ || c == "pcm_s24le"@ || c == "copy"@)
}

/// The codec accepts a variable-bitrate quality setting.
pub open spec fn supports_vbr_quality(c: Seq<char>) -> bool {
    c == "libmp3lame"@ || c == "aac"@ || c == "libvorbis"@ || c == "libopus"@
}

/// The file extension an audio encoder's output gets.
pub open spec fn audio_extension(codec: Seq<char>) -> Seq<char> {
    if codec == "libmp3lame"@ { "mp3"@ }
    else if codec == "aac"@ { "aac"@ }
    else if codec == "flac"@ { "flac"@ }
    else if codec == "pcm_s16le"@ { "wav"@ }
    else if codec == "libvorbis"@ { "ogg"@ }
    else if codec == "libopus"@ { "opus"@ }
    else if codec == "ac3"@ { "ac3"@ }
    else { "mp3"@ }
}

/// The file extension a video encoder's output gets.
pub open spec fn video_extension(codec: Seq<char>) -> Seq<char> {
    if codec == "libvpx-vp9"@ { "webm"@ } else { "mp4"@ }
}

/// The file extension an audio encoder's output gets.
pub fn audio_extension_for(codec: &str) -> (r: &'static str)
    ensures
        r@ == audio_extension(codec@),
{
    if same_text(codec, "libmp3lame") { "mp3" }
    else if same_text(codec, "aac") { "aac" }
    else if same_text(codec, "flac") { "flac" }
    else if same_text(codec, "pcm_s16le") { "wav" }
    else if same_text(codec, "libvorbis") { "ogg" }
    else if same_text(codec, "libopus") { "opus" }
    else if same_text(codec, "ac3") { "ac3" }
    else { "mp3" }
}

/// The file extension a video encoder's output gets.
pub fn video_extension_for(codec: &str) -> (r: &'static str)
    ensures
        r@ == video_extension(codec@),
{
    if same_text(codec, "libvpx-vp9") { "webm" } else { "mp4" }
}

} // verus!
