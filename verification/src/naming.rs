//! How output files are named.
use vstd::prelude::*;
use crate::text::{owned, cat, cat3, same_text, is_blank, has, contains};
use crate::paths::{
    file_stem, extension, parent, join_path, path_file_stem, path_parent, path_join, trimmed,
    floor_len, trailing_noise, lemma_join_is_trimmed, lemma_trimmed,
    lemma_file_name_of_join, lemma_split_stem_and_extension, lemma_file_stem_shape,
    lemma_last_index_at_join, lemma_no_last_index, lemma_last_index_exists, lemma_parent_shape,
};
use crate::text::{last_index};
use crate::text::{has_char, occurs_at};
use crate::codecs::{audio_extension, video_extension, audio_extension_for, video_extension_for};

verus! {

/// The extension an output gets: the container the user chose, else the one
/// its encoder writes.
pub open spec fn target_extension(codec: Seq<char>, container: Seq<char>, is_audio: bool) -> Seq<char> {
    if container.len() > 0 && container != "auto"@ {
        container
    } else if is_audio {
        audio_extension(codec)
    } else {
        video_extension(codec)
    }
}

/// `name` in the directory of `path`, or bare when the path has no directory.
pub open spec fn beside(path: Seq<char>, name: Seq<char>) -> Seq<char> {
    match parent(path) {
        Some(d) => join_path(d, name),
        None => name,
    }
}

/// An output path with its extension replaced by the one its encoder or
/// container calls for; `output` stands in for a missing file name.
pub open spec fn normalized_output(out: Seq<char>, codec: Seq<char>, container: Seq<char>, is_audio: bool) -> Seq<char> {
    let ext = target_extension(codec, container, is_audio);
    match file_stem(out) {
        Some(stem) => beside(out, stem + "."@ + ext),
        None => beside(out, "output."@ + ext),
    }
}

/// `name` in the directory of `path`.
pub fn place_beside(path: &str, name: &str) -> (r: String)
    ensures
        r@ == beside(path@, name@),
{
    match path_parent(path) {
        Some(d) => path_join(d.as_str(), name),
        None => owned(name),
    }
}

/// An extension that is not empty and holds no dot or slash.
pub open spec fn plain_extension(e: Seq<char>) -> bool {
    e.len() > 0 && !has_char(e, '.') && !has_char(e, '/')
}

/// The output path with the extension that the container, or else the
/// encoder, calls for.
pub fn normalize_output_path_with_container(output_path: &str, codec: &str, container_format: &str, is_audio: bool) -> (r: String)
    ensures
        r@ == normalized_output(output_path@, codec@, container_format@, is_audio),
        plain_extension(target_extension(codec@, container_format@, is_audio)) ==> {
            &&& file_stem(r@) == Some(kept_stem(output_path@))
            &&& extension(r@) == Some(target_extension(codec@, container_format@, is_audio))
            &&& normalized_output(r@, codec@, container_format@, is_audio) == r@
        },
{
    proof {
        if plain_extension(target_extension(codec@, container_format@, is_audio)) {
            lemma_normalized_output(output_path@, codec@, container_format@, is_audio);
            lemma_normalize_twice(output_path@, codec@, container_format@, is_audio);
        }
    }
    let ext: &str = if !is_blank(container_format) && !same_text(container_format, "auto") {
        container_format
    } else if is_audio {
        audio_extension_for(codec)
    } else {
        video_extension_for(codec)
    };
    let name = match path_file_stem(output_path) {
        Some(stem) => cat3(stem.as_str(), ".", ext),
        None => cat("output.", ext),
    };
    place_beside(output_path, name.as_str())
}

/// The stem a normalized output keeps: the output's own, else `output`.
pub open spec fn kept_stem(out: Seq<char>) -> Seq<char> {
    match file_stem(out) {
        Some(s) => s,
        None => "output"@,
    }
}

/// Neither text holds `c`, so their concatenation does not.
proof fn lemma_no_char_concat(a: Seq<char>, b: Seq<char>, c: char)
    requires
        !has_char(a, c),
        !has_char(b, c),
    ensures
        !has_char(a + b, c),
{
    assert forall|i: int| 0 <= i < (a + b).len() implies (a + b)[i] != c by {
        if i < a.len() {
            assert((a + b)[i] == a[i]);
        } else {
            assert((a + b)[i] == b[i - a.len()]);
        }
    }
}

/// A normalized output keeps its stem and always ends in the extension the
/// container or encoder calls for, whatever extension it had, provided that
/// extension is a plain one (not empty, without dots or slashes).
pub proof fn lemma_normalized_output(out: Seq<char>, codec: Seq<char>, container: Seq<char>, is_audio: bool)
    requires
        target_extension(codec, container, is_audio).len() > 0,
        !has_char(target_extension(codec, container, is_audio), '.'),
        !has_char(target_extension(codec, container, is_audio), '/'),
    ensures
        file_stem(normalized_output(out, codec, container, is_audio)) == Some(kept_stem(out)),
        extension(normalized_output(out, codec, container, is_audio)) == Some(target_extension(codec, container, is_audio)),
{
    let ext = target_extension(codec, container, is_audio);
    let stem = kept_stem(out);
    reveal_strlit("output");
    reveal_strlit("output.");
    reveal_strlit(".");
    lemma_file_stem_shape(out);
    if file_stem(out) is None {
        assert(!has_char("output"@, '/'));
        assert("output."@ + ext =~= "output"@ + seq!['.'] + ext);
    }
    assert(stem + "."@ + ext =~= stem + seq!['.'] + ext);
    let name = stem + seq!['.'] + ext;
    assert(!has_char(seq!['.'], '/'));
    lemma_no_char_concat(stem, seq!['.'], '/');
    lemma_no_char_concat(stem + seq!['.'], ext, '/');
    assert(name.len() >= 3);
    assert(name != seq!['.']);
    assert(name != seq!['.', '.']);
    match parent(out) {
        Some(d) => lemma_file_name_of_join(d, name),
        None => {
            lemma_file_name_of_join(Seq::empty(), name);
            assert(join_path(Seq::empty(), name) == name);
        },
    }
    lemma_split_stem_and_extension(stem, ext);
}

/// The directory of a name placed in a directory is that directory, for a
/// name without `/` other than `.` and a directory as `parent` gives one.
proof fn lemma_beside_again(dir: Seq<char>, name: Seq<char>)
    requires
        name.len() > 0,
        !has_char(name, '/'),
        name != seq!['.'],
        trimmed(dir) == dir,
        dir.len() == 0 || dir == seq!['/'] || dir.last() != '/',
    ensures
        beside(join_path(dir, name), name) == join_path(dir, name),
{
    let n = join_path(dir, name);
    lemma_join_is_trimmed(dir, name);
    assert(n.len() >= name.len());
    if n == seq!['/'] {
        assert(n.last() == name.last());
        assert(name.last() == name[name.len() - 1]);
    }
    if n == seq!['.'] {
        assert(dir.len() == 0 || dir.len() + name.len() >= 2);
        if dir.len() == 0 {
            assert(n == name);
        }
    }
    if dir.len() == 0 {
        lemma_no_last_index(name, '/');
        assert(parent(name) == Some(Seq::<char>::empty()));
    } else if dir.last() == '/' {
        assert(dir =~= seq!['/']);
        lemma_last_index_at_join(dir, name, '/');
        assert(n.take(1) =~= seq!['/']);
        assert(parent(n) == Some(trimmed(seq!['/'])));
    } else {
        let d = dir + seq!['/'];
        lemma_last_index_at_join(d, name, '/');
        assert(dir + seq!['/'] + name == d + name);
        assert((d + name).take(d.len() as int) =~= d);
        assert(d.drop_last() =~= dir);
        lemma_trimmed(dir);
        assert(trailing_noise(d));
        assert(d.len() > floor_len(d));
        assert(trimmed(d) == trimmed(dir));
        assert(parent(n) == Some(dir));
    }
}

/// Normalizing an output a second time changes nothing, for a plain target
/// extension (not empty, without dots or slashes).
pub proof fn lemma_normalize_twice(out: Seq<char>, codec: Seq<char>, container: Seq<char>, is_audio: bool)
    requires
        target_extension(codec, container, is_audio).len() > 0,
        !has_char(target_extension(codec, container, is_audio), '.'),
        !has_char(target_extension(codec, container, is_audio), '/'),
    ensures
        normalized_output(normalized_output(out, codec, container, is_audio), codec, container, is_audio)
            == normalized_output(out, codec, container, is_audio),
{
    let ext = target_extension(codec, container, is_audio);
    let n1 = normalized_output(out, codec, container, is_audio);
    lemma_normalized_output(out, codec, container, is_audio);
    reveal_strlit("output");
    reveal_strlit("output.");
    reveal_strlit(".");
    lemma_file_stem_shape(out);
    let stem = kept_stem(out);
    if file_stem(out) is None {
        assert(!has_char("output"@, '/'));
        assert("output."@ + ext =~= "output"@ + seq!['.'] + ext);
    }
    assert(stem + "."@ + ext =~= stem + seq!['.'] + ext);
    let name = stem + seq!['.'] + ext;
    lemma_no_char_concat(stem, seq!['.'], '/');
    lemma_no_char_concat(stem + seq!['.'], ext, '/');
    assert(n1 == beside(out, name));
    assert(normalized_output(n1, codec, container, is_audio) == beside(n1, name));
    match parent(out) {
        Some(d) => {
            lemma_parent_shape(out);
            lemma_beside_again(d, name);
        },
        None => {
            lemma_beside_again(Seq::empty(), name);
            assert(join_path(Seq::empty(), name) == name);
        },
    }
}

} // verus!
