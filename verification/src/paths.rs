//! The path model: `/`-separated paths, as the standard library reads them on
//! Unix: separators and `.` components at the end are set aside, a root `/`
//! and a leading `.` stay.
use vstd::prelude::*;
use crate::text::{
    lowercase, last_index, is_last_index, has_char, rindex_of_char, slice, owned, to_lower,
};

verus! {

/// The last component of a path: what follows its last `/`.
pub open spec fn last_component(p: Seq<char>) -> Seq<char> {
    match last_index(p, '/') {
        Some(i) => p.skip(i + 1),
        None => p,
    }
}

/// How much of the start of a path is a root `/` or a leading `.`
/// component, which trimming never removes.
pub open spec fn floor_len(p: Seq<char>) -> int {
    if p.len() > 0 && p[0] == '/' {
        1
    } else if p.len() > 0 && p[0] == '.' && (p.len() == 1 || p[1] == '/') {
        1
    } else {
        0
    }
}

/// The path ends with a separator or a `.` component.
pub open spec fn trailing_noise(p: Seq<char>) -> bool {
    p.len() > 0 && (p.last() == '/' || (p.last() == '.' && p.len() >= 2 && p[p.len() - 2] == '/'))
}

/// A path without the separators and `.` components it ends with, as the
/// standard library's components see it: the root and a leading `.` stay.
pub open spec fn trimmed(p: Seq<char>) -> Seq<char>
    decreases p.len(),
{
    if p.len() > floor_len(p) && trailing_noise(p) {
        trimmed(p.drop_last())
    } else {
        p
    }
}

/// The name a trimmed path ends with; none when it ends with `/`, `.` or `..`.
pub open spec fn name_of(t: Seq<char>) -> Option<Seq<char>> {
    let name = last_component(t);
    if name.len() == 0 || name == seq!['.'] || name == seq!['.', '.'] {
        None
    } else {
        Some(name)
    }
}

/// The file name of a path: its last component once trailing separators and
/// `.` components are set aside; none when that is the root, `.` or `..`.
pub open spec fn file_name(p: Seq<char>) -> Option<Seq<char>> {
    name_of(trimmed(p))
}

/// A file name split at its last dot into stem and extension; a name whose
/// only dot is its first character has no extension.
pub open spec fn split_extension(name: Seq<char>) -> (Seq<char>, Option<Seq<char>>) {
    match last_index(name, '.') {
        Some(i) => if i > 0 {
            (name.take(i), Some(name.skip(i + 1)))
        } else {
            (name, None)
        },
        None => (name, None),
    }
}

/// The extension of a path's file name.
pub open spec fn extension(p: Seq<char>) -> Option<Seq<char>> {
    match file_name(p) {
        Some(n) => split_extension(n).1,
        None => None,
    }
}

/// The stem of a path's file name.
pub open spec fn file_stem(p: Seq<char>) -> Option<Seq<char>> {
    match file_name(p) {
        Some(n) => Some(split_extension(n).0),
        None => None,
    }
}

/// The directory a path lies in: the path without its last component and
/// the separators and `.` components before it; none for the empty path and
/// the root; the empty path for a bare name or `.`.
pub open spec fn parent(p: Seq<char>) -> Option<Seq<char>> {
    let t = trimmed(p);
    if t.len() == 0 || t == seq!['/'] {
        None
    } else if t == seq!['.'] {
        Some(Seq::empty())
    } else {
        match last_index(t, '/') {
            None => Some(Seq::empty()),
            Some(i) => Some(trimmed(t.take(i + 1))),
        }
    }
}

/// `name` placed in the directory `dir`.
pub open spec fn join_path(dir: Seq<char>, name: Seq<char>) -> Seq<char> {
    if dir.len() == 0 {
        name
    } else if dir.last() == '/' {
        dir + name
    } else {
        dir + seq!['/'] + name
    }
}

/// The extension of a path in lower case, empty when it has none.
pub open spec fn extension_lower(p: Seq<char>) -> Seq<char> {
    lowercase(
        match extension(p) {
            Some(e) => e,
            None => Seq::empty(),
        },
    )
}

/// One step of trimming keeps what trimming never removes.
proof fn lemma_floor_drop(q: Seq<char>)
    requires
        q.len() > floor_len(q),
        trailing_noise(q),
    ensures
        floor_len(q.drop_last()) == floor_len(q),
{
    let r = q.drop_last();
    if r.len() > 0 {
        assert(r[0] == q[0]);
    }
    if r.len() > 1 {
        assert(r[1] == q[1]);
    }
}

/// Trimming keeps a prefix that still holds the root or leading `.`, and
/// ends with neither a separator nor a `.` component beyond them; trimming
/// again changes nothing.
pub proof fn lemma_trimmed(p: Seq<char>)
    ensures
        trimmed(p).len() <= p.len(),
        trimmed(p) == p.take(trimmed(p).len() as int),
        floor_len(trimmed(p)) == floor_len(p),
        trimmed(p).len() >= floor_len(p),
        !(trimmed(p).len() > floor_len(trimmed(p)) && trailing_noise(trimmed(p))),
        trimmed(trimmed(p)) == trimmed(p),
    decreases p.len(),
{
    if p.len() > floor_len(p) && trailing_noise(p) {
        lemma_floor_drop(p);
        lemma_trimmed(p.drop_last());
        let t = trimmed(p.drop_last());
        assert(p.drop_last().take(t.len() as int) =~= p.take(t.len() as int));
    } else {
        assert(p.take(p.len() as int) =~= p);
        assert(floor_len(p) <= p.len() as int);
    }
}

/// A path that does not end with a separator or `.` component is its own trimming.
pub proof fn lemma_trimmed_plain(p: Seq<char>)
    requires
        !trailing_noise(p),
    ensures
        trimmed(p) == p,
{
}

/// The path without the separators and `.` components it ends with.
pub fn trim_path(p: &str) -> (r: String)
    ensures
        r@ == trimmed(p@),
{
    let n = p.unicode_len();
    let floor: usize = if n > 0 && p.get_char(0) == '/' {
        1
    } else if n > 0 && p.get_char(0) == '.' && (n == 1 || p.get_char(1) == '/') {
        1
    } else {
        0
    };
    assert(p@.take(n as int) =~= p@);
    let mut k = n;
    while k > floor && (p.get_char(k - 1) == '/' || (p.get_char(k - 1) == '.' && k >= 2 && p.get_char(k - 2) == '/'))
        invariant
            n == p@.len(),
            floor <= k <= n,
            floor == floor_len(p@),
            floor_len(p@.take(k as int)) == floor,
            trimmed(p@.take(k as int)) == trimmed(p@),
        decreases k,
    {
        let ghost q = p@.take(k as int);
        assert(q.last() == p@[k - 1]);
        if k >= 2 {
            assert(q[k - 2] == p@[k - 2]);
        }
        assert(trailing_noise(q));
        assert(q.len() > floor_len(q));
        proof {
            lemma_floor_drop(q);
        }
        assert(q.drop_last() =~= p@.take(k - 1));
        k = k - 1;
    }
    let ghost q = p@.take(k as int);
    if k > 0 {
        assert(q.last() == p@[k - 1]);
    }
    if k >= 2 {
        assert(q[k - 2] == p@[k - 2]);
    }
    slice(p, 0, k)
}

/// The name a trimmed path ends with.
fn name_in(t: &str) -> (r: Option<String>)
    ensures
        r matches Some(n) ==> name_of(t@) == Some(n@),
        r is None ==> name_of(t@) is None,
{
    let n = t.unicode_len();
    let name = match rindex_of_char(t, '/') {
        Some(i) => slice(t, i + 1, n),
        None => owned(t),
    };
    assert(name@ =~= last_component(t@));
    let k = name.as_str().unicode_len();
    if k == 0 {
        return None;
    }
    let dot = name.as_str().get_char(0) == '.';
    if k == 1 && dot {
        assert(name@ =~= seq!['.']);
        return None;
    }
    if k == 2 && dot && name.as_str().get_char(1) == '.' {
        assert(name@ =~= seq!['.', '.']);
        return None;
    }
    proof {
        if name@ == seq!['.'] {
            assert(name@[0] == '.');
        }
        if name@ == seq!['.', '.'] {
            assert(name@[0] == '.' && name@[1] == '.');
        }
    }
    Some(name)
}

/// The file name of a path.
pub fn path_file_name(p: &str) -> (r: Option<String>)
    ensures
        r matches Some(n) ==> file_name(p@) == Some(n@),
        r is None ==> file_name(p@) is None,
{
    let t = trim_path(p);
    name_in(t.as_str())
}

/// A file name split into stem and extension.
pub fn split_name(name: &str) -> (r: (String, Option<String>))
    ensures
        r.0@ == split_extension(name@).0,
        r.1 matches Some(e) ==> split_extension(name@).1 == Some(e@),
        r.1 is None ==> split_extension(name@).1 is None,
{
    let n = name.unicode_len();
    match rindex_of_char(name, '.') {
        Some(i) => {
            if i > 0 {
                (slice(name, 0, i), Some(slice(name, i + 1, n)))
            } else {
                (owned(name), None)
            }
        },
        None => (owned(name), None),
    }
}

/// The extension of a path.
pub fn path_extension(p: &str) -> (r: Option<String>)
    ensures
        r matches Some(e) ==> extension(p@) == Some(e@),
        r is None ==> extension(p@) is None,
{
    match path_file_name(p) {
        Some(n) => split_name(n.as_str()).1,
        None => None,
    }
}

/// The stem of a path's file name.
pub fn path_file_stem(p: &str) -> (r: Option<String>)
    ensures
        r matches Some(s) ==> file_stem(p@) == Some(s@),
        r is None ==> file_stem(p@) is None,
{
    match path_file_name(p) {
        Some(n) => Some(split_name(n.as_str()).0),
        None => None,
    }
}

/// The directory a path lies in.
pub fn path_parent(p: &str) -> (r: Option<String>)
    ensures
        r matches Some(d) ==> parent(p@) == Some(d@),
        r is None ==> parent(p@) is None,
{
    let t = trim_path(p);
    let ts = t.as_str();
    let n = ts.unicode_len();
    if n == 0 {
        return None;
    }
    if n == 1 && ts.get_char(0) == '/' {
        assert(ts@ =~= seq!['/']);
        return None;
    }
    if n == 1 && ts.get_char(0) == '.' {
        assert(ts@ =~= seq!['.']);
        return Some(String::new());
    }
    proof {
        if ts@ == seq!['/'] {
            assert(ts@[0] == '/');
        }
        if ts@ == seq!['.'] {
            assert(ts@[0] == '.');
        }
    }
    match rindex_of_char(ts, '/') {
        None => Some(String::new()),
        Some(i) => {
            let head = slice(ts, 0, i + 1);
            assert(head@ =~= ts@.take(i + 1));
            Some(trim_path(head.as_str()))
        },
    }
}

/// `name` placed in the directory `dir`.
pub fn path_join(dir: &str, name: &str) -> (r: String)
    ensures
        r@ == join_path(dir@, name@),
{
    let n = dir.unicode_len();
    if n == 0 {
        owned(name)
    } else if dir.get_char(n - 1) == '/' {
        let mut r = owned(dir);
        r.append(name);
        r
    } else {
        proof {
            reveal_strlit("/");
        }
        let mut r = owned(dir);
        r.append("/");
        r.append(name);
        r
    }
}

/// The extension of a path in lower case, empty when it has none.
pub fn path_extension_lower(p: &str) -> (r: String)
    ensures
        r@ == extension_lower(p@),
{
    match path_extension(p) {
        Some(e) => to_lower(e.as_str()),
        None => {
            let empty = String::new();
            to_lower(empty.as_str())
        },
    }
}

// ----- laws of the path model -----

/// The last `c` of `p + q`, where `p` ends with `c` and `q` holds none, is
/// the end of `p`.
pub proof fn lemma_last_index_at_join(p: Seq<char>, q: Seq<char>, c: char)
    requires
        p.len() > 0,
        p.last() == c,
        !has_char(q, c),
    ensures
        last_index(p + q, c) == Some(p.len() - 1),
{
    let s = p + q;
    let i = p.len() - 1;
    assert forall|j: int| i < j < s.len() implies s[j] != c by {
        assert(s[j] == q[j - p.len()]);
    }
    assert(is_last_index(s, c, i));
    assert(has_char(s, c));
    let k = choose|k: int| is_last_index(s, c, k);
    assert(is_last_index(s, c, k));
    if k < i {
        assert(s[i] == c);
    } else if k > i {
        assert(s[k] == c);
    }
}

/// A text without `c` has no last `c`.
pub proof fn lemma_no_last_index(q: Seq<char>, c: char)
    requires
        !has_char(q, c),
    ensures
        last_index(q, c) is None,
{
}

/// A name without `/` placed in any directory ends the result, which has
/// nothing to trim.
pub proof fn lemma_join_is_trimmed(dir: Seq<char>, name: Seq<char>)
    requires
        name.len() > 0,
        !has_char(name, '/'),
        name != seq!['.'],
    ensures
        trimmed(join_path(dir, name)) == join_path(dir, name),
{
    let j = join_path(dir, name);
    if dir.len() == 0 {
    } else if dir.last() == '/' {
        assert(j == dir + name);
    } else {
        assert(j == dir + seq!['/'] + name);
    }
    assert(j.len() >= name.len());
    assert(j.last() == name.last());
    assert(name.last() == name[name.len() - 1]);
    if name.len() >= 2 {
        assert(j[j.len() - 2] == name[name.len() - 2]);
    } else {
        assert(name =~= seq![name[0]]);
    }
    lemma_trimmed_plain(j);
}

/// A name without `/` placed in any directory is the file name of the result.
pub proof fn lemma_file_name_of_join(dir: Seq<char>, name: Seq<char>)
    requires
        name.len() > 0,
        !has_char(name, '/'),
        name != seq!['.'],
        name != seq!['.', '.'],
    ensures
        file_name(join_path(dir, name)) == Some(name),
{
    lemma_join_is_trimmed(dir, name);
    if dir.len() == 0 {
        lemma_no_last_index(name, '/');
    } else if dir.last() == '/' {
        lemma_last_index_at_join(dir, name, '/');
        assert((dir + name).skip(dir.len() as int) =~= name);
    } else {
        let d = dir + seq!['/'];
        lemma_last_index_at_join(d, name, '/');
        assert(dir + seq!['/'] + name == d + name);
        assert((d + name).skip(d.len() as int) =~= name);
    }
}

/// A directory is its own trimming, and is empty, the root, or does not end with `/`.
pub proof fn lemma_parent_shape(p: Seq<char>)
    ensures
        parent(p) matches Some(d) ==> trimmed(d) == d && (d.len() == 0 || d == seq!['/'] || d.last() != '/'),
{
    let t = trimmed(p);
    if t.len() > 0 && t != seq!['/'] && t != seq!['.'] && has_char(t, '/') {
        let w = choose|w: int| 0 <= w < t.len() && t[w] == '/';
        lemma_last_index_exists(t, '/', w);
        let i = last_index(t, '/')->0;
        let x = t.take(i + 1);
        lemma_trimmed(x);
        let d = trimmed(x);
        assert(parent(p) == Some(d));
        if d.len() > 0 && d != seq!['/'] && d.last() == '/' {
            assert(trailing_noise(d));
            if d.len() == 1 {
                assert(d =~= seq!['/']);
            }
            assert(d.len() > floor_len(d));
        }
    }
}

/// Where `c` occurs at `w`, it has a last occurrence, at or after `w`.
pub proof fn lemma_last_index_exists(s: Seq<char>, c: char, w: int)
    requires
        0 <= w < s.len(),
        s[w] == c,
    ensures
        exists|i: int| is_last_index(s, c, i),
        last_index(s, c) matches Some(i) && is_last_index(s, c, i) && w <= i,
    decreases s.len() - w,
{
    if forall|j: int| w < j < s.len() ==> s[j] != c {
        assert(is_last_index(s, c, w));
    } else {
        let u = choose|j: int| w < j < s.len() && s[j] == c;
        lemma_last_index_exists(s, c, u);
    }
    let k = choose|k: int| is_last_index(s, c, k);
    assert(is_last_index(s, c, k));
    if k < w {
        assert(s[w] == c);
    }
}

/// A file name never holds `/`.
pub proof fn lemma_file_name_has_no_slash(p: Seq<char>)
    ensures
        file_name(p) matches Some(n) ==> !has_char(n, '/') && n.len() > 0,
{
    let t = trimmed(p);
    match last_index(t, '/') {
        Some(i) => {
            let w = choose|w: int| 0 <= w < t.len() && t[w] == '/';
            lemma_last_index_exists(t, '/', w);
            let n = t.skip(i + 1);
            assert forall|j: int| 0 <= j < n.len() implies n[j] != '/' by {
                assert(n[j] == t[i + 1 + j]);
            }
        },
        None => {},
    }
}

/// The stem of a name that is a stem, a dot and an extension without dots.
pub proof fn lemma_split_stem_and_extension(stem: Seq<char>, ext: Seq<char>)
    requires
        stem.len() > 0,
        !has_char(ext, '.'),
    ensures
        split_extension(stem + seq!['.'] + ext) == (stem, Some(ext)),
{
    let d = stem + seq!['.'];
    lemma_last_index_at_join(d, ext, '.');
    assert(stem + seq!['.'] + ext == d + ext);
    assert((d + ext).take(stem.len() as int) =~= stem);
    assert((d + ext).skip(stem.len() as int + 1) =~= ext);
}

/// A file stem is not empty and holds no `/`.
pub proof fn lemma_file_stem_shape(p: Seq<char>)
    ensures
        file_stem(p) matches Some(s) ==> s.len() > 0 && !has_char(s, '/'),
{
    lemma_file_name_has_no_slash(p);
    match file_name(p) {
        Some(n) => {
            match last_index(n, '.') {
                Some(i) => {
                    let w = choose|w: int| 0 <= w < n.len() && n[w] == '.';
                    lemma_last_index_exists(n, '.', w);
                    if i > 0 {
                        let st = n.take(i);
                        assert forall|j: int| 0 <= j < st.len() implies st[j] != '/' by {
                            assert(st[j] == n[j]);
                        }
                    }
                },
                None => {},
            }
        },
        None => {},
    }
}

} // verus!
