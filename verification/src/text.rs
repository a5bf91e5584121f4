//! Text utilities over the character sequences that strings stand for.
use vstd::prelude::*;

verus! {

/// The character sequences of a sequence of strings.
pub open spec fn views(v: Seq<String>) -> Seq<Seq<char>> {
    v.map_values(|s: String| s@)
}

/// The parts joined with `sep` between each two neighbours.
pub open spec fn join(parts: Seq<Seq<char>>, sep: Seq<char>) -> Seq<char>
    decreases parts.len(),
{
    if parts.len() == 0 {
        Seq::empty()
    } else if parts.len() == 1 {
        parts[0]
    } else {
        join(parts.drop_last(), sep) + sep + parts.last()
    }
}

/// The decimal writing of an integer, with a minus sign when it is negative.
pub open spec fn signed_decimal(i: int) -> Seq<char> {
    if i < 0 {
        seq!['-'] + decimal((-i) as nat)
    } else {
        decimal(i as nat)
    }
}

/// The decimal writing of `i`.
pub fn signed_text(i: i32) -> (r: String)
    ensures
        r@ == signed_decimal(i as int),
{
    proof {
        reveal_strlit("-");
    }
    if i < 0 {
        let m: i64 = -(i as i64);
        let digits = decimal_text(m as u64);
        let mut r = owned("-");
        r.append(digits.as_str());
        r
    } else {
        decimal_text(i as u64)
    }
}

/// A character is an ASCII digit.
pub open spec fn is_digit(c: char) -> bool {
    '0' <= c && c <= '9'
}

/// The value of a run of ASCII digits.
pub open spec fn digits_value(s: Seq<char>) -> nat
    decreases s.len(),
{
    if s.len() == 0 {
        0
    } else {
        digits_value(s.drop_last()) * 10 + ((s.last() as int - '0' as int) as nat)
    }
}

/// The digits of a number as `u32::from_str` reads it: all but an optional
/// leading `+`, which must be at least one digit.
pub open spec fn number_digits(s: Seq<char>) -> Seq<char> {
    if s.len() > 0 && s[0] == '+' { s.skip(1) } else { s }
}

/// The number a text holds as `u32::from_str` reads it: an optional `+`,
/// then one or more ASCII digits whose value fits in a `u32`.
pub open spec fn parsed_u32(s: Seq<char>) -> Option<u32> {
    let d = number_digits(s);
    if d.len() > 0 && (forall|i: int| 0 <= i < d.len() ==> is_digit(#[trigger] d[i]))
        && digits_value(d) <= u32::MAX {
        Some(digits_value(d) as u32)
    } else {
        None
    }
}

/// The value of a run of digits never shrinks as digits are added.
proof fn lemma_digits_value_grows(s: Seq<char>, k: int)
    requires
        0 <= k <= s.len(),
        forall|i: int| 0 <= i < s.len() ==> is_digit(#[trigger] s[i]),
    ensures
        digits_value(s.take(k)) <= digits_value(s),
    decreases s.len() - k,
{
    if k < s.len() {
        lemma_digits_value_grows(s, k + 1);
        assert(s.take(k + 1).drop_last() =~= s.take(k));
        assert(digits_value(s.take(k + 1)) == digits_value(s.take(k)) * 10
            + ((s.take(k + 1).last() as int - '0' as int) as nat));
    } else {
        assert(s.take(k) =~= s);
    }
}

/// The number a text holds, read as `u32::from_str` reads it.
pub fn parse_u32(s: &str) -> (r: Option<u32>)
    ensures
        r == parsed_u32(s@),
{
    let n = s.unicode_len();
    let start: usize = if n > 0 && s.get_char(0) == '+' { 1 } else { 0 };
    let ghost d = number_digits(s@);
    assert(d =~= s@.skip(start as int));
    if start >= n {
        return None;
    }
    let mut v: u64 = 0;
    let mut i = start;
    while i < n
        invariant
            start <= i <= n,
            n == s@.len(),
            start < n,
            d == s@.skip(start as int),
            d == number_digits(s@),
            forall|j: int| 0 <= j < i - start ==> is_digit(#[trigger] d[j]),
            v == digits_value(d.take(i - start)),
            v <= u32::MAX,
        decreases n - i,
    {
        let c = s.get_char(i);
        assert(c == d[i - start]);
        if !('0' <= c && c <= '9') {
            assert(!is_digit(d[i - start]));
            return None;
        }
        let digit = (c as u32 - '0' as u32) as u64;
        assert(d.take(i + 1 - start).drop_last() =~= d.take(i - start));
        assert(d.take(i + 1 - start).last() == c);
        assert(digits_value(d.take(i + 1 - start)) == v * 10 + digit);
        let next = v * 10 + digit;
        if next > 4294967295u64 {
            proof {
                if forall|j: int| 0 <= j < d.len() ==> is_digit(#[trigger] d[j]) {
                    lemma_digits_value_grows(d, i + 1 - start);
                }
            }
            return None;
        }
        v = next;
        i = i + 1;
    }
    assert(d.take(n - start) =~= d);
    Some(v as u32)
}

/// The text wrapped in double quotes.
pub open spec fn quoted(s: Seq<char>) -> Seq<char> {
    seq!['"'] + s + seq!['"']
}

/// The decimal digit for `d < 10`.
pub open spec fn digit(d: nat) -> char {
    if d == 0 { '0' }
    else if d == 1 { '1' }
    else if d == 2 { '2' }
    else if d == 3 { '3' }
    else if d == 4 { '4' }
    else if d == 5 { '5' }
    else if d == 6 { '6' }
    else if d == 7 { '7' }
    else if d == 8 { '8' }
    else { '9' }
}

/// The decimal writing of a natural number, without leading zeros.
pub open spec fn decimal(n: nat) -> Seq<char>
    decreases n,
{
    if n < 10 {
        seq![digit(n)]
    } else {
        decimal(n / 10).push(digit(n % 10))
    }
}

/// `p` occurs in `s` starting at index `i`.
pub open spec fn occurs_at(s: Seq<char>, i: int, p: Seq<char>) -> bool {
    0 <= i && i + p.len() <= s.len() && s.subrange(i, i + p.len()) == p
}

/// `p` occurs somewhere in `s`.
pub open spec fn contains(s: Seq<char>, p: Seq<char>) -> bool {
    exists|i: int| occurs_at(s, i, p)
}

/// `i` is the first index at or after `from` where `p` occurs in `s`.
pub open spec fn first_occurrence_from(s: Seq<char>, p: Seq<char>, from: int, i: int) -> bool {
    from <= i && occurs_at(s, i, p) && forall|j: int| from <= j < i ==> !occurs_at(s, j, p)
}

/// The index of the first occurrence of `p` in `s`, if any.
pub open spec fn find(s: Seq<char>, p: Seq<char>) -> Option<int> {
    if contains(s, p) {
        Some(choose|i: int| first_occurrence_from(s, p, 0, i))
    } else {
        None
    }
}

/// `s` with each non-overlapping occurrence of `pat`, scanning from the left, replaced by `rep`.
pub open spec fn replace_all(s: Seq<char>, pat: Seq<char>, rep: Seq<char>) -> Seq<char>
    recommends
        pat.len() > 0,
    decreases s.len(),
{
    if pat.len() == 0 || s.len() < pat.len() {
        s
    } else if s.take(pat.len() as int) == pat {
        rep + replace_all(s.skip(pat.len() as int), pat, rep)
    } else {
        seq![s[0]] + replace_all(s.skip(1), pat, rep)
    }
}

/// `c` has the Unicode White_Space property.
pub open spec fn is_space(c: char) -> bool {
    ||| c == '\t'
    ||| c == '\n'
    ||| c == '\u{0B}'
    ||| c == '\u{0C}'
    ||| c == '\r'
    ||| c == ' '
    ||| c == '\u{85}'
    ||| c == '\u{A0}'
    ||| c == '\u{1680}'
    ||| ('\u{2000}' as u32 <= c as u32 && c as u32 <= '\u{200A}' as u32)
    ||| c == '\u{2028}'
    ||| c == '\u{2029}'
    ||| c == '\u{202F}'
    ||| c == '\u{205F}'
    ||| c == '\u{3000}'
}

/// The length of the run of non-space characters that `s` starts with.
pub open spec fn word_len(s: Seq<char>) -> nat
    decreases s.len(),
{
    if s.len() == 0 || is_space(s[0]) {
        0
    } else {
        1 + word_len(s.drop_first())
    }
}

/// The maximal runs of non-space characters of `s`, in order.
pub open spec fn words(s: Seq<char>) -> Seq<Seq<char>>
    decreases s.len(),
{
    if s.len() == 0 {
        Seq::empty()
    } else if is_space(s[0]) {
        words(s.drop_first())
    } else {
        proof {
            lemma_word_len_bound(s);
        }
        seq![s.take(word_len(s) as int)] + words(s.skip(word_len(s) as int))
    }
}

/// A run of non-space characters fits in the text.
pub proof fn lemma_word_len_bound(s: Seq<char>)
    ensures
        word_len(s) <= s.len(),
    decreases s.len(),
{
    if s.len() > 0 && !is_space(s[0]) {
        lemma_word_len_bound(s.drop_first());
    }
}

/// The number of space characters that `s` starts with.
pub open spec fn lead_spaces(s: Seq<char>) -> nat
    decreases s.len(),
{
    if s.len() == 0 || !is_space(s[0]) {
        0
    } else {
        1 + lead_spaces(s.drop_first())
    }
}

/// The number of space characters that `s` ends with.
pub open spec fn trail_spaces(s: Seq<char>) -> nat
    decreases s.len(),
{
    if s.len() == 0 || !is_space(s.last()) {
        0
    } else {
        1 + trail_spaces(s.drop_last())
    }
}

/// `s` without its leading and trailing white space.
pub open spec fn trim(s: Seq<char>) -> Seq<char> {
    if lead_spaces(s) == s.len() {
        Seq::empty()
    } else {
        s.subrange(lead_spaces(s) as int, s.len() - trail_spaces(s))
    }
}

/// The case-folded form of a text as the standard library lowercases it.
pub uninterp spec fn lowercase(s: Seq<char>) -> Seq<char>;

/// Lowercases a text with `str::to_lowercase`.
///
/// The contract claims that the result is a function of the text alone, named
/// `lowercase`; the Unicode case tables it follows are not written out.
#[verifier::external_body]
pub fn to_lower(s: &str) -> (r: String)
    ensures
        r@ == lowercase(s@),
{
    s.to_lowercase()
}

/// The upper-case form of a text as the standard library writes it.
pub uninterp spec fn uppercase(s: Seq<char>) -> Seq<char>;

/// Uppercases a text with `str::to_uppercase`.
///
/// The contract claims that the result is a function of the text alone, named
/// `uppercase`; the Unicode case tables it follows are not written out.
#[verifier::external_body]
pub fn to_upper(s: &str) -> (r: String)
    ensures
        r@ == uppercase(s@),
{
    s.to_uppercase()
}

/// A new string with the characters of `s`.
pub fn owned(s: &str) -> (r: String)
    ensures
        r@ == s@,
{
    String::from_str(s)
}

/// The characters of `s` from `from` up to `to`.
pub fn slice(s: &str, from: usize, to: usize) -> (r: String)
    requires
        from <= to <= s@.len(),
    ensures
        r@ == s@.subrange(from as int, to as int),
{
    String::from_str(s.substring_char(from, to))
}

/// Whether `p` occurs in `s` at index `i`.
pub fn matches_at(s: &str, i: usize, p: &str) -> (r: bool)
    requires
        s@.len() <= usize::MAX,
    ensures
        r == occurs_at(s@, i as int, p@),
{
    let n = s.unicode_len();
    let m = p.unicode_len();
    if i > n || m > n - i {
        return false;
    }
    let mut k: usize = 0;
    while k < m
        invariant
            n == s@.len(),
            m == p@.len(),
            i + m <= n,
            k <= m,
            forall|j: int| 0 <= j < k ==> s@[i + j] == p@[j],
        decreases m - k,
    {
        if s.get_char(i + k) != p.get_char(k) {
            assert(s@.subrange(i as int, i + m)[k as int] != p@[k as int]);
            return false;
        }
        k = k + 1;
    }
    assert(s@.subrange(i as int, i + m) =~= p@);
    true
}

/// Whether `p` occurs in `s`, for a text of any length.
pub fn contains_text(s: &str, p: &str) -> (r: bool)
    ensures
        r == contains(s@, p@),
{
    let n = s.unicode_len();
    let m = p.unicode_len();
    if m == 0 {
        assert(s@.subrange(0, 0) =~= p@);
        assert(occurs_at(s@, 0, p@));
        return true;
    }
    if m > n {
        return false;
    }
    let mut i: usize = 0;
    while i <= n - m
        invariant
            n == s@.len(),
            m == p@.len(),
            0 < m <= n,
            i <= n - m + 1,
            forall|j: int| 0 <= j < i ==> !occurs_at(s@, j, p@),
        decreases n - m + 1 - i,
    {
        if matches_at(s, i, p) {
            return true;
        }
        i = i + 1;
    }
    false
}

/// Whether `s` starts with `p`.
pub fn has_prefix(s: &str, p: &str) -> (r: bool)
    ensures
        r == occurs_at(s@, 0, p@),
{
    let _n = s.unicode_len();
    matches_at(s, 0, p)
}

/// The first index at or after `from` where `p` occurs in `s`.
pub fn find_from(s: &str, p: &str, from: usize) -> (r: Option<usize>)
    requires
        s@.len() < usize::MAX,
    ensures
        match r {
            Some(i) => first_occurrence_from(s@, p@, from as int, i as int),
            None => forall|j: int| from <= j ==> !occurs_at(s@, j, p@),
        },
{
    let n = s.unicode_len();
    let mut i = from;
    while i <= n
        invariant
            n == s@.len(),
            n < usize::MAX,
            from <= i,
            forall|j: int| from <= j < i ==> !occurs_at(s@, j, p@),
        decreases n + 1 - i,
    {
        if matches_at(s, i, p) {
            return Some(i);
        }
        i = i + 1;
    }
    None
}

/// Whether `p` occurs in `s`.
pub fn has(s: &str, p: &str) -> (r: bool)
    requires
        s@.len() < usize::MAX,
    ensures
        r == contains(s@, p@),
{
    match find_from(s, p, 0) {
        Some(i) => true,
        None => false,
    }
}

/// The first index where `p` occurs in `s`.
pub fn find_first(s: &str, p: &str) -> (r: Option<usize>)
    requires
        s@.len() < usize::MAX,
    ensures
        r matches Some(i) ==> find(s@, p@) == Some(i as int) && first_occurrence_from(s@, p@, 0, i as int),
        r is None ==> find(s@, p@) is None,
{
    let r = find_from(s, p, 0);
    match r {
        Some(i) => {
            proof {
                let c = choose|k: int| first_occurrence_from(s@, p@, 0, k);
                assert(first_occurrence_from(s@, p@, 0, c));
                if c < i {
                    assert(!occurs_at(s@, c, p@));
                } else if c > i {
                    assert(!occurs_at(s@, i as int, p@));
                }
            }
            Some(i)
        },
        None => None,
    }
}


/// `i` is the first index of `c` in `s`.
pub open spec fn is_first_index(s: Seq<char>, c: char, i: int) -> bool {
    0 <= i < s.len() && s[i] == c && forall|j: int| 0 <= j < i ==> s[j] != c
}

/// `i` is the last index of `c` in `s`.
pub open spec fn is_last_index(s: Seq<char>, c: char, i: int) -> bool {
    0 <= i < s.len() && s[i] == c && forall|j: int| i < j < s.len() ==> s[j] != c
}

/// `c` occurs in `s`.
pub open spec fn has_char(s: Seq<char>, c: char) -> bool {
    exists|i: int| 0 <= i < s.len() && s[i] == c
}

/// The first index of `c` in `s`.
pub open spec fn first_index(s: Seq<char>, c: char) -> Option<int> {
    if has_char(s, c) {
        Some(choose|i: int| is_first_index(s, c, i))
    } else {
        None
    }
}

/// The last index of `c` in `s`.
pub open spec fn last_index(s: Seq<char>, c: char) -> Option<int> {
    if has_char(s, c) {
        Some(choose|i: int| is_last_index(s, c, i))
    } else {
        None
    }
}

/// The pieces of `s` between the occurrences of `c`, as `str::split` gives them.
pub open spec fn split_char(s: Seq<char>, c: char) -> Seq<Seq<char>>
    decreases s.len(),
{
    match first_index(s, c) {
        Some(i) => if 0 <= i < s.len() {
            seq![s.take(i)] + split_char(s.skip(i + 1), c)
        } else {
            seq![s]
        },
        None => seq![s],
    }
}

/// Splitting yields at least one piece.
pub proof fn lemma_split_char_len(s: Seq<char>, c: char)
    ensures
        split_char(s, c).len() >= 1,
{
}

/// The first index of `c` in `s`.
pub fn index_of_char(s: &str, c: char) -> (r: Option<usize>)
    ensures
        r matches Some(i) ==> first_index(s@, c) == Some(i as int) && is_first_index(s@, c, i as int),
        r is None ==> first_index(s@, c) is None && !has_char(s@, c),
{
    let n = s.unicode_len();
    let mut i: usize = 0;
    while i < n
        invariant
            n == s@.len(),
            i <= n,
            forall|j: int| 0 <= j < i ==> s@[j] != c,
        decreases n - i,
    {
        if s.get_char(i) == c {
            proof {
                assert(is_first_index(s@, c, i as int));
                let k = choose|k: int| is_first_index(s@, c, k);
                assert(is_first_index(s@, c, k));
                if k < i {
                } else if k > i {
                    assert(s@[i as int] != c);
                }
            }
            return Some(i);
        }
        i = i + 1;
    }
    None
}

/// The last index of `c` in `s`.
pub fn rindex_of_char(s: &str, c: char) -> (r: Option<usize>)
    ensures
        r matches Some(i) ==> last_index(s@, c) == Some(i as int) && is_last_index(s@, c, i as int),
        r is None ==> last_index(s@, c) is None && !has_char(s@, c),
{
    let n = s.unicode_len();
    let mut i: usize = n;
    while i > 0
        invariant
            n == s@.len(),
            i <= n,
            forall|j: int| i <= j < n ==> s@[j] != c,
        decreases i,
    {
        if s.get_char(i - 1) == c {
            proof {
                let w = (i - 1) as int;
                assert(is_last_index(s@, c, w));
                let k = choose|k: int| is_last_index(s@, c, k);
                assert(is_last_index(s@, c, k));
                if k < w {
                    assert(s@[w] != c);
                } else if k > w {
                }
            }
            return Some(i - 1);
        }
        i = i - 1;
    }
    None
}

/// The pieces of `s` between the occurrences of `c`.
pub fn split_at_char(s: &str, c: char) -> (r: Vec<String>)
    ensures
        views(r@) == split_char(s@, c),
{
    let mut pieces: Vec<String> = Vec::new();
    let mut rest = owned(s);
    loop
        invariant
            views(pieces@) + split_char(rest@, c) == split_char(s@, c),
        decreases rest@.len(),
    {
        let n = rest.as_str().unicode_len();
        match index_of_char(rest.as_str(), c) {
            None => {
                assert(split_char(rest@, c) =~= seq![rest@]);
                let ghost before = views(pieces@);
                pieces.push(rest);
                assert(views(pieces@) =~= before + seq![split_char(s@, c).last()]);
                assert(views(pieces@) =~= split_char(s@, c));
                return pieces;
            },
            Some(i) => {
                let head = slice(rest.as_str(), 0, i);
                let tail = slice(rest.as_str(), i + 1, n);
                assert(head@ =~= rest@.take(i as int));
                assert(tail@ =~= rest@.skip(i + 1));
                let ghost before = views(pieces@);
                pieces.push(head);
                assert(views(pieces@) =~= before + seq![head@]);
                rest = tail;
            },
        }
    }
}

/// The lines of `s`: its pieces between line feeds.
pub fn split_lines(s: &str) -> (r: Vec<String>)
    ensures
        views(r@) == split_char(s@, '\n'),
{
    split_at_char(s, '\n')
}

/// The first piece of `s` split at `c`, and the second piece if there is one.
pub fn split_two(s: &str, c: char) -> (r: (String, Option<String>))
    ensures
        r.0@ == split_char(s@, c)[0],
        r.1 is Some <==> split_char(s@, c).len() >= 2,
        r.1 matches Some(t) ==> t@ == split_char(s@, c)[1],
{
    let n = s.unicode_len();
    match index_of_char(s, c) {
        None => {
            assert(split_char(s@, c) =~= seq![s@]);
            (owned(s), None)
        },
        Some(i) => {
            let rest = s.substring_char(i + 1, n);
            assert(rest@ =~= s@.skip(i + 1));
            let ghost tail = split_char(rest@, c);
            assert(split_char(s@, c) == seq![s@.take(i as int)] + tail);
            assert(tail.len() >= 1);
            assert(split_char(s@, c)[1] == tail[0]);
            let first = slice(s, 0, i);
            assert(first@ =~= s@.take(i as int));
            let second = match index_of_char(rest, c) {
                None => {
                    assert(split_char(rest@, c) =~= seq![rest@]);
                    owned(rest)
                },
                Some(j) => {
                    let m = rest.unicode_len();
                    let t = slice(rest, 0, j);
                    assert(t@ =~= rest@.take(j as int));
                    t
                },
            };
            (first, Some(second))
        },
    }
}

/// The parts joined with `sep`.
pub fn join_strings(parts: &Vec<String>, sep: &str) -> (r: String)
    ensures
        r@ == join(views(parts@), sep@),
{
    let mut res = String::new();
    let ghost all = views(parts@);
    let mut i: usize = 0;
    while i < parts.len()
        invariant
            all == views(parts@),
            i <= parts.len(),
            res@ == join(all.take(i as int), sep@),
        decreases parts.len() - i,
    {
        assert(all.take(i + 1).drop_last() =~= all.take(i as int));
        if i != 0 {
            res.append(sep);
        } else {
            assert(all.take(0) =~= Seq::<Seq<char>>::empty());
        }
        res.append(parts[i].as_str());
        i = i + 1;
    }
    assert(all.take(parts.len() as int) =~= all);
    res
}

/// The text of a decimal digit.
fn digit_text(d: u64) -> (r: &'static str)
    requires
        d < 10,
    ensures
        r@ == seq![digit(d as nat)],
{
    proof {
        reveal_strlit("0");
        reveal_strlit("1");
        reveal_strlit("2");
        reveal_strlit("3");
        reveal_strlit("4");
        reveal_strlit("5");
        reveal_strlit("6");
        reveal_strlit("7");
        reveal_strlit("8");
        reveal_strlit("9");
    }
    if d == 0 { "0" }
    else if d == 1 { "1" }
    else if d == 2 { "2" }
    else if d == 3 { "3" }
    else if d == 4 { "4" }
    else if d == 5 { "5" }
    else if d == 6 { "6" }
    else if d == 7 { "7" }
    else if d == 8 { "8" }
    else { "9" }
}

/// The decimal writing of `n`.
pub fn decimal_text(n: u64) -> (r: String)
    ensures
        r@ == decimal(n as nat),
    decreases n,
{
    if n < 10 {
        owned(digit_text(n))
    } else {
        let mut s = decimal_text(n / 10);
        s.append(digit_text(n % 10));
        s
    }
}

/// The text wrapped in double quotes.
pub fn quote(s: &str) -> (r: String)
    ensures
        r@ == quoted(s@),
{
    proof {
        reveal_strlit("\"");
    }
    let mut r = owned("\"");
    r.append(s);
    r.append("\"");
    r
}

/// `str::replace`: each non-overlapping occurrence of `pat`, from the left, replaced by `rep`.
pub fn replace_text(s: &str, pat: &str, rep: &str) -> (r: String)
    requires
        pat@.len() > 0,
    ensures
        r@ == replace_all(s@, pat@, rep@),
{
    let n = s.unicode_len();
    let m = pat.unicode_len();
    let mut res = String::new();
    let mut i: usize = 0;
    assert(s@.skip(0) =~= s@);
    while i < n
        invariant
            n == s@.len(),
            m == pat@.len(),
            m > 0,
            i <= n,
            res@ + replace_all(s@.skip(i as int), pat@, rep@) == replace_all(s@, pat@, rep@),
        decreases n - i,
    {
        let ghost t = s@.skip(i as int);
        if n - i < m {
            let tail = s.substring_char(i, n);
            assert(tail@ =~= t);
            res.append(tail);
            assert(replace_all(t, pat@, rep@) == t);
            assert(s@.skip(n as int) =~= Seq::<char>::empty());
            assert(replace_all(s@.skip(n as int), pat@, rep@) =~= Seq::<char>::empty());
            assert(res@ =~= res@ + replace_all(s@.skip(n as int), pat@, rep@));
            i = n;
        } else if matches_at(s, i, pat) {
            assert(t.take(m as int) =~= s@.subrange(i as int, i + m));
            assert(t.skip(m as int) =~= s@.skip(i + m));
            res.append(rep);
            i = i + m;
        } else {
            assert(t.take(m as int) =~= s@.subrange(i as int, i + m));
            assert(t.skip(1) =~= s@.skip(i + 1));
            let c = s.substring_char(i, i + 1);
            assert(c@ =~= seq![t[0]]);
            res.append(c);
            i = i + 1;
        }
    }
    assert(s@.skip(n as int) =~= Seq::<char>::empty());
    res
}

/// Whether `c` is white space in the Unicode sense.
pub fn is_space_char(c: char) -> (r: bool)
    ensures
        r == is_space(c),
{
    c == '\t' || c == '\n' || c == '\u{0B}' || c == '\u{0C}' || c == '\r' || c == ' '
        || c == '\u{85}' || c == '\u{A0}' || c == '\u{1680}'
        || ('\u{2000}' <= c && c <= '\u{200A}')
        || c == '\u{2028}' || c == '\u{2029}' || c == '\u{202F}' || c == '\u{205F}'
        || c == '\u{3000}'
}

/// A run of `j` non-space characters ended by a space or by the end.
proof fn lemma_word_len(s: Seq<char>, j: int)
    requires
        0 <= j <= s.len(),
        forall|k: int| 0 <= k < j ==> !is_space(s[k]),
        j == s.len() || is_space(s[j]),
    ensures
        word_len(s) == j,
    decreases j,
{
    if j > 0 {
        lemma_word_len(s.drop_first(), j - 1);
    }
}

/// `j` leading spaces.
proof fn lemma_lead_spaces(s: Seq<char>, j: int)
    requires
        0 <= j <= s.len(),
        forall|k: int| 0 <= k < j ==> is_space(s[k]),
        j == s.len() || !is_space(s[j]),
    ensures
        lead_spaces(s) == j,
    decreases j,
{
    if j > 0 {
        lemma_lead_spaces(s.drop_first(), j - 1);
    }
}

/// `j` trailing spaces.
proof fn lemma_trail_spaces(s: Seq<char>, j: int)
    requires
        0 <= j <= s.len(),
        forall|k: int| s.len() - j <= k < s.len() ==> is_space(s[k]),
        j == s.len() || !is_space(s[s.len() - 1 - j]),
    ensures
        trail_spaces(s) == j,
    decreases j,
{
    if j > 0 {
        let t = s.drop_last();
        assert forall|k: int| t.len() - (j - 1) <= k < t.len() implies is_space(t[k]) by {
            assert(t[k] == s[k]);
        }
        if j - 1 != t.len() {
            assert(t[t.len() - 1 - (j - 1)] == s[s.len() - 1 - j]);
        }
        lemma_trail_spaces(t, j - 1);
    }
}

/// `str::split_whitespace`: the runs of non-space characters, in order.
pub fn split_words(s: &str) -> (r: Vec<String>)
    requires
        s@.len() < usize::MAX,
    ensures
        views(r@) == words(s@),
{
    let n = s.unicode_len();
    let mut out: Vec<String> = Vec::new();
    let mut i: usize = 0;
    assert(s@.skip(0) =~= s@);
    assert(views(out@) =~= Seq::<Seq<char>>::empty());
    while i < n
        invariant
            n == s@.len(),
            n < usize::MAX,
            i <= n,
            views(out@) + words(s@.skip(i as int)) == words(s@),
        decreases n - i,
    {
        let ghost t = s@.skip(i as int);
        if is_space_char(s.get_char(i)) {
            assert(t.drop_first() =~= s@.skip(i + 1));
            i = i + 1;
        } else {
            let mut j = i + 1;
            while j < n && !is_space_char(s.get_char(j))
                invariant
                    n == s@.len(),
                    i < j <= n,
                    forall|k: int| i <= k < j ==> !is_space(s@[k]),
                decreases n - j,
            {
                j = j + 1;
            }
            proof {
                lemma_word_len(t, j - i);
                assert(t.take(j - i) =~= s@.subrange(i as int, j as int));
                assert(t.skip(j - i) =~= s@.skip(j as int));
            }
            let w = slice(s, i, j);
            let ghost before = views(out@);
            out.push(w);
            assert(views(out@) =~= before.push(w@));
            assert(before.push(w@) + words(s@.skip(j as int)) =~= before + (seq![w@] + words(s@.skip(j as int))));
            i = j;
        }
    }
    assert(s@.skip(n as int) =~= Seq::<char>::empty());
    assert(views(out@) + words(s@.skip(n as int)) =~= views(out@));
    out
}

/// `str::trim`: the text without leading and trailing white space.
pub fn trim_text(s: &str) -> (r: String)
    ensures
        r@ == trim(s@),
{
    let n = s.unicode_len();
    let mut a: usize = 0;
    while a < n && is_space_char(s.get_char(a))
        invariant
            n == s@.len(),
            a <= n,
            forall|k: int| 0 <= k < a ==> is_space(s@[k]),
        decreases n - a,
    {
        a = a + 1;
    }
    proof {
        lemma_lead_spaces(s@, a as int);
    }
    if a == n {
        return String::new();
    }
    let mut b: usize = 0;
    while b < n - a && is_space_char(s.get_char(n - 1 - b))
        invariant
            n == s@.len(),
            a < n,
            b <= n - a,
            forall|k: int| n - b <= k < n ==> is_space(s@[k]),
        decreases n - a - b,
    {
        b = b + 1;
    }
    proof {
        if b == n - a {
            assert(!is_space(s@[a as int]));
        }
        lemma_trail_spaces(s@, b as int);
    }
    slice(s, a, n - b)
}


/// Whether two texts have the same characters.
pub fn same_text(a: &str, b: &str) -> (r: bool)
    ensures
        r == (a@ == b@),
{
    let n = a.unicode_len();
    if n != b.unicode_len() {
        return false;
    }
    let mut i: usize = 0;
    while i < n
        invariant
            n == a@.len(),
            n == b@.len(),
            i <= n,
            forall|j: int| 0 <= j < i ==> a@[j] == b@[j],
        decreases n - i,
    {
        if a.get_char(i) != b.get_char(i) {
            return false;
        }
        i = i + 1;
    }
    assert(a@ =~= b@);
    true
}

/// Whether a text is empty.
pub fn is_blank(a: &str) -> (r: bool)
    ensures
        r == (a@.len() == 0),
{
    a.unicode_len() == 0
}


/// Adds a text to the end of a list.
pub fn push_text(v: &mut Vec<String>, s: &str)
    ensures
        views(final(v)@) == views(old(v)@).push(s@),
{
    v.push(owned(s));
    assert(views(v@) =~= views(old(v)@).push(s@));
}

/// Adds a string to the end of a list.
pub fn push_string(v: &mut Vec<String>, s: String)
    ensures
        views(final(v)@) == views(old(v)@).push(s@),
{
    let ghost t = s@;
    v.push(s);
    assert(views(v@) =~= views(old(v)@).push(t));
}

/// Adds the strings of `w`, in order, to the end of `v`.
pub fn push_all(v: &mut Vec<String>, w: Vec<String>)
    ensures
        views(final(v)@) == views(old(v)@) + views(w@),
{
    let mut w = w;
    let ghost start = views(v@);
    let ghost all = views(w@);
    let mut i: usize = 0;
    let n = w.len();
    while i < n
        invariant
            n == w@.len(),
            all == views(w@),
            i <= n,
            views(v@) == start + all.take(i as int),
        decreases n - i,
    {
        let s = w[i].clone();
        push_string(v, s);
        assert(all.take(i + 1) =~= all.take(i as int).push(all[i as int]));
        assert(start + all.take(i + 1) =~= (start + all.take(i as int)).push(all[i as int]));
        i = i + 1;
    }
    assert(all.take(n as int) =~= all);
}

/// A copy of a list of texts.
pub fn copy_texts(v: &Vec<String>) -> (r: Vec<String>)
    ensures
        views(r@) == views(v@),
{
    let mut r: Vec<String> = Vec::new();
    let mut i: usize = 0;
    while i < v.len()
        invariant
            i <= v@.len(),
            views(r@) == views(v@.take(i as int)),
        decreases v@.len() - i,
    {
        let ghost before = views(r@);
        r.push(v[i].clone());
        assert(views(r@) =~= before.push(v@[i as int]@));
        assert(views(v@.take(i + 1)) =~= views(v@.take(i as int)).push(v@[i as int]@));
        i = i + 1;
    }
    assert(v@.take(v@.len() as int) =~= v@);
    r
}

/// Whether `s` ends with `p`.
pub fn has_suffix(s: &str, p: &str) -> (r: bool)
    ensures
        r == (p@.len() <= s@.len() && s@.skip(s@.len() - p@.len()) == p@),
{
    let n = s.unicode_len();
    let m = p.unicode_len();
    if m > n {
        return false;
    }
    let r = matches_at(s, n - m, p);
    assert(s@.subrange(n - m, n as int) =~= s@.skip(n - m));
    r
}

/// The two texts one after the other.
pub fn cat(a: &str, b: &str) -> (r: String)
    ensures
        r@ == a@ + b@,
{
    let mut r = owned(a);
    r.append(b);
    r
}

/// The three texts one after the other.
pub fn cat3(a: &str, b: &str, c: &str) -> (r: String)
    ensures
        r@ == a@ + b@ + c@,
{
    let mut r = owned(a);
    r.append(b);
    r.append(c);
    r
}

/// A text is set: neither `auto` nor empty.
pub open spec fn is_set(v: Seq<char>) -> bool {
    v != "auto"@ && v.len() > 0
}

/// Whether a text is set: neither `auto` nor empty.
pub fn set_value(v: &str) -> (r: bool)
    ensures
        r == is_set(v@),
{
    !same_text(v, "auto") && !is_blank(v)
}

} // verus!
