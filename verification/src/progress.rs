//! Reading FFmpeg's log: progress times, and the errors worth reporting.
use vstd::prelude::*;
use crate::text::{
    views, join, join_strings, find, find_first, first_index, index_of_char, slice, owned, cat,
    contains, has, lowercase, to_lower, trim, trim_text, replace_all, replace_text, is_blank,
};
use crate::settings::OperationType;

verus! {

/// What follows `Duration: ` in a log line, up to the next comma.
pub open spec fn duration_field(line: Seq<char>) -> Option<Seq<char>> {
    match find(line, "Duration: "@) {
        Some(i) => {
            let rest = line.skip(i + 10);
            match first_index(rest, ',') {
                Some(e) => Some(rest.take(e)),
                None => None,
            }
        },
        None => None,
    }
}

/// What follows `time=` in a log line, up to the next space or the end.
pub open spec fn time_field(line: Seq<char>) -> Option<Seq<char>> {
    match find(line, "time="@) {
        Some(i) => {
            let rest = line.skip(i + 5);
            match first_index(rest, ' ') {
                Some(e) => Some(rest.take(e)),
                None => Some(rest),
            }
        },
        None => None,
    }
}

/// The total duration a log line announces, as FFmpeg writes it (`HH:MM:SS.ss`).
pub fn extract_duration(line: &str) -> (r: Option<String>)
    requires
        line@.len() < usize::MAX,
    ensures
        r matches Some(d) ==> duration_field(line@) == Some(d@),
        r is None ==> duration_field(line@) is None,
{
    proof {
        reveal_strlit("Duration: ");
    }
    match find_first(line, "Duration: ") {
        None => None,
        Some(i) => {
            let n = line.unicode_len();
            let rest = slice(line, i + 10, n);
            assert(rest@ =~= line@.skip(i + 10));
            match index_of_char(rest.as_str(), ',') {
                Some(e) => {
                    let d = slice(rest.as_str(), 0, e);
                    assert(d@ =~= rest@.take(e as int));
                    Some(d)
                },
                None => None,
            }
        },
    }
}

/// The time reached that a progress line reports.
pub fn extract_time_progress(line: &str) -> (r: Option<String>)
    requires
        line@.len() < usize::MAX,
    ensures
        r matches Some(d) ==> time_field(line@) == Some(d@),
        r is None ==> time_field(line@) is None,
{
    proof {
        reveal_strlit("time=");
    }
    match find_first(line, "time=") {
        None => None,
        Some(i) => {
            let n = line.unicode_len();
            let rest = slice(line, i + 5, n);
            assert(rest@ =~= line@.skip(i + 5));
            match index_of_char(rest.as_str(), ' ') {
                Some(e) => {
                    let d = slice(rest.as_str(), 0, e);
                    assert(d@ =~= rest@.take(e as int));
                    Some(d)
                },
                None => Some(rest),
            }
        },
    }
}

/// How many log lines are kept for diagnosis.
pub const LOG_WINDOW: usize = 100;

/// The kept lines after one more line arrives: the newest `LOG_WINDOW` lines.
pub open spec fn remembered(kept: Seq<Seq<char>>, line: Seq<char>) -> Seq<Seq<char>> {
    let all = kept.push(line);
    if all.len() > LOG_WINDOW { all.drop_first() } else { all }
}

/// Keeps a log line, dropping the oldest beyond the window.
pub fn remember_line(kept: &mut Vec<String>, line: String)
    ensures
        views(final(kept)@) == remembered(views(old(kept)@), line@),
{
    let ghost before = views(kept@);
    kept.push(line);
    assert(views(kept@) =~= before.push(line@));
    if kept.len() > LOG_WINDOW {
        let _oldest = kept.remove(0);
        assert(views(kept@) =~= before.push(line@).drop_first());
    }
}

/// A log line that reports a failure: it mentions, in any case, an error, a
/// failure, something impossible, not implemented, invalid, or missing.
pub open spec fn is_critical(line: Seq<char>) -> bool {
    let l = lowercase(line);
    contains(l, "error"@) || contains(l, "failed"@) || contains(l, "impossible"@)
        || contains(l, "not implemented"@) || contains(l, "invalid"@) || contains(l, "no such"@)
}

/// The first `k` critical lines of a log, or all when it has fewer.
pub open spec fn first_critical(lines: Seq<Seq<char>>, k: nat) -> Seq<Seq<char>>
    decreases lines.len(),
{
    if lines.len() == 0 || k == 0 {
        Seq::empty()
    } else if is_critical(lines[0]) {
        seq![lines[0]] + first_critical(lines.drop_first(), (k - 1) as nat)
    } else {
        first_critical(lines.drop_first(), k)
    }
}

/// A critical line cleaned up: trimmed, without `[ERROR]` and `[error]`
/// tags, trimmed again.
pub open spec fn cleaned(line: Seq<char>) -> Seq<char> {
    trim(replace_all(replace_all(trim(line), "[ERROR]"@, Seq::empty()), "[error]"@, Seq::empty()))
}

/// The cleaned lines that are not empty.
pub open spec fn cleaned_lines(lines: Seq<Seq<char>>) -> Seq<Seq<char>>
    decreases lines.len(),
{
    if lines.len() == 0 {
        Seq::empty()
    } else {
        let rest = cleaned_lines(lines.drop_last());
        if cleaned(lines.last()).len() > 0 { rest.push(cleaned(lines.last())) } else { rest }
    }
}

/// What a failed run reports: its first three critical lines, cleaned and
/// joined with `; `, or a plain notice when none says more.
pub open spec fn error_summary(lines: Seq<Seq<char>>) -> Seq<char> {
    let kept = cleaned_lines(first_critical(lines, 3));
    if kept.len() == 0 { "FFmpeg operation failed"@ } else { join(kept, "; "@) }
}

/// The message of a failed run.
pub open spec fn failure_message(lines: Seq<Seq<char>>) -> Seq<char> {
    "FFmpeg execution failed: "@ + error_summary(lines)
}

/// Whether a log line reports a failure.
pub fn critical_line(line: &str) -> (r: bool)
    ensures
        r == is_critical(line@),
{
    let l = to_lower(line);
    let s = l.as_str();
    crate::text::contains_text(s, "error") || crate::text::contains_text(s, "failed")
        || crate::text::contains_text(s, "impossible") || crate::text::contains_text(s, "not implemented")
        || crate::text::contains_text(s, "invalid") || crate::text::contains_text(s, "no such")
}

/// The first `k` critical lines of a log.
pub fn critical_lines(lines: &Vec<String>, k: usize) -> (r: Vec<String>)
    ensures
        views(r@) == first_critical(views(lines@), k as nat),
{
    let ghost all = views(lines@);
    let mut r: Vec<String> = Vec::new();
    let mut i: usize = 0;
    assert(all.skip(0) =~= all);
    while i < lines.len()
        invariant
            all == views(lines@),
            i <= lines@.len(),
            r@.len() <= k,
            views(r@) + first_critical(all.skip(i as int), (k - r@.len()) as nat) == first_critical(all, k as nat),
        ensures
            views(r@) + first_critical(all.skip(i as int), (k - r@.len()) as nat) == first_critical(all, k as nat),
            r@.len() == k || i == lines@.len(),
        decreases lines@.len() - i,
    {
        if r.len() == k {
            break;
        }
        let ghost rest = all.skip(i as int);
        assert(rest.drop_first() =~= all.skip(i + 1));
        assert(rest[0] == lines@[i as int]@);
        if critical_line(lines[i].as_str()) {
            let ghost before = views(r@);
            r.push(lines[i].clone());
            assert(views(r@) =~= before + seq![rest[0]]);
        }
        i = i + 1;
    }
    proof {
        if r@.len() < k {
            assert(all.skip(i as int) =~= Seq::<Seq<char>>::empty());
        }
    }
    r
}

/// A critical line cleaned up.
pub fn clean_line(line: &str) -> (r: String)
    ensures
        r@ == cleaned(line@),
{
    proof {
        reveal_strlit("[ERROR]");
        reveal_strlit("[error]");
        reveal_strlit("");
        assert(""@ =~= Seq::<char>::empty());
    }
    let a = trim_text(line);
    let b = replace_text(a.as_str(), "[ERROR]", "");
    let c = replace_text(b.as_str(), "[error]", "");
    trim_text(c.as_str())
}

/// What a failed run reports.
pub fn summarize_errors(lines: &Vec<String>) -> (r: String)
    ensures
        r@ == error_summary(views(lines@)),
{
    let critical = critical_lines(lines, 3);
    let ghost cl = views(critical@);
    let mut kept: Vec<String> = Vec::new();
    let mut i: usize = 0;
    while i < critical.len()
        invariant
            cl == views(critical@),
            i <= critical@.len(),
            views(kept@) == cleaned_lines(cl.take(i as int)),
        decreases critical@.len() - i,
    {
        assert(cl.take(i + 1).drop_last() =~= cl.take(i as int));
        assert(cl.take(i + 1).last() == critical@[i as int]@);
        let c = clean_line(critical[i].as_str());
        if !is_blank(c.as_str()) {
            let ghost before = views(kept@);
            kept.push(c);
            assert(views(kept@) =~= before.push(cleaned(critical@[i as int]@)));
        }
        i = i + 1;
    }
    assert(cl.take(critical@.len() as int) =~= cl);
    if kept.len() == 0 {
        owned("FFmpeg operation failed")
    } else {
        join_strings(&kept, "; ")
    }
}

/// The message of a failed run.
pub fn failure_text(lines: &Vec<String>) -> (r: String)
    ensures
        r@ == failure_message(views(lines@)),
{
    cat("FFmpeg execution failed: ", summarize_errors(lines).as_str())
}

/// The seconds an operation is expected to take on a file of ordinary size,
/// before any scaling by the file's size.
pub open spec fn base_seconds(op: OperationType) -> u64 {
    match op {
        OperationType::ExtractAudio => 5,
        OperationType::ExtractVideo => 8,
        OperationType::AudioTrim => 3,
        OperationType::AudioVolume => 4,
        OperationType::VideoAudioSplit => 6,
        OperationType::AudioConvert => 15,
        OperationType::AudioMerge => 12,
        OperationType::VideoAudioMerge => 18,
        OperationType::AudioResample => 20,
        OperationType::VideoConvert => 45,
        OperationType::VideoCompress => 60,
        OperationType::VideoResize => 35,
        OperationType::VideoCrop => 40,
        OperationType::VideoRotate => 30,
        OperationType::VideoFilter => 50,
        OperationType::AddSubtitle => 55,
        OperationType::AddWatermark => 50,
        OperationType::VideoToGif => 80,
        OperationType::FrameExtract => 25,
        OperationType::BatchConvert => 30,
        OperationType::GifResize => 25,
        OperationType::AudioCompress => 25,
    }
}

/// The seconds an operation is expected to take on a file of ordinary size.
pub fn base_duration(op: OperationType) -> (r: u64)
    ensures
        r == base_seconds(op),
{
    match op {
        OperationType::ExtractAudio => 5,
        OperationType::ExtractVideo => 8,
        OperationType::AudioTrim => 3,
        OperationType::AudioVolume => 4,
        OperationType::VideoAudioSplit => 6,
        OperationType::AudioConvert => 15,
        OperationType::AudioMerge => 12,
        OperationType::VideoAudioMerge => 18,
        OperationType::AudioResample => 20,
        OperationType::VideoConvert => 45,
        OperationType::VideoCompress => 60,
        OperationType::VideoResize => 35,
        OperationType::VideoCrop => 40,
        OperationType::VideoRotate => 30,
        OperationType::VideoFilter => 50,
        OperationType::AddSubtitle => 55,
        OperationType::AddWatermark => 50,
        OperationType::VideoToGif => 80,
        OperationType::FrameExtract => 25,
        OperationType::BatchConvert => 30,
        OperationType::GifResize => 25,
        OperationType::AudioCompress => 25,
    }
}

// ----- laws of the log -----

/// The kept log never outgrows its window, and its newest line is the one
/// that just arrived.
pub proof fn lemma_log_window(kept: Seq<Seq<char>>, line: Seq<char>)
    requires
        kept.len() <= LOG_WINDOW,
    ensures
        remembered(kept, line).len() <= LOG_WINDOW,
        remembered(kept, line).last() == line,
        kept.len() < LOG_WINDOW ==> remembered(kept, line) == kept.push(line),
{
}

/// At most `k` lines are picked, each of them critical and in the log.
pub proof fn lemma_first_critical(lines: Seq<Seq<char>>, k: nat)
    ensures
        first_critical(lines, k).len() <= k,
        first_critical(lines, k).len() <= lines.len(),
        forall|j: int| 0 <= j < first_critical(lines, k).len() ==> is_critical(#[trigger] first_critical(lines, k)[j])
            && lines.contains(first_critical(lines, k)[j]),
    decreases lines.len(),
{
    if lines.len() > 0 && k > 0 {
        let rest = lines.drop_first();
        if is_critical(lines[0]) {
            lemma_first_critical(rest, (k - 1) as nat);
            let f = first_critical(lines, k);
            assert forall|j: int| 0 <= j < f.len() implies is_critical(#[trigger] f[j]) && lines.contains(f[j]) by {
                if j == 0 {
                    assert(lines[0] == f[0]);
                } else {
                    let t = first_critical(rest, (k - 1) as nat);
                    assert(f[j] == t[j - 1]);
                    let w = choose|w: int| 0 <= w < rest.len() && rest[w] == t[j - 1];
                    assert(lines[w + 1] == rest[w]);
                }
            }
        } else {
            lemma_first_critical(rest, k);
            let f = first_critical(lines, k);
            assert forall|j: int| 0 <= j < f.len() implies is_critical(#[trigger] f[j]) && lines.contains(f[j]) by {
                let w = choose|w: int| 0 <= w < rest.len() && rest[w] == f[j];
                assert(lines[w + 1] == rest[w]);
            }
        }
    }
}

/// A failed run's summary is the plain notice, or at most three cleaned
/// critical lines joined.
pub proof fn lemma_summary_lines(lines: Seq<Seq<char>>)
    ensures
        cleaned_lines(first_critical(lines, 3)).len() <= 3,
{
    lemma_first_critical(lines, 3);
    lemma_cleaned_lines_len(first_critical(lines, 3));
}

/// Cleaning never adds lines.
proof fn lemma_cleaned_lines_len(lines: Seq<Seq<char>>)
    ensures
        cleaned_lines(lines).len() <= lines.len(),
    decreases lines.len(),
{
    if lines.len() > 0 {
        lemma_cleaned_lines_len(lines.drop_last());
    }
}

} // verus!
