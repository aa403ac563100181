//! The download stage: the downloader's command line, and recovering the
//! name of the file it wrote from the report it prints.

use vstd::prelude::*;
use crate::error::ClipError;
use crate::text::{
    views, opt_view, occurs_at, has_prefix, has_suffix, index_of, lemma_index_of, starts_with,
    ends_with, find_char,
};

verus! {

/// The sort order handed to the downloader: H.264 video, then resolution,
/// then M4A audio, which most social-media sites accept.
pub const FORMAT_SORT: &'static str = "vcodec:h264,res,acodec:m4a";

/// Start of the line that names the file into which formats were merged.
pub const MERGER_MARKER: &'static str = "[Merger] Merging formats into";

/// End of the line that names a file downloaded by an earlier run.
pub const DOWNLOADED_MARKER: &'static str = "has already been downloaded";

/// The pattern that picks the file name out of such a line.
pub const DOWNLOADED_PATTERN: &'static str = "\\[download\\] (.*?) has already been downloaded";

/// What stands before the file name in a line that the pattern matches.
pub const DOWNLOADED_OPEN: &'static str = "[download] ";

/// What stands after the file name in a line that the pattern matches.
pub const DOWNLOADED_CLOSE: &'static str = " has already been downloaded";

/// The arguments with which the downloader is run on `url`.
pub open spec fn download_args_spec(url: Seq<char>) -> Seq<Seq<char>> {
    seq!["-S"@, FORMAT_SORT@, url]
}

/// `p` without one carriage return at its end.
pub open spec fn strip_cr(p: Seq<char>) -> Seq<char> {
    if p.len() > 0 && p.last() == '\r' {
        p.drop_last()
    } else {
        p
    }
}

/// The lines of `s`: the pieces between line feeds, each without a carriage
/// return that precedes its line feed. A final line feed ends the last line
/// rather than starting an empty one.
pub open spec fn lines_of(s: Seq<char>) -> Seq<Seq<char>>
    decreases s.len(),
{
    if s.len() == 0 {
        seq![]
    } else {
        match index_of(s, '\n', 0) {
            Some(k) => if 0 <= k < s.len() {
                seq![strip_cr(s.take(k))] + lines_of(s.skip(k + 1))
            } else {
                seq![]  // unreachable: `index_of` stays within `s`
            },
            None => seq![s],
        }
    }
}

/// The text between the first and the second double quote of `line`, or
/// from the first to the end where there is no second; none without a quote.
pub open spec fn quoted_segment(line: Seq<char>) -> Option<Seq<char>> {
    match index_of(line, '"', 0) {
        None => None,
        Some(q) => match index_of(line, '"', q + 1) {
            Some(e) => Some(line.subrange(q + 1, e)),
            None => Some(line.subrange(q + 1, line.len() as int)),
        },
    }
}

/// The file name of a merge line: the quoted segment of a line that starts
/// with the merge marker.
pub open spec fn merged_name(line: Seq<char>) -> Option<Seq<char>> {
    if has_prefix(line, MERGER_MARKER@) {
        quoted_segment(line)
    } else {
        None
    }
}

/// The download pattern matches `s` from index `i`, with its file name
/// ending at index `k`.
pub open spec fn download_match(s: Seq<char>, i: int, k: int) -> bool {
    &&& occurs_at(s, i, DOWNLOADED_OPEN@)
    &&& i + DOWNLOADED_OPEN@.len() <= k
    &&& occurs_at(s, k, DOWNLOADED_CLOSE@)
    &&& forall|j: int| i + DOWNLOADED_OPEN@.len() <= j < k ==> s[j] != '\n'
}

/// The match that the pattern reports: the one that starts first, and of
/// those, the one with the shortest file name.
pub open spec fn first_download_match(s: Seq<char>, i: int, k: int) -> bool {
    &&& download_match(s, i, k)
    &&& forall|i2: int, k2: int| i2 < i ==> !download_match(s, i2, k2)
    &&& forall|k2: int| k2 < k ==> !download_match(s, i, k2)
}

/// The file name that the download pattern captures in `s`.
pub open spec fn downloaded_name(s: Seq<char>) -> Option<Seq<char>> {
    if exists|i: int, k: int| first_download_match(s, i, k) {
        let (i, k) = choose|i: int, k: int| first_download_match(s, i, k);
        Some(s.subrange(i + DOWNLOADED_OPEN@.len(), k))
    } else {
        None
    }
}

/// The file name that one line of the report gives: that of a merge line
/// first, else that of a line ending with the already-downloaded marker.
pub open spec fn line_name(line: Seq<char>) -> Option<Seq<char>> {
    if merged_name(line) is Some {
        merged_name(line)
    } else if has_suffix(line, DOWNLOADED_MARKER@) {
        downloaded_name(line)
    } else {
        None
    }
}

/// The file name given by the first line of `lines` that gives one.
pub open spec fn first_name(lines: Seq<Seq<char>>) -> Option<Seq<char>>
    decreases lines.len(),
{
    if lines.len() == 0 {
        None
    } else if line_name(lines[0]) is Some {
        line_name(lines[0])
    } else {
        first_name(lines.drop_first())
    }
}

/// A report gives no file name exactly when none of its lines matches
/// either pattern.
pub proof fn lemma_no_match_no_name(lines: Seq<Seq<char>>)
    ensures
        first_name(lines) is None <==> forall|j: int|
            0 <= j < lines.len() ==> line_name(#[trigger] lines[j]) is None,
    decreases lines.len(),
{
    if lines.len() > 0 {
        let rest = lines.drop_first();
        lemma_no_match_no_name(rest);
        assert forall|j: int| 1 <= j < lines.len() implies lines[j] == rest[j - 1] by {}
        if first_name(lines) is None {
            assert forall|j: int| 0 <= j < lines.len() implies line_name(
                #[trigger] lines[j],
            ) is None by {
                if j > 0 {
                    assert(line_name(rest[j - 1]) is None);
                }
            }
        }
        if forall|j: int| 0 <= j < lines.len() ==> line_name(#[trigger] lines[j]) is None {
            assert(line_name(lines[0]) is None);
            assert forall|j: int| 0 <= j < rest.len() implies line_name(#[trigger] rest[j])
                is None by {
                assert(line_name(lines[j + 1]) is None);
            }
        }
    }
}

/// The arguments with which the downloader is run on `url`.
pub fn download_args(url: &str) -> (r: Vec<String>)
    ensures
        views(r@) == download_args_spec(url@),
{
    let mut r: Vec<String> = Vec::new();
    r.push("-S".to_owned());
    r.push(FORMAT_SORT.to_owned());
    r.push(url.to_owned());
    assert(views(r@) =~= download_args_spec(url@));
    r
}

/// Relies on `str::lines`: the lines of `s`, split at `\n` and `\r\n`, with
/// the line endings removed and no empty line after a final line ending.
#[verifier::external_body]
fn split_lines(s: &str) -> (r: Vec<String>)
    ensures
        views(r@) == lines_of(s@),
{
    s.lines().map(|l| l.to_string()).collect()
}

/// Relies on `regex::Regex::new` and `regex::Regex::captures`: the pattern
/// compiles, and the first group of its leftmost-first match is the lazily
/// shortest run of non-newline characters between the two literal parts.
#[verifier::external_body]
fn first_group(pattern: &str, s: &str) -> (r: Option<String>)
    requires
        pattern@ == DOWNLOADED_PATTERN@,
    ensures
        r matches Some(c) ==> exists|i: int, k: int|
            first_download_match(s@, i, k) && c@ == s@.subrange(i + DOWNLOADED_OPEN@.len(), k),
        r is None ==> forall|i: int, k: int| !download_match(s@, i, k),
{
    let re = regex::Regex::new(pattern).ok()?;
    re.captures(s).and_then(|c| c.get(1)).map(|m| m.as_str().to_string())
}

/// At most one match is the one that the pattern reports.
proof fn lemma_first_download_match_unique(s: Seq<char>, i: int, k: int, i2: int, k2: int)
    requires
        first_download_match(s, i, k),
        first_download_match(s, i2, k2),
    ensures
        i == i2 && k == k2,
{
    if i < i2 {
        assert(!download_match(s, i, k));
    } else if i2 < i {
        assert(!download_match(s, i2, k2));
    } else if k < k2 {
        assert(!download_match(s, i, k));
    } else if k2 < k {
        assert(!download_match(s, i2, k2));
    }
}

/// The file name of a merge line: the quoted text of a line that starts with
/// the merge marker.
pub fn merged_filename(line: &str) -> (r: Option<String>)
    ensures
        opt_view(r) == merged_name(line@),
{
    if !starts_with(line, MERGER_MARKER) {
        return None;
    }
    let q = match find_char(line, '"', 0) {
        None => return None,
        Some(q) => q,
    };
    proof {
        lemma_index_of(line@, '"', 0);
    }
    let n = line.unicode_len();
    let e = match find_char(line, '"', q + 1) {
        Some(e) => e,
        None => n,
    };
    proof {
        lemma_index_of(line@, '"', q + 1);
    }
    Some(line.substring_char(q + 1, e).to_owned())
}

/// The file name that the download pattern captures in `line`.
pub fn downloaded_filename(line: &str) -> (r: Option<String>)
    ensures
        opt_view(r) == downloaded_name(line@),
{
    let r = first_group(DOWNLOADED_PATTERN, line);
    proof {
        if r is Some {
            let c = r->0;
            let (i, k) = choose|i: int, k: int|
                first_download_match(line@, i, k) && c@ == line@.subrange(
                    i + DOWNLOADED_OPEN@.len(),
                    k,
                );
            let (i2, k2) = choose|i: int, k: int| first_download_match(line@, i, k);
            lemma_first_download_match_unique(line@, i, k, i2, k2);
        }
    }
    r
}

/// The file name that one line of the downloader's report gives, if any.
pub fn line_filename(line: &str) -> (r: Option<String>)
    ensures
        opt_view(r) == line_name(line@),
{
    match merged_filename(line) {
        Some(name) => Some(name),
        None => if ends_with(line, DOWNLOADED_MARKER) {
            downloaded_filename(line)
        } else {
            None
        },
    }
}

/// The file name given by the first line of the downloader's report that
/// gives one; none where no line does.
pub fn report_filename(report: &str) -> (r: Option<String>)
    ensures
        opt_view(r) == first_name(lines_of(report@)),
{
    let lines = split_lines(report);
    let ghost all = views(lines@);
    assert(all.skip(0) =~= all);
    let mut i: usize = 0;
    while i < lines.len()
        invariant
            all == views(lines@),
            all == lines_of(report@),
            i <= lines@.len(),
            first_name(all) == first_name(all.skip(i as int)),
        decreases lines@.len() - i,
    {
        let found = line_filename(lines[i].as_str());
        assert(all.skip(i as int)[0] == lines@[i as int]@);
        if found.is_some() {
            return found;
        }
        assert(all.skip(i as int).drop_first() =~= all.skip(i + 1));
        i += 1;
    }
    assert(all.skip(i as int) =~= Seq::<Seq<char>>::empty());
    None
}

/// The outcome of the download stage: the downloader's error text where it
/// failed, else the file name that its report gives, which must be there.
pub fn finish_download(succeeded: bool, report: &str, error_text: &str) -> (r: Result<
    String,
    ClipError,
>)
    ensures
        !succeeded ==> (r matches Err(ClipError::DownloadFailed(t)) && t@ == error_text@),
        succeeded && first_name(lines_of(report@)) is None ==> r matches Err(ClipError::NoFilename),
        succeeded && first_name(lines_of(report@)) is Some ==> (r matches Ok(name) && first_name(
            lines_of(report@),
        ) == Some(name@)),
{
    if !succeeded {
        return Err(ClipError::DownloadFailed(error_text.to_owned()));
    }
    match report_filename(report) {
        Some(name) => Ok(name),
        None => Err(ClipError::NoFilename),
    }
}

} // verus!
