//! The transcode stage: the output file's name, the transcoder's command
//! line, and the stage's outcome.

use vstd::prelude::*;
use crate::error::ClipError;
use crate::text::{views, opt_view};

verus! {

/// What is put between a file's stem and its extension to name the output.
pub const PROCESSED_MARKER: &'static str = " [Processed].";

/// What the transcode stage runs: the transcoder's arguments and the name of
/// the file it will write.
pub struct ClipPlan {
    pub args: Vec<String>,
    pub output: String,
}

/// Relies on `std::path::Path::file_stem`: the stem of the path's file name,
/// which depends on the path alone.
pub uninterp spec fn file_stem_of(path: Seq<char>) -> Option<Seq<char>>;

/// Relies on `std::path::Path::extension`: the extension of the path's file
/// name, which depends on the path alone.
pub uninterp spec fn extension_of(path: Seq<char>) -> Option<Seq<char>>;

/// The text of `o`, or the empty text where there is none.
pub open spec fn or_empty(o: Option<Seq<char>>) -> Seq<char> {
    match o {
        Some(s) => s,
        None => Seq::empty(),
    }
}

/// The output name for a file of the given stem and extension.
pub open spec fn processed_name_spec(stem: Seq<char>, extension: Seq<char>) -> Seq<char> {
    stem + PROCESSED_MARKER@ + extension
}

/// The output name for the file at `video`.
pub open spec fn output_name_spec(video: Seq<char>) -> Seq<char> {
    processed_name_spec(or_empty(file_stem_of(video)), or_empty(extension_of(video)))
}

/// The fixed re-encoding arguments for the input `video`: baseline H.264 at
/// a constrained bitrate, stereo AAC at 44.1 kHz, overwriting the output.
pub open spec fn encode_args(video: Seq<char>) -> Seq<Seq<char>> {
    seq![
        "-nostdin"@, "-i"@, video, "-c:v"@, "libx264"@, "-profile:v"@, "baseline"@,
        "-level"@, "3.0"@, "-pix_fmt"@, "yuv420p"@, "-preset"@, "slow"@, "-b:v"@,
        "1500k"@, "-maxrate"@, "1500k"@, "-bufsize"@, "3000k"@, "-c:a"@, "aac"@,
        "-b:a"@, "128k"@, "-ac"@, "2"@, "-ar"@, "44100"@, "-y"@,
    ]
}

/// The trim flags: `-ss <start>` where a start is given, then `-to <end>`
/// where an end is given.
pub open spec fn trim_args(start: Option<Seq<char>>, end: Option<Seq<char>>) -> Seq<Seq<char>> {
    (match start {
        Some(s) => seq!["-ss"@, s],
        None => Seq::empty(),
    }) + (match end {
        Some(e) => seq!["-to"@, e],
        None => Seq::empty(),
    })
}

/// The transcoder's whole command line.
pub open spec fn transcode_args_spec(
    video: Seq<char>,
    start: Option<Seq<char>>,
    end: Option<Seq<char>>,
    output: Seq<char>,
) -> Seq<Seq<char>> {
    encode_args(video) + trim_args(start, end) + seq![output]
}

/// Relies on `std::path::Path::file_stem`, read as UTF-8.
#[verifier::external_body]
fn file_stem(path: &str) -> (r: Option<String>)
    ensures
        opt_view(r) == file_stem_of(path@),
{
    std::path::Path::new(path).file_stem().and_then(|s| s.to_str()).map(|s| s.to_string())
}

/// Relies on `std::path::Path::extension`, read as UTF-8.
#[verifier::external_body]
fn extension(path: &str) -> (r: Option<String>)
    ensures
        opt_view(r) == extension_of(path@),
{
    std::path::Path::new(path).extension().and_then(|s| s.to_str()).map(|s| s.to_string())
}

fn push_arg(args: &mut Vec<String>, a: &str)
    ensures
        views(final(args)@) == views(old(args)@).push(a@),
{
    args.push(a.to_owned());
    assert(views(final(args)@) =~= views(old(args)@).push(a@));
}

/// The output name for a file of the given stem and extension:
/// `<stem> [Processed].<extension>`.
pub fn processed_name(stem: &str, extension: &str) -> (r: String)
    ensures
        r@ == processed_name_spec(stem@, extension@),
{
    let r = stem.to_owned().concat(PROCESSED_MARKER).concat(extension);
    r
}

/// The output name for the file at `video`: its stem, the processed marker,
/// and its extension, a missing stem or extension counting as empty.
pub fn output_file_name(video: &str) -> (r: String)
    ensures
        r@ == output_name_spec(video@),
{
    let stem = match file_stem(video) {
        Some(s) => s,
        None => String::new(),
    };
    let ext = match extension(video) {
        Some(e) => e,
        None => String::new(),
    };
    processed_name(stem.as_str(), ext.as_str())
}

/// The transcoder's command line: the fixed re-encoding arguments for
/// `video`, the trim flags for the start and end given, and `output`.
pub fn transcode_args(
    video: &str,
    start: &Option<String>,
    end: &Option<String>,
    output: &str,
) -> (r: Vec<String>)
    ensures
        views(r@) == transcode_args_spec(video@, opt_view(*start), opt_view(*end), output@),
{
    let mut r: Vec<String> = Vec::new();
    push_arg(&mut r, "-nostdin");
    push_arg(&mut r, "-i");
    push_arg(&mut r, video);
    push_arg(&mut r, "-c:v");
    push_arg(&mut r, "libx264");
    push_arg(&mut r, "-profile:v");
    push_arg(&mut r, "baseline");
    push_arg(&mut r, "-level");
    push_arg(&mut r, "3.0");
    push_arg(&mut r, "-pix_fmt");
    push_arg(&mut r, "yuv420p");
    push_arg(&mut r, "-preset");
    push_arg(&mut r, "slow");
    push_arg(&mut r, "-b:v");
    push_arg(&mut r, "1500k");
    push_arg(&mut r, "-maxrate");
    push_arg(&mut r, "1500k");
    push_arg(&mut r, "-bufsize");
    push_arg(&mut r, "3000k");
    push_arg(&mut r, "-c:a");
    push_arg(&mut r, "aac");
    push_arg(&mut r, "-b:a");
    push_arg(&mut r, "128k");
    push_arg(&mut r, "-ac");
    push_arg(&mut r, "2");
    push_arg(&mut r, "-ar");
    push_arg(&mut r, "44100");
    push_arg(&mut r, "-y");
    let ghost fixed = views(r@);
    assert(fixed =~= encode_args(video@));
    if let Some(s) = start {
        push_arg(&mut r, "-ss");
        push_arg(&mut r, s.as_str());
    }
    if let Some(e) = end {
        push_arg(&mut r, "-to");
        push_arg(&mut r, e.as_str());
    }
    push_arg(&mut r, output);
    assert(views(r@) =~= transcode_args_spec(video@, opt_view(*start), opt_view(*end), output@));
    r
}

/// Without a start or an end no trim flags are passed; a start gives `-ss`
/// and its value first, an end gives `-to` and its value last, and nothing
/// else is added.
pub proof fn lemma_trim_flags(start: Option<Seq<char>>, end: Option<Seq<char>>)
    ensures
        start is None && end is None ==> trim_args(start, end) == Seq::<Seq<char>>::empty(),
        trim_args(start, end).len() == (if start is Some { 2int } else { 0 }) + (if end is Some {
            2int
        } else {
            0
        }),
        start matches Some(s) ==> trim_args(start, end).take(2) == seq!["-ss"@, s],
        end matches Some(e) ==> trim_args(start, end).skip(trim_args(start, end).len() - 2)
            == seq!["-to"@, e],
{
    let t = trim_args(start, end);
    if let Some(s) = start {
        assert(t.take(2) =~= seq!["-ss"@, s]);
    }
    if let Some(e) = end {
        assert(t.skip(t.len() - 2) =~= seq!["-to"@, e]);
    }
    if start is None && end is None {
        assert(t =~= Seq::<Seq<char>>::empty());
    }
}

/// Plans the transcode stage for the file at `video`, of which `exists`
/// tells whether it is on disk: a missing file stops the run before the
/// transcoder is started.
pub fn plan_clip(
    video: &str,
    exists: bool,
    start: &Option<String>,
    end: &Option<String>,
) -> (r: Result<ClipPlan, ClipError>)
    ensures
        !exists ==> r matches Err(ClipError::MissingInput),
        exists ==> (r matches Ok(p) && p.output@ == output_name_spec(video@) && views(p.args@)
            == transcode_args_spec(video@, opt_view(*start), opt_view(*end), p.output@)),
{
    if !exists {
        return Err(ClipError::MissingInput);
    }
    let output = output_file_name(video);
    let args = transcode_args(video, start, end, output.as_str());
    Ok(ClipPlan { args, output })
}

/// The outcome of the transcode stage: the output's name where the
/// transcoder succeeded.
pub fn finish_clip(succeeded: bool, plan: ClipPlan) -> (r: Result<String, ClipError>)
    ensures
        succeeded ==> (r matches Ok(name) && name@ == plan.output@),
        !succeeded ==> r matches Err(ClipError::TranscodeFailed),
{
    if succeeded {
        Ok(plan.output)
    } else {
        Err(ClipError::TranscodeFailed)
    }
}

} // verus!
