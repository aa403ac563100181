use dl_clip::download::{
    download_args, downloaded_filename, finish_download, line_filename, merged_filename,
    report_filename,
};
use dl_clip::error::ClipError;
use dl_clip::text::{ends_with, find_char, occurs_at_index, starts_with};
use dl_clip::tools::{require_tool, DOWNLOADER, TRANSCODER};
use dl_clip::transcode::{finish_clip, output_file_name, plan_clip, processed_name, transcode_args};

fn strings(v: &[&str]) -> Vec<String> {
    v.iter().map(|s| s.to_string()).collect()
}

const ENCODE: [&str; 28] = [
    "-nostdin", "-i", "in.mp4", "-c:v", "libx264", "-profile:v", "baseline", "-level", "3.0",
    "-pix_fmt", "yuv420p", "-preset", "slow", "-b:v", "1500k", "-maxrate", "1500k", "-bufsize",
    "3000k", "-c:a", "aac", "-b:a", "128k", "-ac", "2", "-ar", "44100", "-y",
];

#[test]
fn merge_line_gives_quoted_name() {
    let line = "[Merger] Merging formats into \"foo.mp4\"";
    assert_eq!(merged_filename(line), Some("foo.mp4".to_string()));
    assert_eq!(line_filename(line), Some("foo.mp4".to_string()));
}

#[test]
fn merge_line_without_closing_quote_runs_to_end() {
    let line = "[Merger] Merging formats into \"foo bar.mp4";
    assert_eq!(merged_filename(line), Some("foo bar.mp4".to_string()));
}

#[test]
fn merge_line_without_quote_gives_nothing() {
    assert_eq!(merged_filename("[Merger] Merging formats into foo.mp4"), None);
    assert_eq!(line_filename("[Merger] Merging formats into foo.mp4"), None);
}

#[test]
fn quoted_name_needs_merge_marker() {
    assert_eq!(merged_filename("[info] Writing \"foo.mp4\""), None);
    assert_eq!(merged_filename(" [Merger] Merging formats into \"foo.mp4\""), None);
}

#[test]
fn already_downloaded_line_gives_name() {
    let line = "[download] bar.mp4 has already been downloaded";
    assert_eq!(downloaded_filename(line), Some("bar.mp4".to_string()));
    assert_eq!(line_filename(line), Some("bar.mp4".to_string()));
}

#[test]
fn already_downloaded_name_may_hold_spaces() {
    let line = "[download] My Clip [abc].mp4 has already been downloaded";
    assert_eq!(line_filename(line), Some("My Clip [abc].mp4".to_string()));
}

#[test]
fn already_downloaded_capture_is_shortest() {
    let line = "[download] a has already been downloaded has already been downloaded";
    assert_eq!(downloaded_filename(line), Some("a".to_string()));
    assert_eq!(line_filename(line), Some("a".to_string()));
}

#[test]
fn already_downloaded_capture_starts_leftmost() {
    let line = "x [download] one [download] two has already been downloaded";
    assert_eq!(downloaded_filename(line), Some("one [download] two".to_string()));
}

#[test]
fn already_downloaded_marker_without_pattern_gives_nothing() {
    assert_eq!(line_filename("bar.mp4 has already been downloaded"), None);
    assert_eq!(downloaded_filename("nothing here"), None);
}

#[test]
fn other_lines_give_nothing() {
    assert_eq!(line_filename("[youtube] abc: Downloading webpage"), None);
    assert_eq!(line_filename(""), None);
}

#[test]
fn report_scans_lines_in_order() {
    let report = "[youtube] abc: Downloading webpage\n[download] Destination: x.f1.mp4\n\
                  [Merger] Merging formats into \"x.mp4\"\n[download] y.mp4 has already been downloaded\n";
    assert_eq!(report_filename(report), Some("x.mp4".to_string()));
}

#[test]
fn report_first_match_wins_across_kinds() {
    let report = "[download] y.mp4 has already been downloaded\r\n[Merger] Merging formats into \"x.mp4\"";
    assert_eq!(report_filename(report), Some("y.mp4".to_string()));
}

#[test]
fn report_without_pattern_gives_nothing() {
    assert_eq!(report_filename("[youtube] abc: Downloading webpage\nDone\n"), None);
    assert_eq!(report_filename(""), None);
}

#[test]
fn finish_download_outcomes() {
    let ok = finish_download(true, "[Merger] Merging formats into \"foo.mp4\"\n", "");
    assert_eq!(ok, Ok("foo.mp4".to_string()));
    assert_eq!(finish_download(true, "nothing\n", ""), Err(ClipError::NoFilename));
    assert_eq!(
        finish_download(false, "[Merger] Merging formats into \"foo.mp4\"\n", "ERROR: bad url"),
        Err(ClipError::DownloadFailed("ERROR: bad url".to_string()))
    );
}

#[test]
fn download_arguments() {
    assert_eq!(
        download_args("https://example.com/v"),
        strings(&["-S", "vcodec:h264,res,acodec:m4a", "https://example.com/v"])
    );
}

#[test]
fn processed_name_inserts_marker() {
    assert_eq!(processed_name("foo", "mp4"), "foo [Processed].mp4");
    assert_eq!(processed_name("", ""), " [Processed].");
}

#[test]
fn output_name_from_path() {
    assert_eq!(output_file_name("foo.mp4"), "foo [Processed].mp4");
    assert_eq!(output_file_name("dir/My Video.webm"), "My Video [Processed].webm");
    assert_eq!(output_file_name("a.b.mkv"), "a.b [Processed].mkv");
    assert_eq!(output_file_name("noext"), "noext [Processed].");
}

#[test]
fn transcode_without_trim_has_no_flags() {
    let mut want = strings(&ENCODE);
    want.push("out.mp4".to_string());
    let got = transcode_args("in.mp4", &None, &None, "out.mp4");
    assert_eq!(got, want);
    assert!(!got.iter().any(|a| a == "-ss" || a == "-to"));
}

#[test]
fn transcode_with_start_and_end() {
    let mut want = strings(&ENCODE);
    want.extend(strings(&["-ss", "00:00:05", "-to", "00:01:00", "out.mp4"]));
    let got = transcode_args(
        "in.mp4",
        &Some("00:00:05".to_string()),
        &Some("00:01:00".to_string()),
        "out.mp4",
    );
    assert_eq!(got, want);
}

#[test]
fn transcode_with_start_only() {
    let mut want = strings(&ENCODE);
    want.extend(strings(&["-ss", "00:00:05", "out.mp4"]));
    assert_eq!(transcode_args("in.mp4", &Some("00:00:05".to_string()), &None, "out.mp4"), want);
}

#[test]
fn transcode_with_end_only() {
    let mut want = strings(&ENCODE);
    want.extend(strings(&["-to", "00:01:00", "out.mp4"]));
    assert_eq!(transcode_args("in.mp4", &None, &Some("00:01:00".to_string()), "out.mp4"), want);
}

#[test]
fn plan_for_missing_input_stops() {
    assert!(matches!(plan_clip("gone.mp4", false, &None, &None), Err(ClipError::MissingInput)));
}

#[test]
fn plan_for_existing_input() {
    let plan = match plan_clip("in.mp4", true, &Some("1".to_string()), &None) {
        Ok(p) => p,
        Err(e) => panic!("unexpected {:?}", e),
    };
    assert_eq!(plan.output, "in [Processed].mp4");
    let mut want = strings(&ENCODE);
    want.extend(strings(&["-ss", "1", "in [Processed].mp4"]));
    assert_eq!(plan.args, want);
    assert_eq!(finish_clip(true, plan), Ok("in [Processed].mp4".to_string()));
}

#[test]
fn failed_transcode_is_an_error() {
    let plan = match plan_clip("in.mp4", true, &None, &None) {
        Ok(p) => p,
        Err(e) => panic!("unexpected {:?}", e),
    };
    assert_eq!(finish_clip(false, plan), Err(ClipError::TranscodeFailed));
}

#[test]
fn tool_lookup_outcomes() {
    assert_eq!(
        require_tool(TRANSCODER, Some("/usr/bin/ffmpeg".to_string())),
        Ok("/usr/bin/ffmpeg".to_string())
    );
    assert_eq!(require_tool(DOWNLOADER, None), Err(ClipError::ToolNotFound("yt-dlp".to_string())));
}

#[test]
fn text_matching() {
    assert!(starts_with("[Merger] x", "[Merger]"));
    assert!(!starts_with("[Merg", "[Merger]"));
    assert!(ends_with("a has already been downloaded", "has already been downloaded"));
    assert!(!ends_with("x", "xy"));
    assert!(occurs_at_index("héllo", 1, "él"));
    assert!(!occurs_at_index("héllo", 4, "ol"));
    assert_eq!(find_char("a\"b\"", '"', 0), Some(1));
    assert_eq!(find_char("a\"b\"", '"', 2), Some(3));
    assert_eq!(find_char("abc", '"', 0), None);
}
