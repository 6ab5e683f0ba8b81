//! Downloading a video: what the download tool is asked and what is read
//! from its answer.

use crate::args::{text_of, DownloadParams};
use crate::text::{trim, trimmed};
use vstd::prelude::*;
use vstd::string::StringExecFns;

verus! {

/// What the first capture group of the leftmost match of the regular
/// expression `pattern` in `haystack` holds; none where the pattern is no
/// regular expression, where it matches nowhere and where the group took
/// no part in the match.
pub uninterp spec fn first_group(pattern: Seq<char>, haystack: Seq<char>) -> Option<Seq<char>>;

/// `Regex::new`, then `Regex::captures` on the haystack, `Captures::get`
/// for group one and `Match::as_str`: the text of the first capture group
/// of the leftmost match. A pattern that does not compile gives none, as a
/// haystack without a match does.
#[verifier::external_body]
fn capture_first(pattern: &str, haystack: &str) -> (found: Option<String>)
    ensures
        text_of(found) == first_group(pattern@, haystack@),
{
    regex::Regex::new(pattern).ok().and_then(
        |re| re.captures(haystack).and_then(|caps| caps.get(1).map(|m| m.as_str().to_string())),
    )
}

/// The pattern that finds a video's identifier in the tool's description:
/// `"id":`, white space, and a quoted text that is not empty.
pub open spec fn id_pattern() -> Seq<char> {
    "\"id\":\\s*\"([^\"]+)"@
}

/// The pattern that finds a video's title in the tool's description.
pub open spec fn title_pattern() -> Seq<char> {
    "\"title\":\\s*\"([^\"]+)"@
}

/// The identifier that stands in for one that was not found.
pub open spec fn unknown_id() -> Seq<char> {
    "unknown"@
}

/// The title that stands in for one that was not found.
pub open spec fn unknown_title() -> Seq<char> {
    "Unknown Title"@
}

/// What was found, or the fallback where nothing was.
pub open spec fn found_or(found: Option<Seq<char>>, fallback: Seq<char>) -> Seq<char> {
    match found {
        Some(text) => text,
        None => fallback,
    }
}

/// A list of texts, each as its characters.
pub open spec fn texts(list: Seq<String>) -> Seq<Seq<char>> {
    Seq::new(list.len(), |i: int| list[i]@)
}

/// The text that was found, or `fallback` where none was.
pub fn or_fallback(found: Option<String>, fallback: &str) -> (text: String)
    ensures
        text@ == found_or(text_of(found), fallback@),
{
    match found {
        Some(text) => text,
        None => String::from_str(fallback),
    }
}

/// The identifier of the video that `info` describes, or `unknown`.
pub fn video_id(info: &str) -> (id: String)
    ensures
        id@ == found_or(first_group(id_pattern(), info@), unknown_id()),
{
    or_fallback(capture_first("\"id\":\\s*\"([^\"]+)", info), "unknown")
}

/// The title of the video that `info` describes, or `Unknown Title`.
pub fn video_title(info: &str) -> (title: String)
    ensures
        title@ == found_or(first_group(title_pattern(), info@), unknown_title()),
{
    or_fallback(capture_first("\"title\":\\s*\"([^\"]+)", info), "Unknown Title")
}

/// The name of the file that the video with the identifier `id` goes to.
pub fn video_file_name(id: &str) -> (name: String)
    ensures
        name@ == id@ + ".mp4"@,
{
    String::from_str(id).concat(".mp4")
}

/// The URL to download: the one given, or the line that was typed without
/// the white space around it.
pub fn requested_url(params: &DownloadParams, typed: &str) -> (url: String)
    ensures
        url@ == match params@.url {
            Some(given) => given,
            None => trimmed(typed@),
        },
{
    match &params.url {
        Some(given) => given.clone(),
        None => trim(typed),
    }
}

/// What the tool is called with to describe the video at `url`.
pub fn info_arguments(url: &str) -> (arguments: Vec<String>)
    ensures
        texts(arguments@) == seq!["--dump-json"@, "--no-playlist"@, url@],
{
    let mut arguments: Vec<String> = Vec::new();
    arguments.push(String::from_str("--dump-json"));
    arguments.push(String::from_str("--no-playlist"));
    arguments.push(String::from_str(url));
    assert(texts(arguments@) =~= seq!["--dump-json"@, "--no-playlist"@, url@]);
    arguments
}

/// What the tool is called with to download the video at `url` to `output`.
pub fn download_arguments(output: &str, url: &str) -> (arguments: Vec<String>)
    ensures
        texts(arguments@) == seq![
            "--format"@,
            "mp4"@,
            "--output"@,
            output@,
            "--no-playlist"@,
            url@,
        ],
{
    let mut arguments: Vec<String> = Vec::new();
    arguments.push(String::from_str("--format"));
    arguments.push(String::from_str("mp4"));
    arguments.push(String::from_str("--output"));
    arguments.push(String::from_str(output));
    arguments.push(String::from_str("--no-playlist"));
    arguments.push(String::from_str(url));
    assert(texts(arguments@) =~= seq![
        "--format"@,
        "mp4"@,
        "--output"@,
        output@,
        "--no-playlist"@,
        url@,
    ]);
    arguments
}

} // verus!
