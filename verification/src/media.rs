//! Telling media sources apart, and reading the id out of a YouTube
//! address.

use vstd::prelude::*;
use vstd::string::StrSliceExecFns;
use crate::text::{
    chars_of, contains, contains_text, decimal_text, find, first_occurrence, matches_at,
    number_up_to, occurs_at, parse_number, push_decimal_text, push_text, starts_with,
    starts_with_text, string_from,
};

verus! {

/// Where media comes from.
#[derive(Debug, Clone, Copy, PartialEq, Eq, Structural)]
pub enum MediaSourceType {
    /// A file on disk.
    LocalFile,
    /// A YouTube video.
    YouTube,
    /// Nothing that can be played.
    Unsupported,
}

/// How YouTube streams are fetched.
#[derive(Debug, Clone)]
pub struct YouTubeConfig {
    /// Video quality from 0 to 9, where 0 is the best.
    pub quality: u8,
    /// The container format asked for, such as `mp4`.
    pub format: Option<String>,
    /// A proxy for the connection.
    pub proxy: Option<String>,
    /// The largest resolution to ask for, such as `720p`.
    pub max_resolution: Option<String>,
    /// Fetch subtitles where there are any.
    pub subtitles: bool,
    /// Seconds to wait for the network.
    pub timeout: u64,
    /// Where fetched metadata is kept.
    pub cache_dir: Option<String>,
    /// The path of the `yt-dlp` program.
    pub ytdlp_path: Option<String>,
}

impl Default for YouTubeConfig {
    /// Quality 1, `mp4`, up to `720p`, no subtitles, thirty seconds.
    fn default() -> (out: YouTubeConfig)
        ensures
            out.quality == 1,
            out.format matches Some(format) && format@ == "mp4"@,
            out.proxy is None,
            out.max_resolution matches Some(resolution) && resolution@ == "720p"@,
            !out.subtitles,
            out.timeout == 30,
            out.cache_dir is None,
            out.ytdlp_path is None,
    {
        YouTubeConfig {
            quality: 1,
            format: Some("mp4".to_owned()),
            proxy: None,
            max_resolution: Some("720p".to_owned()),
            subtitles: false,
            timeout: 30,
            cache_dir: None,
            ytdlp_path: None,
        }
    }
}

/// An address that points to YouTube: it holds a watch page, a short link
/// or an embedded player.
pub open spec fn is_youtube(url: Seq<char>) -> bool {
    contains_text(url, "youtube.com/watch"@) || contains_text(url, "youtu.be/"@) || contains_text(
        url,
        "youtube.com/embed/"@,
    )
}

/// The kind of source that an address or path is: YouTube by its form, then
/// a local file if the path exists.
pub open spec fn media_type_of(url_or_path: Seq<char>, exists_on_disk: bool) -> MediaSourceType {
    if is_youtube(url_or_path) {
        MediaSourceType::YouTube
    } else if exists_on_disk {
        MediaSourceType::LocalFile
    } else {
        MediaSourceType::Unsupported
    }
}

/// A character that ends a video id.
pub open spec fn ends_id(c: char) -> bool {
    c == '&' || c == '#' || c == '?' || c == '/'
}

/// The first position from `start` on that holds a character that ends an
/// id, or the length of the address.
pub open spec fn id_end(url: Seq<char>, start: int) -> int
    decreases url.len() - start,
{
    if start >= url.len() || start < 0 || ends_id(url[start]) {
        start
    } else {
        id_end(url, start + 1)
    }
}

/// The id that follows the first occurrence of `marker` in an address.
pub open spec fn id_after(url: Seq<char>, marker: Seq<char>) -> Seq<char> {
    let at = choose|at: int| first_occurrence(url, marker, at);
    url.subrange(at + marker.len(), id_end(url, at + marker.len()))
}

/// The video id in an address: what follows `youtube.com/watch?v=`, else
/// `youtu.be/`, else `youtube.com/embed/`, up to the next `&`, `#`, `?` or
/// `/`.
pub open spec fn youtube_id(url: Seq<char>) -> Option<Seq<char>> {
    if contains_text(url, "youtube.com/watch?v="@) {
        Some(id_after(url, "youtube.com/watch?v="@))
    } else if contains_text(url, "youtu.be/"@) {
        Some(id_after(url, "youtu.be/"@))
    } else if contains_text(url, "youtube.com/embed/"@) {
        Some(id_after(url, "youtube.com/embed/"@))
    } else {
        None
    }
}

/// Whether an address points to YouTube.
pub fn is_youtube_url(url: &str) -> (out: bool)
    ensures
        out == is_youtube(url@),
{
    let chars = chars_of(url);
    contains(&chars, "youtube.com/watch") || contains(&chars, "youtu.be/") || contains(
        &chars,
        "youtube.com/embed/",
    )
}

/// The kind of source that an address or path is. `exists_on_disk` says
/// whether it names something on disk.
pub fn detect_media_type(url_or_path: &str, exists_on_disk: bool) -> (out: MediaSourceType)
    ensures
        out == media_type_of(url_or_path@, exists_on_disk),
{
    if is_youtube_url(url_or_path) {
        MediaSourceType::YouTube
    } else if exists_on_disk {
        MediaSourceType::LocalFile
    } else {
        MediaSourceType::Unsupported
    }
}

fn is_id_end(c: char) -> (out: bool)
    ensures
        out == ends_id(c),
{
    c == '&' || c == '#' || c == '?' || c == '/'
}

proof fn lemma_id_end(url: Seq<char>, start: int, end: int)
    requires
        0 <= start <= end <= url.len(),
        forall|i: int| start <= i < end ==> !ends_id(#[trigger] url[i]),
        end == url.len() || ends_id(url[end]),
    ensures
        id_end(url, start) == end,
    decreases end - start,
{
    if start < end {
        lemma_id_end(url, start + 1, end);
    }
}

fn id_following(url: &str, chars: &Vec<char>, marker: &str) -> (out: Option<String>)
    requires
        chars@ == url@,
    ensures
        out is Some <==> contains_text(url@, marker@),
        out matches Some(id) ==> id@ == id_after(url@, marker@),
{
    let marker_chars = chars_of(marker);
    match find(chars, &marker_chars) {
        None => None,
        Some(at) => {
            assert(occurs_at(chars@, marker_chars@, at as int));
            let total = chars.len();
            assert(at + marker_chars.len() <= total);
            let start = at + marker_chars.len();
            let mut end = start;
            while end < chars.len() && !is_id_end(chars[end])
                invariant
                    start <= end <= chars.len(),
                    forall|i: int| start <= i < end ==> !ends_id(#[trigger] chars[i]),
                decreases chars.len() - end,
            {
                end += 1;
            }
            proof {
                lemma_id_end(url@, start as int, end as int);
                let chosen = choose|c: int| first_occurrence(url@, marker@, c);
                assert(first_occurrence(url@, marker@, at as int));
                if chosen < at {
                    assert(!occurs_at(url@, marker@, chosen));
                } else if at < chosen {
                    assert(!occurs_at(url@, marker@, at as int));
                }
            }
            Some(url.substring_char(start, end).to_owned())
        },
    }
}

/// The video id in a YouTube address, if it has one.
pub fn extract_youtube_id(url: &str) -> (out: Option<String>)
    ensures
        match out {
            Some(id) => youtube_id(url@) == Some(id@),
            None => youtube_id(url@) is None,
        },
{
    let chars = chars_of(url);
    match id_following(url, &chars, "youtube.com/watch?v=") {
        Some(id) => {
            return Some(id);
        },
        None => {},
    }
    match id_following(url, &chars, "youtu.be/") {
        Some(id) => {
            return Some(id);
        },
        None => {},
    }
    id_following(url, &chars, "youtube.com/embed/")
}

/// A character of a video id: a letter, a digit, `_` or `-`.
pub open spec fn is_id_char(c: char) -> bool {
    ('a' <= c <= 'z') || ('A' <= c <= 'Z') || ('0' <= c <= '9') || c == '_' || c == '-'
}

/// A text that has the form of a video id: eleven id characters.
pub open spec fn looks_like_id(text: Seq<char>) -> bool {
    text.len() == 11 && forall|i: int| 0 <= i < text.len() ==> is_id_char(#[trigger] text[i])
}

/// The address of the watch page of a video, up to the id.
pub open spec fn watch_prefix() -> Seq<char> {
    "https://www.youtube.com/watch?v="@
}

/// The full address that an address or a video id stands for: a full
/// address is kept; a short link and a bare id become the address of the
/// watch page; a watch page without a scheme gets one. Nothing else is an
/// address.
pub open spec fn normalized(address: Seq<char>) -> Option<Seq<char>> {
    if starts_with_text(address, "http://"@) || starts_with_text(address, "https://"@) {
        Some(address)
    } else if starts_with_text(address, "youtu.be/"@) {
        Some(watch_prefix() + address.subrange("youtu.be/"@.len() as int, address.len() as int))
    } else if looks_like_id(address) {
        Some(watch_prefix() + address)
    } else if contains_text(address, "youtube.com/watch"@) {
        Some("https://"@ + address)
    } else {
        None
    }
}

fn has_id_form(chars: &Vec<char>) -> (out: bool)
    ensures
        out == looks_like_id(chars@),
{
    if chars.len() != 11 {
        return false;
    }
    let mut i: usize = 0;
    while i < chars.len()
        invariant
            i <= chars.len(),
            forall|k: int| 0 <= k < i ==> is_id_char(#[trigger] chars[k]),
        decreases chars.len() - i,
    {
        let c = chars[i];
        let fits = ('a' <= c && c <= 'z') || ('A' <= c && c <= 'Z') || ('0' <= c && c <= '9') || c
            == '_' || c == '-';
        if !fits {
            return false;
        }
        i += 1;
    }
    true
}

/// The full address that an address or a video id stands for.
pub fn normalize_youtube_url(url_or_id: &str) -> (out: Option<String>)
    ensures
        match out {
            Some(address) => normalized(url_or_id@) == Some(address@),
            None => normalized(url_or_id@) is None,
        },
{
    let chars = chars_of(url_or_id);
    if starts_with(&chars, "http://") || starts_with(&chars, "https://") {
        return Some(url_or_id.to_owned());
    }
    let short = chars_of("youtu.be/");
    if matches_at(&chars, &short, 0) {
        let mut address: Vec<char> = Vec::new();
        push_text(&mut address, "https://www.youtube.com/watch?v=");
        let rest = url_or_id.substring_char(short.len(), chars.len());
        push_text(&mut address, rest);
        return Some(string_from(&address));
    }
    if has_id_form(&chars) {
        let mut address: Vec<char> = Vec::new();
        push_text(&mut address, "https://www.youtube.com/watch?v=");
        push_text(&mut address, url_or_id);
        return Some(string_from(&address));
    }
    if contains(&chars, "youtube.com/watch") {
        let mut address: Vec<char> = Vec::new();
        push_text(&mut address, "https://");
        push_text(&mut address, url_or_id);
        return Some(string_from(&address));
    }
    None
}

/// A text without the letters `p` at its end.
pub open spec fn without_trailing_p(text: Seq<char>) -> Seq<char>
    decreases text.len(),
{
    if text.len() > 0 && text.last() == 'p' {
        without_trailing_p(text.drop_last())
    } else {
        text
    }
}

/// The lines of a resolution such as `720p`, if it names a number.
pub open spec fn resolution_height(resolution: Seq<char>) -> Option<u64> {
    number_up_to(without_trailing_p(resolution), u32::MAX as u64)
}

/// The format selector for yt-dlp: the best video and audio, of the
/// container format if one is asked for; limited to the height of the
/// largest resolution, if that names a number; and, for a quality above
/// zero, an alternative limited to one more than the quality.
pub open spec fn selector_text(
    format: Option<Seq<char>>,
    max_resolution: Option<Seq<char>>,
    quality: u8,
) -> Seq<char> {
    (match format {
        Some(f) => "bestvideo[ext="@ + f + "]+bestaudio[ext="@ + f + "]/best[ext="@ + f + "]"@,
        None => "bestvideo+bestaudio/best"@,
    }) + (match max_resolution {
        Some(r) => match resolution_height(r) {
            Some(height) => "[height<="@ + decimal_text(height as nat) + "]"@,
            None => Seq::empty(),
        },
        None => Seq::empty(),
    }) + (if quality > 0 {
        "/best[quality<="@ + decimal_text((quality + 1) as nat) + "]"@
    } else {
        Seq::empty()
    })
}

proof fn lemma_without_trailing_p(text: Seq<char>, end: int)
    requires
        0 <= end <= text.len(),
        forall|i: int| end <= i < text.len() ==> (#[trigger] text[i]) == 'p',
        end == 0 || text[end - 1] != 'p',
    ensures
        without_trailing_p(text) == text.subrange(0, end),
    decreases text.len() - end,
{
    if end < text.len() {
        let shorter = text.drop_last();
        assert forall|i: int| end <= i < shorter.len() implies (#[trigger] shorter[i]) == 'p' by {
            assert(shorter[i] == text[i]);
        }
        if end > 0 {
            assert(shorter[end - 1] == text[end - 1]);
        }
        lemma_without_trailing_p(shorter, end);
        assert(shorter.subrange(0, end) =~= text.subrange(0, end));
    } else {
        assert(text.subrange(0, end) =~= text);
    }
}

/// Reads the lines of a resolution such as `720p`.
pub fn parse_resolution(resolution: &str) -> (out: Option<u64>)
    ensures
        out == resolution_height(resolution@),
{
    let chars = chars_of(resolution);
    let mut end: usize = chars.len();
    while end > 0 && chars[end - 1] == 'p'
        invariant
            end <= chars.len(),
            forall|i: int| end <= i < chars.len() ==> (#[trigger] chars[i]) == 'p',
        decreases end,
    {
        end -= 1;
    }
    proof {
        lemma_without_trailing_p(chars@, end as int);
    }
    parse_number(resolution.substring_char(0, end), u32::MAX as u64)
}

/// The view of an optional text.
pub open spec fn text_view(text: Option<String>) -> Option<Seq<char>> {
    match text {
        Some(t) => Some(t@),
        None => None,
    }
}

impl YouTubeConfig {
    /// The format selector that goes with the configuration.
    pub fn format_selector(&self) -> (out: String)
        ensures
            out@ == selector_text(
                text_view(self.format),
                text_view(self.max_resolution),
                self.quality,
            ),
    {
        let mut selector: Vec<char> = Vec::new();
        match &self.format {
            Some(format) => {
                push_text(&mut selector, "bestvideo[ext=");
                push_text(&mut selector, format.as_str());
                push_text(&mut selector, "]+bestaudio[ext=");
                push_text(&mut selector, format.as_str());
                push_text(&mut selector, "]/best[ext=");
                push_text(&mut selector, format.as_str());
                push_text(&mut selector, "]");
            },
            None => {
                push_text(&mut selector, "bestvideo+bestaudio/best");
            },
        }
        let ghost base = selector@;
        match &self.max_resolution {
            Some(resolution) => {
                match parse_resolution(resolution.as_str()) {
                    Some(height) => {
                        push_text(&mut selector, "[height<=");
                        push_decimal_text(&mut selector, height);
                        push_text(&mut selector, "]");
                    },
                    None => {},
                }
            },
            None => {},
        }
        let ghost limited = selector@;
        if self.quality > 0 {
            push_text(&mut selector, "/best[quality<=");
            push_decimal_text(&mut selector, self.quality as u64 + 1);
            push_text(&mut selector, "]");
        }
        proof {
            assert(selector@ =~= selector_text(
                text_view(self.format),
                text_view(self.max_resolution),
                self.quality,
            ));
        }
        string_from(&selector)
    }
}

} // verus!
