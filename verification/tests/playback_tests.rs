use termplay::media::{normalize_youtube_url, parse_resolution, YouTubeConfig};
use termplay::playback::{
    buffer_capacity, clamp_volume, clicked_button, clicked_position, frame_rate_or_default,
    seek_target, wants_prefetch,
};
use termplay::text::parse_number;

#[test]
fn youtube_addresses_are_normalized() {
    let full = "https://www.youtube.com/watch?v=dQw4w9WgXcQ";
    assert_eq!(normalize_youtube_url(full).as_deref(), Some(full));
    assert_eq!(normalize_youtube_url("http://x.y/z").as_deref(), Some("http://x.y/z"));
    assert_eq!(normalize_youtube_url("youtu.be/dQw4w9WgXcQ").as_deref(), Some(full));
    assert_eq!(
        normalize_youtube_url("youtu.be/").as_deref(),
        Some("https://www.youtube.com/watch?v=")
    );
    assert_eq!(normalize_youtube_url("dQw4w9WgXcQ").as_deref(), Some(full));
    assert_eq!(
        normalize_youtube_url("a_b-c_d-e_f").as_deref(),
        Some("https://www.youtube.com/watch?v=a_b-c_d-e_f")
    );
    assert_eq!(
        normalize_youtube_url("www.youtube.com/watch?v=abc").as_deref(),
        Some("https://www.youtube.com/watch?v=abc")
    );
    assert_eq!(normalize_youtube_url("dQw4w9WgXc"), None);
    assert_eq!(normalize_youtube_url("dQw4w9WgXc!"), None);
    assert_eq!(normalize_youtube_url("dQw4w9WgXc\u{e9}"), None);
    assert_eq!(normalize_youtube_url(""), None);
    assert_eq!(normalize_youtube_url("vimeo.com/1"), None);
}

#[test]
fn format_selector_follows_the_configuration() {
    let config = YouTubeConfig::default();
    assert_eq!(
        config.format_selector(),
        "bestvideo[ext=mp4]+bestaudio[ext=mp4]/best[ext=mp4][height<=720]/best[quality<=2]"
    );
    let plain = YouTubeConfig { format: None, max_resolution: None, quality: 0, ..config.clone() };
    assert_eq!(plain.format_selector(), "bestvideo+bestaudio/best");
    let odd = YouTubeConfig {
        format: Some("webm".to_string()),
        max_resolution: Some("high".to_string()),
        quality: 9,
        ..config.clone()
    };
    assert_eq!(
        odd.format_selector(),
        "bestvideo[ext=webm]+bestaudio[ext=webm]/best[ext=webm]/best[quality<=10]"
    );
    let tall = YouTubeConfig { max_resolution: Some("1080ppp".to_string()), quality: 255, ..config };
    assert!(tall.format_selector().ends_with("[height<=1080]/best[quality<=256]"));
}

#[test]
fn resolutions_and_numbers_are_read() {
    assert_eq!(parse_resolution("720p"), Some(720));
    assert_eq!(parse_resolution("720"), Some(720));
    assert_eq!(parse_resolution("+480pp"), Some(480));
    assert_eq!(parse_resolution("p"), None);
    assert_eq!(parse_resolution(""), None);
    assert_eq!(parse_resolution("720i"), None);
    assert_eq!(parse_resolution("4294967295p"), Some(4294967295));
    assert_eq!(parse_resolution("4294967296p"), None);
    assert_eq!(parse_number("42", 42), Some(42));
    assert_eq!(parse_number("43", 42), None);
    assert_eq!(parse_number("00042", 42), Some(42));
    assert_eq!(parse_number("4 2", 42), None);
    assert_eq!(parse_number("999999999999999999999999", 1_000_000_000_000), None);
    assert_eq!(parse_number("1000000000000", 1_000_000_000_000), Some(1_000_000_000_000));
}

#[test]
fn playback_rules() {
    assert_eq!(buffer_capacity(30_000), 150);
    assert_eq!(buffer_capacity(23_976), 120);
    assert_eq!(buffer_capacity(0), 0);
    assert_eq!(buffer_capacity(1), 1);
    assert!(wants_prefetch(74, 150));
    assert!(!wants_prefetch(75, 150));
    assert!(!wants_prefetch(0, 1));
    assert_eq!(frame_rate_or_default(30, 1), 30_000);
    assert_eq!(frame_rate_or_default(30000, 1001), 29_970);
    assert_eq!(frame_rate_or_default(0, 1), 30_000);
    assert_eq!(frame_rate_or_default(1, 0), 30_000);
    assert_eq!(frame_rate_or_default(-30, 1), 30_000);
    assert_eq!(frame_rate_or_default(-30, -1), 30_000);
    assert_eq!(frame_rate_or_default(1000, 1), 1_000_000);
    assert_eq!(frame_rate_or_default(1001, 1), 30_000);
    assert_eq!(clamp_volume(-5), 0);
    assert_eq!(clamp_volume(0), 0);
    assert_eq!(clamp_volume(55), 55);
    assert_eq!(clamp_volume(100), 100);
    assert_eq!(clamp_volume(101), 100);
    assert_eq!(seek_target(10_000_000, -30_000_000), 0);
    assert_eq!(seek_target(10_000_000, 5_000_000), 15_000_000);
    assert_eq!(seek_target(i64::MAX, 1), i64::MAX);
    assert_eq!(seek_target(i64::MIN, i64::MIN), 0);
}

#[test]
fn clicks_hit_buttons_and_positions() {
    let hits: Vec<usize> = (0..10).map(|column| clicked_button(column, 0, 10)).collect();
    assert_eq!(hits, [0, 0, 1, 1, 2, 2, 3, 3, 4, 4]);
    assert_eq!(clicked_button(3, 5, 10), 0);
    assert_eq!(clicked_button(500, 5, 10), 4);
    assert_eq!(clicked_button(7, 5, 1), 4);
    assert_eq!(clicked_position(0, 1, 78, 60_000_000), 0);
    assert_eq!(clicked_position(40, 1, 78, 60_000_000), 30_000_000);
    assert_eq!(clicked_position(79, 1, 78, 60_000_000), 60_000_000);
    assert_eq!(clicked_position(500, 1, 78, 60_000_000), 60_000_000);
    assert_eq!(clicked_position(2, 1, 3, 10), 3);
    assert_eq!(clicked_position(65535, 0, 65535, i64::MAX), i64::MAX);
}
