use termplay::commands::{Command, CommandError, CommandHandler};
use termplay::config::RenderMethod;
use termplay::ui::{format_duration, is_listed_audio, is_listed_video};

fn parse(line: &str) -> Result<Command, CommandError> {
    CommandHandler::parse(line)
}

#[test]
fn commands_are_read_by_name() {
    assert_eq!(parse("play"), Ok(Command::Play));
    assert_eq!(parse("p"), Ok(Command::Play));
    assert_eq!(parse("pause"), Ok(Command::Pause));
    assert_eq!(parse("toggle"), Ok(Command::Toggle));
    assert_eq!(parse("t"), Ok(Command::Toggle));
    assert_eq!(parse("menu"), Ok(Command::Menu));
    assert_eq!(parse("home"), Ok(Command::Menu));
    assert_eq!(parse("main"), Ok(Command::Menu));
    assert_eq!(parse("restart"), Ok(Command::Restart));
    assert_eq!(parse("settings"), Ok(Command::Settings));
    assert_eq!(parse("config"), Ok(Command::Settings));
    assert_eq!(parse("help"), Ok(Command::Help));
    assert_eq!(parse("h"), Ok(Command::Help));
    assert_eq!(parse("?"), Ok(Command::Help));
    assert_eq!(parse("quit"), Ok(Command::Quit));
    assert_eq!(parse("exit"), Ok(Command::Quit));
    assert_eq!(parse(""), Ok(Command::Nothing));
    assert_eq!(parse("   \t "), Ok(Command::Nothing));
    assert_eq!(parse("  PLAY  "), Ok(Command::Play));
    assert_eq!(parse("Play ignored argument"), Ok(Command::Play));
    assert_eq!(parse("dance"), Err(CommandError::UnknownCommand));
    assert_eq!(parse("pla"), Err(CommandError::UnknownCommand));
}

#[test]
fn commands_with_arguments() {
    assert_eq!(parse("seek 12.5"), Ok(Command::Seek("12.5".to_string())));
    assert_eq!(parse("s   90  "), Ok(Command::Seek("90".to_string())));
    assert_eq!(parse("seek"), Err(CommandError::SeekNeedsPosition));
    assert_eq!(parse("volume 80"), Ok(Command::Volume(80)));
    assert_eq!(parse("vol +7"), Ok(Command::Volume(7)));
    assert_eq!(parse("v 255"), Ok(Command::Volume(255)));
    assert_eq!(parse("v 256"), Err(CommandError::InvalidVolume));
    assert_eq!(parse("v 0007"), Ok(Command::Volume(7)));
    assert_eq!(parse("v -1"), Err(CommandError::InvalidVolume));
    assert_eq!(parse("v +"), Err(CommandError::InvalidVolume));
    assert_eq!(parse("v 1 2"), Err(CommandError::InvalidVolume));
    assert_eq!(parse("v 99999999999999999999"), Err(CommandError::InvalidVolume));
    assert_eq!(parse("volume"), Err(CommandError::VolumeNeedsLevel));
    assert_eq!(parse("open /tmp/a b.mp4"), Ok(Command::Open("/tmp/a b.mp4".to_string())));
    assert_eq!(parse("o"), Ok(Command::Browse));
    assert_eq!(parse("quality 5"), Ok(Command::Quality(5)));
    assert_eq!(parse("q 0"), Ok(Command::Quality(0)));
    assert_eq!(parse("q 6"), Err(CommandError::QualityOutOfRange));
    assert_eq!(parse("q x"), Err(CommandError::InvalidQuality));
    assert_eq!(parse("q"), Err(CommandError::QualityNeedsValue));
    assert_eq!(parse("renderer kitty"), Ok(Command::Renderer(RenderMethod::Kitty)));
    assert_eq!(parse("render auto"), Ok(Command::Renderer(RenderMethod::Auto)));
    assert_eq!(parse("r blocks"), Ok(Command::Renderer(RenderMethod::Blocks)));
    assert_eq!(parse("r sixel"), Ok(Command::Renderer(RenderMethod::Sixel)));
    assert_eq!(parse("r iterm"), Ok(Command::Renderer(RenderMethod::ITerm)));
    assert_eq!(parse("r Kitty"), Err(CommandError::UnknownRenderMethod));
    assert_eq!(parse("r"), Err(CommandError::RendererNeedsMethod));
    assert_eq!(parse("gpu"), Ok(Command::GpuToggle));
    for on in ["on", "true", "1", "enable", "enabled"] {
        assert_eq!(parse(&format!("gpu {on}")), Ok(Command::Gpu(true)));
    }
    for off in ["off", "false", "0", "disable", "disabled"] {
        assert_eq!(parse(&format!("GPU {off}")), Ok(Command::Gpu(false)));
    }
    assert_eq!(parse("gpu maybe"), Err(CommandError::InvalidGpuSetting));
}

#[test]
fn youtube_command_opens_or_searches() {
    assert_eq!(parse("yt"), Ok(Command::YoutubeView));
    assert_eq!(
        parse("youtube https://youtube.com/watch?v=abc"),
        Ok(Command::YoutubeOpen("https://youtube.com/watch?v=abc".to_string()))
    );
    assert_eq!(parse("y youtu.be/x"), Ok(Command::YoutubeOpen("youtu.be/x".to_string())));
    assert_eq!(parse("y dQw4w9WgXcQ"), Ok(Command::YoutubeOpen("dQw4w9WgXcQ".to_string())));
    assert_eq!(parse("y rust verus"), Ok(Command::YoutubeSearch("rust verus".to_string())));
    // the length counts bytes: ten letters and one two-byte letter are twelve
    assert_eq!(
        parse("y abcdefghij\u{e9}"),
        Ok(Command::YoutubeSearch("abcdefghij\u{e9}".to_string()))
    );
    assert_eq!(
        parse("y abcdefghi\u{e9}"),
        Ok(Command::YoutubeOpen("abcdefghi\u{e9}".to_string()))
    );
}

#[test]
fn interpret_takes_the_name_as_it_is() {
    assert_eq!(CommandHandler::interpret("play", None), Ok(Command::Play));
    assert_eq!(CommandHandler::interpret("PLAY", None), Err(CommandError::UnknownCommand));
    assert_eq!(CommandHandler::interpret("", Some("x")), Ok(Command::Nothing));
    assert_eq!(CommandHandler::interpret("v", Some(" 5")), Err(CommandError::InvalidVolume));
    assert_eq!(CommandError::UnknownCommand.message(), "Unknown command");
}

#[test]
fn durations_are_formatted() {
    let text = |s: u64| format_duration(s);
    assert_eq!(text(0), "00:00");
    assert_eq!(text(59), "00:59");
    assert_eq!(text(60), "01:00");
    assert_eq!(text(3599), "59:59");
    assert_eq!(text(3600), "01:00:00");
    assert_eq!(text(3661), "01:01:01");
    assert_eq!(text(360_000), "100:00:00");
}

#[test]
fn lines_are_split_at_the_first_space() {
    let split = |line: &str| CommandHandler::split(line);
    assert_eq!(split("seek 12.5"), ("seek".to_string(), Some("12.5".to_string())));
    assert_eq!(split("open  a b "), ("open".to_string(), Some(" a b ".to_string())));
    assert_eq!(split("play"), ("play".to_string(), None));
    assert_eq!(split("play "), ("play".to_string(), Some(String::new())));
    assert_eq!(split(" x"), (String::new(), Some("x".to_string())));
    assert_eq!(split(""), (String::new(), None));
    assert_eq!(split("v\u{e9}lo \u{e9}t\u{e9}"), ("v\u{e9}lo".to_string(), Some("\u{e9}t\u{e9}".to_string())));
    // a tab is no space
    assert_eq!(split("a\tb c"), ("a\tb".to_string(), Some("c".to_string())));
}

#[test]
fn extension_lists_take_lower_case_only() {
    for extension in ["mp4", "mkv", "avi", "mov", "webm", "flv", "wmv", "3gp", "m4v"] {
        assert!(is_listed_video(extension), "{extension}");
        assert!(!is_listed_audio(extension), "{extension}");
    }
    for extension in ["mp3", "ogg", "wav", "flac", "aac", "wma", "m4a"] {
        assert!(is_listed_audio(extension), "{extension}");
        assert!(!is_listed_video(extension), "{extension}");
    }
    for extension in ["MP4", "Mp3", "", "mp", "mp44", ".mp4", "m\u{212a}v"] {
        assert!(!is_listed_video(extension), "{extension}");
        assert!(!is_listed_audio(extension), "{extension}");
    }
}
