//! The commands of the player's command line.
//!
//! A command is a name and, after the first space, an argument. Reading a
//! command decides what is to be done; doing it is up to the caller.

use vstd::prelude::*;
use vstd::string::{StrSliceExecFns, StringSliceAdditionalSpecFns};
use vstd::utf8::encode_utf8;
use crate::config::RenderMethod;
use crate::text::{
    chars_of, contains, contains_text, equals, lowercase, lowercase_of, number_up_to, parse_number,
    trim, trimmed_text,
};

verus! {

/// The length, in bytes, of a YouTube video id.
pub const VIDEO_ID_LENGTH: usize = 11;

/// The largest quality that can be asked for.
pub const MAX_QUALITY: u8 = 5;

/// What a command asks for.
#[derive(Debug, Clone, PartialEq, Eq)]
pub enum Command {
    /// Go to a position, given as text in seconds.
    Seek(String),
    /// Resume if paused.
    Play,
    /// Pause if playing.
    Pause,
    /// Pause or resume.
    Toggle,
    /// Set the volume.
    Volume(u8),
    /// Open a file or an address.
    Open(String),
    /// Show the file browser.
    Browse,
    /// Go to the main menu.
    Menu,
    /// Open a YouTube address or video id.
    YoutubeOpen(String),
    /// Search YouTube.
    YoutubeSearch(String),
    /// Show the YouTube search.
    YoutubeView,
    /// Set the quality of YouTube streams.
    Quality(u8),
    /// Set the render method.
    Renderer(RenderMethod),
    /// Start over.
    Restart,
    /// Switch the GPU on or off.
    Gpu(bool),
    /// Switch the GPU over.
    GpuToggle,
    /// Show the settings.
    Settings,
    /// Show the help.
    Help,
    /// Leave the player, or the application.
    Quit,
    /// Nothing.
    Nothing,
}

/// Why a command was not understood.
#[derive(Debug, Clone, Copy, PartialEq, Eq, Structural)]
pub enum CommandError {
    /// `seek` without a position.
    SeekNeedsPosition,
    /// `volume` without a level.
    VolumeNeedsLevel,
    /// The volume is not a number from 0 to 255.
    InvalidVolume,
    /// `quality` without a value.
    QualityNeedsValue,
    /// The quality is not a number from 0 to 255.
    InvalidQuality,
    /// The quality is above 5.
    QualityOutOfRange,
    /// `renderer` without a method.
    RendererNeedsMethod,
    /// The render method is not known.
    UnknownRenderMethod,
    /// The GPU setting is neither on nor off.
    InvalidGpuSetting,
    /// The command is not known.
    UnknownCommand,
}

impl CommandError {
    /// The sentence for the user that goes with an error.
    pub open spec fn text(self) -> Seq<char> {
        match self {
            CommandError::SeekNeedsPosition => "Seek command requires a position argument"@,
            CommandError::VolumeNeedsLevel => "Volume command requires a level argument (0-100)"@,
            CommandError::InvalidVolume => "Invalid volume"@,
            CommandError::QualityNeedsValue => "Quality command requires a value argument (0-5)"@,
            CommandError::InvalidQuality => "Invalid quality"@,
            CommandError::QualityOutOfRange => "Quality must be between 0 and 5"@,
            CommandError::RendererNeedsMethod => "Renderer command requires a method argument"@,
            CommandError::UnknownRenderMethod => "Unknown render method"@,
            CommandError::InvalidGpuSetting => "Invalid GPU setting"@,
            CommandError::UnknownCommand => "Unknown command"@,
        }
    }

    /// A sentence for the user.
    pub fn message(&self) -> (out: &'static str)
        ensures
            out@ == self.text(),
    {
        match self {
            CommandError::SeekNeedsPosition => "Seek command requires a position argument",
            CommandError::VolumeNeedsLevel => "Volume command requires a level argument (0-100)",
            CommandError::InvalidVolume => "Invalid volume",
            CommandError::QualityNeedsValue => "Quality command requires a value argument (0-5)",
            CommandError::InvalidQuality => "Invalid quality",
            CommandError::QualityOutOfRange => "Quality must be between 0 and 5",
            CommandError::RendererNeedsMethod => "Renderer command requires a method argument",
            CommandError::UnknownRenderMethod => "Unknown render method",
            CommandError::InvalidGpuSetting => "Invalid GPU setting",
            CommandError::UnknownCommand => "Unknown command",
        }
    }
}

/// What a command asks for, with text as sequences of characters.
pub enum CommandView {
    Seek(Seq<char>),
    Play,
    Pause,
    Toggle,
    Volume(u8),
    Open(Seq<char>),
    Browse,
    Menu,
    YoutubeOpen(Seq<char>),
    YoutubeSearch(Seq<char>),
    YoutubeView,
    Quality(u8),
    Renderer(RenderMethod),
    Restart,
    Gpu(bool),
    GpuToggle,
    Settings,
    Help,
    Quit,
    Nothing,
}

impl View for Command {
    type V = CommandView;

    open spec fn view(&self) -> CommandView {
        match self {
            Command::Seek(text) => CommandView::Seek(text@),
            Command::Play => CommandView::Play,
            Command::Pause => CommandView::Pause,
            Command::Toggle => CommandView::Toggle,
            Command::Volume(level) => CommandView::Volume(*level),
            Command::Open(path) => CommandView::Open(path@),
            Command::Browse => CommandView::Browse,
            Command::Menu => CommandView::Menu,
            Command::YoutubeOpen(address) => CommandView::YoutubeOpen(address@),
            Command::YoutubeSearch(query) => CommandView::YoutubeSearch(query@),
            Command::YoutubeView => CommandView::YoutubeView,
            Command::Quality(value) => CommandView::Quality(*value),
            Command::Renderer(method) => CommandView::Renderer(*method),
            Command::Restart => CommandView::Restart,
            Command::Gpu(on) => CommandView::Gpu(*on),
            Command::GpuToggle => CommandView::GpuToggle,
            Command::Settings => CommandView::Settings,
            Command::Help => CommandView::Help,
            Command::Quit => CommandView::Quit,
            Command::Nothing => CommandView::Nothing,
        }
    }
}

/// The view of the result of reading a command.
pub open spec fn result_view(result: Result<Command, CommandError>) -> Result<
    CommandView,
    CommandError,
> {
    match result {
        Ok(command) => Ok(command@),
        Err(e) => Err(e),
    }
}

/// The number from 0 to 255 that a text stands for: digits, at least one,
/// after at most one plus sign.
pub open spec fn small_number(text: Seq<char>) -> Option<u8> {
    match number_up_to(text, 255) {
        Some(n) => Some(n as u8),
        None => None,
    }
}

/// The render method that a word names.
pub open spec fn named_method(word: Seq<char>) -> Option<RenderMethod> {
    if word == "auto"@ {
        Some(RenderMethod::Auto)
    } else if word == "blocks"@ {
        Some(RenderMethod::Blocks)
    } else if word == "kitty"@ {
        Some(RenderMethod::Kitty)
    } else if word == "sixel"@ {
        Some(RenderMethod::Sixel)
    } else if word == "iterm"@ {
        Some(RenderMethod::ITerm)
    } else {
        None
    }
}

/// The switch position that a word names.
pub open spec fn named_switch(word: Seq<char>) -> Option<bool> {
    if word == "on"@ || word == "true"@ || word == "1"@ || word == "enable"@ || word
        == "enabled"@ {
        Some(true)
    } else if word == "off"@ || word == "false"@ || word == "0"@ || word == "disable"@ || word
        == "disabled"@ {
        Some(false)
    } else {
        None
    }
}

/// A text that is opened as it is rather than searched for: it names
/// YouTube, or is as long as a video id.
pub open spec fn looks_like_video(text: Seq<char>) -> bool {
    contains_text(text, "youtube.com"@) || contains_text(text, "youtu.be"@) || encode_utf8(
        text,
    ).len() == VIDEO_ID_LENGTH
}

/// What a command name in lower case and its argument ask for.
pub open spec fn interpreted(name: Seq<char>, argument: Option<Seq<char>>) -> Result<
    CommandView,
    CommandError,
> {
    if name == "seek"@ || name == "s"@ {
        match argument {
            Some(position) => Ok(CommandView::Seek(position)),
            None => Err(CommandError::SeekNeedsPosition),
        }
    } else if name == "play"@ || name == "p"@ {
        Ok(CommandView::Play)
    } else if name == "pause"@ {
        Ok(CommandView::Pause)
    } else if name == "toggle"@ || name == "t"@ {
        Ok(CommandView::Toggle)
    } else if name == "volume"@ || name == "vol"@ || name == "v"@ {
        match argument {
            Some(level) => match small_number(level) {
                Some(n) => Ok(CommandView::Volume(n)),
                None => Err(CommandError::InvalidVolume),
            },
            None => Err(CommandError::VolumeNeedsLevel),
        }
    } else if name == "open"@ || name == "o"@ {
        match argument {
            Some(path) => Ok(CommandView::Open(path)),
            None => Ok(CommandView::Browse),
        }
    } else if name == "menu"@ || name == "home"@ || name == "main"@ {
        Ok(CommandView::Menu)
    } else if name == "youtube"@ || name == "yt"@ || name == "y"@ {
        match argument {
            Some(query) => if looks_like_video(query) {
                Ok(CommandView::YoutubeOpen(query))
            } else {
                Ok(CommandView::YoutubeSearch(query))
            },
            None => Ok(CommandView::YoutubeView),
        }
    } else if name == "quality"@ || name == "q"@ {
        match argument {
            Some(value) => match small_number(value) {
                Some(n) => if n <= MAX_QUALITY {
                    Ok(CommandView::Quality(n))
                } else {
                    Err(CommandError::QualityOutOfRange)
                },
                None => Err(CommandError::InvalidQuality),
            },
            None => Err(CommandError::QualityNeedsValue),
        }
    } else if name == "renderer"@ || name == "render"@ || name == "r"@ {
        match argument {
            Some(word) => match named_method(word) {
                Some(method) => Ok(CommandView::Renderer(method)),
                None => Err(CommandError::UnknownRenderMethod),
            },
            None => Err(CommandError::RendererNeedsMethod),
        }
    } else if name == "restart"@ {
        Ok(CommandView::Restart)
    } else if name == "gpu"@ {
        match argument {
            Some(word) => match named_switch(word) {
                Some(on) => Ok(CommandView::Gpu(on)),
                None => Err(CommandError::InvalidGpuSetting),
            },
            None => Ok(CommandView::GpuToggle),
        }
    } else if name == "settings"@ || name == "config"@ {
        Ok(CommandView::Settings)
    } else if name == "help"@ || name == "h"@ || name == "?"@ {
        Ok(CommandView::Help)
    } else if name == "quit"@ || name == "exit"@ {
        Ok(CommandView::Quit)
    } else if name.len() == 0 {
        Ok(CommandView::Nothing)
    } else {
        Err(CommandError::UnknownCommand)
    }
}

/// The position of the first space of a text, or its length.
pub open spec fn name_end(text: Seq<char>) -> int
    decreases text.len(),
{
    if text.len() == 0 || text[0] == ' ' {
        0
    } else {
        1 + name_end(text.drop_first())
    }
}

/// The name of a command: the text before the first space.
pub open spec fn name_part(text: Seq<char>) -> Seq<char> {
    text.subrange(0, name_end(text))
}

/// The argument of a command: the text after the first space, if there is
/// one.
pub open spec fn argument_part(text: Seq<char>) -> Option<Seq<char>> {
    if name_end(text) < text.len() {
        Some(text.subrange(name_end(text) + 1, text.len() as int))
    } else {
        None
    }
}

/// The view of an optional text.
pub open spec fn optional_text(text: Option<String>) -> Option<Seq<char>> {
    match text {
        Some(t) => Some(t@),
        None => None,
    }
}

/// What a line asks for: the line is trimmed and split at the first space,
/// the name is lowered, the argument is trimmed.
pub open spec fn parsed(line: Seq<char>) -> Result<CommandView, CommandError> {
    let text = trimmed_text(line);
    interpreted(
        lowercase_of(name_part(text)),
        match argument_part(text) {
            Some(argument) => Some(trimmed_text(argument)),
            None => None,
        },
    )
}

proof fn lemma_name_end(text: Seq<char>, end: int)
    requires
        0 <= end <= text.len(),
        forall|i: int| 0 <= i < end ==> (#[trigger] text[i]) != ' ',
        end == text.len() || text[end] == ' ',
    ensures
        name_end(text) == end,
    decreases end,
{
    if end > 0 {
        let rest = text.drop_first();
        assert forall|i: int| 0 <= i < end - 1 implies (#[trigger] rest[i]) != ' ' by {
            assert(rest[i] == text[i + 1]);
        }
        if end < text.len() {
            assert(rest[end - 1] == text[end]);
        }
        lemma_name_end(rest, end - 1);
    }
}

/// Reads a number from 0 to 255.
pub fn parse_small_number(text: &str) -> (out: Option<u8>)
    ensures
        out == small_number(text@),
{
    match parse_number(text, 255) {
        Some(n) => Some(n as u8),
        None => None,
    }
}

fn parse_method(word: &str) -> (out: Option<RenderMethod>)
    ensures
        out == named_method(word@),
{
    let chars = chars_of(word);
    if equals(&chars, "auto") {
        Some(RenderMethod::Auto)
    } else if equals(&chars, "blocks") {
        Some(RenderMethod::Blocks)
    } else if equals(&chars, "kitty") {
        Some(RenderMethod::Kitty)
    } else if equals(&chars, "sixel") {
        Some(RenderMethod::Sixel)
    } else if equals(&chars, "iterm") {
        Some(RenderMethod::ITerm)
    } else {
        None
    }
}

fn parse_switch(word: &str) -> (out: Option<bool>)
    ensures
        out == named_switch(word@),
{
    let chars = chars_of(word);
    if equals(&chars, "on") || equals(&chars, "true") || equals(&chars, "1") || equals(
        &chars,
        "enable",
    ) || equals(&chars, "enabled") {
        Some(true)
    } else if equals(&chars, "off") || equals(&chars, "false") || equals(&chars, "0") || equals(
        &chars,
        "disable",
    ) || equals(&chars, "disabled") {
        Some(false)
    } else {
        None
    }
}

fn is_video_reference(text: &str) -> (out: bool)
    ensures
        out == looks_like_video(text@),
{
    let chars = chars_of(text);
    contains(&chars, "youtube.com") || contains(&chars, "youtu.be") || text.as_bytes().len()
        == VIDEO_ID_LENGTH
}

/// The reader of the command line.
#[derive(Debug, Clone, Copy)]
pub struct CommandHandler;

impl CommandHandler {
    /// What a command name in lower case and its argument ask for.
    pub fn interpret(name: &str, argument: Option<&str>) -> (out: Result<Command, CommandError>)
        ensures
            result_view(out) == interpreted(
                name@,
                match argument {
                    Some(text) => Some(text@),
                    None => None,
                },
            ),
    {
        let word = chars_of(name);
        if equals(&word, "seek") || equals(&word, "s") {
            match argument {
                Some(position) => Ok(Command::Seek(position.to_owned())),
                None => Err(CommandError::SeekNeedsPosition),
            }
        } else if equals(&word, "play") || equals(&word, "p") {
            Ok(Command::Play)
        } else if equals(&word, "pause") {
            Ok(Command::Pause)
        } else if equals(&word, "toggle") || equals(&word, "t") {
            Ok(Command::Toggle)
        } else if equals(&word, "volume") || equals(&word, "vol") || equals(&word, "v") {
            match argument {
                Some(level) => match parse_small_number(level) {
                    Some(n) => Ok(Command::Volume(n)),
                    None => Err(CommandError::InvalidVolume),
                },
                None => Err(CommandError::VolumeNeedsLevel),
            }
        } else if equals(&word, "open") || equals(&word, "o") {
            match argument {
                Some(path) => Ok(Command::Open(path.to_owned())),
                None => Ok(Command::Browse),
            }
        } else if equals(&word, "menu") || equals(&word, "home") || equals(&word, "main") {
            Ok(Command::Menu)
        } else if equals(&word, "youtube") || equals(&word, "yt") || equals(&word, "y") {
            match argument {
                Some(query) => if is_video_reference(query) {
                    Ok(Command::YoutubeOpen(query.to_owned()))
                } else {
                    Ok(Command::YoutubeSearch(query.to_owned()))
                },
                None => Ok(Command::YoutubeView),
            }
        } else if equals(&word, "quality") || equals(&word, "q") {
            match argument {
                Some(value) => match parse_small_number(value) {
                    Some(n) => if n <= MAX_QUALITY {
                        Ok(Command::Quality(n))
                    } else {
                        Err(CommandError::QualityOutOfRange)
                    },
                    None => Err(CommandError::InvalidQuality),
                },
                None => Err(CommandError::QualityNeedsValue),
            }
        } else if equals(&word, "renderer") || equals(&word, "render") || equals(&word, "r") {
            match argument {
                Some(method) => match parse_method(method) {
                    Some(method) => Ok(Command::Renderer(method)),
                    None => Err(CommandError::UnknownRenderMethod),
                },
                None => Err(CommandError::RendererNeedsMethod),
            }
        } else if equals(&word, "restart") {
            Ok(Command::Restart)
        } else if equals(&word, "gpu") {
            match argument {
                Some(setting) => match parse_switch(setting) {
                    Some(on) => Ok(Command::Gpu(on)),
                    None => Err(CommandError::InvalidGpuSetting),
                },
                None => Ok(Command::GpuToggle),
            }
        } else if equals(&word, "settings") || equals(&word, "config") {
            Ok(Command::Settings)
        } else if equals(&word, "help") || equals(&word, "h") || equals(&word, "?") {
            Ok(Command::Help)
        } else if equals(&word, "quit") || equals(&word, "exit") {
            Ok(Command::Quit)
        } else if word.len() == 0 {
            Ok(Command::Nothing)
        } else {
            Err(CommandError::UnknownCommand)
        }
    }

    /// Splits a line at its first space into the name of a command and its
    /// argument. A line without a space has no argument.
    pub fn split(line: &str) -> (out: (String, Option<String>))
        ensures
            out.0@ == name_part(line@),
            optional_text(out.1) == argument_part(line@),
    {
        let chars = chars_of(line);
        let mut end: usize = 0;
        while end < chars.len() && chars[end] != ' '
            invariant
                end <= chars.len(),
                forall|i: int| 0 <= i < end ==> (#[trigger] chars[i]) != ' ',
            decreases chars.len() - end,
        {
            end += 1;
        }
        proof {
            lemma_name_end(chars@, end as int);
        }
        let name = line.substring_char(0, end).to_owned();
        if end < chars.len() {
            (name, Some(line.substring_char(end + 1, chars.len()).to_owned()))
        } else {
            (name, None)
        }
    }

    /// Reads a line of the command line.
    pub fn parse(line: &str) -> (out: Result<Command, CommandError>)
        ensures
            result_view(out) == parsed(line@),
    {
        let text = trim(line);
        let (name, argument) = CommandHandler::split(text.as_str());
        let name = lowercase(name.as_str());
        match argument {
            Some(rest) => {
                let argument = trim(rest.as_str());
                CommandHandler::interpret(name.as_str(), Some(argument.as_str()))
            },
            None => CommandHandler::interpret(name.as_str(), None),
        }
    }
}

} // verus!
