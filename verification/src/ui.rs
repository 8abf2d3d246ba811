//! The state behind the widgets of the player: the row of playback buttons,
//! the volume display, the help overlay, the spinner, and the test of a file
//! name for playable media.

use vstd::prelude::*;
use crate::text::{
    chars_of, contains_text, decimal_text, equals, lowercase, lowercase_of, push_decimal_text,
    string_from,
};

verus! {

/// The number of buttons in the playback row.
pub const BUTTON_COUNT: usize = 5;

/// Milliseconds that one frame of the spinner is shown.
pub const SPINNER_FRAME_MS: u128 = 80;

/// The number of frames of the spinner.
pub const SPINNER_FRAMES: u128 = 10;

/// What the playback row shows.
pub struct ControlsView {
    pub is_playing: bool,
    pub can_rewind: bool,
    pub can_fast_forward: bool,
    pub selected: Option<usize>,
    pub show_keyboard_hints: bool,
}

/// The row of playback buttons.
#[derive(Debug)]
pub struct PlaybackControls {
    is_playing: bool,
    can_rewind: bool,
    can_fast_forward: bool,
    selected: Option<usize>,
    show_keyboard_hints: bool,
}

/// What a button does.
#[derive(Clone, Copy, Debug, PartialEq, Eq, Structural)]
pub enum ControlAction {
    /// Thirty seconds back.
    BackLong,
    /// Five seconds back.
    BackShort,
    /// Pause while playing, play while paused.
    TogglePlay,
    /// Five seconds forward.
    ForwardShort,
    /// Thirty seconds forward.
    ForwardLong,
}

/// One button of the playback row.
#[derive(Clone, Copy, Debug, PartialEq, Eq, Structural)]
pub struct ControlButton {
    /// What the button does.
    pub action: ControlAction,
    /// Whether it can be used.
    pub enabled: bool,
    /// Whether it is the selected one.
    pub selected: bool,
}

impl ControlsView {
    /// What button `index` does.
    pub open spec fn action_at(index: int) -> ControlAction {
        if index == 0 {
            ControlAction::BackLong
        } else if index == 1 {
            ControlAction::BackShort
        } else if index == 2 {
            ControlAction::TogglePlay
        } else if index == 3 {
            ControlAction::ForwardShort
        } else {
            ControlAction::ForwardLong
        }
    }

    /// Button `index` of the row: the two on the left rewind, the two on the
    /// right go forward, the one in the middle can always be used.
    pub open spec fn button(self, index: int) -> ControlButton {
        ControlButton {
            action: Self::action_at(index),
            enabled: if index < 2 {
                self.can_rewind
            } else if index == 2 {
                true
            } else {
                self.can_fast_forward
            },
            selected: self.selected == Some(index as usize),
        }
    }
}

impl View for PlaybackControls {
    type V = ControlsView;

    closed spec fn view(&self) -> ControlsView {
        ControlsView {
            is_playing: self.is_playing,
            can_rewind: self.can_rewind,
            can_fast_forward: self.can_fast_forward,
            selected: self.selected,
            show_keyboard_hints: self.show_keyboard_hints,
        }
    }
}

impl PlaybackControls {
    /// A row in which every button can be used, none is selected, and the
    /// keys are shown.
    pub fn new(is_playing: bool) -> (out: PlaybackControls)
        ensures
            out@ == (ControlsView {
                is_playing,
                can_rewind: true,
                can_fast_forward: true,
                selected: None,
                show_keyboard_hints: true,
            }),
    {
        PlaybackControls {
            is_playing,
            can_rewind: true,
            can_fast_forward: true,
            selected: None,
            show_keyboard_hints: true,
        }
    }

    /// Sets whether the rewind buttons can be used.
    pub fn can_rewind(self, can_rewind: bool) -> (out: PlaybackControls)
        ensures
            out@ == (ControlsView { can_rewind, ..self@ }),
    {
        let mut out = self;
        out.can_rewind = can_rewind;
        out
    }

    /// Sets whether the forward buttons can be used.
    pub fn can_fast_forward(self, can_fast_forward: bool) -> (out: PlaybackControls)
        ensures
            out@ == (ControlsView { can_fast_forward, ..self@ }),
    {
        let mut out = self;
        out.can_fast_forward = can_fast_forward;
        out
    }

    /// Sets the selected button.
    pub fn selected(self, index: Option<usize>) -> (out: PlaybackControls)
        ensures
            out@ == (ControlsView { selected: index, ..self@ }),
    {
        let mut out = self;
        out.selected = index;
        out
    }

    /// Sets whether the key of each button is shown.
    pub fn show_keyboard_hints(self, show: bool) -> (out: PlaybackControls)
        ensures
            out@ == (ControlsView { show_keyboard_hints: show, ..self@ }),
    {
        let mut out = self;
        out.show_keyboard_hints = show;
        out
    }

    /// Whether the player is playing.
    pub fn is_playing(&self) -> (out: bool)
        ensures
            out == self@.is_playing,
    {
        self.is_playing
    }

    /// Whether the key of each button is shown.
    pub fn shows_keyboard_hints(&self) -> (out: bool)
        ensures
            out == self@.show_keyboard_hints,
    {
        self.show_keyboard_hints
    }

    /// Button `index` of the row, counted from the left.
    pub fn button(&self, index: usize) -> (out: ControlButton)
        requires
            index < BUTTON_COUNT,
        ensures
            out == self@.button(index as int),
    {
        let action = if index == 0 {
            ControlAction::BackLong
        } else if index == 1 {
            ControlAction::BackShort
        } else if index == 2 {
            ControlAction::TogglePlay
        } else if index == 3 {
            ControlAction::ForwardShort
        } else {
            ControlAction::ForwardLong
        };
        let enabled = if index < 2 {
            self.can_rewind
        } else if index == 2 {
            true
        } else {
            self.can_fast_forward
        };
        let selected = match self.selected {
            Some(chosen) => chosen == index,
            None => false,
        };
        ControlButton { action, enabled, selected }
    }
}

/// How loud the volume display looks.
#[derive(Clone, Copy, Debug, PartialEq, Eq, Structural)]
pub enum VolumeLevel {
    /// The sound is muted.
    Muted,
    /// The volume is zero.
    Silent,
    /// Below 30.
    Low,
    /// Below 70.
    Medium,
    /// 70 and above.
    High,
}

/// The level that a volume and a mute switch show as.
pub open spec fn volume_level(volume: u8, muted: bool) -> VolumeLevel {
    if muted {
        VolumeLevel::Muted
    } else if volume == 0 {
        VolumeLevel::Silent
    } else if volume < 30 {
        VolumeLevel::Low
    } else if volume < 70 {
        VolumeLevel::Medium
    } else {
        VolumeLevel::High
    }
}

/// The volume display.
#[derive(Debug)]
pub struct VolumeIndicator {
    volume: u8,
    muted: bool,
}

impl VolumeIndicator {
    /// The volume shown, from 0 to 100.
    pub closed spec fn shown_volume(&self) -> u8 {
        self.volume
    }

    /// Whether the sound is shown as muted.
    pub closed spec fn shown_muted(&self) -> bool {
        self.muted
    }

    /// A display of a volume, which is cut off at 100.
    pub fn new(volume: u8, muted: bool) -> (out: VolumeIndicator)
        ensures
            out.shown_volume() == (if volume > 100 {
                100u8
            } else {
                volume
            }),
            out.shown_muted() == muted,
    {
        VolumeIndicator {
            volume: if volume > 100 {
                100
            } else {
                volume
            },
            muted,
        }
    }

    /// The volume shown.
    pub fn volume(&self) -> (out: u8)
        ensures
            out == self.shown_volume(),
    {
        self.volume
    }

    /// Whether the sound is shown as muted.
    pub fn is_muted(&self) -> (out: bool)
        ensures
            out == self.shown_muted(),
    {
        self.muted
    }

    /// The level that the display shows.
    pub fn level(&self) -> (out: VolumeLevel)
        ensures
            out == volume_level(self.shown_volume(), self.shown_muted()),
    {
        if self.muted {
            VolumeLevel::Muted
        } else if self.volume == 0 {
            VolumeLevel::Silent
        } else if self.volume < 30 {
            VolumeLevel::Low
        } else if self.volume < 70 {
            VolumeLevel::Medium
        } else {
            VolumeLevel::High
        }
    }
}

/// The help overlay.
#[derive(Debug)]
pub struct HelpOverlay {
    show_advanced: bool,
}

impl HelpOverlay {
    /// Whether the advanced controls are listed.
    pub closed spec fn advanced(&self) -> bool {
        self.show_advanced
    }

    /// An overlay that lists the advanced controls or not.
    pub fn new(show_advanced: bool) -> (out: HelpOverlay)
        ensures
            out.advanced() == show_advanced,
    {
        HelpOverlay { show_advanced }
    }

    /// Whether the advanced controls are listed.
    pub fn shows_advanced(&self) -> (out: bool)
        ensures
            out == self.advanced(),
    {
        self.show_advanced
    }
}

/// A number in at least two digits.
pub open spec fn two_digits(n: nat) -> Seq<char> {
    if n < 10 {
        seq!['0'] + decimal_text(n)
    } else {
        decimal_text(n)
    }
}

/// A duration as `MM:SS`, or as `HH:MM:SS` from one hour on.
pub open spec fn duration_text(total_seconds: nat) -> Seq<char> {
    let hours = total_seconds / 3600;
    let minutes = (total_seconds % 3600) / 60;
    let seconds = total_seconds % 60;
    if hours > 0 {
        two_digits(hours) + seq![':'] + two_digits(minutes) + seq![':'] + two_digits(seconds)
    } else {
        two_digits(minutes) + seq![':'] + two_digits(seconds)
    }
}

fn push_two_digits(out: &mut Vec<char>, n: u64)
    ensures
        final(out)@ == old(out)@ + two_digits(n as nat),
{
    if n < 10 {
        out.push('0');
    }
    push_decimal_text(out, n);
    assert(out@ =~= old(out)@ + two_digits(n as nat));
}

/// Formats a duration of whole seconds.
pub fn format_duration(total_seconds: u64) -> (out: String)
    ensures
        out@ == duration_text(total_seconds as nat),
{
    let hours = total_seconds / 3600;
    let minutes = (total_seconds % 3600) / 60;
    let seconds = total_seconds % 60;
    let mut text: Vec<char> = Vec::new();
    if hours > 0 {
        push_two_digits(&mut text, hours);
        text.push(':');
    }
    push_two_digits(&mut text, minutes);
    text.push(':');
    push_two_digits(&mut text, seconds);
    assert(text@ =~= duration_text(total_seconds as nat));
    string_from(&text)
}

/// Frame `index` of the spinner, a braille pattern.
pub open spec fn spinner_frame(index: int) -> Seq<char> {
    if index == 0 {
        "\u{280b}"@
    } else if index == 1 {
        "\u{2819}"@
    } else if index == 2 {
        "\u{281a}"@
    } else if index == 3 {
        "\u{281e}"@
    } else if index == 4 {
        "\u{2816}"@
    } else if index == 5 {
        "\u{2826}"@
    } else if index == 6 {
        "\u{2834}"@
    } else if index == 7 {
        "\u{2832}"@
    } else if index == 8 {
        "\u{2833}"@
    } else {
        "\u{2813}"@
    }
}

/// The frame of the spinner after `duration_ms` milliseconds: the frames
/// take turns, each for 80 milliseconds.
pub fn get_spinner_frame(duration_ms: u128) -> (out: &'static str)
    ensures
        out@ == spinner_frame((duration_ms / SPINNER_FRAME_MS) as int % SPINNER_FRAMES as int),
{
    let index = (duration_ms / SPINNER_FRAME_MS) % SPINNER_FRAMES;
    if index == 0 {
        "\u{280b}"
    } else if index == 1 {
        "\u{2819}"
    } else if index == 2 {
        "\u{281a}"
    } else if index == 3 {
        "\u{281e}"
    } else if index == 4 {
        "\u{2816}"
    } else if index == 5 {
        "\u{2826}"
    } else if index == 6 {
        "\u{2834}"
    } else if index == 7 {
        "\u{2832}"
    } else if index == 8 {
        "\u{2833}"
    } else {
        "\u{2813}"
    }
}

/// An extension, in lower case, of a video file.
pub open spec fn names_video(extension: Seq<char>) -> bool {
    extension == "mp4"@ || extension == "mkv"@ || extension == "avi"@ || extension == "mov"@
        || extension == "webm"@ || extension == "flv"@ || extension == "wmv"@ || extension
        == "3gp"@ || extension == "m4v"@
}

/// An extension, in lower case, of an audio file.
pub open spec fn names_audio(extension: Seq<char>) -> bool {
    extension == "mp3"@ || extension == "ogg"@ || extension == "wav"@ || extension == "flac"@
        || extension == "aac"@ || extension == "wma"@ || extension == "m4a"@
}

/// What holds of the extension of a path on every platform: it follows a
/// dot in the path, and holds no dot itself.
pub open spec fn is_extension_in(path: Seq<char>, extension: Seq<char>) -> bool {
    contains_text(path, seq!['.'] + extension) && !extension.contains('.')
}

/// A path that holds a dot.
pub open spec fn has_dot(path: Seq<char>) -> bool {
    path.contains('.')
}

/// A path that is a file name and nothing else on every platform: it holds
/// no separator and no colon, and does not begin with a dot.
pub open spec fn is_bare_name(path: Seq<char>) -> bool {
    &&& path.len() > 0
    &&& path[0] != '.'
    &&& !path.contains('/')
    &&& !path.contains('\\')
    &&& !path.contains(':')
}

/// The text after the last dot of a text; the text itself if it holds no
/// dot.
pub open spec fn after_last_dot(text: Seq<char>) -> Seq<char>
    decreases text.len(),
{
    if text.len() == 0 {
        text
    } else if text.last() == '.' {
        Seq::empty()
    } else {
        after_last_dot(text.drop_last()).push(text.last())
    }
}

/// Calls `Path::extension` on a path given as text. Trusted: an extension
/// is what follows the last dot of the file name, so a path without a dot
/// has none, and a path that is a bare file name with a dot in it has the
/// text after its last dot. Which part of any other path is its file name
/// depends on the platform, so of those only the first clause is claimed.
#[verifier::external_body]
fn path_extension(path: &str) -> (out: Option<String>)
    ensures
        out matches Some(extension) ==> is_extension_in(path@, extension@),
        out is Some ==> has_dot(path@),
        is_bare_name(path@) && has_dot(path@) ==> out is Some,
        out matches Some(extension) ==> (is_bare_name(path@) ==> extension@ == after_last_dot(
            path@,
        )),
{
    std::path::Path::new(path).extension().map(|extension| extension.to_string_lossy().into_owned())
}

/// Whether an extension, in lower case, is on the list of video extensions.
pub fn is_listed_video(extension: &str) -> (out: bool)
    ensures
        out == names_video(extension@),
{
    let chars = chars_of(extension);
    equals(&chars, "mp4") || equals(&chars, "mkv") || equals(&chars, "avi") || equals(
        &chars,
        "mov",
    ) || equals(&chars, "webm") || equals(&chars, "flv") || equals(&chars, "wmv") || equals(
        &chars,
        "3gp",
    ) || equals(&chars, "m4v")
}

/// Whether an extension is one of a video file, whatever its case.
pub fn is_video_extension(extension: &str) -> (out: bool)
    ensures
        out == names_video(lowercase_of(extension@)),
{
    let lower = lowercase(extension);
    is_listed_video(lower.as_str())
}

/// Whether an extension, in lower case, is on the list of audio extensions.
pub fn is_listed_audio(extension: &str) -> (out: bool)
    ensures
        out == names_audio(extension@),
{
    let chars = chars_of(extension);
    equals(&chars, "mp3") || equals(&chars, "ogg") || equals(&chars, "wav") || equals(
        &chars,
        "flac",
    ) || equals(&chars, "aac") || equals(&chars, "wma") || equals(&chars, "m4a")
}

/// Whether an extension is one of an audio file, whatever its case.
pub fn is_audio_extension(extension: &str) -> (out: bool)
    ensures
        out == names_audio(lowercase_of(extension@)),
{
    let lower = lowercase(extension);
    is_listed_audio(lower.as_str())
}

/// Whether a path names a video file, going by its extension. A path
/// without a dot never does; a bare file name does exactly if the text after
/// its last dot is one of the video extensions, whatever its case.
pub fn is_video_file(path: &str) -> (out: bool)
    ensures
        out ==> exists|extension: Seq<char>|
            is_extension_in(path@, extension) && names_video(lowercase_of(extension)),
        !has_dot(path@) ==> !out,
        is_bare_name(path@) ==> out == (has_dot(path@) && names_video(
            lowercase_of(after_last_dot(path@)),
        )),
{
    match path_extension(path) {
        Some(extension) => is_video_extension(extension.as_str()),
        None => false,
    }
}

/// Whether a path names an audio file, going by its extension. A path
/// without a dot never does; a bare file name does exactly if the text after
/// its last dot is one of the audio extensions, whatever its case.
pub fn is_audio_file(path: &str) -> (out: bool)
    ensures
        out ==> exists|extension: Seq<char>|
            is_extension_in(path@, extension) && names_audio(lowercase_of(extension)),
        !has_dot(path@) ==> !out,
        is_bare_name(path@) ==> out == (has_dot(path@) && names_audio(
            lowercase_of(after_last_dot(path@)),
        )),
{
    match path_extension(path) {
        Some(extension) => is_audio_extension(extension.as_str()),
        None => false,
    }
}

} // verus!
