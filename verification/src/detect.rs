//! Finding out which graphics protocol a terminal supports.
//!
//! The environment is looked at first. Where it does not settle the matter
//! the caller is asked to try the terminal out, and the answer is judged
//! here.

use vstd::prelude::*;
use crate::config::RenderMethod;
use crate::text::{chars_of, contains, contains_text, equals};

verus! {

/// What the environment says about the terminal.
pub struct TerminalEnv {
    /// `KITTY_WINDOW_ID` is set.
    pub kitty_window_id: bool,
    /// `ITERM_SESSION_ID` is set.
    pub iterm_session_id: bool,
    /// The value of `TERM`; empty if it is not set.
    pub term: String,
}

/// What to do after a look at the environment.
#[derive(Debug, Clone, Copy, PartialEq, Eq, Structural)]
pub enum Detection {
    /// The method is settled.
    Decided(RenderMethod),
    /// The terminal claims to be kitty: send it a test image of one pixel
    /// and report whether it could be written.
    NeedsKittyTest,
    /// Nothing was found: ask the terminal for its device attributes and
    /// report the answer.
    NeedsSixelQuery,
}

/// `TERM` names a terminal that is known to show sixel graphics.
pub open spec fn term_names_sixel(term: Seq<char>) -> bool {
    contains_text(term, "sixel"@) || term == "mlterm"@ || term == "yaft-256color"@
}

/// What a look at the environment leads to.
pub open spec fn detection_of(kitty_window_id: bool, iterm_session_id: bool, term: Seq<char>) -> Detection {
    if kitty_window_id {
        Detection::NeedsKittyTest
    } else if iterm_session_id {
        Detection::Decided(RenderMethod::ITerm)
    } else if term_names_sixel(term) {
        Detection::Decided(RenderMethod::Sixel)
    } else {
        Detection::NeedsSixelQuery
    }
}

/// An answer to the device attributes query that lists attribute 4, sixel.
pub open spec fn answer_reports_sixel(answer: Seq<char>) -> bool {
    contains_text(answer, "\x1b[?"@) && contains_text(answer, ";4;"@)
}

/// An answer to the device attributes query that is complete: it holds the
/// introducer and the final `c`.
pub open spec fn answer_is_complete(answer: Seq<char>) -> bool {
    contains_text(answer, "\x1b["@) && contains_text(answer, "c"@)
}

/// The method after the device attributes query: sixel if the answer lists
/// it, else the inline image protocol if `TERM` names iTerm, else blocks.
pub open spec fn method_after_query(term: Seq<char>, answer: Option<Seq<char>>) -> RenderMethod {
    if answer is Some && answer_reports_sixel(answer.unwrap()) {
        RenderMethod::Sixel
    } else if contains_text(term, "iterm"@) {
        RenderMethod::ITerm
    } else {
        RenderMethod::Blocks
    }
}

/// Looks at the environment.
pub fn detect_from_environment(env: &TerminalEnv) -> (out: Detection)
    ensures
        out == detection_of(env.kitty_window_id, env.iterm_session_id, env.term@),
{
    if env.kitty_window_id {
        return Detection::NeedsKittyTest;
    }
    if env.iterm_session_id {
        return Detection::Decided(RenderMethod::ITerm);
    }
    let term = chars_of(env.term.as_str());
    if contains(&term, "sixel") || equals(&term, "mlterm") || equals(&term, "yaft-256color") {
        return Detection::Decided(RenderMethod::Sixel);
    }
    Detection::NeedsSixelQuery
}

/// Whether the environment lets the kitty test begin at all: the window id
/// is set, or `TERM` names kitty.
pub fn claims_kitty(env: &TerminalEnv) -> (out: bool)
    ensures
        out == (env.kitty_window_id || contains_text(env.term@, "kitty"@)),
{
    if env.kitty_window_id {
        return true;
    }
    let term = chars_of(env.term.as_str());
    contains(&term, "kitty")
}

/// The method after the kitty test: kitty if the test image could be
/// written, blocks at once if not.
pub fn after_kitty_test(write_succeeded: bool) -> (out: RenderMethod)
    ensures
        out == (if write_succeeded {
            RenderMethod::Kitty
        } else {
            RenderMethod::Blocks
        }),
{
    if write_succeeded {
        RenderMethod::Kitty
    } else {
        RenderMethod::Blocks
    }
}

/// Whether an answer to the device attributes query lists sixel.
pub fn reports_sixel(answer: &str) -> (out: bool)
    ensures
        out == answer_reports_sixel(answer@),
{
    let answer = chars_of(answer);
    contains(&answer, "\x1b[?") && contains(&answer, ";4;")
}

/// Whether an answer to the device attributes query is complete, so that
/// the caller may stop reading.
pub fn response_complete(answer: &str) -> (out: bool)
    ensures
        out == answer_is_complete(answer@),
{
    let answer = chars_of(answer);
    contains(&answer, "\x1b[") && contains(&answer, "c")
}

/// The method after the device attributes query. `answer` is `None` where
/// the query could not be made.
pub fn after_sixel_query(env: &TerminalEnv, answer: Option<&str>) -> (out: RenderMethod)
    ensures
        out == method_after_query(
            env.term@,
            match answer {
                Some(text) => Some(text@),
                None => None,
            },
        ),
{
    let listed = match answer {
        Some(text) => reports_sixel(text),
        None => false,
    };
    if listed {
        return RenderMethod::Sixel;
    }
    let term = chars_of(env.term.as_str());
    if contains(&term, "iterm") {
        RenderMethod::ITerm
    } else {
        RenderMethod::Blocks
    }
}

/// Whether the terminal seems to support a method that was asked for by
/// name: for kitty and the inline image protocol, `TERM` or the session
/// variables must name one of the two terminals. The renderer goes on
/// either way; the answer is for a warning.
pub fn seems_supported(env: &TerminalEnv, method: RenderMethod) -> (out: bool)
    ensures
        out == ((method != RenderMethod::Kitty && method != RenderMethod::ITerm) || contains_text(
            env.term@,
            "kitty"@,
        ) || env.kitty_window_id || contains_text(env.term@, "iterm"@) || env.iterm_session_id),
{
    match method {
        RenderMethod::Kitty | RenderMethod::ITerm => {
            let term = chars_of(env.term.as_str());
            contains(&term, "kitty") || env.kitty_window_id || contains(&term, "iterm")
                || env.iterm_session_id
        },
        _ => true,
    }
}

} // verus!
