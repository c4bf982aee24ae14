//! Keyword classification of free text: the display tone of a reply, the
//! cues that adjust the engine's spirit and conviction terms, and which text
//! stands once a reply has been styled.

use vstd::prelude::*;
use crate::text::{contains, is_infix};

verus! {

/// The tone in which a reply is styled.
#[derive(Clone, Copy, Debug, PartialEq, Eq, Structural)]
pub enum ToneMode {
    Default,
    Sacred,
    Joyful,
    Comforting,
}

/// The tone that the text `t` calls for: prayer or piety first, then
/// celebration, then a wish for comfort.
pub open spec fn tone_of(t: Seq<char>) -> ToneMode {
    if is_infix("기도"@, t) || is_infix("경건"@, t) {
        ToneMode::Sacred
    } else if is_infix("신나"@, t) || is_infix("유쾌"@, t) {
        ToneMode::Joyful
    } else if is_infix("위로"@, t) || is_infix("괜찮"@, t) {
        ToneMode::Comforting
    } else {
        ToneMode::Default
    }
}

/// The name under which a tone is handed to the styling step.
pub open spec fn tone_name(m: ToneMode) -> Seq<char> {
    match m {
        ToneMode::Sacred => "sacred"@,
        ToneMode::Joyful => "joyful"@,
        ToneMode::Comforting => "comforting"@,
        ToneMode::Default => "default"@,
    }
}

/// Picks the tone of a reply from the words in `input`.
pub fn classify_tone(input: &str) -> (r: ToneMode)
    ensures
        r == tone_of(input@),
{
    if contains(input, "기도") || contains(input, "경건") {
        ToneMode::Sacred
    } else if contains(input, "신나") || contains(input, "유쾌") {
        ToneMode::Joyful
    } else if contains(input, "위로") || contains(input, "괜찮") {
        ToneMode::Comforting
    } else {
        ToneMode::Default
    }
}

impl ToneMode {
    /// The tone's name: `sacred`, `joyful`, `comforting` or `default`.
    pub fn label(&self) -> (r: &'static str)
        ensures
            r@ == tone_name(*self),
    {
        match self {
            ToneMode::Sacred => "sacred",
            ToneMode::Joyful => "joyful",
            ToneMode::Comforting => "comforting",
            ToneMode::Default => "default",
        }
    }
}

/// The text speaks of silence or repentance.
pub open spec fn is_spirit_cue(t: Seq<char>) -> bool {
    is_infix("침묵"@, t) || is_infix("회개"@, t)
}

/// Whether `input` speaks of silence or repentance, which strengthens the
/// spirit term by half.
pub fn spirit_cue(input: &str) -> (r: bool)
    ensures
        r == is_spirit_cue(input@),
{
    contains(input, "침묵") || contains(input, "회개")
}

/// The text speaks of sin or repentance.
pub open spec fn is_sin_cue(t: Seq<char>) -> bool {
    is_infix("죄"@, t) || is_infix("회개"@, t)
}

/// Whether `input` speaks of sin or repentance, which raises the deviation
/// that the conviction reply reports.
pub fn sin_cue(input: &str) -> (r: bool)
    ensures
        r == is_sin_cue(input@),
{
    contains(input, "죄") || contains(input, "회개")
}

/// The text asks for an upgrade.
pub open spec fn is_zeal_cue(t: Seq<char>) -> bool {
    is_infix("업그레이드"@, t)
}

/// Whether `input` asks for an upgrade, which the spirit insight reads as
/// expectation and zeal rather than reflection.
pub fn zeal_cue(input: &str) -> (r: bool)
    ensures
        r == is_zeal_cue(input@),
{
    contains(input, "업그레이드")
}

/// The reply to show once styling was attempted: `run` is `None` where the
/// styler could not be started, else whether it succeeded and what it
/// printed. Its output is used only when it succeeded; otherwise the
/// unstyled `response` stands.
pub fn styled_reply(response: String, run: Option<(bool, String)>) -> (r: String)
    ensures
        r@ == match run {
            Some((true, out)) => out@,
            _ => response@,
        },
{
    match run {
        Some((true, out)) => out,
        _ => response,
    }
}

} // verus!
