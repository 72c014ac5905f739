//! Colouring text for a terminal.
//!
//! Whether colour is applied is the terminal's business: it depends on the
//! variables set for the process and on where the output goes. So a painted
//! text is known only up to that choice.

use crate::classify::ColorTag;
use colored::Colorize;
use vstd::prelude::*;

verus! {

/// The escape sequence that switches a colour on.
pub open spec fn color_code(tag: ColorTag) -> Seq<char> {
    match tag {
        ColorTag::Yellow => "\u{1b}[93m"@,
        ColorTag::Blue => "\u{1b}[94m"@,
        ColorTag::Cyan => "\u{1b}[96m"@,
        ColorTag::Purple => "\u{1b}[95m"@,
        ColorTag::Neutral => Seq::<char>::empty(),
    }
}

/// The escape sequence that switches bright green on.
pub open spec fn green_code() -> Seq<char> {
    "\u{1b}[92m"@
}

/// The escape sequence that switches every colour off.
pub open spec fn reset_code() -> Seq<char> {
    "\u{1b}[0m"@
}

/// Whether `painted` may be what a terminal gets for `text` in the colour
/// that `code` switches on: either the text itself, where colour is off, or,
/// for a text free of escape characters, the text between the code and the
/// reset. Nothing is said of a coloured text that itself holds escape
/// characters.
pub open spec fn may_be_painted(text: Seq<char>, code: Seq<char>, painted: Seq<char>) -> bool {
    painted == text || (!text.contains('\u{1b}') ==> painted == code + text + reset_code())
}

/// What `paint` may return for a text and a colour. The neutral colour
/// leaves the text as it is.
pub open spec fn paint_outcome(text: Seq<char>, tag: ColorTag, painted: Seq<char>) -> bool {
    if tag == ColorTag::Neutral {
        painted == text
    } else {
        may_be_painted(text, color_code(tag), painted)
    }
}

/// Calls `Colorize::bright_yellow` and writes the result out. Trusted: the
/// result is the text itself where colour is off; where it is on, a text
/// without escape characters stands between the code for bright yellow and
/// the reset.
#[verifier::external_body]
fn bright_yellow(text: &str) -> (painted: String)
    ensures
        may_be_painted(text@, color_code(ColorTag::Yellow), painted@),
{
    text.bright_yellow().to_string()
}

/// Calls `Colorize::bright_blue` and writes the result out. Trusted: as for
/// bright yellow, with the code for bright blue.
#[verifier::external_body]
fn bright_blue(text: &str) -> (painted: String)
    ensures
        may_be_painted(text@, color_code(ColorTag::Blue), painted@),
{
    text.bright_blue().to_string()
}

/// Calls `Colorize::bright_cyan` and writes the result out. Trusted: as for
/// bright yellow, with the code for bright cyan.
#[verifier::external_body]
fn bright_cyan(text: &str) -> (painted: String)
    ensures
        may_be_painted(text@, color_code(ColorTag::Cyan), painted@),
{
    text.bright_cyan().to_string()
}

/// Calls `Colorize::bright_purple` and writes the result out. Trusted: as
/// for bright yellow, with the code for bright purple.
#[verifier::external_body]
fn bright_purple(text: &str) -> (painted: String)
    ensures
        may_be_painted(text@, color_code(ColorTag::Purple), painted@),
{
    text.bright_purple().to_string()
}

/// Calls `Colorize::bright_green` and writes the result out. Trusted: as for
/// bright yellow, with the code for bright green.
#[verifier::external_body]
fn bright_green(text: &str) -> (painted: String)
    ensures
        may_be_painted(text@, green_code(), painted@),
{
    text.bright_green().to_string()
}

/// Calls `Colorize::normal` and writes the result out. Trusted: a string
/// without colour or style is written as the text itself, whatever the
/// terminal.
#[verifier::external_body]
fn normal(text: &str) -> (painted: String)
    ensures
        painted@ == text@,
{
    text.normal().to_string()
}

/// Colours a text for the terminal.
pub fn paint(text: &str, tag: ColorTag) -> (painted: String)
    ensures
        paint_outcome(text@, tag, painted@),
{
    match tag {
        ColorTag::Yellow => bright_yellow(text),
        ColorTag::Blue => bright_blue(text),
        ColorTag::Cyan => bright_cyan(text),
        ColorTag::Purple => bright_purple(text),
        ColorTag::Neutral => normal(text),
    }
}

/// Colours a text bright green for the terminal.
pub fn paint_green(text: &str) -> (painted: String)
    ensures
        may_be_painted(text@, green_code(), painted@),
{
    bright_green(text)
}

} // verus!
