//! Semantic style tags and their rendering as ANSI escape sequences.
//!
//! Every display field of a listing entry carries one of a small closed set
//! of semantic tags; this module maps each tag to one concrete terminal
//! styling, so that the formatting logic itself never speaks of colours.

use vstd::prelude::*;

verus! {

/// A semantic style tag. Each tag maps to exactly one terminal styling.
#[derive(Clone, Copy, Debug, PartialEq, Eq, Structural)]
pub enum Style {
    /// Bright yellow: values that ask for a look (large sizes, owner
    /// read and execute bits).
    Attention,
    /// Bright red: the owner write bit.
    Danger,
    /// Green: granted group and other bits, and small sizes.
    Granted,
    /// Bright black: cleared permission bits.
    Muted,
    /// White: plain file names and the plain-file lead character.
    Neutral,
    /// Cyan: informational placeholders, such as a directory's size.
    Info,
    /// Bright blue: the directory lead character.
    Marker,
    /// Bold blue: directory names.
    Accent,
    /// Red: the messages of a failed run.
    Alert,
}

/// The foreground escape sequence that opens a tag's colour.
pub open spec fn fg_code(style: Style) -> Seq<char> {
    match style {
        Style::Attention => "\u{1b}[93m"@,
        Style::Danger => "\u{1b}[91m"@,
        Style::Granted => "\u{1b}[32m"@,
        Style::Muted => "\u{1b}[90m"@,
        Style::Neutral => "\u{1b}[37m"@,
        Style::Info => "\u{1b}[36m"@,
        Style::Marker => "\u{1b}[94m"@,
        Style::Accent => "\u{1b}[34m"@,
        Style::Alert => "\u{1b}[31m"@,
    }
}

/// Text wrapped in a foreground colour: the opening code, the text, then
/// the return to the default foreground.
pub open spec fn fg_wrapped(code: Seq<char>, text: Seq<char>) -> Seq<char> {
    code + text + "\u{1b}[39m"@
}

/// Text wrapped in the bold style: the bold code, the text, then the
/// full style reset.
pub open spec fn bolded(text: Seq<char>) -> Seq<char> {
    "\u{1b}[1m"@ + text + "\u{1b}[0m"@
}

/// What painting a text with a tag produces: its colour wrap, and for
/// `Accent` additionally the bold wrap around it.
pub open spec fn painted(style: Style, text: Seq<char>) -> Seq<char> {
    if style is Accent {
        bolded(fg_wrapped(fg_code(style), text))
    } else {
        fg_wrapped(fg_code(style), text)
    }
}

/// Relies on owo_colors' `OwoColorize::bright_yellow` on `&str`: the
/// rendered form is `ESC[93m`, the text, `ESC[39m`.
#[verifier::external_body]
fn fg_bright_yellow(s: &str) -> (r: String)
    ensures
        r@ == "\u{1b}[93m"@ + s@ + "\u{1b}[39m"@,
{
    owo_colors::OwoColorize::bright_yellow(&s).to_string()
}

/// Relies on owo_colors' `OwoColorize::bright_red` on `&str`: the rendered
/// form is `ESC[91m`, the text, `ESC[39m`.
#[verifier::external_body]
fn fg_bright_red(s: &str) -> (r: String)
    ensures
        r@ == "\u{1b}[91m"@ + s@ + "\u{1b}[39m"@,
{
    owo_colors::OwoColorize::bright_red(&s).to_string()
}

/// Relies on owo_colors' `OwoColorize::green` on `&str`: the rendered form
/// is `ESC[32m`, the text, `ESC[39m`.
#[verifier::external_body]
fn fg_green(s: &str) -> (r: String)
    ensures
        r@ == "\u{1b}[32m"@ + s@ + "\u{1b}[39m"@,
{
    owo_colors::OwoColorize::green(&s).to_string()
}

/// Relies on owo_colors' `OwoColorize::bright_black` on `&str`: the
/// rendered form is `ESC[90m`, the text, `ESC[39m`.
#[verifier::external_body]
fn fg_bright_black(s: &str) -> (r: String)
    ensures
        r@ == "\u{1b}[90m"@ + s@ + "\u{1b}[39m"@,
{
    owo_colors::OwoColorize::bright_black(&s).to_string()
}

/// Relies on owo_colors' `OwoColorize::white` on `&str`: the rendered form
/// is `ESC[37m`, the text, `ESC[39m`.
#[verifier::external_body]
fn fg_white(s: &str) -> (r: String)
    ensures
        r@ == "\u{1b}[37m"@ + s@ + "\u{1b}[39m"@,
{
    owo_colors::OwoColorize::white(&s).to_string()
}

/// Relies on owo_colors' `OwoColorize::cyan` on `&str`: the rendered form
/// is `ESC[36m`, the text, `ESC[39m`.
#[verifier::external_body]
fn fg_cyan(s: &str) -> (r: String)
    ensures
        r@ == "\u{1b}[36m"@ + s@ + "\u{1b}[39m"@,
{
    owo_colors::OwoColorize::cyan(&s).to_string()
}

/// Relies on owo_colors' `OwoColorize::bright_blue` on `&str`: the
/// rendered form is `ESC[94m`, the text, `ESC[39m`.
#[verifier::external_body]
fn fg_bright_blue(s: &str) -> (r: String)
    ensures
        r@ == "\u{1b}[94m"@ + s@ + "\u{1b}[39m"@,
{
    owo_colors::OwoColorize::bright_blue(&s).to_string()
}

/// Relies on owo_colors' `OwoColorize::red` on `&str`: the rendered form
/// is `ESC[31m`, the text, `ESC[39m`.
#[verifier::external_body]
fn fg_red(s: &str) -> (r: String)
    ensures
        r@ == "\u{1b}[31m"@ + s@ + "\u{1b}[39m"@,
{
    owo_colors::OwoColorize::red(&s).to_string()
}

/// Relies on owo_colors' `OwoColorize::blue` on `&str`: the rendered form
/// is `ESC[34m`, the text, `ESC[39m`.
#[verifier::external_body]
fn fg_blue(s: &str) -> (r: String)
    ensures
        r@ == "\u{1b}[34m"@ + s@ + "\u{1b}[39m"@,
{
    owo_colors::OwoColorize::blue(&s).to_string()
}

/// Relies on owo_colors' `OwoColorize::bold` on `&str`: the rendered form
/// is `ESC[1m`, the text, `ESC[0m`.
#[verifier::external_body]
pub(crate) fn embolden(s: &str) -> (r: String)
    ensures
        r@ == bolded(s@),
{
    owo_colors::OwoColorize::bold(&s).to_string()
}

/// Paint a text with the terminal styling of its tag.
pub fn paint(text: &str, style: Style) -> (r: String)
    ensures
        r@ == painted(style, text@),
{
    match style {
        Style::Attention => fg_bright_yellow(text),
        Style::Danger => fg_bright_red(text),
        Style::Granted => fg_green(text),
        Style::Muted => fg_bright_black(text),
        Style::Neutral => fg_white(text),
        Style::Info => fg_cyan(text),
        Style::Marker => fg_bright_blue(text),
        Style::Accent => {
            let inner = fg_blue(text);
            embolden(inner.as_str())
        },
        Style::Alert => fg_red(text),
    }
}

/// A piece of display text together with its semantic style tag.
#[derive(Clone, Debug)]
pub struct StyledText {
    pub text: String,
    pub style: Style,
}

impl StyledText {
    /// Render the text with its tag's terminal styling.
    pub fn render(&self) -> (r: String)
        ensures
            r@ == painted(self.style, self.text@),
    {
        paint(self.text.as_str(), self.style)
    }
}

} // verus!
