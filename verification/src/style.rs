//! Terminal styling. Every function here returns its argument wrapped in the
//! ANSI escape sequences that switch one attribute on and off again, so styles
//! nest by plain composition.

use owo_colors::OwoColorize;
use vstd::prelude::*;

verus! {

/// The escape sequence that selects graphic rendition `code`.
pub open spec fn escape(code: Seq<char>) -> Seq<char> {
    seq!['\u{1b}', '['] + code + seq!['m']
}

/// `text` between the sequence for `code` and the one that resets every
/// attribute, which is how the text attributes (bold, dim) are written.
pub open spec fn with_attribute(code: Seq<char>, text: Seq<char>) -> Seq<char> {
    escape(code) + text + escape(seq!['0'])
}

/// `text` between the sequence for foreground colour `code` and the one that
/// restores the default foreground.
pub open spec fn with_foreground(code: Seq<char>, text: Seq<char>) -> Seq<char> {
    escape(code) + text + escape(seq!['3', '9'])
}

pub open spec fn bold_text(text: Seq<char>) -> Seq<char> {
    with_attribute(seq!['1'], text)
}

pub open spec fn dimmed_text(text: Seq<char>) -> Seq<char> {
    with_attribute(seq!['2'], text)
}

pub open spec fn green_text(text: Seq<char>) -> Seq<char> {
    with_foreground(seq!['3', '2'], text)
}

pub open spec fn yellow_text(text: Seq<char>) -> Seq<char> {
    with_foreground(seq!['3', '3'], text)
}

pub open spec fn magenta_text(text: Seq<char>) -> Seq<char> {
    with_foreground(seq!['3', '5'], text)
}

pub open spec fn cyan_text(text: Seq<char>) -> Seq<char> {
    with_foreground(seq!['3', '6'], text)
}

pub open spec fn bright_red_text(text: Seq<char>) -> Seq<char> {
    with_foreground(seq!['9', '1'], text)
}

pub open spec fn bright_blue_text(text: Seq<char>) -> Seq<char> {
    with_foreground(seq!['9', '4'], text)
}

pub open spec fn bright_cyan_text(text: Seq<char>) -> Seq<char> {
    with_foreground(seq!['9', '6'], text)
}

pub open spec fn bright_white_text(text: Seq<char>) -> Seq<char> {
    with_foreground(seq!['9', '7'], text)
}

/// `OwoColorize::bold`, formatted: the text between `ESC[1m` and `ESC[0m`.
#[verifier::external_body]
pub(crate) fn bold(text: &str) -> (styled: String)
    ensures
        styled@ == bold_text(text@),
{
    text.bold().to_string()
}

/// `OwoColorize::dimmed`, formatted: the text between `ESC[2m` and `ESC[0m`.
#[verifier::external_body]
pub(crate) fn dimmed(text: &str) -> (styled: String)
    ensures
        styled@ == dimmed_text(text@),
{
    text.dimmed().to_string()
}

/// `OwoColorize::green`, formatted: the text between `ESC[32m` and `ESC[39m`.
#[verifier::external_body]
pub(crate) fn green(text: &str) -> (styled: String)
    ensures
        styled@ == green_text(text@),
{
    text.green().to_string()
}

/// `OwoColorize::yellow`, formatted: the text between `ESC[33m` and `ESC[39m`.
#[verifier::external_body]
pub(crate) fn yellow(text: &str) -> (styled: String)
    ensures
        styled@ == yellow_text(text@),
{
    text.yellow().to_string()
}

/// `OwoColorize::magenta`, formatted: the text between `ESC[35m` and `ESC[39m`.
#[verifier::external_body]
pub(crate) fn magenta(text: &str) -> (styled: String)
    ensures
        styled@ == magenta_text(text@),
{
    text.magenta().to_string()
}

/// `OwoColorize::cyan`, formatted: the text between `ESC[36m` and `ESC[39m`.
#[verifier::external_body]
pub(crate) fn cyan(text: &str) -> (styled: String)
    ensures
        styled@ == cyan_text(text@),
{
    text.cyan().to_string()
}

/// `OwoColorize::bright_red`, formatted: the text between `ESC[91m` and
/// `ESC[39m`.
#[verifier::external_body]
pub(crate) fn bright_red(text: &str) -> (styled: String)
    ensures
        styled@ == bright_red_text(text@),
{
    text.bright_red().to_string()
}

/// `OwoColorize::bright_blue`, formatted: the text between `ESC[94m` and
/// `ESC[39m`.
#[verifier::external_body]
pub(crate) fn bright_blue(text: &str) -> (styled: String)
    ensures
        styled@ == bright_blue_text(text@),
{
    text.bright_blue().to_string()
}

/// `OwoColorize::bright_cyan`, formatted: the text between `ESC[96m` and
/// `ESC[39m`.
#[verifier::external_body]
pub(crate) fn bright_cyan(text: &str) -> (styled: String)
    ensures
        styled@ == bright_cyan_text(text@),
{
    text.bright_cyan().to_string()
}

/// `OwoColorize::bright_white`, formatted: the text between `ESC[97m` and
/// `ESC[39m`.
#[verifier::external_body]
pub(crate) fn bright_white(text: &str) -> (styled: String)
    ensures
        styled@ == bright_white_text(text@),
{
    text.bright_white().to_string()
}

/// Bold text in green.
pub fn bold_green(text: &str) -> (styled: String)
    ensures
        styled@ == green_text(bold_text(text@)),
{
    let inner = bold(text);
    green(inner.as_str())
}

/// Bold text in yellow.
pub fn bold_yellow(text: &str) -> (styled: String)
    ensures
        styled@ == yellow_text(bold_text(text@)),
{
    let inner = bold(text);
    yellow(inner.as_str())
}

/// Bold text in magenta.
pub fn bold_magenta(text: &str) -> (styled: String)
    ensures
        styled@ == magenta_text(bold_text(text@)),
{
    let inner = bold(text);
    magenta(inner.as_str())
}

/// Bold text in cyan.
pub fn bold_cyan(text: &str) -> (styled: String)
    ensures
        styled@ == cyan_text(bold_text(text@)),
{
    let inner = bold(text);
    cyan(inner.as_str())
}

/// Bold text in bright red.
pub fn bold_bright_red(text: &str) -> (styled: String)
    ensures
        styled@ == bright_red_text(bold_text(text@)),
{
    let inner = bold(text);
    bright_red(inner.as_str())
}

/// Bold text in bright white.
pub fn bold_bright_white(text: &str) -> (styled: String)
    ensures
        styled@ == bright_white_text(bold_text(text@)),
{
    let inner = bold(text);
    bright_white(inner.as_str())
}

/// Bright blue text, made bold as a whole.
pub fn bright_blue_bold(text: &str) -> (styled: String)
    ensures
        styled@ == bold_text(bright_blue_text(text@)),
{
    let inner = bright_blue(text);
    bold(inner.as_str())
}

} // verus!
