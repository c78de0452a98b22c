//! What is shown of a single response: a block of text with the URL, the
//! status, the headers and the body, plain or highlighted for a terminal.
//! The highlighting is the work of `syntect`.

use vstd::prelude::*;
use crate::config::response::{
    body_text, get_body_text, get_header_text, get_status_text, header_text, status_text,
    NormalizeError, Response, ResponseModel,
};
use crate::json::text_view;

verus! {

/// The theme of a text that names none.
pub const DEFAULT_THEME: &'static str = "base16-ocean.dark";

/// The text `text` with the escape sequences that colour it on a terminal, as
/// `syntect` highlights it line by line with its own syntax for files of the
/// extension `extension` and its own theme `theme`; none where it has no such
/// syntax or no such theme, or cannot highlight a line.
pub uninterp spec fn highlighted(text: Seq<char>, extension: Seq<char>, theme: Seq<char>) -> Option<
    Seq<char>,
>;

/// `SyntaxSet::load_defaults_newlines`, `SyntaxSet::find_syntax_by_extension`,
/// `ThemeSet::load_defaults`, `HighlightLines::new`, and for each line of
/// `LinesWithEndings` `HighlightLines::highlight_line` and
/// `as_24_bit_terminal_escaped`, of `syntect`. The syntaxes and themes are
/// those built into `syntect`, so the result depends on the three texts
/// alone.
#[verifier::external_body]
fn highlight(text: &str, extension: &str, theme: &str) -> (r: Option<String>)
    ensures
        text_view(r) == highlighted(text@, extension@, theme@),
{
    let ps = syntect::parsing::SyntaxSet::load_defaults_newlines();
    let ts = syntect::highlighting::ThemeSet::load_defaults();
    let syntax = ps.find_syntax_by_extension(extension)?;
    let mut h = syntect::easy::HighlightLines::new(syntax, ts.themes.get(theme)?);
    let mut output = String::new();
    for line in syntect::util::LinesWithEndings::from(text) {
        let ranges = h.highlight_line(line, &ps).ok()?;
        output.push_str(&syntect::util::as_24_bit_terminal_escaped(&ranges[..], false));
    }
    Some(output)
}

/// The theme that is asked for, or the default one.
pub open spec fn theme_or_default(theme: Option<&str>) -> Seq<char> {
    match theme {
        Some(name) => name@,
        None => DEFAULT_THEME@,
    }
}

/// The text `text`, highlighted for a terminal as a file of the extension
/// `extension` in the theme `theme`, or in the default theme where none is
/// named.
pub fn highlight_text(text: &str, extension: &str, theme: Option<&str>) -> (r: Option<String>)
    ensures
        text_view(r) == highlighted(text@, extension@, theme_or_default(theme)),
{
    match theme {
        Some(name) => highlight(text, extension, name),
        None => highlight(text, extension, DEFAULT_THEME),
    }
}

/// Why a response cannot be shown.
#[derive(Clone, Copy, Debug, PartialEq, Eq, Structural)]
pub enum DisplayError {
    /// The body has no normal form.
    Body(NormalizeError),
    /// A section cannot be highlighted.
    Highlight,
}

/// A section of the block: highlighted where highlighting is on, as it
/// stands where it is off.
pub open spec fn section(text: Seq<char>, extension: Seq<char>, theme: Seq<char>, highlight: bool)
    -> Option<Seq<char>> {
    if highlight {
        highlighted(text, extension, theme)
    } else {
        Some(text)
    }
}

/// The line of the URL.
pub open spec fn url_line(url: Seq<char>) -> Seq<char> {
    "Url: "@ + url + "\n"@
}

/// The line of the status.
pub open spec fn result_line(res: ResponseModel) -> Seq<char> {
    "Result: "@ + status_text(res.version, res.status)
}

/// The block that shows a response: the URL, the status, the headers and
/// the body, each section followed by a line feed but the last, all of them
/// highlighted or none.
pub open spec fn block(url: Seq<char>, res: ResponseModel, highlight: bool) -> Result<
    Seq<char>,
    DisplayError,
> {
    match body_text(res.headers, res.body, Seq::empty()) {
        Err(e) => Err(DisplayError::Body(e)),
        Ok(body) => match section(url_line(url), "yaml"@, DEFAULT_THEME@, highlight) {
            None => Err(DisplayError::Highlight),
            Some(first) => match section(result_line(res), "yaml"@, "Solarized (dark)"@, highlight) {
                None => Err(DisplayError::Highlight),
                Some(second) => match section(
                    header_text(res.headers, Seq::empty()),
                    "yaml"@,
                    "InspiredGitHub"@,
                    highlight,
                ) {
                    None => Err(DisplayError::Highlight),
                    Some(third) => match section(body, "json"@, DEFAULT_THEME@, highlight) {
                        None => Err(DisplayError::Highlight),
                        Some(fourth) => Ok(
                            first + "\n"@ + second + "\n"@ + third + "\n"@ + fourth,
                        ),
                    },
                },
            },
        },
    }
}

/// The mathematical value of the result of a display.
pub open spec fn block_view(r: Result<String, DisplayError>) -> Result<Seq<char>, DisplayError> {
    match r {
        Ok(text) => Ok(text@),
        Err(e) => Err(e),
    }
}

/// Appends a section and what follows it to `out`.
fn push_section(
    out: &mut String,
    text: &str,
    extension: &str,
    theme: &str,
    highlight: bool,
    after: &str,
) -> (r: bool)
    ensures
        r == section(text@, extension@, theme@, highlight).is_some(),
        r ==> final(out)@ == old(out)@ + section(text@, extension@, theme@, highlight)->0 + after@,
{
    if highlight {
        match self::highlight(text, extension, theme) {
            Some(shown) => {
                out.append(shown.as_str());
            },
            None => {
                return false;
            },
        }
    } else {
        out.append(text);
    }
    out.append(after);
    true
}

/// The block that shows the response `res` to the request of the URL `url`.
pub fn response_block(url: &str, res: &Response, highlight: bool) -> (r: Result<
    String,
    DisplayError,
>)
    ensures
        block_view(r) == block(url@, res@, highlight),
{
    let none: Vec<String> = Vec::new();
    assert(crate::entries::strings_view(none@) == Seq::<Seq<char>>::empty());
    let body = match get_body_text(res, none.as_slice()) {
        Ok(body) => body,
        Err(e) => {
            return Err(DisplayError::Body(e));
        },
    };
    let mut first = String::new();
    first.append("Url: ");
    first.append(url);
    first.append("\n");
    let mut second = String::new();
    second.append("Result: ");
    second.append(get_status_text(res).as_str());
    let third = get_header_text(res, none.as_slice());
    let mut out = String::new();
    if !push_section(&mut out, first.as_str(), "yaml", DEFAULT_THEME, highlight, "\n") {
        return Err(DisplayError::Highlight);
    }
    if !push_section(&mut out, second.as_str(), "yaml", "Solarized (dark)", highlight, "\n") {
        return Err(DisplayError::Highlight);
    }
    if !push_section(&mut out, third.as_str(), "yaml", "InspiredGitHub", highlight, "\n") {
        return Err(DisplayError::Highlight);
    }
    if !push_section(&mut out, body.as_str(), "json", DEFAULT_THEME, highlight, "") {
        return Err(DisplayError::Highlight);
    }
    proof {
        reveal_strlit("");
        assert(""@ == Seq::<char>::empty());
    }
    Ok(out)
}

} // verus!
