//! The diff engine: a line diff of two texts, grouped into hunks with three
//! lines of context, each changed line with its changed spans marked, and
//! the rendering of those hunks as text.

use vstd::prelude::*;
use crate::text::{decimal, push_char, push_decimal};

verus! {

/// What became of a line between the old text and the new one.
#[derive(Clone, Copy, Debug, PartialEq, Eq, Structural)]
pub enum ChangeTag {
    /// The line stands in both texts.
    Equal,
    /// The line stands in the old text only.
    Delete,
    /// The line stands in the new text only.
    Insert,
}

/// One line of a hunk.
#[derive(Clone, Debug, PartialEq, Eq)]
pub struct DiffLine {
    pub tag: ChangeTag,
    /// Index of the line in the old text, counted from 0.
    pub old_index: Option<usize>,
    /// Index of the line in the new text, counted from 0.
    pub new_index: Option<usize>,
    /// The line's content in pieces, each with the mark "this piece changed".
    pub spans: Vec<(bool, String)>,
    /// The line does not end in a line terminator.
    pub missing_newline: bool,
}

/// The mathematical value of a [`DiffLine`].
pub struct DiffLineModel {
    pub tag: ChangeTag,
    pub old_index: Option<usize>,
    pub new_index: Option<usize>,
    pub spans: Seq<(bool, Seq<char>)>,
    pub missing_newline: bool,
}

impl View for DiffLine {
    type V = DiffLineModel;

    open spec fn view(&self) -> DiffLineModel {
        DiffLineModel {
            tag: self.tag,
            old_index: self.old_index,
            new_index: self.new_index,
            spans: Seq::new(self.spans@.len(), |i: int| (self.spans@[i].0, self.spans@[i].1@)),
            missing_newline: self.missing_newline,
        }
    }
}

/// The hunks of a list of lists of lines, as mathematical values.
pub open spec fn hunks_view(groups: Seq<Vec<DiffLine>>) -> Seq<Seq<DiffLineModel>> {
    Seq::new(groups.len(), |i: int| Seq::new(groups[i]@.len(), |j: int| groups[i]@[j]@))
}

/// The number of unchanged lines that a hunk shows before and after its
/// changes.
pub const CONTEXT: usize = 3;

/// The hunks that the line diff of `old` and `new` consists of, with
/// `context` unchanged lines around the changes: what `similar` computes for
/// the two texts with its default line differ and no deadline.
pub uninterp spec fn inline_diff(old: Seq<char>, new: Seq<char>, context: usize) -> Seq<
    Seq<DiffLineModel>,
>;

/// `TextDiff::from_lines`, `TextDiff::grouped_ops` with a context of
/// `context` lines and `TextDiff::iter_inline_changes_deadline` without a
/// deadline, of `similar`. The result is the list of hunks, each hunk the
/// inline changes of its operations in order, every change copied field by
/// field. Two equal texts give a diff of equal lines only, which
/// `grouped_ops` drops: there is no hunk then. `grouped_ops` doubles the
/// context, which must not overflow.
#[verifier::external_body]
fn line_groups(text1: &str, text2: &str, context: usize) -> (groups: Vec<Vec<DiffLine>>)
    requires
        2 * context <= usize::MAX,
    ensures
        hunks_view(groups@) == inline_diff(text1@, text2@, context),
        text1@ == text2@ ==> groups@.len() == 0,
{
    let diff = similar::TextDiff::from_lines(text1, text2);
    let line = |c: similar::InlineChange<'_, str>| DiffLine {
        tag: match c.tag() {
            similar::ChangeTag::Equal => ChangeTag::Equal,
            similar::ChangeTag::Delete => ChangeTag::Delete,
            similar::ChangeTag::Insert => ChangeTag::Insert,
        },
        old_index: c.old_index(),
        new_index: c.new_index(),
        spans: c.iter_strings_lossy().map(|(e, s)| (e, s.into_owned())).collect(),
        missing_newline: c.missing_newline(),
    };
    let inline = |op| diff.iter_inline_changes_deadline(op, None).map(line);
    diff.grouped_ops(context).iter().map(|ops| ops.iter().flat_map(inline).collect()).collect()
}

/// The text `text` as a terminal shows it in the style `style`, a dotted
/// list of `console`'s style words: the text between the escape sequences
/// that switch the style on and off.
pub uninterp spec fn ansi_styled(style: Seq<char>, text: Seq<char>) -> Seq<char>;

/// `Style::from_dotted_str`, `Style::force_styling`, `Style::apply_to` and
/// the `Display` of the styled text, of `console`. With the styling forced
/// the result depends on the style and the text alone.
#[verifier::external_body]
fn styled(style: &str, text: &str) -> (r: String)
    ensures
        r@ == ansi_styled(style@, text@),
{
    console::Style::from_dotted_str(style).force_styling(true).apply_to(text).to_string()
}

/// `console::colors_enabled`: whether the standard output takes colours,
/// which the terminal and the environment decide.
#[verifier::external_body]
fn colors_enabled() -> (r: bool) {
    console::colors_enabled()
}

/// `s` with spaces after it up to the width `width`.
pub open spec fn padded(s: Seq<char>, width: nat) -> Seq<char>
    decreases width - s.len(),
{
    if s.len() >= width {
        s
    } else {
        padded(s.push(' '), width)
    }
}

/// The column of a line number: the number of the line, counted from one,
/// in a width of four, or four spaces where the line has no number.
pub open spec fn line_number(index: Option<usize>) -> Seq<char> {
    match index {
        Some(i) => padded(decimal(i as nat + 1), 4),
        None => padded(Seq::empty(), 4),
    }
}

/// The style of the content of a line.
pub open spec fn tag_style(tag: ChangeTag) -> Seq<char> {
    match tag {
        ChangeTag::Delete => "red"@,
        ChangeTag::Insert => "green"@,
        ChangeTag::Equal => "dim"@,
    }
}

/// The style of the sign of a line.
pub open spec fn sign_style(tag: ChangeTag) -> Seq<char> {
    match tag {
        ChangeTag::Delete => "red.bold"@,
        ChangeTag::Insert => "green.bold"@,
        ChangeTag::Equal => "dim.bold"@,
    }
}

/// The style of a changed piece of a line.
pub open spec fn emphasis_style(tag: ChangeTag) -> Seq<char> {
    match tag {
        ChangeTag::Delete => "red.underlined.on_black"@,
        ChangeTag::Insert => "green.underlined.on_black"@,
        ChangeTag::Equal => "dim.underlined.on_black"@,
    }
}

/// The sign of a line: `-` for a deleted line, `+` for an inserted one, a
/// space for a line that stands in both texts.
pub open spec fn sign(tag: ChangeTag) -> Seq<char> {
    match tag {
        ChangeTag::Delete => "-"@,
        ChangeTag::Insert => "+"@,
        ChangeTag::Equal => " "@,
    }
}

/// `text` in the style `style` where colours are on, `text` itself where
/// they are off.
pub open spec fn painted(colors: bool, style: Seq<char>, text: Seq<char>) -> Seq<char> {
    if colors {
        ansi_styled(style, text)
    } else {
        text
    }
}

/// The pieces of a line, one after the other, the changed ones in the style
/// of a change.
pub open spec fn rendered_spans(tag: ChangeTag, spans: Seq<(bool, Seq<char>)>, colors: bool) -> Seq<
    char,
>
    decreases spans.len(),
{
    if spans.len() == 0 {
        Seq::empty()
    } else {
        rendered_spans(tag, spans.drop_last(), colors) + painted(
            colors,
            if spans.last().0 {
                emphasis_style(tag)
            } else {
                tag_style(tag)
            },
            spans.last().1,
        )
    }
}

/// One line of a hunk: the number of the line in the old text, that in the
/// new text, a bar, the sign, and the pieces of the line. A line ends as it
/// ends in its text: where it has no terminator there, none is written.
pub open spec fn rendered_line(line: DiffLineModel, colors: bool) -> Seq<char> {
    painted(colors, "dim"@, line_number(line.old_index)) + painted(
        colors,
        "dim"@,
        line_number(line.new_index),
    ) + " |"@ + painted(colors, sign_style(line.tag), sign(line.tag)) + rendered_spans(
        line.tag,
        line.spans,
        colors,
    )
}

/// The lines of a hunk, one after the other.
pub open spec fn rendered_hunk(lines: Seq<DiffLineModel>, colors: bool) -> Seq<char>
    decreases lines.len(),
{
    if lines.len() == 0 {
        Seq::empty()
    } else {
        rendered_hunk(lines.drop_last(), colors) + rendered_line(lines.last(), colors)
    }
}

/// The line between two hunks: eighty dashes.
pub open spec fn separator() -> Seq<char> {
    Seq::new(80, |i: int| '-').push('\n')
}

/// The hunks of a diff, one after the other, a separator before each but
/// the first.
pub open spec fn rendered(hunks: Seq<Seq<DiffLineModel>>, colors: bool) -> Seq<char>
    decreases hunks.len(),
{
    if hunks.len() == 0 {
        Seq::empty()
    } else {
        rendered(hunks.drop_last(), colors) + if hunks.len() > 1 {
            separator()
        } else {
            Seq::empty()
        } + rendered_hunk(hunks.last(), colors)
    }
}

/// The hunks of the diff of two texts: none where the texts are equal, else
/// those of the line diff with three lines of context.
pub open spec fn hunks_of(old: Seq<char>, new: Seq<char>) -> Seq<Seq<DiffLineModel>> {
    if old == new {
        Seq::empty()
    } else {
        inline_diff(old, new, CONTEXT)
    }
}

/// The diff of two texts as text: the rendering of its hunks.
pub open spec fn diff_of(old: Seq<char>, new: Seq<char>, colors: bool) -> Seq<char> {
    rendered(hunks_of(old, new), colors)
}

/// A text does not differ from itself: the diff of two equal texts has no
/// hunk, and is the empty text.
pub proof fn lemma_equal_texts_do_not_differ(text: Seq<char>, colors: bool)
    ensures
        hunks_of(text, text).len() == 0,
        diff_of(text, text, colors) == Seq::<char>::empty(),
{
}

/// The rendering of a diff depends on the two texts and on whether colours
/// are on, and on nothing else: two renderings of the same texts are the
/// same text.
pub proof fn lemma_diff_is_deterministic(
    old: Seq<char>,
    new: Seq<char>,
    colors: bool,
    first: Seq<char>,
    second: Seq<char>,
)
    requires
        first == diff_of(old, new, colors),
        second == diff_of(old, new, colors),
    ensures
        first == second,
{
}

/// The column of a line number.
fn line_number_text(index: Option<usize>) -> (r: String)
    ensures
        r@ == line_number(index),
{
    let mut out = String::new();
    match index {
        Some(i) => {
            push_decimal(&mut out, i as u128 + 1);
            assert(out@ == decimal(i as nat + 1));
        },
        None => {},
    }
    let ghost start = out@;
    let mut len = out.as_str().unicode_len();
    while len < 4
        invariant
            len == out@.len(),
            padded(start, 4) == padded(out@, 4),
        decreases 4 - len,
    {
        push_char(&mut out, ' ');
        len += 1;
    }
    out
}

/// Appends `text` to `out`, in the style `style` where colours are on.
fn paint(out: &mut String, colors: bool, style: &str, text: &str)
    ensures
        final(out)@ == old(out)@ + painted(colors, style@, text@),
{
    if colors {
        let s = styled(style, text);
        out.append(s.as_str());
    } else {
        out.append(text);
    }
}

/// The style of the content of a line.
fn tag_style_name(tag: ChangeTag) -> (r: &'static str)
    ensures
        r@ == tag_style(tag),
{
    match tag {
        ChangeTag::Delete => "red",
        ChangeTag::Insert => "green",
        ChangeTag::Equal => "dim",
    }
}

/// The style of the sign of a line.
fn sign_style_name(tag: ChangeTag) -> (r: &'static str)
    ensures
        r@ == sign_style(tag),
{
    match tag {
        ChangeTag::Delete => "red.bold",
        ChangeTag::Insert => "green.bold",
        ChangeTag::Equal => "dim.bold",
    }
}

/// The style of a changed piece of a line.
fn emphasis_style_name(tag: ChangeTag) -> (r: &'static str)
    ensures
        r@ == emphasis_style(tag),
{
    match tag {
        ChangeTag::Delete => "red.underlined.on_black",
        ChangeTag::Insert => "green.underlined.on_black",
        ChangeTag::Equal => "dim.underlined.on_black",
    }
}

/// The sign of a line.
fn sign_text(tag: ChangeTag) -> (r: &'static str)
    ensures
        r@ == sign(tag),
{
    match tag {
        ChangeTag::Delete => "-",
        ChangeTag::Insert => "+",
        ChangeTag::Equal => " ",
    }
}

/// Appends one line of a hunk to `out`.
fn render_line(out: &mut String, line: &DiffLine, colors: bool)
    ensures
        final(out)@ == old(out)@ + rendered_line(line@, colors),
{
    let old_number = line_number_text(line.old_index);
    let new_number = line_number_text(line.new_index);
    paint(out, colors, "dim", old_number.as_str());
    paint(out, colors, "dim", new_number.as_str());
    out.append(" |");
    paint(out, colors, sign_style_name(line.tag), sign_text(line.tag));
    let ghost head = out@;
    let ghost spans = line@.spans;
    let mut i: usize = 0;
    while i < line.spans.len()
        invariant
            i <= line.spans.len(),
            spans == line@.spans,
            spans.len() == line.spans@.len(),
            out@ == head + rendered_spans(line.tag, spans.take(i as int), colors),
        decreases line.spans.len() - i,
    {
        proof {
            assert(spans.take(i as int + 1).drop_last() == spans.take(i as int));
            assert(spans.take(i as int + 1).last() == (line.spans@[i as int].0, line.spans@[i as int].1@));
        }
        let style = if line.spans[i].0 {
            emphasis_style_name(line.tag)
        } else {
            tag_style_name(line.tag)
        };
        paint(out, colors, style, line.spans[i].1.as_str());
        i += 1;
    }
    assert(spans.take(line.spans.len() as int) == spans);
}

/// Appends the lines of a hunk to `out`.
fn render_hunk(out: &mut String, lines: &Vec<DiffLine>, colors: bool)
    ensures
        final(out)@ == old(out)@ + rendered_hunk(
            Seq::new(lines@.len(), |j: int| lines@[j]@),
            colors,
        ),
{
    let ghost head = out@;
    let ghost all = Seq::new(lines@.len(), |j: int| lines@[j]@);
    let mut i: usize = 0;
    while i < lines.len()
        invariant
            i <= lines.len(),
            all == Seq::new(lines@.len(), |j: int| lines@[j]@),
            out@ == head + rendered_hunk(all.take(i as int), colors),
        decreases lines.len() - i,
    {
        proof {
            assert(all.take(i as int + 1).drop_last() == all.take(i as int));
            assert(all.take(i as int + 1).last() == lines@[i as int]@);
        }
        render_line(out, &lines[i], colors);
        i += 1;
    }
    assert(all.take(lines.len() as int) == all);
}

/// Appends the line between two hunks to `out`.
fn render_separator(out: &mut String)
    ensures
        final(out)@ == old(out)@ + separator(),
{
    let ghost head = out@;
    let mut i: usize = 0;
    while i < 80
        invariant
            i <= 80,
            out@ == head + Seq::new(i as nat, |j: int| '-'),
        decreases 80 - i,
    {
        push_char(out, '-');
        i += 1;
    }
    push_char(out, '\n');
}

/// The hunks of a diff as text, with colours or without.
pub fn render_groups(groups: &Vec<Vec<DiffLine>>, colors: bool) -> (r: String)
    ensures
        r@ == rendered(hunks_view(groups@), colors),
{
    let mut out = String::new();
    let ghost all = hunks_view(groups@);
    let mut i: usize = 0;
    while i < groups.len()
        invariant
            i <= groups.len(),
            all == hunks_view(groups@),
            out@ == rendered(all.take(i as int), colors),
        decreases groups.len() - i,
    {
        proof {
            assert(all.take(i as int + 1).drop_last() == all.take(i as int));
            assert(all.take(i as int + 1).last() == Seq::new(
                groups@[i as int]@.len(),
                |j: int| groups@[i as int]@[j]@,
            ));
            assert(all.take(i as int + 1).len() > 1 <==> i > 0);
        }
        if i > 0 {
            render_separator(&mut out);
        }
        render_hunk(&mut out, &groups[i], colors);
        i += 1;
    }
    assert(all.take(groups.len() as int) == all);
    out
}

/// The hunks of the diff of `text1` (old) and `text2` (new).
pub fn diff_lines(text1: &str, text2: &str) -> (groups: Vec<Vec<DiffLine>>)
    ensures
        hunks_view(groups@) == hunks_of(text1@, text2@),
{
    let groups = line_groups(text1, text2, CONTEXT);
    assert(text1@ == text2@ ==> hunks_view(groups@) == Seq::<Seq<DiffLineModel>>::empty());
    groups
}

/// The diff of `text1` (old) and `text2` (new) as text, with colours or
/// without. Two equal texts have no hunk, and the empty text as their diff.
pub fn render_diff(text1: &str, text2: &str, colors: bool) -> (r: String)
    ensures
        r@ == diff_of(text1@, text2@, colors),
        text1@ == text2@ ==> r@ == Seq::<char>::empty(),
{
    let groups = diff_lines(text1, text2);
    render_groups(&groups, colors)
}

/// The diff of `text1` (old) and `text2` (new) as text, with colours where
/// the standard output takes them. Two equal texts have the empty text as
/// their diff.
pub fn diff_text(text1: &str, text2: &str) -> (r: String)
    ensures
        r@ == diff_of(text1@, text2@, true) || r@ == diff_of(text1@, text2@, false),
        text1@ == text2@ ==> r@ == Seq::<char>::empty(),
{
    let colors = colors_enabled();
    render_diff(text1, text2, colors)
}

} // verus!
