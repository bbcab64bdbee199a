//! The content of the screen as styled text, independent of any terminal
//! library: spans of text with a colour and emphasis, grouped into lines.

use vstd::prelude::*;

use crate::text::owned;

verus! {

/// The colours the screen uses.
#[derive(Debug, Clone, Copy, PartialEq, Eq, Structural)]
pub enum Color {
    Reset,
    White,
    Cyan,
    Yellow,
    Green,
    Red,
    DarkGray,
}

/// How a span of text looks.
#[derive(Debug, Clone, Copy, PartialEq, Eq, Structural)]
pub struct Look {
    pub color: Color,
    pub bold: bool,
    pub blink: bool,
}

/// A span of text and its look.
#[derive(Debug, Clone, PartialEq)]
pub struct TextSpan {
    pub text: String,
    pub look: Look,
}

/// The mathematical value of a span.
pub struct SpanView {
    pub text: Seq<char>,
    pub look: Look,
}

impl View for TextSpan {
    type V = SpanView;

    open spec fn view(&self) -> SpanView {
        SpanView { text: self.text@, look: self.look }
    }
}

/// The mathematical value of a line of spans.
pub open spec fn line_view(l: Seq<TextSpan>) -> Seq<SpanView> {
    l.map_values(|s: TextSpan| s@)
}

/// The mathematical value of lines of spans.
pub open spec fn lines_view(ls: Seq<Vec<TextSpan>>) -> Seq<Seq<SpanView>> {
    ls.map_values(|l: Vec<TextSpan>| line_view(l@))
}

/// The look of ordinary text.
pub open spec fn plain_look() -> Look {
    Look { color: Color::Reset, bold: false, blink: false }
}

/// The look of text in colour `c`.
pub open spec fn colored(c: Color) -> Look {
    Look { color: c, bold: false, blink: false }
}

/// The look of bold text in colour `c`.
pub open spec fn bold_in(c: Color) -> Look {
    Look { color: c, bold: true, blink: false }
}

/// A span of `text` looking `look`.
pub open spec fn sp(text: Seq<char>, look: Look) -> SpanView {
    SpanView { text, look }
}

/// A line of one span.
pub open spec fn one(text: Seq<char>, look: Look) -> Seq<SpanView> {
    seq![sp(text, look)]
}

/// An empty line.
pub open spec fn blank() -> Seq<SpanView> {
    Seq::empty()
}

/// The look of ordinary text.
pub fn plain() -> (l: Look)
    ensures
        l == plain_look(),
{
    Look { color: Color::Reset, bold: false, blink: false }
}

/// The look of text in colour `c`.
pub fn in_color(c: Color) -> (l: Look)
    ensures
        l == colored(c),
{
    Look { color: c, bold: false, blink: false }
}

/// The look of bold text in colour `c`.
pub fn bold(c: Color) -> (l: Look)
    ensures
        l == bold_in(c),
{
    Look { color: c, bold: true, blink: false }
}

/// A span of a literal text.
pub fn span(text: &str, look: Look) -> (s: TextSpan)
    ensures
        s@ == sp(text@, look),
{
    TextSpan { text: owned(text), look }
}

/// A span of an owned text.
pub fn span_of(text: String, look: Look) -> (s: TextSpan)
    ensures
        s@ == sp(text@, look),
{
    TextSpan { text, look }
}

/// Appends a span to a line.
pub fn push_span(line: &mut Vec<TextSpan>, s: TextSpan)
    ensures
        line_view(final(line)@) == line_view(old(line)@).push(s@),
{
    line.push(s);
    assert(line_view(line@) =~= line_view(old(line)@).push(s@));
}

/// Appends a line.
pub fn push_line(lines: &mut Vec<Vec<TextSpan>>, l: Vec<TextSpan>)
    ensures
        lines_view(final(lines)@) == lines_view(old(lines)@).push(line_view(l@)),
{
    let ghost lv = line_view(l@);
    lines.push(l);
    assert(lines_view(lines@) =~= lines_view(old(lines)@).push(lv));
}

/// Appends a line of one span.
pub fn push_one(lines: &mut Vec<Vec<TextSpan>>, s: TextSpan)
    ensures
        lines_view(final(lines)@) == lines_view(old(lines)@).push(seq![s@]),
{
    let mut l: Vec<TextSpan> = Vec::new();
    push_span(&mut l, s);
    assert(line_view(l@) =~= seq![s@]);
    push_line(lines, l);
}

/// Appends an empty line.
pub fn push_blank(lines: &mut Vec<Vec<TextSpan>>)
    ensures
        lines_view(final(lines)@) == lines_view(old(lines)@).push(blank()),
{
    let l: Vec<TextSpan> = Vec::new();
    assert(line_view(l@) =~= blank());
    push_line(lines, l);
}

} // verus!
