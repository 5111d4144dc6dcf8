//! What the viewer shows, as plain values: the frame's title and legend,
//! one line per binding, and how far the lines are scrolled.

use vstd::prelude::*;
use vstd::slice::slice_subrange;
use vstd::string::StringExecFns;
use crate::binding::{bindings_view, Binding, BindingView};

verus! {

/// How a piece of text is set off from its surroundings.
#[derive(Clone, Copy, Debug, PartialEq, Eq)]
pub enum Style {
    /// The terminal's default look.
    Plain,
    /// A key name in the legend: blue and bold.
    Key,
    /// The selected entry: white on dark gray, bold.
    Selected,
}

/// A piece of text with one style.
#[derive(Debug)]
pub struct Span {
    pub text: String,
    pub style: Style,
}

/// The mathematical value of a [`Span`].
pub struct SpanView {
    pub text: Seq<char>,
    pub style: Style,
}

impl View for Span {
    type V = SpanView;

    open spec fn view(&self) -> SpanView {
        SpanView { text: self.text@, style: self.style }
    }
}

/// The values of a list of spans, in order.
pub open spec fn spans_view(spans: Seq<Span>) -> Seq<SpanView> {
    Seq::new(spans.len(), |i: int| spans[i]@)
}

/// One frame of the viewer.
///
/// `title` is centred in the top border and `legend` in the bottom border.
/// `lines` holds every entry's line; `scroll` is the number of lines that
/// lie above the visible region. [`Screen::visible`] gives the lines from
/// there on.
#[derive(Debug)]
pub struct Screen {
    pub title: String,
    pub legend: Vec<Span>,
    pub lines: Vec<Span>,
    pub scroll: usize,
}

/// The mathematical value of a [`Screen`].
pub struct ScreenView {
    pub title: Seq<char>,
    pub legend: Seq<SpanView>,
    pub lines: Seq<SpanView>,
    pub scroll: nat,
}

impl View for Screen {
    type V = ScreenView;

    open spec fn view(&self) -> ScreenView {
        ScreenView {
            title: self.title@,
            legend: spans_view(self.legend@),
            lines: spans_view(self.lines@),
            scroll: self.scroll as nat,
        }
    }
}

impl ScreenView {
    /// The lines from the scroll offset on: the lines above it are clipped,
    /// and nothing is left where the offset lies beyond the last line.
    pub open spec fn visible(self) -> Seq<SpanView> {
        if self.scroll <= self.lines.len() {
            self.lines.skip(self.scroll as int)
        } else {
            Seq::empty()
        }
    }
}

impl Screen {
    /// The lines that the display shows, from its first row down: the first
    /// `scroll` lines are clipped, the others stand as they are.
    pub fn visible(&self) -> (shown: &[Span])
        ensures
            spans_view(shown@) == self@.visible(),
    {
        let len = self.lines.len();
        let from = if self.scroll <= len { self.scroll } else { len };
        let shown = slice_subrange(self.lines.as_slice(), from, len);
        assert(spans_view(shown@) =~= self@.visible());
        shown
    }
}

/// The frame's title.
pub open spec fn title_text() -> Seq<char> {
    " Your Keybinds  "@
}

/// The legend: each command, followed by the key that gives it.
pub open spec fn legend_spans() -> Seq<SpanView> {
    seq![
        SpanView { text: " Scroll Down "@, style: Style::Plain },
        SpanView { text: "<j>"@, style: Style::Key },
        SpanView { text: " Scroll Up "@, style: Style::Plain },
        SpanView { text: "<k>"@, style: Style::Key },
        SpanView { text: " Quit "@, style: Style::Plain },
        SpanView { text: "<q> "@, style: Style::Key },
    ]
}

/// The text of an entry's line: the combination, an arrow, the action.
pub open spec fn line_text(binding: BindingView) -> Seq<char> {
    binding.combo + " -> "@ + binding.action
}

/// An entry's line: it is set off exactly when the entry's stored index is
/// the highlighted one.
pub open spec fn line_span(binding: BindingView, highlighted: nat) -> SpanView {
    SpanView {
        text: line_text(binding),
        style: if binding.idx == highlighted {
            Style::Selected
        } else {
            Style::Plain
        },
    }
}

/// The lines of a list of entries, in order.
pub open spec fn line_spans(bindings: Seq<BindingView>, highlighted: nat) -> Seq<SpanView> {
    Seq::new(bindings.len(), |i: int| line_span(bindings[i], highlighted))
}

/// Builds the legend.
pub fn legend() -> (spans: Vec<Span>)
    ensures
        spans_view(spans@) == legend_spans(),
{
    let mut spans: Vec<Span> = Vec::new();
    spans.push(Span { text: String::from_str(" Scroll Down "), style: Style::Plain });
    spans.push(Span { text: String::from_str("<j>"), style: Style::Key });
    spans.push(Span { text: String::from_str(" Scroll Up "), style: Style::Plain });
    spans.push(Span { text: String::from_str("<k>"), style: Style::Key });
    spans.push(Span { text: String::from_str(" Quit "), style: Style::Plain });
    spans.push(Span { text: String::from_str("<q> "), style: Style::Key });
    assert(spans_view(spans@) =~= legend_spans());
    spans
}

/// Builds the line of one entry.
pub fn line(binding: &Binding, highlighted: usize) -> (span: Span)
    ensures
        span@ == line_span(binding@, highlighted as nat),
{
    let mut text = binding.combo.clone();
    text.append(" -> ");
    text.append(binding.action.as_str());
    let style = if binding.idx == highlighted {
        Style::Selected
    } else {
        Style::Plain
    };
    Span { text, style }
}

/// Builds the lines of a list of entries.
pub fn lines(bindings: &Vec<Binding>, highlighted: usize) -> (spans: Vec<Span>)
    ensures
        spans_view(spans@) == line_spans(bindings_view(bindings@), highlighted as nat),
{
    let mut spans: Vec<Span> = Vec::new();
    let mut i: usize = 0;
    while i < bindings.len()
        invariant
            i <= bindings.len(),
            spans.len() == i,
            forall|k: int|
                0 <= k < i ==> (#[trigger] spans[k])@ == line_span(bindings[k]@, highlighted as nat),
        decreases bindings.len() - i,
    {
        spans.push(line(&bindings[i], highlighted));
        i += 1;
    }
    assert(spans_view(spans@) =~= line_spans(bindings_view(bindings@), highlighted as nat));
    spans
}

} // verus!
