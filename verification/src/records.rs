use vstd::prelude::*;

verus! {

/// One code listing extracted from the source document by the query stage:
/// an optional language tag, the raw listing text, and a theme name.
/// Records are ordered; the compile stage's consumer matches them by index.
#[derive(Debug)]
pub struct Record {
    /// The declared language of the listing, if any.
    pub lang: Option<String>,
    /// The raw text of the listing.
    pub text: String,
    /// The name of the color theme to highlight with.
    pub theme: String,
}

/// A contiguous substring of a listing line paired with its resolved style,
/// if the engine assigned one.
#[derive(Debug)]
pub struct StyledSpan {
    /// The span's text; line break characters are never part of it.
    pub text: String,
    /// The resolved style, or nothing for unstyled text.
    pub style: Option<syntastica::style::Style>,
}

/// What highlighting one listing produced: either nothing (no language tag,
/// or a language the engine does not know), or the listing's text split into
/// lines of styled spans.
#[derive(Debug)]
pub enum HighlightResult {
    /// The listing is rendered unstyled.
    Unavailable,
    /// The listing's lines, each an ordered sequence of styled spans.
    Spans(Vec<Vec<StyledSpan>>),
}

/// The texts of one line's spans, in order.
pub open spec fn span_texts_of_line(line: Seq<StyledSpan>) -> Seq<Seq<char>> {
    line.map(|i: int, sp: StyledSpan| sp.text@)
}

/// The texts of all spans, line by line.
pub open spec fn line_texts(lines: Seq<Vec<StyledSpan>>) -> Seq<Seq<Seq<char>>> {
    lines.map(|i: int, line: Vec<StyledSpan>| span_texts_of_line(line@))
}

/// The concatenation of a sequence of texts.
pub open spec fn concat_texts(texts: Seq<Seq<char>>) -> Seq<char>
    decreases texts.len(),
{
    if texts.len() == 0 {
        Seq::empty()
    } else {
        texts[0] + concat_texts(texts.drop_first())
    }
}

/// The concatenation of per-line texts, lines separated by a newline.
pub open spec fn join_lines(lines: Seq<Seq<Seq<char>>>) -> Seq<char>
    decreases lines.len(),
{
    if lines.len() == 0 {
        Seq::empty()
    } else if lines.len() == 1 {
        concat_texts(lines[0])
    } else {
        concat_texts(lines[0]) + seq!['\n'] + join_lines(lines.drop_first())
    }
}

} // verus!
