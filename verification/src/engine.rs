use vstd::prelude::*;

use crate::error::PipelineError;
use crate::records::HighlightResult;
use crate::records::Record;
use crate::records::StyledSpan;
use crate::records::join_lines;
use crate::records::line_texts;
use syntastica::language_set::SupportedLanguage;

verus! {

#[verifier::external_type_specification]
#[verifier::external_body]
pub struct ExStyle(syntastica::style::Style);

#[verifier::external_type_specification]
#[verifier::external_body]
pub struct ExResolvedTheme(syntastica::theme::ResolvedTheme);

/// Whether the grammar collection has a language of this name.
pub uninterp spec fn lang_by_name(name: Seq<char>) -> bool;

/// Whether the grammar collection resolves this name as an injection alias.
pub uninterp spec fn lang_by_injection(name: Seq<char>) -> bool;

/// Whether the theme collection has a theme of this name.
pub uninterp spec fn theme_known(name: Seq<char>) -> bool;

/// Whether the engine succeeds in highlighting this text as this language.
pub uninterp spec fn engine_ok(text: Seq<char>, lang: Seq<char>) -> bool;

/// The engine's output for this text and language: the texts of the produced
/// spans, line by line. Styles depend on the theme as well; the span texts and
/// their line structure do not.
pub uninterp spec fn engine_lines(text: Seq<char>, lang: Seq<char>) -> Seq<Seq<Seq<char>>>;

/// A language name resolves to a grammar, directly or as an injection alias.
pub open spec fn lang_known(name: Seq<char>) -> bool {
    lang_by_name(name) || lang_by_injection(name)
}

/// Relies on `syntastica_parsers::Lang::for_name` (trait `SupportedLanguage`):
/// a lookup of a grammar by language name, determined by the name alone.
#[verifier::external_body]
fn lang_for_name(name: &str) -> (r: bool)
    ensures
        r == lang_by_name(name@),
{
    let set = syntastica_parsers::LanguageSetImpl::new();
    syntastica_parsers::Lang::for_name(name, &set).is_ok()
}

/// Relies on `syntastica_parsers::Lang::for_injection` (trait
/// `SupportedLanguage`): a lookup of a grammar by injection alias, determined
/// by the name alone.
#[verifier::external_body]
fn lang_for_injection(name: &str) -> (r: bool)
    ensures
        r == lang_by_injection(name@),
{
    let set = syntastica_parsers::LanguageSetImpl::new();
    syntastica_parsers::Lang::for_injection(name, &set).is_some()
}

/// Relies on `syntastica_themes::from_str`: a lookup of a theme by name,
/// `Some` exactly for the known theme names, determined by the name alone.
#[verifier::external_body]
fn resolve_theme(name: &str) -> (r: Option<syntastica::theme::ResolvedTheme>)
    ensures
        r is Some <==> theme_known(name@),
{
    syntastica_themes::from_str(name)
}

/// Relies on `syntastica_parsers::Lang::for_name` / `for_injection` to
/// resolve the language again, then on `syntastica::Processor::process` and
/// `syntastica::renderer::resolve_styles`: processing parses the text with the
/// named grammar and splits it into lines of `(text, style key)` spans, where
/// the span texts are the text's lines with every line break removed, so that
/// rejoining them with a newline restores a text that had no carriage return;
/// `resolve_styles` maps each style key to the theme's style and keeps every
/// span text unchanged. Success and the span texts are determined by the text
/// and the language name alone.
#[verifier::external_body]
fn highlight_spans(text: &str, lang_name: &str, theme: syntastica::theme::ResolvedTheme) -> (r:
    Option<Vec<Vec<StyledSpan>>>)
    requires
        lang_known(lang_name@),
    ensures
        r is Some <==> engine_ok(text@, lang_name@),
        (r matches Some(lines) ==> line_texts(lines@) == engine_lines(text@, lang_name@)),
        (r is Some && !text@.contains('\r')) ==> join_lines(engine_lines(text@, lang_name@))
            == text@,
{
    let set = syntastica_parsers::LanguageSetImpl::new();
    let lang = syntastica_parsers::Lang::for_name(lang_name, &set).ok().or_else(
        || syntastica_parsers::Lang::for_injection(lang_name, &set),
    )?;
    let mut processor = syntastica::Processor::new(&set);
    let highlights = processor.process(text, lang).ok()?;
    Some(
        syntastica::renderer::resolve_styles(&highlights, theme).into_iter().map(
            |line| line.into_iter().map(
                |(t, style)| StyledSpan { text: t.to_string(), style },
            ).collect(),
        ).collect(),
    )
}

/// A language name resolves to a grammar, directly or as an injection alias.
pub fn language_known(name: &str) -> (r: bool)
    ensures
        r == lang_known(name@),
{
    lang_for_name(name) || lang_for_injection(name)
}

/// The record carries a language tag that resolves to a grammar.
pub open spec fn rec_lang_known(rec: Record) -> bool {
    rec.lang matches Some(l) && lang_known(l@)
}

/// The record's language tag, as text; empty when absent.
pub open spec fn rec_lang_view(rec: Record) -> Seq<char> {
    match rec.lang {
        Some(l) => l@,
        None => Seq::empty(),
    }
}

/// Highlighting this record is a hard failure: its language is known but its
/// theme is not.
pub open spec fn rec_theme_fails(rec: Record) -> bool {
    rec_lang_known(rec) && !theme_known(rec.theme@)
}

/// Highlighting this record is a hard failure: its language and theme are
/// known but the engine fails on its text.
pub open spec fn rec_engine_fails(rec: Record) -> bool {
    rec_lang_known(rec) && theme_known(rec.theme@) && !engine_ok(rec.text@, rec_lang_view(rec))
}

/// Highlighting this record does not abort the run (it either produces spans
/// or is downgraded to `Unavailable`).
pub open spec fn rec_ok(rec: Record) -> bool {
    !rec_theme_fails(rec) && !rec_engine_fails(rec)
}

/// The highlight result an ok record must map to: `Unavailable` exactly when
/// the language is absent or unknown, and otherwise the engine's spans for
/// the record's text and language.
pub open spec fn result_matches(rec: Record, res: HighlightResult) -> bool {
    match rec.lang {
        Some(l) => if lang_known(l@) {
            res matches HighlightResult::Spans(lines) && line_texts(lines@) == engine_lines(
                rec.text@,
                l@,
            )
        } else {
            res is Unavailable
        },
        None => res is Unavailable,
    }
}

/// A span result reconstructs the record's raw text: the span texts of each
/// line concatenated, and the lines joined by a newline, give the text back
/// (for a text without carriage returns, which the engine's line splitting
/// does not preserve).
pub open spec fn res_covers(rec: Record, res: HighlightResult) -> bool {
    match res {
        HighlightResult::Spans(lines) => !rec.text@.contains('\r') ==> join_lines(
            line_texts(lines@),
        ) == rec.text@,
        HighlightResult::Unavailable => true,
    }
}

/// The run aborted on record `i`: every earlier record highlights cleanly,
/// and record `i` fails in the way the error says.
pub open spec fn first_failure(records: Seq<Record>, i: int, e: PipelineError) -> bool {
    &&& 0 <= i < records.len()
    &&& forall|j: int| 0 <= j < i ==> rec_ok(#[trigger] records[j])
    &&& ((e is UnknownTheme && rec_theme_fails(records[i])) || (e is HighlightFailure
        && rec_engine_fails(records[i])))
}

/// Highlights every record, in order. A record without a recognized language
/// is downgraded to `Unavailable` and the engine is not consulted for it; an
/// unknown theme or an engine failure on a recognized language aborts the
/// whole run with the error of the first record that fails.
pub fn highlight_records(records: &Vec<Record>) -> (r: Result<
    Vec<HighlightResult>,
    PipelineError,
>)
    ensures
        (r matches Ok(doc) ==> doc@.len() == records@.len() && (forall|i: int|
            0 <= i < records@.len() ==> result_matches(records@[i], #[trigger] doc@[i])
                && res_covers(records@[i], doc@[i]))),
        r is Ok <==> (forall|i: int| 0 <= i < records@.len() ==> rec_ok(#[trigger] records@[i])),
        (r matches Err(e) ==> (e is UnknownTheme || e is HighlightFailure) && (exists|i: int|
            first_failure(records@, i, e))),
{
    let mut doc: Vec<HighlightResult> = Vec::new();
    let mut i: usize = 0;
    while i < records.len()
        invariant
            0 <= i <= records@.len(),
            doc@.len() == i,
            forall|k: int|
                0 <= k < i ==> result_matches(records@[k], #[trigger] doc@[k]) && res_covers(
                    records@[k],
                    doc@[k],
                ),
            forall|k: int| 0 <= k < i ==> rec_ok(#[trigger] records@[k]),
        decreases records@.len() - i,
    {
        let rec = &records[i];
        match &rec.lang {
            None => {
                doc.push(HighlightResult::Unavailable);
            },
            Some(l) => {
                if !language_known(l.as_str()) {
                    doc.push(HighlightResult::Unavailable);
                } else {
                    match resolve_theme(rec.theme.as_str()) {
                        None => {
                            proof {
                                assert(first_failure(
                                    records@,
                                    i as int,
                                    PipelineError::UnknownTheme,
                                ));
                                assert(!rec_ok(records@[i as int]));
                            }
                            return Err(PipelineError::UnknownTheme);
                        },
                        Some(theme) => {
                            match highlight_spans(rec.text.as_str(), l.as_str(), theme) {
                                None => {
                                    proof {
                                        assert(first_failure(
                                            records@,
                                            i as int,
                                            PipelineError::HighlightFailure,
                                        ));
                                        assert(!rec_ok(records@[i as int]));
                                    }
                                    return Err(PipelineError::HighlightFailure);
                                },
                                Some(lines) => {
                                    doc.push(HighlightResult::Spans(lines));
                                },
                            }
                        },
                    }
                }
            },
        }
        i += 1;
    }
    Ok(doc)
}

/// Law: for a record with a recognized language whose highlighting succeeded,
/// the returned spans reconstruct the record's raw text exactly: each line is
/// the concatenation of its span texts, and the lines joined by a newline are
/// the text (stated for text without carriage returns, whose line breaks the
/// engine normalizes away).
pub proof fn lemma_spans_reconstruct_text(rec: Record, res: HighlightResult)
    requires
        result_matches(rec, res),
        res_covers(rec, res),
        rec_lang_known(rec),
        !rec.text@.contains('\r'),
    ensures
        match res {
            HighlightResult::Spans(lines) => join_lines(line_texts(lines@)) == rec.text@,
            HighlightResult::Unavailable => false,
        },
{
}

/// Law: a record highlights to `Unavailable` exactly when its language is
/// absent or not recognized — and for such a record the engine is never
/// consulted, so no spans can exist for it.
pub proof fn lemma_unavailable_iff_unknown_language(rec: Record, res: HighlightResult)
    requires
        result_matches(rec, res),
    ensures
        res is Unavailable <==> !rec_lang_known(rec),
{
}

} // verus!
