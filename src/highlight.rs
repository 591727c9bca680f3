use vstd::prelude::*;
use vstd::string::*;
use crate::color::{color_to_hex, font_style_to_u8, hex_of, is_hex_color, lemma_hex_of_is_hex_color, style_bits, Rgb};
use crate::engine::{
    default_theme_name, highlight_line, is_prefix, new_highlighter, resolved_theme, texts_of,
    Bundle, StyledText,
};
use crate::text::{joined, lemma_joined_newline, lemma_lines_of, lines_of, split_lines};
use crate::themes::{engine_theme_of, map_dotviewer_theme};


verus! {

/// A run of text with its colors and style bits (bold 1, italic 2, underline 4).
#[derive(Clone, Debug)]
pub struct HighlightedSpan {
    pub text: String,
    pub foreground: String,
    pub background: String,
    pub font_style: u8,
}

/// The spans of a highlighted text, in document order, and the theme's background.
#[derive(Clone, Debug)]
pub struct HighlightResult {
    pub spans: Vec<HighlightedSpan>,
    pub background: String,
}

/// A span as text, foreground, background and style bits.
pub type SpanModel = (Seq<char>, Seq<char>, Seq<char>, u8);

impl View for HighlightedSpan {
    type V = SpanModel;

    open spec fn view(&self) -> SpanModel {
        (self.text@, self.foreground@, self.background@, self.font_style)
    }
}

pub open spec fn spans_view(s: Seq<HighlightedSpan>) -> Seq<SpanModel> {
    s.map_values(|x: HighlightedSpan| x@)
}

/// The background used when a theme configures none.
pub open spec fn default_background() -> Seq<char> {
    "#1E1E1E"@
}

/// The text color of line terminators when a theme configures none.
pub open spec fn white() -> Rgb {
    Rgb { r: 255, g: 255, b: 255 }
}

pub open spec fn background_spec(bg: Option<Rgb>) -> Seq<char> {
    match bg {
        Some(c) => hex_of(c),
        None => default_background(),
    }
}

/// A styled run as a span.
pub open spec fn span_of(t: StyledText) -> SpanModel {
    (t.text@, hex_of(t.foreground), hex_of(t.background), style_bits(t.font_flags))
}

/// The span that ends every line.
pub open spec fn terminator(fg: Rgb, bg: Seq<char>) -> SpanModel {
    (seq!['\n'], hex_of(fg), bg, 0u8)
}

/// The spans of one line: one per styled run, then the terminator.
pub open spec fn line_spans(ts: Seq<StyledText>, fg: Rgb, bg: Seq<char>) -> Seq<SpanModel> {
    ts.map_values(|t: StyledText| span_of(t)).push(terminator(fg, bg))
}

/// The spans of all lines, in line order.
pub open spec fn assembled(ls: Seq<Seq<StyledText>>, fg: Rgb, bg: Seq<char>) -> Seq<SpanModel>
    decreases ls.len(),
{
    if ls.len() == 0 {
        seq![]
    } else {
        assembled(ls.drop_last(), fg, bg) + line_spans(ls.last(), fg, bg)
    }
}

/// How many spans hold exactly a line feed.
pub open spec fn newline_count(s: Seq<SpanModel>) -> nat
    decreases s.len(),
{
    if s.len() == 0 {
        0
    } else {
        newline_count(s.drop_last()) + if s.last().0 == seq!['\n'] {
            1nat
        } else {
            0
        }
    }
}

/// Every color of a span is `#RRGGBB` in upper case.
pub open spec fn colors_well_formed(s: Seq<SpanModel>) -> bool {
    forall|k: int| 0 <= k < s.len() ==> is_hex_color((#[trigger] s[k]).1) && is_hex_color(s[k].2)
}

/// What the engine may have made of a text: one run list per line, whose texts
/// run along the start of that line (empty where the engine failed on it).
pub open spec fn covers_lines(ls: Seq<Seq<StyledText>>, code: Seq<char>) -> bool {
    &&& ls.len() == lines_of(code).len()
    &&& forall|i: int| 0 <= i < ls.len() ==> is_prefix(joined(texts_of(#[trigger] ls[i])), lines_of(code)[i])
}

/// `spans` are what the engine's runs over the lines of `code` assemble to, with
/// terminators in `fg` on the page background `bg`.
pub open spec fn highlights(spans: Seq<SpanModel>, code: Seq<char>, fg: Rgb, bg: Seq<char>) -> bool {
    exists|ls: Seq<Seq<StyledText>>| covers_lines(ls, code) && #[trigger] assembled(ls, fg, bg) == spans
}

/// The color of line terminators: the theme's text color, else white.
pub open spec fn terminator_color(fg: Option<Rgb>) -> Rgb {
    match fg {
        Some(c) => c,
        None => white(),
    }
}

/// The page background of the theme that `theme` resolves to.
pub open spec fn resolved_background(b: Bundle, theme: Seq<char>) -> Seq<char> {
    background_spec(b.themes()[resolved_theme(b.themes(), theme)].background)
}

/// What highlighting `code` with the theme named `theme` gives: the resolved theme's
/// background, the engine's runs line by line each closed by a terminator in the
/// theme's text color, one terminator per line, every color upper-case hex.
pub open spec fn highlighted(b: Bundle, code: Seq<char>, theme: Seq<char>, r: HighlightResult) -> bool {
    let c = b.themes()[resolved_theme(b.themes(), theme)];
    &&& r.background@ == background_spec(c.background)
    &&& is_hex_color(r.background@)
    &&& highlights(spans_view(r.spans@), code, terminator_color(c.foreground), r.background@)
    &&& newline_count(spans_view(r.spans@)) == lines_of(code).len()
    &&& code.len() > 0 ==> r.spans@.len() > 0
    &&& colors_well_formed(spans_view(r.spans@))
}

pub open spec fn runs_view(ls: Seq<Vec<StyledText>>) -> Seq<Seq<StyledText>> {
    ls.map_values(|v: Vec<StyledText>| v@)
}

fn encode_span(t: &StyledText) -> (r: HighlightedSpan)
    ensures
        r@ == span_of(*t),
{
    HighlightedSpan {
        text: t.text.clone(),
        foreground: color_to_hex(t.foreground),
        background: color_to_hex(t.background),
        font_style: font_style_to_u8(t.font_flags),
    }
}

/// Flattens the styled runs of each line into spans, ending every line with a
/// line-feed span in `foreground` on `background`.
pub fn assemble_spans(runs: &Vec<Vec<StyledText>>, foreground: Rgb, background: &String) -> (r: Vec<
    HighlightedSpan,
>)
    ensures
        spans_view(r@) == assembled(runs_view(runs@), foreground, background@),
{
    let ghost ls = runs_view(runs@);
    let mut out: Vec<HighlightedSpan> = Vec::new();
    let mut i: usize = 0;
    while i < runs.len()
        invariant
            i <= runs@.len(),
            ls == runs_view(runs@),
            spans_view(out@) == assembled(ls.take(i as int), foreground, background@),
        decreases runs@.len() - i,
    {
        let line = &runs[i];
        let ghost before = spans_view(out@);
        let mut j: usize = 0;
        while j < line.len()
            invariant
                j <= line@.len(),
                line@ == ls[i as int],
                spans_view(out@) == before + line@.take(j as int).map_values(
                    |t: StyledText| span_of(t),
                ),
            decreases line@.len() - j,
        {
            let s = encode_span(&line[j]);
            let ghost prev_out = out@;
            out.push(s);
            assert(spans_view(out@) =~= spans_view(prev_out).push(s@));
            assert(line@.take(j as int + 1).map_values(|t: StyledText| span_of(t)) =~= line@.take(
                j as int,
            ).map_values(|t: StyledText| span_of(t)).push(span_of(line@[j as int])));
            assert(spans_view(out@) =~= before + line@.take(j as int + 1).map_values(
                |t: StyledText| span_of(t),
            ));
            j = j + 1;
        }
        proof {
            reveal_strlit("\n");
        }
        let term = HighlightedSpan {
            text: String::from_str("\n"),
            foreground: color_to_hex(foreground),
            background: background.clone(),
            font_style: 0,
        };
        assert(term@ == terminator(foreground, background@));
        let ghost prev_out = out@;
        out.push(term);
        proof {
            assert(spans_view(out@) =~= spans_view(prev_out).push(
                terminator(foreground, background@),
            ));
            assert(line@.take(line@.len() as int) =~= line@);
            assert(ls.take(i as int + 1).drop_last() =~= ls.take(i as int));
            assert(spans_view(out@) =~= assembled(ls.take(i as int + 1), foreground, background@));
        }
        i = i + 1;
    }
    assert(ls.take(runs@.len() as int) =~= ls);
    out
}

/// The theme's background as `#RRGGBB`, or the fallback when it configures none.
pub fn background_or_default(bg: Option<Rgb>) -> (r: String)
    ensures
        r@ == background_spec(bg),
        is_hex_color(r@),
{
    proof {
        lemma_default_background_is_hex();
    }
    match bg {
        Some(c) => color_to_hex(c),
        None => String::from_str("#1E1E1E"),
    }
}

proof fn lemma_default_background_is_hex()
    ensures
        is_hex_color(default_background()),
{
    reveal_strlit("#1E1E1E");
    reveal_strlit("0123456789ABCDEF");
    let d = default_background();
    assert forall|i: int| 1 <= i < 7 implies #[trigger] crate::color::hex_digits().contains(d[i]) by {
        if i % 2 == 1 {
            assert(crate::color::hex_digits()[1] == d[i]);
        } else {
            assert(crate::color::hex_digits()[14] == d[i]);
        }
    }
}

/// Highlights `code` in `language` with `theme`: one span per styled run, one
/// line-feed span after each line, every color in hex.
pub fn highlight_code(bundle: &Bundle, code: &str, language: &str, theme: &str) -> (r:
    HighlightResult)
    ensures
        highlighted(*bundle, code@, theme@, r),
{
    let syntax = bundle.resolve_syntax(language);
    let (theme_obj, colors) = bundle.resolve_theme(theme);
    let background = background_or_default(colors.background);
    let foreground = match colors.foreground {
        Some(c) => c,
        None => Rgb { r: 255, g: 255, b: 255 },
    };
    let lines = split_lines(code);
    let mut highlighter = new_highlighter(syntax, theme_obj);
    let mut runs: Vec<Vec<StyledText>> = Vec::new();
    let mut i: usize = 0;
    while i < lines.len()
        invariant
            i <= lines@.len(),
            lines@.len() == lines_of(code@).len(),
            forall|k: int| 0 <= k < lines@.len() ==> lines@[k]@ == lines_of(code@)[k],
            runs@.len() == i,
            forall|k: int|
                0 <= k < i ==> is_prefix(joined(texts_of(#[trigger] runs@[k]@)), lines_of(code@)[k]),
        decreases lines@.len() - i,
    {
        let line_runs = match highlight_line(&mut highlighter, lines[i].as_str(), bundle.syntaxes()) {
            Ok(v) => v,
            Err(_) => Vec::new(),
        };
        proof {
            if line_runs@.len() == 0 {
                assert(texts_of(line_runs@) =~= Seq::<Seq<char>>::empty());
                assert(lines_of(code@)[i as int].take(0) =~= Seq::<char>::empty());
            }
        }
        let ghost prev_runs = runs@;
        runs.push(line_runs);
        proof {
            assert forall|k: int| 0 <= k < i + 1 implies is_prefix(
                joined(texts_of(#[trigger] runs@[k]@)),
                lines_of(code@)[k],
            ) by {
                if k < i {
                    assert(runs@[k] == prev_runs[k]);
                }
            }
        }
        i = i + 1;
    }
    let spans = assemble_spans(&runs, foreground, &background);
    proof {
        let ls = runs_view(runs@);
        assert(covers_lines(ls, code@)) by {
            assert forall|i: int| 0 <= i < ls.len() implies is_prefix(
                joined(texts_of(#[trigger] ls[i])),
                lines_of(code@)[i],
            ) by {
                assert(ls[i] == runs@[i]@);
            }
        }
        lemma_highlight_laws(code@, ls, foreground, background@);
        assert(covers_lines(ls, code@) && assembled(ls, foreground, background@) == spans_view(
            spans@,
        ));
        assert(highlights(spans_view(spans@), code@, foreground, background@));
    }
    HighlightResult { spans, background }
}

proof fn lemma_newline_count_append(a: Seq<SpanModel>, b: Seq<SpanModel>)
    ensures
        newline_count(a + b) == newline_count(a) + newline_count(b),
    decreases b.len(),
{
    if b.len() > 0 {
        lemma_newline_count_append(a, b.drop_last());
        assert((a + b).drop_last() =~= a + b.drop_last());
    }
}

proof fn lemma_runs_have_no_newline_span(ts: Seq<StyledText>)
    requires
        forall|k: int| 0 <= k < ts.len() ==> ts[k].text@ != seq!['\n'],
    ensures
        newline_count(ts.map_values(|t: StyledText| span_of(t))) == 0,
    decreases ts.len(),
{
    if ts.len() > 0 {
        lemma_runs_have_no_newline_span(ts.drop_last());
        assert(ts.map_values(|t: StyledText| span_of(t)).drop_last() =~= ts.drop_last().map_values(
            |t: StyledText| span_of(t),
        ));
    }
}

/// A covering of the lines of `code` yields exactly one line-feed span per line,
/// and only well-formed colors when the page background is one.
pub proof fn lemma_highlight_laws(code: Seq<char>, ls: Seq<Seq<StyledText>>, fg: Rgb, bg: Seq<char>)
    requires
        covers_lines(ls, code),
        is_hex_color(bg),
    ensures
        newline_count(assembled(ls, fg, bg)) == lines_of(code).len(),
        code.len() > 0 ==> assembled(ls, fg, bg).len() > 0,
        colors_well_formed(assembled(ls, fg, bg)),
{
    lemma_lines_of(code);
    lemma_assembled_laws(code, ls, fg, bg, ls.len() as int);
    assert(ls.take(ls.len() as int) =~= ls);
    if code.len() > 0 {
        assert(assembled(ls, fg, bg).len() > 0) by {
            if assembled(ls, fg, bg).len() == 0 {
                assert(newline_count(assembled(ls, fg, bg)) == 0);
            }
        }
    }
}

proof fn lemma_assembled_laws(
    code: Seq<char>,
    ls: Seq<Seq<StyledText>>,
    fg: Rgb,
    bg: Seq<char>,
    n: int,
)
    requires
        covers_lines(ls, code),
        is_hex_color(bg),
        0 <= n <= ls.len(),
        forall|i: int, j: int|
            0 <= i < lines_of(code).len() && 0 <= j < lines_of(code)[i].len() ==> lines_of(
                code,
            )[i][j] != '\n',
    ensures
        newline_count(assembled(ls.take(n), fg, bg)) == n,
        colors_well_formed(assembled(ls.take(n), fg, bg)),
    decreases n,
{
    if n > 0 {
        lemma_assembled_laws(code, ls, fg, bg, n - 1);
        let prev = ls.take(n - 1);
        assert(ls.take(n).drop_last() =~= prev);
        let ts = ls[n - 1];
        assert forall|k: int| 0 <= k < ts.len() implies ts[k].text@ != seq!['\n'] by {
            if ts[k].text@ == seq!['\n'] {
                assert(is_prefix(joined(texts_of(ts)), lines_of(code)[n - 1]));
                assert(texts_of(ts)[k] == seq!['\n']);
                lemma_joined_newline(texts_of(ts), k);
                let w = choose|w: int|
                    0 <= w < joined(texts_of(ts)).len() && joined(texts_of(ts))[w] == '\n';
                assert(lines_of(code)[n - 1].take(joined(texts_of(ts)).len() as int)[w] == '\n');
                assert(lines_of(code)[n - 1][w] == '\n');
            }
        }
        lemma_runs_have_no_newline_span(ts);
        let mapped = ts.map_values(|t: StyledText| span_of(t));
        lemma_newline_count_append(mapped, seq![terminator(fg, bg)]);
        assert(line_spans(ts, fg, bg) =~= mapped + seq![terminator(fg, bg)]);
        assert(newline_count(seq![terminator(fg, bg)]) == 1) by {
            assert(seq![terminator(fg, bg)].drop_last() =~= Seq::<SpanModel>::empty());
            assert(newline_count(Seq::<SpanModel>::empty()) == 0);
        }
        lemma_newline_count_append(assembled(prev, fg, bg), line_spans(ts, fg, bg));
        let all = assembled(ls.take(n), fg, bg);
        let p = assembled(prev, fg, bg);
        assert(ls.take(n).last() == ts);
        assert(all == p + line_spans(ts, fg, bg));
        assert forall|k: int| 0 <= k < all.len() implies is_hex_color((#[trigger] all[k]).1) && (
        is_hex_color(all[k].2)) by {
            if k >= p.len() {
                let m = k - p.len();
                if m < ts.len() {
                    lemma_hex_of_is_hex_color(ts[m].foreground);
                    lemma_hex_of_is_hex_color(ts[m].background);
                    assert(line_spans(ts, fg, bg)[m] == mapped[m]);
                    assert(all[k] == span_of(ts[m]));
                    assert(all[k].1 == hex_of(ts[m].foreground));
                    assert(all[k].2 == hex_of(ts[m].background));
                } else {
                    lemma_hex_of_is_hex_color(fg);
                    assert(line_spans(ts, fg, bg)[m] == terminator(fg, bg));
                    assert(all[k] == terminator(fg, bg));
                    assert(all[k].1 == hex_of(fg));
                }
            } else {
                assert(all[k] == p[k]);
                assert(is_hex_color(p[k].1));
            }
        }
        assert(colors_well_formed(all));
    } else {
        assert(assembled(ls.take(n), fg, bg) =~= Seq::<SpanModel>::empty());
    }
}

/// The names of the loaded grammars, in load order.
pub fn get_available_languages(bundle: &Bundle) -> (r: Vec<String>)
    ensures
        r@.map_values(|n: String| n@) == bundle.grammars(),
        r@.len() > 0,
{
    let r = bundle.grammar_name_list();
    assert(r@.map_values(|n: String| n@).contains("Plain Text"@));
    r
}

/// The names of the loaded themes, each once; the default dark theme among them.
pub fn get_available_themes(bundle: &Bundle) -> (r: Vec<String>)
    ensures
        r@.map_values(|n: String| n@).to_set() == bundle.themes().dom(),
        r@.map_values(|n: String| n@).no_duplicates(),
        r@.map_values(|n: String| n@).contains(default_theme_name()),
{
    let r = bundle.theme_name_list();
    assert(r@.map_values(|n: String| n@).to_set().contains(default_theme_name()));
    r
}

/// The page background of the theme that `theme` resolves to: the theme of that
/// name, else the default dark theme.
pub fn get_theme_background(bundle: &Bundle, theme: &str) -> (r: String)
    ensures
        r@ == resolved_background(*bundle, theme@),
        is_hex_color(r@),
{
    let (_, colors) = bundle.resolve_theme(theme);
    background_or_default(colors.background)
}

/// Highlights `code` with the engine theme that a host theme name maps to.
pub fn highlight_code_with_app_theme(bundle: &Bundle, code: &str, language: &str, app_theme: &str) -> (r:
    HighlightResult)
    ensures
        highlighted(*bundle, code@, engine_theme_of(app_theme@), r),
{
    let engine_theme = map_dotviewer_theme(app_theme);
    highlight_code(bundle, code, language, engine_theme.as_str())
}

/// The background of the engine theme that a host theme name maps to.
pub fn get_app_theme_background(bundle: &Bundle, app_theme: &str) -> (r: String)
    ensures
        r@ == resolved_background(*bundle, engine_theme_of(app_theme@)),
        is_hex_color(r@),
{
    let engine_theme = map_dotviewer_theme(app_theme);
    get_theme_background(bundle, engine_theme.as_str())
}

} // verus!
