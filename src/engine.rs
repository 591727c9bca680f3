use vstd::prelude::*;
use syntect::easy::HighlightLines;
use syntect::highlighting::{Theme, ThemeSet};
use syntect::parsing::{SyntaxReference, SyntaxSet};
use crate::color::Rgb;
use crate::text::{joined, to_lowercase};

verus! {

#[verifier::external_type_specification]
#[verifier::external_body]
pub struct ExSyntaxSet(SyntaxSet);

#[verifier::external_type_specification]
#[verifier::external_body]
pub struct ExSyntaxReference(SyntaxReference);

#[verifier::external_type_specification]
#[verifier::external_body]
pub struct ExThemeSet(ThemeSet);

#[verifier::external_type_specification]
#[verifier::external_body]
pub struct ExTheme(Theme);

#[verifier::external_type_specification]
#[verifier::external_body]
pub struct ExHighlightLines<'a>(HighlightLines<'a>);

#[verifier::external_type_specification]
#[verifier::external_body]
pub struct ExError(syntect::Error);

/// One styled run of a line as the engine reports it, in plain values.
#[derive(Clone, Debug)]
pub struct StyledText {
    pub foreground: Rgb,
    pub background: Rgb,
    /// The engine's font flags: bold 1, underline 2, italic 4.
    pub font_flags: u8,
    pub text: String,
}

/// The colors a theme configures for the page: background and default text color.
#[derive(Clone, Copy, Debug, PartialEq, Eq, Structural)]
pub struct ThemeColors {
    pub background: Option<Rgb>,
    pub foreground: Option<Rgb>,
}

/// What the theme table of a theme set holds: each theme's page colors by name.
pub uninterp spec fn theme_table(s: ThemeSet) -> Map<Seq<char>, ThemeColors>;

/// The names of the grammars of a grammar set, in load order.
pub uninterp spec fn grammar_names(s: SyntaxSet) -> Seq<Seq<char>>;

/// The texts of a line's styled runs, in order.
pub open spec fn texts_of(ts: Seq<StyledText>) -> Seq<Seq<char>> {
    ts.map_values(|t: StyledText| t.text@)
}

/// Relies on SyntaxSet::load_defaults_newlines: the grammars bundled with the engine.
#[verifier::external_body]
fn load_syntaxes() -> SyntaxSet {
    SyntaxSet::load_defaults_newlines()
}

/// Relies on ThemeSet::load_defaults: the themes bundled with the engine.
#[verifier::external_body]
fn load_themes() -> ThemeSet {
    ThemeSet::load_defaults()
}

/// Relies on SyntaxSet::find_syntax_by_name: a grammar whose name is exactly `name`,
/// found whenever one is loaded.
#[verifier::external_body]
fn find_syntax_by_name<'a>(set: &'a SyntaxSet, name: &str) -> (r: Option<&'a SyntaxReference>)
    ensures
        r is Some <==> grammar_names(*set).contains(name@),
{
    set.find_syntax_by_name(name)
}

/// Relies on SyntaxSet::find_syntax_by_extension: the last grammar claiming that extension.
#[verifier::external_body]
fn find_syntax_by_extension<'a>(set: &'a SyntaxSet, ext: &str) -> Option<&'a SyntaxReference> {
    set.find_syntax_by_extension(ext)
}

/// Relies on SyntaxReference's Clone, to keep the plain-text grammar at hand.
#[verifier::external_body]
fn clone_syntax(s: &SyntaxReference) -> SyntaxReference {
    s.clone()
}

/// Relies on SyntaxSet::syntaxes: the name of each loaded grammar, in load order.
#[verifier::external_body]
fn syntax_names(set: &SyntaxSet) -> (r: Vec<String>)
    ensures
        r@.map_values(|n: String| n@) == grammar_names(*set),
{
    set.syntaxes().iter().map(|s| s.name.clone()).collect()
}

/// Relies on BTreeMap::contains_key on the theme table of ThemeSet.
#[verifier::external_body]
fn has_theme(set: &ThemeSet, name: &str) -> (r: bool)
    ensures
        r == theme_table(*set).contains_key(name@),
{
    set.themes.contains_key(name)
}

/// Relies on indexing the theme table of ThemeSet: the theme stored under `name`.
#[verifier::external_body]
fn theme_by_name<'a>(set: &'a ThemeSet, name: &str) -> &'a Theme
    requires
        theme_table(*set).contains_key(name@),
{
    &set.themes[name]
}

/// Relies on indexing the theme table of ThemeSet: the page colors in the settings
/// of the theme stored under `name`, without alpha.
#[verifier::external_body]
fn theme_colors(set: &ThemeSet, name: &str) -> (r: ThemeColors)
    requires
        theme_table(*set).contains_key(name@),
    ensures
        r == theme_table(*set)[name@],
{
    let s = &set.themes[name].settings;
    ThemeColors {
        background: s.background.map(|c| Rgb { r: c.r, g: c.g, b: c.b }),
        foreground: s.foreground.map(|c| Rgb { r: c.r, g: c.g, b: c.b }),
    }
}

/// Relies on BTreeMap::keys on the theme table of ThemeSet: each name once.
#[verifier::external_body]
fn theme_names(set: &ThemeSet) -> (r: Vec<String>)
    ensures
        r@.map_values(|n: String| n@).to_set() == theme_table(*set).dom(),
        r@.map_values(|n: String| n@).no_duplicates(),
{
    set.themes.keys().cloned().collect()
}

/// Relies on HighlightLines::new: a line highlighter for a grammar and a theme.
#[verifier::external_body]
pub(crate) fn new_highlighter<'a>(syntax: &SyntaxReference, theme: &'a Theme) -> HighlightLines<'a> {
    HighlightLines::new(syntax, theme)
}

/// Relies on HighlightLines::highlight_line: styled runs, each a slice of the line
/// following the one before, from its start on.
#[verifier::external_body]
pub(crate) fn highlight_line(h: &mut HighlightLines, line: &str, set: &SyntaxSet) -> (r: Result<
    Vec<StyledText>,
    syntect::Error,
>)
    ensures
        r matches Ok(v) ==> is_prefix(joined(texts_of(v@)), line@),
{
    h.highlight_line(line, set).map(|v| v.into_iter().map(|(s, t)| StyledText {
        foreground: Rgb { r: s.foreground.r, g: s.foreground.g, b: s.foreground.b },
        background: Rgb { r: s.background.r, g: s.background.g, b: s.background.b },
        font_flags: s.font_style.bits(),
        text: t.to_string(),
    }).collect())
}

/// Whether `p` is a prefix of `s`.
pub open spec fn is_prefix(p: Seq<char>, s: Seq<char>) -> bool {
    p.len() <= s.len() && p == s.take(p.len() as int)
}

/// The name of the default dark theme.
pub open spec fn default_theme_name() -> Seq<char> {
    "base16-ocean.dark"@
}

/// The theme a name resolves to: itself when the table holds it, else the default.
pub open spec fn resolved_theme(table: Map<Seq<char>, ThemeColors>, name: Seq<char>) -> Seq<char> {
    if table.contains_key(name) {
        name
    } else {
        default_theme_name()
    }
}

/// The loaded grammars and themes. The theme table always holds the default dark
/// theme and the grammar set always holds the plain-text grammar.
pub struct Bundle {
    syntaxes: SyntaxSet,
    themes: ThemeSet,
    plain_text: SyntaxReference,
}

impl Bundle {
    /// The page colors of each loaded theme, by name.
    pub closed spec fn themes(&self) -> Map<Seq<char>, ThemeColors> {
        theme_table(self.themes)
    }

    /// The names of the loaded grammars, in load order.
    pub closed spec fn grammars(&self) -> Seq<Seq<char>> {
        grammar_names(self.syntaxes)
    }

    pub open spec fn wf(&self) -> bool {
        &&& self.themes().contains_key(default_theme_name())
        &&& self.grammars().contains("Plain Text"@)
    }

    #[verifier::type_invariant]
    spec fn inv(&self) -> bool {
        self.wf()
    }

    /// Loads the bundled grammars and themes; `None` exactly when the bundle lacks
    /// the plain-text grammar or the default dark theme.
    pub fn load_defaults() -> (r: Option<Bundle>)
        ensures
            r matches Some(b) ==> b.wf(),
    {
        let syntaxes = load_syntaxes();
        let themes = load_themes();
        let plain_text = match find_syntax_by_name(&syntaxes, "Plain Text") {
            Some(s) => clone_syntax(s),
            None => {
                return None;
            },
        };
        if !has_theme(&themes, "base16-ocean.dark") {
            return None;
        }
        Some(Bundle { syntaxes, themes, plain_text })
    }

    /// The grammar set, for the line highlighter.
    pub(crate) fn syntaxes(&self) -> &SyntaxSet {
        &self.syntaxes
    }

    /// The grammar for a language name or file extension: by name, by extension,
    /// by lower-cased extension, else plain text.
    pub(crate) fn resolve_syntax(&self, language: &str) -> &SyntaxReference {
        match find_syntax_by_name(&self.syntaxes, language) {
            Some(s) => s,
            None => match find_syntax_by_extension(&self.syntaxes, language) {
                Some(s) => s,
                None => {
                    let lower = to_lowercase(language);
                    match find_syntax_by_extension(&self.syntaxes, lower.as_str()) {
                        Some(s) => s,
                        None => &self.plain_text,
                    }
                },
            },
        }
    }

    /// The theme that `name` resolves to, with its page colors.
    pub(crate) fn resolve_theme(&self, name: &str) -> (r: (&Theme, ThemeColors))
        ensures
            r.1 == self.themes()[resolved_theme(self.themes(), name@)],
    {
        proof {
            use_type_invariant(self);
        }
        if has_theme(&self.themes, name) {
            (theme_by_name(&self.themes, name), theme_colors(&self.themes, name))
        } else {
            (theme_by_name(&self.themes, "base16-ocean.dark"), theme_colors(
                &self.themes,
                "base16-ocean.dark",
            ))
        }
    }

    /// The names of the loaded grammars, in load order.
    pub(crate) fn grammar_name_list(&self) -> (r: Vec<String>)
        ensures
            r@.map_values(|n: String| n@) == self.grammars(),
            self.wf(),
    {
        proof {
            use_type_invariant(self);
        }
        syntax_names(&self.syntaxes)
    }

    /// The names of the loaded themes, each once.
    pub(crate) fn theme_name_list(&self) -> (r: Vec<String>)
        ensures
            r@.map_values(|n: String| n@).to_set() == self.themes().dom(),
            r@.map_values(|n: String| n@).no_duplicates(),
            self.wf(),
    {
        proof {
            use_type_invariant(self);
        }
        theme_names(&self.themes)
    }
}

} // verus!
