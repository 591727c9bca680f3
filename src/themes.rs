use vstd::prelude::*;
use vstd::string::*;
use crate::text::str_eq;

verus! {

/// The engine theme used for "auto" and for every unrecognized host theme.
pub open spec fn default_engine_theme() -> Seq<char> {
    "base16-ocean.dark"@
}

/// The alias table from host theme names to engine theme names.
pub open spec fn engine_theme_of(app: Seq<char>) -> Seq<char> {
    if app == "atomOneLight"@ {
        "base16-ocean.light"@
    } else if app == "github"@ {
        "InspiredGitHub"@
    } else if app == "xcode"@ {
        "base16-ocean.light"@
    } else if app == "solarizedLight"@ {
        "Solarized (light)"@
    } else if app == "atomOneDark"@ {
        "base16-ocean.dark"@
    } else if app == "githubDark"@ {
        "base16-ocean.dark"@
    } else if app == "xcodeDark"@ {
        "base16-eighties.dark"@
    } else if app == "solarizedDark"@ {
        "Solarized (dark)"@
    } else if app == "tokyoNight"@ {
        "base16-ocean.dark"@
    } else if app == "blackout"@ {
        "base16-mocha.dark"@
    } else {
        default_engine_theme()
    }
}

/// Maps a host application theme name to the engine theme it stands for.
pub fn map_dotviewer_theme(app_theme: &str) -> (r: String)
    ensures
        r@ == engine_theme_of(app_theme@),
{
    if str_eq(app_theme, "atomOneLight") {
        String::from_str("base16-ocean.light")
    } else if str_eq(app_theme, "github") {
        String::from_str("InspiredGitHub")
    } else if str_eq(app_theme, "xcode") {
        String::from_str("base16-ocean.light")
    } else if str_eq(app_theme, "solarizedLight") {
        String::from_str("Solarized (light)")
    } else if str_eq(app_theme, "atomOneDark") {
        String::from_str("base16-ocean.dark")
    } else if str_eq(app_theme, "githubDark") {
        String::from_str("base16-ocean.dark")
    } else if str_eq(app_theme, "xcodeDark") {
        String::from_str("base16-eighties.dark")
    } else if str_eq(app_theme, "solarizedDark") {
        String::from_str("Solarized (dark)")
    } else if str_eq(app_theme, "tokyoNight") {
        String::from_str("base16-ocean.dark")
    } else if str_eq(app_theme, "blackout") {
        String::from_str("base16-mocha.dark")
    } else {
        String::from_str("base16-ocean.dark")
    }
}

/// "auto" and every name outside the table map to the default dark engine theme.
pub proof fn lemma_auto_and_unknown_map_to_default(app: Seq<char>)
    requires
        app != "atomOneLight"@,
        app != "github"@,
        app != "xcode"@,
        app != "solarizedLight"@,
        app != "atomOneDark"@,
        app != "githubDark"@,
        app != "xcodeDark"@,
        app != "solarizedDark"@,
        app != "tokyoNight"@,
        app != "blackout"@,
    ensures
        engine_theme_of(app) == default_engine_theme(),
        engine_theme_of("auto"@) == default_engine_theme(),
{
    reveal_strlit("auto");
    reveal_strlit("atomOneLight");
    reveal_strlit("github");
    reveal_strlit("xcode");
    reveal_strlit("solarizedLight");
    reveal_strlit("atomOneDark");
    reveal_strlit("githubDark");
    reveal_strlit("xcodeDark");
    reveal_strlit("solarizedDark");
    reveal_strlit("tokyoNight");
    reveal_strlit("blackout");
    assert("auto"@.len() != "atomOneLight"@.len());
    assert("auto"@.len() != "github"@.len());
    assert("auto"@.len() != "xcode"@.len());
    assert("auto"@.len() != "solarizedLight"@.len());
    assert("auto"@.len() != "atomOneDark"@.len());
    assert("auto"@.len() != "githubDark"@.len());
    assert("auto"@.len() != "xcodeDark"@.len());
    assert("auto"@.len() != "solarizedDark"@.len());
    assert("auto"@.len() != "tokyoNight"@.len());
    assert("auto"@.len() != "blackout"@.len());
}

} // verus!
