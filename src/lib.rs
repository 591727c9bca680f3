//! Syntax highlighting bindings: resolves languages and themes, and encodes the
//! highlighter's styled output as flat spans with hex colors and style bits.

mod color;
mod engine;
mod highlight;
mod repository;
mod text;
mod themes;

pub use color::{color_to_hex, font_style_to_u8, Rgb};
pub use engine::{Bundle, ThemeColors};
pub use engine::StyledText;
pub use highlight::{
    assemble_spans, background_or_default, get_app_theme_background, get_available_languages,
    get_available_themes, get_theme_background, highlight_code, highlight_code_with_app_theme,
    HighlightResult, HighlightedSpan,
};
pub use repository::{User, UserRepository};
pub use themes::map_dotviewer_theme;
