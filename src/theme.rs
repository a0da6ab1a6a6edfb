//! The registry's themes: a named bundle of a stylesheet and branding text.
use vstd::prelude::*;

verus! {

/// A visual theme, identified by its `name`.
#[derive(Debug, Clone)]
pub struct ThemeConfig {
    pub name: String,
    pub display_name: String,
    pub css_file: String,
    pub logo_text: String,
}

/// The mathematical value of a theme: its four texts.
pub struct ThemeView {
    pub name: Seq<char>,
    pub display_name: Seq<char>,
    pub css_file: Seq<char>,
    pub logo_text: Seq<char>,
}

impl View for ThemeConfig {
    type V = ThemeView;

    open spec fn view(&self) -> ThemeView {
        ThemeView {
            name: self.name@,
            display_name: self.display_name@,
            css_file: self.css_file@,
            logo_text: self.logo_text@,
        }
    }
}

/// The theme built from four literal texts.
pub open spec fn theme_view(name: &str, display_name: &str, css_file: &str, logo_text: &str) -> ThemeView {
    ThemeView { name: name@, display_name: display_name@, css_file: css_file@, logo_text: logo_text@ }
}

/// The theme that every registry falls back to.
pub open spec fn default_theme_view() -> ThemeView {
    theme_view("default", "Default Theme", "/css/themes/default.css", "Admin App")
}

/// The themes shipped with the application, in registry order.
pub open spec fn builtin_themes() -> Seq<ThemeView> {
    seq![
        default_theme_view(),
        theme_view("blue", "Blue Corporate", "/css/themes/blue.css", "Blue Corp"),
        theme_view("dark", "Dark Mode", "/css/themes/dark.css", "Dark Admin"),
        theme_view("green", "Green Nature", "/css/themes/green.css", "Green Nature"),
    ]
}

/// The views of a sequence of themes.
pub open spec fn themes_view(s: Seq<ThemeConfig>) -> Seq<ThemeView> {
    s.map_values(|t: ThemeConfig| t@)
}

impl ThemeConfig {
    fn from_texts(name: &str, display_name: &str, css_file: &str, logo_text: &str) -> (r: ThemeConfig)
        ensures
            r@ == theme_view(name, display_name, css_file, logo_text),
    {
        ThemeConfig {
            name: name.to_string(),
            display_name: display_name.to_string(),
            css_file: css_file.to_string(),
            logo_text: logo_text.to_string(),
        }
    }
}

impl Default for ThemeConfig {
    fn default() -> (r: ThemeConfig)
        ensures
            r@ == default_theme_view(),
    {
        ThemeConfig::from_texts("default", "Default Theme", "/css/themes/default.css", "Admin App")
    }
}

/// The themes shipped with the application.
pub fn get_available_themes() -> (r: Vec<ThemeConfig>)
    ensures
        themes_view(r@) == builtin_themes(),
{
    let r = vec![
        ThemeConfig::default(),
        ThemeConfig::from_texts("blue", "Blue Corporate", "/css/themes/blue.css", "Blue Corp"),
        ThemeConfig::from_texts("dark", "Dark Mode", "/css/themes/dark.css", "Dark Admin"),
        ThemeConfig::from_texts("green", "Green Nature", "/css/themes/green.css", "Green Nature"),
    ];
    assert(themes_view(r@) =~= builtin_themes());
    r
}

} // verus!
