use admin_app::theme::{get_available_themes, ThemeConfig};

#[test]
fn default_theme_fields() {
    let t = ThemeConfig::default();
    assert_eq!(t.name, "default");
    assert_eq!(t.display_name, "Default Theme");
    assert_eq!(t.css_file, "/css/themes/default.css");
    assert_eq!(t.logo_text, "Admin App");
}

#[test]
fn available_themes_in_order() {
    let themes = get_available_themes();
    let names: Vec<&str> = themes.iter().map(|t| t.name.as_str()).collect();
    assert_eq!(names, vec!["default", "blue", "dark", "green"]);
    assert_eq!(themes[1].display_name, "Blue Corporate");
    assert_eq!(themes[2].css_file, "/css/themes/dark.css");
    assert_eq!(themes[3].logo_text, "Green Nature");
}
