use admin_app::config::{ClientConfig, ClientLogo, ConfigManager};

fn client(name: &str, theme: &str, custom_css: Option<&str>) -> ClientConfig {
    ClientConfig {
        name: name.to_string(),
        theme: theme.to_string(),
        logo: ClientLogo { text: Some(name.to_string()), image_url: None, width: None, height: None },
        custom_css: custom_css.map(|s| s.to_string()),
        custom_js: None,
    }
}

#[test]
fn every_registered_theme_carries_its_name() {
    let m = ConfigManager::new();
    for name in ["default", "blue", "dark", "green"] {
        let t = m.get_theme(name).expect("registered theme");
        assert_eq!(t.name, name);
    }
    assert!(m.get_theme("purple").is_none());
}

#[test]
fn default_theme_always_found() {
    let m = ConfigManager::new();
    let t = m.get_theme("default").expect("default theme");
    assert_eq!(t.css_file, "/css/themes/default.css");
}

#[test]
fn list_themes_once_each() {
    let m = ConfigManager::new();
    let mut names: Vec<String> = m.list_themes().iter().map(|t| t.name.clone()).collect();
    names.sort();
    assert_eq!(names, vec!["blue", "dark", "default", "green"]);
}

#[test]
fn builtin_scenario() {
    let m = ConfigManager::new();
    let t = m.get_theme_for_client("client1");
    assert_eq!(t.name, "blue");
    assert_eq!(t.display_name, "Blue Corporate");
    assert_eq!(
        m.get_client_css_files("client1"),
        vec!["/css/themes/blue.css".to_string(), "/css/clients/client1-custom.css".to_string()]
    );
    assert_eq!(m.get_theme_for_client("client2").name, "green");
    let d = m.get_theme_for_client("unknown-id");
    assert_eq!(d.name, "default");
    assert_eq!(d.css_file, "/css/themes/default.css");
}

#[test]
fn unknown_client_resolves_to_default() {
    let m = ConfigManager::new();
    let d = m.get_theme("default").unwrap();
    for id in ["", "client3", "CLIENT1"] {
        let t = m.get_theme_for_client(id);
        assert_eq!(t.name, d.name);
        assert_eq!(t.css_file, d.css_file);
    }
}

#[test]
fn unknown_client_css_is_default_only() {
    let m = ConfigManager::new();
    assert_eq!(m.get_client_css_files("nobody"), vec!["/css/themes/default.css".to_string()]);
}

#[test]
fn unregistered_theme_falls_back() {
    let mut m = ConfigManager::new();
    m.add_client("client9".to_string(), client("Nine", "purple", Some("/css/clients/nine.css")));
    assert_eq!(m.get_theme_for_client("client9").name, "default");
    assert_eq!(
        m.get_client_css_files("client9"),
        vec!["/css/themes/default.css".to_string(), "/css/clients/nine.css".to_string()]
    );
}

#[test]
fn client_without_override_has_one_stylesheet() {
    let mut m = ConfigManager::new();
    m.add_client("plain".to_string(), client("Plain", "dark", None));
    assert_eq!(m.get_client_css_files("plain"), vec!["/css/themes/dark.css".to_string()]);
    assert_eq!(m.get_theme_for_client("plain").logo_text, "Dark Admin");
}

#[test]
fn add_client_overwrites_whole_record() {
    let mut m = ConfigManager::new();
    m.add_client("client1".to_string(), client("Replaced", "dark", None));
    let c = m.get_client_config("client1").unwrap();
    assert_eq!(c.name, "Replaced");
    assert_eq!(c.theme, "dark");
    assert_eq!(c.custom_css, None);
    assert_eq!(c.logo.image_url, None);
    assert_eq!(m.list_clients().len(), 2);
    assert_eq!(m.get_client_css_files("client1"), vec!["/css/themes/dark.css".to_string()]);
}

#[test]
fn add_client_new_id_is_listed_last() {
    let mut m = ConfigManager::new();
    m.add_client("client3".to_string(), client("Third", "green", None));
    let names: Vec<String> = m.list_clients().iter().map(|c| c.name.clone()).collect();
    assert_eq!(names, vec!["Acme Corporation", "Green Solutions Inc", "Third"]);
}

#[test]
fn builtin_clients() {
    let m = ConfigManager::new();
    let c = m.get_client_config("client2").unwrap();
    assert_eq!(c.name, "Green Solutions Inc");
    assert_eq!(c.logo.text.as_deref(), Some("Green Solutions"));
    assert_eq!(c.logo.width.as_deref(), Some("140px"));
    assert_eq!(c.logo.height.as_deref(), Some("35px"));
    assert_eq!(c.custom_css.as_deref(), Some("/css/clients/client2-custom.css"));
    assert!(c.custom_js.is_none());
    assert!(m.get_client_config("client3").is_none());
}
