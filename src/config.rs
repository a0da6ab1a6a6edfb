//! Clients, the application's configuration, and the resolver that picks a
//! client's theme and stylesheets with a fallback to the default theme.
use vstd::prelude::*;

use crate::theme::{builtin_themes, get_available_themes, themes_view, ThemeConfig, ThemeView};

verus! {

/// How a client's logo is shown.
#[derive(Debug, Clone)]
pub struct ClientLogo {
    pub text: Option<String>,
    pub image_url: Option<String>,
    pub width: Option<String>,
    pub height: Option<String>,
}

/// A client: its display name, logo, the name of its theme, and optional
/// stylesheet and script overrides.
#[derive(Debug, Clone)]
pub struct ClientConfig {
    pub name: String,
    pub theme: String,
    pub logo: ClientLogo,
    pub custom_css: Option<String>,
    pub custom_js: Option<String>,
}

/// The view of an optional text.
pub open spec fn opt_view(o: Option<String>) -> Option<Seq<char>> {
    match o {
        Some(s) => Some(s@),
        None => None,
    }
}

pub struct ClientLogoView {
    pub text: Option<Seq<char>>,
    pub image_url: Option<Seq<char>>,
    pub width: Option<Seq<char>>,
    pub height: Option<Seq<char>>,
}

pub struct ClientConfigView {
    pub name: Seq<char>,
    pub theme: Seq<char>,
    pub logo: ClientLogoView,
    pub custom_css: Option<Seq<char>>,
    pub custom_js: Option<Seq<char>>,
}

impl View for ClientLogo {
    type V = ClientLogoView;

    open spec fn view(&self) -> ClientLogoView {
        ClientLogoView {
            text: opt_view(self.text),
            image_url: opt_view(self.image_url),
            width: opt_view(self.width),
            height: opt_view(self.height),
        }
    }
}

impl View for ClientConfig {
    type V = ClientConfigView;

    open spec fn view(&self) -> ClientConfigView {
        ClientConfigView {
            name: self.name@,
            theme: self.theme@,
            logo: self.logo@,
            custom_css: opt_view(self.custom_css),
            custom_js: opt_view(self.custom_js),
        }
    }
}

/// The whole configuration: the name of the default theme, the theme
/// registry (keyed by each theme's own name) and the client directory
/// (keyed by client id, in insertion order).
#[derive(Debug)]
pub struct AppConfig {
    pub default_theme: String,
    pub themes: Vec<ThemeConfig>,
    pub clients: Vec<(String, ClientConfig)>,
}

/// What a configuration means: the default theme's name, the registry as a
/// map from name to theme, the directory as a map from id to client, and the
/// client ids in the order in which they were first added.
pub struct AppConfigView {
    pub default_theme: Seq<char>,
    pub themes: Map<Seq<char>, ThemeView>,
    pub clients: Map<Seq<char>, ClientConfigView>,
    pub client_ids: Seq<Seq<char>>,
}

impl AppConfigView {
    /// The configuration invariant: the default theme is registered, every
    /// theme is registered under its own name, and the ordered ids list each
    /// client exactly once.
    pub open spec fn wf(self) -> bool {
        &&& self.themes.contains_key(self.default_theme)
        &&& forall|k: Seq<char>| #[trigger] self.themes.contains_key(k) ==> self.themes[k].name == k
        &&& self.client_ids.no_duplicates()
        &&& forall|k: Seq<char>|
            #[trigger] self.clients.contains_key(k) <==> self.client_ids.contains(k)
    }

    /// The theme that a client id resolves to: the client's own theme when
    /// both the client and its theme are known, the default theme otherwise.
    pub open spec fn resolve_theme(self, client_id: Seq<char>) -> ThemeView {
        if self.clients.contains_key(client_id) && self.themes.contains_key(
            self.clients[client_id].theme,
        ) {
            self.themes[self.clients[client_id].theme]
        } else {
            self.themes[self.default_theme]
        }
    }

    /// The stylesheets that a client id loads, in order: the resolved theme's
    /// stylesheet, then the client's own override when it has one.
    pub open spec fn css_files(self, client_id: Seq<char>) -> Seq<Seq<char>> {
        let base = seq![self.resolve_theme(client_id).css_file];
        if self.clients.contains_key(client_id) {
            match self.clients[client_id].custom_css {
                Some(c) => base.push(c),
                None => base,
            }
        } else {
            base
        }
    }
}

/// The names of a sequence of themes.
pub open spec fn theme_names(s: Seq<ThemeView>) -> Seq<Seq<char>> {
    s.map_values(|t: ThemeView| t.name)
}

/// The view of each directory entry: an id and a client.
pub open spec fn entries_view(s: Seq<(String, ClientConfig)>) -> Seq<(Seq<char>, ClientConfigView)> {
    s.map_values(|e: (String, ClientConfig)| (e.0@, e.1@))
}

/// The ids of a sequence of directory entries.
pub open spec fn entry_ids(s: Seq<(Seq<char>, ClientConfigView)>) -> Seq<Seq<char>> {
    s.map_values(|e: (Seq<char>, ClientConfigView)| e.0)
}

/// A registry as a map: each name to the theme that carries it.
pub open spec fn themes_map(s: Seq<ThemeView>) -> Map<Seq<char>, ThemeView> {
    Map::new(
        |k: Seq<char>| theme_names(s).contains(k),
        |k: Seq<char>| s[theme_names(s).index_of(k)],
    )
}

/// A directory as a map: each id to the client stored under it.
pub open spec fn clients_map(s: Seq<(Seq<char>, ClientConfigView)>) -> Map<Seq<char>, ClientConfigView> {
    Map::new(
        |k: Seq<char>| entry_ids(s).contains(k),
        |k: Seq<char>| s[entry_ids(s).index_of(k)].1,
    )
}

/// The configuration of a theme registry and a client directory.
pub open spec fn config_view(
    default_theme: Seq<char>,
    themes: Seq<ThemeView>,
    clients: Seq<(Seq<char>, ClientConfigView)>,
) -> AppConfigView {
    AppConfigView {
        default_theme,
        themes: themes_map(themes),
        clients: clients_map(clients),
        client_ids: entry_ids(clients),
    }
}

impl View for AppConfig {
    type V = AppConfigView;

    open spec fn view(&self) -> AppConfigView {
        config_view(self.default_theme@, themes_view(self.themes@), entries_view(self.clients@))
    }
}

/// In a sequence without duplicates, the position of a present element is
/// the one at which it was found.
proof fn lemma_index_of_unique(s: Seq<Seq<char>>, i: int)
    requires
        s.no_duplicates(),
        0 <= i < s.len(),
    ensures
        s.contains(s[i]),
        s.index_of(s[i]) == i,
{
    assert(s.contains(s[i]));
}

impl AppConfig {
    /// The stored form is well formed: names and ids are unique and the
    /// default theme is registered.
    pub open spec fn wf(&self) -> bool {
        &&& theme_names(themes_view(self.themes@)).no_duplicates()
        &&& entry_ids(entries_view(self.clients@)).no_duplicates()
        &&& theme_names(themes_view(self.themes@)).contains(self.default_theme@)
    }

    proof fn lemma_view_wf(&self)
        requires
            self.wf(),
        ensures
            self@.wf(),
    {
        let names = theme_names(themes_view(self.themes@));
        assert forall|k: Seq<char>| #[trigger] self@.themes.contains_key(k) implies self@.themes[k].name == k by {
            let i = names.index_of(k);
            assert(names[i] == k);
        }
    }

    /// The position of the theme registered under `name`.
    fn find_theme(&self, name: &String) -> (r: Option<usize>)
        requires
            self.wf(),
        ensures
            r.is_some() == self@.themes.contains_key(name@),
            r matches Some(i) ==> i < self.themes@.len() && self.themes@[i as int]@
                == self@.themes[name@],
    {
        let ghost names = theme_names(themes_view(self.themes@));
        let mut i: usize = 0;
        while i < self.themes.len()
            invariant
                i <= self.themes@.len(),
                self.wf(),
                names == theme_names(themes_view(self.themes@)),
                forall|j: int| 0 <= j < i ==> names[j] != name@,
            decreases self.themes@.len() - i,
        {
            if self.themes[i].name == *name {
                proof {
                    lemma_index_of_unique(names, i as int);
                }
                return Some(i);
            }
            i += 1;
        }
        None
    }

    /// The position of the client stored under `client_id`.
    fn find_client(&self, client_id: &String) -> (r: Option<usize>)
        requires
            entry_ids(entries_view(self.clients@)).no_duplicates(),
        ensures
            r.is_some() == self@.clients.contains_key(client_id@),
            r matches Some(i) ==> i < self.clients@.len() && self.clients@[i as int].0@
                == client_id@ && self.clients@[i as int].1@ == self@.clients[client_id@],
    {
        let ghost ids = entry_ids(entries_view(self.clients@));
        let mut i: usize = 0;
        while i < self.clients.len()
            invariant
                i <= self.clients@.len(),
                ids.no_duplicates(),
                ids == entry_ids(entries_view(self.clients@)),
                forall|j: int| 0 <= j < i ==> ids[j] != client_id@,
            decreases self.clients@.len() - i,
        {
            if self.clients[i].0 == *client_id {
                proof {
                    lemma_index_of_unique(ids, i as int);
                }
                return Some(i);
            }
            i += 1;
        }
        None
    }
}

/// A client with a fully described logo and a stylesheet override, built
/// from literal texts.
pub open spec fn sample_client_view(
    name: &str,
    theme: &str,
    logo_text: &str,
    image_url: &str,
    width: &str,
    height: &str,
    custom_css: &str,
) -> ClientConfigView {
    ClientConfigView {
        name: name@,
        theme: theme@,
        logo: ClientLogoView {
            text: Some(logo_text@),
            image_url: Some(image_url@),
            width: Some(width@),
            height: Some(height@),
        },
        custom_css: Some(custom_css@),
        custom_js: None,
    }
}

/// The clients shipped with the application, in directory order.
pub open spec fn builtin_clients() -> Seq<(Seq<char>, ClientConfigView)> {
    seq![
        ("client1"@, sample_client_view(
            "Acme Corporation",
            "blue",
            "Acme Corp",
            "/images/logos/acme-logo.png",
            "120px",
            "40px",
            "/css/clients/client1-custom.css",
        )),
        ("client2"@, sample_client_view(
            "Green Solutions Inc",
            "green",
            "Green Solutions",
            "/images/logos/green-logo.png",
            "140px",
            "35px",
            "/css/clients/client2-custom.css",
        )),
    ]
}

/// The configuration the application starts with.
pub open spec fn builtin_config() -> AppConfigView {
    config_view("default"@, builtin_themes(), builtin_clients())
}

impl ClientConfig {
    fn sample(
        name: &str,
        theme: &str,
        logo_text: &str,
        image_url: &str,
        width: &str,
        height: &str,
        custom_css: &str,
    ) -> (r: ClientConfig)
        ensures
            r@ == sample_client_view(name, theme, logo_text, image_url, width, height, custom_css),
    {
        ClientConfig {
            name: name.to_string(),
            theme: theme.to_string(),
            logo: ClientLogo {
                text: Some(logo_text.to_string()),
                image_url: Some(image_url.to_string()),
                width: Some(width.to_string()),
                height: Some(height.to_string()),
            },
            custom_css: Some(custom_css.to_string()),
            custom_js: None,
        }
    }
}

impl Default for AppConfig {
    fn default() -> (r: AppConfig)
        ensures
            r.wf(),
            r@ == builtin_config(),
    {
        let themes = get_available_themes();
        let clients = vec![
            ("client1".to_string(), ClientConfig::sample(
                "Acme Corporation",
                "blue",
                "Acme Corp",
                "/images/logos/acme-logo.png",
                "120px",
                "40px",
                "/css/clients/client1-custom.css",
            )),
            ("client2".to_string(), ClientConfig::sample(
                "Green Solutions Inc",
                "green",
                "Green Solutions",
                "/images/logos/green-logo.png",
                "140px",
                "35px",
                "/css/clients/client2-custom.css",
            )),
        ];
        let r = AppConfig { default_theme: "default".to_string(), themes, clients };
        proof {
            reveal_strlit("default");
            reveal_strlit("blue");
            reveal_strlit("dark");
            reveal_strlit("green");
            reveal_strlit("client1");
            reveal_strlit("client2");
            assert(entries_view(r.clients@) =~= builtin_clients());
            let names = theme_names(themes_view(r.themes@));
            assert(names =~= seq!["default"@, "blue"@, "dark"@, "green"@]);
            assert(names[0][1] != names[1][1]);
            assert(names[0][1] != names[2][1]);
            assert(names[0][1] != names[3][1]);
            assert(names[1][0] != names[2][0]);
            assert(names[1][0] != names[3][0]);
            assert(names[2][0] != names[3][0]);
            assert(names[0] != names[1]);
            assert(names[0] != names[2]);
            assert(names[0] != names[3]);
            assert(names[1] != names[2]);
            assert(names[1] != names[3]);
            assert(names[2] != names[3]);
            assert(names[0] == r.default_theme@);
            let ids = entry_ids(entries_view(r.clients@));
            assert(ids[0][6] != ids[1][6]);
        }
        r
    }
}

/// Overwriting the entry at a stored id keeps the ids and replaces that one
/// client in the directory.
proof fn lemma_clients_update(s: Seq<(Seq<char>, ClientConfigView)>, i: int, c: ClientConfigView)
    requires
        entry_ids(s).no_duplicates(),
        0 <= i < s.len(),
    ensures
        entry_ids(s.update(i, (s[i].0, c))) == entry_ids(s),
        clients_map(s.update(i, (s[i].0, c))) == clients_map(s).insert(s[i].0, c),
{
    let k = s[i].0;
    let t = s.update(i, (k, c));
    let ids = entry_ids(s);
    assert(entry_ids(t) =~= ids);
    lemma_index_of_unique(ids, i);
    assert forall|x: Seq<char>| #[trigger] clients_map(t).contains_key(x) implies clients_map(t)[x]
        == clients_map(s).insert(k, c)[x] by {
        let j = ids.index_of(x);
        if x != k {
            assert(j != i);
        }
    }
    assert(clients_map(t) =~= clients_map(s).insert(k, c));
}

/// Appending an entry under a new id adds that id last and that one client
/// to the directory.
proof fn lemma_clients_push(s: Seq<(Seq<char>, ClientConfigView)>, k: Seq<char>, c: ClientConfigView)
    requires
        entry_ids(s).no_duplicates(),
        !entry_ids(s).contains(k),
    ensures
        entry_ids(s.push((k, c))) == entry_ids(s).push(k),
        entry_ids(s).push(k).no_duplicates(),
        clients_map(s.push((k, c))) == clients_map(s).insert(k, c),
{
    let t = s.push((k, c));
    let ids = entry_ids(s);
    let tids = entry_ids(t);
    assert(tids =~= ids.push(k));
    assert forall|a: int, b: int| 0 <= a < tids.len() && 0 <= b < tids.len() && a != b implies tids[a]
        != tids[b] by {
        if a < ids.len() && b < ids.len() {
        } else if a < ids.len() {
            assert(ids.contains(ids[a]));
        } else {
            assert(ids.contains(ids[b]));
        }
    }
    lemma_index_of_unique(tids, s.len() as int);
    assert forall|x: Seq<char>| #[trigger] clients_map(t).contains_key(x) implies clients_map(t)[x]
        == clients_map(s).insert(k, c)[x] by {
        if x != k {
            let j = ids.index_of(x);
            assert(tids[j] == x);
            lemma_index_of_unique(tids, j);
        }
    }
    assert forall|x: Seq<char>| #[trigger] clients_map(s).insert(k, c).contains_key(x) implies clients_map(
        t,
    ).contains_key(x) by {
        if x != k {
            let j = ids.index_of(x);
            assert(tids[j] == x);
        }
    }
    assert(clients_map(t) =~= clients_map(s).insert(k, c));
}

/// Holds the application's configuration and answers theme, client and
/// stylesheet queries against it.
pub struct ConfigManager {
    config: AppConfig,
}

impl View for ConfigManager {
    type V = AppConfigView;

    closed spec fn view(&self) -> AppConfigView {
        self.config@
    }
}

impl ConfigManager {
    /// The stored configuration keeps names and ids unique and the default
    /// theme registered.
    pub closed spec fn wf(&self) -> bool {
        self.config.wf()
    }

    /// A well-formed manager has a well-formed view.
    pub proof fn lemma_wf(&self)
        requires
            self.wf(),
        ensures
            self@.wf(),
    {
        self.config.lemma_view_wf();
    }

    /// A manager holding the built-in themes and clients.
    pub fn new() -> (r: ConfigManager)
        ensures
            r.wf(),
            r@ == builtin_config(),
    {
        ConfigManager { config: AppConfig::default() }
    }

    /// The client stored under `client_id`, if any.
    pub fn get_client_config(&self, client_id: &str) -> (r: Option<&ClientConfig>)
        requires
            self.wf(),
        ensures
            r.is_some() == self@.clients.contains_key(client_id@),
            r matches Some(c) ==> c@ == self@.clients[client_id@],
    {
        let id = client_id.to_owned();
        match self.config.find_client(&id) {
            Some(i) => Some(&self.config.clients[i].1),
            None => None,
        }
    }

    /// The theme registered under `name`, if any.
    pub fn get_theme(&self, name: &str) -> (r: Option<&ThemeConfig>)
        requires
            self.wf(),
        ensures
            r.is_some() == self@.themes.contains_key(name@),
            r matches Some(t) ==> t@ == self@.themes[name@],
    {
        let key = name.to_owned();
        match self.config.find_theme(&key) {
            Some(i) => Some(&self.config.themes[i]),
            None => None,
        }
    }

    /// The theme that `client_id` resolves to, falling back to the default
    /// theme when the client or its theme is unknown.
    pub fn get_theme_for_client(&self, client_id: &str) -> (r: &ThemeConfig)
        requires
            self.wf(),
        ensures
            r@ == self@.resolve_theme(client_id@),
    {
        let id = client_id.to_owned();
        if let Some(c) = self.config.find_client(&id) {
            if let Some(t) = self.config.find_theme(&self.config.clients[c].1.theme) {
                return &self.config.themes[t];
            }
        }
        let d = self.config.find_theme(&self.config.default_theme);
        &self.config.themes[d.unwrap()]
    }

    /// Every registered theme, once each.
    pub fn list_themes(&self) -> (r: Vec<&ThemeConfig>)
        requires
            self.wf(),
        ensures
            theme_names(r@.map_values(|t: &ThemeConfig| t@)).no_duplicates(),
            forall|i: int|
                0 <= i < r@.len() ==> self@.themes.contains_key(#[trigger] r@[i].name@)
                    && self@.themes[r@[i].name@] == r@[i]@,
            forall|k: Seq<char>|
                #[trigger] self@.themes.contains_key(k) ==> exists|i: int|
                    0 <= i < r@.len() && r@[i].name@ == k,
    {
        let ghost names = theme_names(themes_view(self.config.themes@));
        let mut r: Vec<&ThemeConfig> = Vec::new();
        let mut i: usize = 0;
        while i < self.config.themes.len()
            invariant
                self.wf(),
                names == theme_names(themes_view(self.config.themes@)),
                i <= self.config.themes@.len(),
                r@.len() == i,
                forall|j: int| 0 <= j < i ==> r@[j] == self.config.themes@[j],
            decreases self.config.themes@.len() - i,
        {
            r.push(&self.config.themes[i]);
            i += 1;
        }
        proof {
            assert(theme_names(r@.map_values(|t: &ThemeConfig| t@)) =~= names);
            assert forall|i: int| 0 <= i < r@.len() implies self@.themes.contains_key(
                #[trigger] r@[i].name@,
            ) && self@.themes[r@[i].name@] == r@[i]@ by {
                lemma_index_of_unique(names, i);
            }
            assert forall|k: Seq<char>| #[trigger] self@.themes.contains_key(k) implies exists|i: int|
                0 <= i < r@.len() && r@[i].name@ == k by {
                let i = names.index_of(k);
                assert(r@[i].name@ == k);
            }
        }
        r
    }

    /// Every client, in the order of their ids.
    pub fn list_clients(&self) -> (r: Vec<&ClientConfig>)
        requires
            self.wf(),
        ensures
            r@.len() == self@.client_ids.len(),
            forall|i: int|
                0 <= i < r@.len() ==> #[trigger] r@[i]@ == self@.clients[self@.client_ids[i]],
    {
        let ghost ids = entry_ids(entries_view(self.config.clients@));
        let mut r: Vec<&ClientConfig> = Vec::new();
        let mut i: usize = 0;
        while i < self.config.clients.len()
            invariant
                self.wf(),
                ids == entry_ids(entries_view(self.config.clients@)),
                i <= self.config.clients@.len(),
                r@.len() == i,
                forall|j: int| 0 <= j < i ==> r@[j] == self.config.clients@[j].1,
            decreases self.config.clients@.len() - i,
        {
            r.push(&self.config.clients[i].1);
            i += 1;
        }
        proof {
            assert forall|i: int| 0 <= i < r@.len() implies #[trigger] r@[i]@ == self@.clients[self@.client_ids[i]] by {
                lemma_index_of_unique(ids, i);
            }
        }
        r
    }

    /// Stores `config` under `client_id`, replacing whatever was stored there.
    pub fn add_client(&mut self, client_id: String, config: ClientConfig)
        requires
            old(self).wf(),
        ensures
            final(self).wf(),
            final(self)@.clients == old(self)@.clients.insert(client_id@, config@),
            final(self)@.themes == old(self)@.themes,
            final(self)@.default_theme == old(self)@.default_theme,
            final(self)@.client_ids == if old(self)@.clients.contains_key(client_id@) {
                old(self)@.client_ids
            } else {
                old(self)@.client_ids.push(client_id@)
            },
    {
        let ghost s = entries_view(self.config.clients@);
        match self.config.find_client(&client_id) {
            Some(i) => {
                self.config.clients[i] = (client_id, config);
                proof {
                    assert(entries_view(self.config.clients@) =~= s.update(i as int, (s[i as int].0, config@)));
                    lemma_clients_update(s, i as int, config@);
                }
            },
            None => {
                let ghost k = client_id@;
                self.config.clients.push((client_id, config));
                proof {
                    assert(entries_view(self.config.clients@) =~= s.push((k, config@)));
                    lemma_clients_push(s, k, config@);
                }
            },
        }
    }

    /// The stylesheets that `client_id` loads: the resolved theme's
    /// stylesheet, then the client's own override when it has one.
    pub fn get_client_css_files(&self, client_id: &str) -> (r: Vec<String>)
        requires
            self.wf(),
        ensures
            r@.map_values(|s: String| s@) == self@.css_files(client_id@),
    {
        let theme = self.get_theme_for_client(client_id);
        let mut css_files: Vec<String> = Vec::new();
        css_files.push(theme.css_file.clone());
        if let Some(client) = self.get_client_config(client_id) {
            if let Some(custom_css) = &client.custom_css {
                css_files.push(custom_css.clone());
            }
        }
        assert(css_files@.map_values(|s: String| s@) =~= self@.css_files(client_id@));
        css_files
    }
}

} // verus!
