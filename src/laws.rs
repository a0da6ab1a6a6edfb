//! Properties of theme and stylesheet resolution that hold for every
//! well-formed configuration.
use vstd::prelude::*;

use crate::config::{AppConfigView, ClientConfigView, ConfigManager};

verus! {

/// Every registered theme is stored under its own name, so looking a name up
/// in the registry yields a theme carrying that name.
pub proof fn lemma_registered_theme_has_its_name(m: &ConfigManager, name: Seq<char>)
    requires
        m.wf(),
        m@.themes.contains_key(name),
    ensures
        m@.themes[name].name == name,
{
    m.lemma_wf();
}

/// The default theme is always registered, so looking it up never comes back
/// empty.
pub proof fn lemma_default_theme_registered(m: &ConfigManager)
    requires
        m.wf(),
    ensures
        m@.themes.contains_key(m@.default_theme),
{
    m.lemma_wf();
}

/// An unknown client id resolves to the default theme.
pub proof fn lemma_unknown_client_gets_default(m: &ConfigManager, client_id: Seq<char>)
    requires
        m.wf(),
        !m@.clients.contains_key(client_id),
    ensures
        m@.resolve_theme(client_id) == m@.themes[m@.default_theme],
{
}

/// A client whose theme is not registered resolves to the default theme.
pub proof fn lemma_unregistered_theme_gets_default(m: &ConfigManager, client_id: Seq<char>)
    requires
        m.wf(),
        m@.clients.contains_key(client_id),
        !m@.themes.contains_key(m@.clients[client_id].theme),
    ensures
        m@.resolve_theme(client_id) == m@.themes[m@.default_theme],
{
}

/// A known client with a stylesheet override loads exactly two stylesheets:
/// its theme's first, then its own.
pub proof fn lemma_css_with_override(m: &ConfigManager, client_id: Seq<char>)
    requires
        m.wf(),
        m@.clients.contains_key(client_id),
        m@.clients[client_id].custom_css is Some,
    ensures
        m@.css_files(client_id).len() == 2,
        m@.css_files(client_id)[0] == m@.resolve_theme(client_id).css_file,
        m@.css_files(client_id)[1] == m@.clients[client_id].custom_css->0,
{
}

/// A known client without a stylesheet override loads exactly its theme's
/// stylesheet.
pub proof fn lemma_css_without_override(m: &ConfigManager, client_id: Seq<char>)
    requires
        m.wf(),
        m@.clients.contains_key(client_id),
        m@.clients[client_id].custom_css is None,
    ensures
        m@.css_files(client_id) == seq![m@.resolve_theme(client_id).css_file],
{
}

/// An unknown client id loads exactly the default theme's stylesheet.
pub proof fn lemma_css_unknown_client(m: &ConfigManager, client_id: Seq<char>)
    requires
        m.wf(),
        !m@.clients.contains_key(client_id),
    ensures
        m@.css_files(client_id) == seq![m@.themes[m@.default_theme].css_file],
{
}

/// Adding a client under an id replaces the whole record: afterwards the id
/// maps to exactly the new client, and every other id is untouched.
pub proof fn lemma_add_client_overwrites(
    before: AppConfigView,
    after: AppConfigView,
    client_id: Seq<char>,
    client: ClientConfigView,
)
    requires
        after.clients == before.clients.insert(client_id, client),
    ensures
        after.clients.contains_key(client_id),
        after.clients[client_id] == client,
        forall|k: Seq<char>|
            k != client_id ==> (#[trigger] after.clients.contains_key(k) == before.clients.contains_key(k)
                && (before.clients.contains_key(k) ==> after.clients[k] == before.clients[k])),
{
}

} // verus!
