//! What the program around the UI knows: providers, credentials, themes,
//! saved sessions, the clock. The UI decides on a snapshot of it.

use crate::chars;
use crate::llm;
use crate::llm::ModelInfo;
use crate::session;
use crate::session::SessionSummary;
use crate::sorting;
use crate::theme;
use crate::theme::Theme;
use vstd::prelude::*;

verus! {

/// The system that the UI runs on, as far as key chords depend on it.
#[derive(Clone, Copy, PartialEq, Eq, Structural, Debug)]
pub enum Platform {
    Windows,
    MacOs,
    Unix,
    Other,
}

/// A provider that can be switched to.
#[derive(Debug, PartialEq, Eq)]
pub struct Provider {
    pub name: String,
    pub models: Vec<ModelInfo>,
    pub default_model: String,
}

/// The mathematical value of a [`Provider`].
pub struct ProviderView {
    pub name: Seq<char>,
    pub models: Seq<llm::ModelView>,
    pub default_model: Seq<char>,
}

impl View for Provider {
    type V = ProviderView;

    open spec fn view(&self) -> ProviderView {
        ProviderView {
            name: self.name@,
            models: llm::models(self.models@),
            default_model: self.default_model@,
        }
    }
}

/// The values of a list of providers.
pub open spec fn providers(v: Seq<Provider>) -> Seq<ProviderView> {
    Seq::new(v.len(), |i: int| v[i]@)
}

/// The names of some providers.
pub open spec fn names(v: Seq<ProviderView>) -> Seq<Seq<char>> {
    Seq::new(v.len(), |i: int| v[i].name)
}

/// The ids of some models.
pub open spec fn ids(v: Seq<llm::ModelView>) -> Seq<Seq<char>> {
    Seq::new(v.len(), |i: int| v[i].id)
}

/// The short ids of some saved sessions.
pub open spec fn short_ids(v: Seq<session::SummaryView>) -> Seq<Seq<char>> {
    Seq::new(v.len(), |i: int| session::short(v[i].id))
}

/// What is known of a provider's credentials.
#[derive(Debug, PartialEq, Eq)]
pub struct Credentials {
    pub provider: String,
    /// A credential has to be entered before the provider can be used.
    pub needs_credential: bool,
    /// A credential is there and can be used.
    pub usable_credential: bool,
    /// The provider takes a cloud API key.
    pub requires_api_key: bool,
    /// The provider can be signed in to in a browser.
    pub supports_oauth: bool,
    /// The config file holds an API key.
    pub config_has_api_key: bool,
    /// The environment variable that an API key can come from.
    pub env_var: Option<String>,
    /// That variable is set.
    pub env_key_set: bool,
}

/// The mathematical value of [`Credentials`].
pub struct CredentialsView {
    pub provider: Seq<char>,
    pub needs_credential: bool,
    pub usable_credential: bool,
    pub requires_api_key: bool,
    pub supports_oauth: bool,
    pub config_has_api_key: bool,
    pub env_var: Option<Seq<char>>,
    pub env_key_set: bool,
}

impl View for Credentials {
    type V = CredentialsView;

    open spec fn view(&self) -> CredentialsView {
        CredentialsView {
            provider: self.provider@,
            needs_credential: self.needs_credential,
            usable_credential: self.usable_credential,
            requires_api_key: self.requires_api_key,
            supports_oauth: self.supports_oauth,
            config_has_api_key: self.config_has_api_key,
            env_var: chars::opt(self.env_var),
            env_key_set: self.env_key_set,
        }
    }
}

/// The values of a list of credentials.
pub open spec fn credentials(v: Seq<Credentials>) -> Seq<CredentialsView> {
    Seq::new(v.len(), |i: int| v[i]@)
}

/// A snapshot of what the host knows.
#[derive(Debug, PartialEq, Eq)]
pub struct Host {
    pub providers: Vec<Provider>,
    pub credentials: Vec<Credentials>,
    /// What holds of a provider that `credentials` does not list.
    pub unlisted: Credentials,
    pub themes: Vec<Theme>,
    pub default_theme: Theme,
    pub sessions: Vec<SessionSummary>,
    pub sessions_dir: String,
    /// An id for the next session that has none.
    pub fresh_session_id: String,
    /// Nanoseconds on a steady clock.
    pub now_ns: u64,
    /// Seconds since the epoch.
    pub unix_secs: u64,
    /// The terminal height that the environment announces.
    pub term_lines: Option<String>,
    pub platform: Platform,
    /// The estimated cost of the conversation, as it is shown.
    pub cost_text: String,
    /// That cost is above zero.
    pub cost_positive: bool,
}

/// The mathematical value of a [`Host`].
pub struct HostView {
    pub providers: Seq<ProviderView>,
    pub credentials: Seq<CredentialsView>,
    pub unlisted: CredentialsView,
    pub themes: Seq<theme::ThemeView>,
    pub default_theme: theme::ThemeView,
    pub sessions: Seq<session::SummaryView>,
    pub sessions_dir: Seq<char>,
    pub fresh_session_id: Seq<char>,
    pub now_ns: u64,
    pub unix_secs: u64,
    pub term_lines: Option<Seq<char>>,
    pub platform: Platform,
    pub cost_text: Seq<char>,
    pub cost_positive: bool,
}

impl View for Host {
    type V = HostView;

    open spec fn view(&self) -> HostView {
        HostView {
            providers: providers(self.providers@),
            credentials: credentials(self.credentials@),
            unlisted: self.unlisted@,
            themes: theme::themes(self.themes@),
            default_theme: self.default_theme@,
            sessions: session::summaries(self.sessions@),
            sessions_dir: self.sessions_dir@,
            fresh_session_id: self.fresh_session_id@,
            now_ns: self.now_ns,
            unix_secs: self.unix_secs,
            term_lines: chars::opt(self.term_lines),
            platform: self.platform,
            cost_text: self.cost_text@,
            cost_positive: self.cost_positive,
        }
    }
}

impl HostView {
    /// The place of the first provider with the given name, or -1.
    pub open spec fn provider_place(self, name: Seq<char>) -> int {
        place_from(self.providers, 0, name)
    }

    /// Whether there is such a provider.
    pub open spec fn offers(self, name: Seq<char>) -> bool {
        self.provider_place(name) >= 0
    }

    /// The ids of the models of a provider; none where there is no such provider.
    pub open spec fn model_ids(self, name: Seq<char>) -> Seq<Seq<char>> {
        if self.offers(name) {
            ids(self.providers[self.provider_place(name)].models)
        } else {
            seq![]
        }
    }

    /// The names of the providers, in order.
    pub open spec fn provider_names(self) -> Seq<Seq<char>> {
        sorting::texts_sorted(names(self.providers))
    }

    /// What is known of a provider's credentials.
    pub open spec fn known(self, name: Seq<char>) -> CredentialsView {
        let i = row_from(self.credentials, 0, name);
        if i >= 0 {
            self.credentials[i]
        } else {
            self.unlisted
        }
    }

    /// The theme with the given name, or the default one.
    pub open spec fn theme_named(self, name: Seq<char>) -> theme::ThemeView {
        let i = theme::place(self.themes, name);
        if i >= 0 {
            self.themes[i]
        } else {
            self.default_theme
        }
    }
}

/// The place of the first provider with the given name, from `i` on, or -1.
pub open spec fn place_from(list: Seq<ProviderView>, i: int, name: Seq<char>) -> int
    decreases list.len() - i,
{
    if i < 0 || i >= list.len() {
        -1
    } else if list[i].name == name {
        i
    } else {
        place_from(list, i + 1, name)
    }
}

/// The place of the first row for the given provider, from `i` on, or -1.
pub open spec fn row_from(list: Seq<CredentialsView>, i: int, name: Seq<char>) -> int
    decreases list.len() - i,
{
    if i < 0 || i >= list.len() {
        -1
    } else if list[i].provider == name {
        i
    } else {
        row_from(list, i + 1, name)
    }
}

impl Host {
    /// The place of the provider with the given name.
    pub fn find_provider(&self, name: &str) -> (r: Option<usize>)
        ensures
            match r {
                Some(i) => i < self.providers@.len() && i == self@.provider_place(name@),
                None => self@.provider_place(name@) < 0,
            },
    {
        let mut i: usize = 0;
        while i < self.providers.len()
            invariant
                0 <= i <= self.providers@.len(),
                place_from(self@.providers, 0, name@) == place_from(
                    self@.providers,
                    i as int,
                    name@,
                ),
            decreases self.providers@.len() - i,
        {
            if chars::str_eq(self.providers[i].name.as_str(), name) {
                return Some(i);
            }
            i = i + 1;
        }
        None
    }

    /// What is known of a provider's credentials.
    pub fn known_of(&self, name: &str) -> (r: &Credentials)
        ensures
            r@ == self@.known(name@),
    {
        let mut i: usize = 0;
        while i < self.credentials.len()
            invariant
                0 <= i <= self.credentials@.len(),
                row_from(self@.credentials, 0, name@) == row_from(
                    self@.credentials,
                    i as int,
                    name@,
                ),
            decreases self.credentials@.len() - i,
        {
            if chars::str_eq(self.credentials[i].provider.as_str(), name) {
                return &self.credentials[i];
            }
            i = i + 1;
        }
        &self.unlisted
    }

    /// The ids of the models of a provider.
    pub fn model_ids_of(&self, name: &str) -> (r: Vec<String>)
        ensures
            chars::strs(r@) == self@.model_ids(name@),
    {
        let mut out: Vec<String> = Vec::new();
        assert(chars::strs(out@) =~= seq![]);
        match self.find_provider(name) {
            Some(p) => {
                let ghost all = ids(self@.providers[p as int].models);
                let mut i: usize = 0;
                assert(chars::strs(out@) =~= all.take(0));
                while i < self.providers[p].models.len()
                    invariant
                        p < self.providers@.len(),
                        all == ids(self@.providers[p as int].models),
                        0 <= i <= self.providers@[p as int].models@.len(),
                        chars::strs(out@) == all.take(i as int),
                    decreases self.providers@[p as int].models@.len() - i,
                {
                    let id = self.providers[p].models[i].id.clone();
                    proof {
                        chars::lemma_strs_push(out@, id);
                        assert(all.take(i + 1) =~= all.take(i as int).push(id@));
                    }
                    out.push(id);
                    i = i + 1;
                }
                assert(all.take(i as int) =~= all);
            },
            None => {},
        }
        out
    }

    /// The names of the providers, in order.
    pub fn sorted_provider_names(&self) -> (r: Vec<String>)
        ensures
            chars::strs(r@) == self@.provider_names(),
    {
        let ghost all = names(self@.providers);
        let mut out: Vec<String> = Vec::new();
        let mut i: usize = 0;
        assert(chars::strs(out@) =~= all.take(0));
        while i < self.providers.len()
            invariant
                all == names(self@.providers),
                0 <= i <= self.providers@.len(),
                chars::strs(out@) == all.take(i as int),
            decreases self.providers@.len() - i,
        {
            let n = self.providers[i].name.clone();
            proof {
                chars::lemma_strs_push(out@, n);
                assert(all.take(i + 1) =~= all.take(i as int).push(n@));
            }
            out.push(n);
            i = i + 1;
        }
        assert(all.take(i as int) =~= all);
        sorting::sort_strings(&out)
    }

    /// The short ids of the saved sessions.
    pub fn session_ids(&self) -> (r: Vec<String>)
        ensures
            chars::strs(r@) == short_ids(self@.sessions),
    {
        let ghost all = short_ids(self@.sessions);
        let mut out: Vec<String> = Vec::new();
        let mut i: usize = 0;
        assert(chars::strs(out@) =~= all.take(0));
        while i < self.sessions.len()
            invariant
                all == short_ids(self@.sessions),
                0 <= i <= self.sessions@.len(),
                chars::strs(out@) == all.take(i as int),
            decreases self.sessions@.len() - i,
        {
            let n = session::short_id(self.sessions[i].id.as_str());
            proof {
                chars::lemma_strs_push(out@, n);
                assert(all.take(i + 1) =~= all.take(i as int).push(n@));
            }
            out.push(n);
            i = i + 1;
        }
        assert(all.take(i as int) =~= all);
        out
    }

    /// The theme with the given name, or the default one.
    pub fn theme_or_default(&self, name: &str) -> (r: Theme)
        ensures
            r@ == self@.theme_named(name@),
    {
        match theme::find_theme(&self.themes, name) {
            Some(i) => theme::clone_theme(&self.themes[i]),
            None => theme::clone_theme(&self.default_theme),
        }
    }
}

} // verus!
