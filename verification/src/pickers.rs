//! Model, provider and theme lists, and signing in.

use crate::chars;
use crate::host;
use crate::llm;
use crate::state::{
    AccountView, LooksView, PickersView, PromptsView, State, Tui, TuiModel,
};
use crate::theme;
use vstd::prelude::*;

verus! {

/// Whether a transcript line is part of a conversation.
pub open spec fn conversational(type_: Seq<char>) -> bool {
    type_ == "user"@ || type_ == "text"@ || type_ == "tool_use"@ || type_ == "tool_result"@
}

/// The texts that equal `first`, then the others.
pub open spec fn moved_first(list: Seq<Seq<char>>, first: Seq<char>) -> Seq<Seq<char>> {
    equal_to(list, first) + other_than(list, first)
}

/// The texts that equal `x`.
pub open spec fn equal_to(list: Seq<Seq<char>>, x: Seq<char>) -> Seq<Seq<char>>
    decreases list.len(),
{
    if list.len() == 0 {
        seq![]
    } else if list.last() == x {
        equal_to(list.drop_last(), x).push(x)
    } else {
        equal_to(list.drop_last(), x)
    }
}

/// The texts that differ from `x`.
pub open spec fn other_than(list: Seq<Seq<char>>, x: Seq<char>) -> Seq<Seq<char>>
    decreases list.len(),
{
    if list.len() == 0 {
        seq![]
    } else if list.last() == x {
        other_than(list.drop_last(), x)
    } else {
        other_than(list.drop_last(), x).push(list.last())
    }
}

/// Whether a usable credential is known for each of the providers.
pub open spec fn usable(h: host::HostView, list: Seq<Seq<char>>) -> Seq<bool> {
    Seq::new(list.len(), |i: int| h.known(list[i]).usable_credential)
}

impl TuiModel {
    /// The provider whose models are to be picked from.
    pub open spec fn target_provider(self) -> Seq<char> {
        match self.account.pending_provider_selection {
            Some(p) => p,
            None => self.account.provider,
        }
    }

    /// With the models of the target provider listed and one of them selected.
    pub open spec fn models_listed(self) -> TuiModel {
        let target = self.target_provider();
        let entry = self.host.providers[self.host.provider_place(target)];
        let wanted = if self.account.pending_provider_selection is None {
            self.account.model
        } else if target == "openrouter"@ {
            "gpt-5-mini"@
        } else {
            entry.default_model
        };
        if self.host.offers(target) {
            TuiModel {
                pickers: PickersView {
                    picker_models: entry.models,
                    picker_sel: llm::model_position(entry.models, wanted) as usize,
                    ..self.pickers
                },
                ..self
            }
        } else {
            self
        }
    }

    /// With the model list open, scrolled so that the selection shows.
    pub open spec fn model_picker_opened(self) -> TuiModel {
        let m = self.models_listed();
        let above = if m.visible_models() == 0 {
            0
        } else {
            m.visible_models() - 1
        };
        TuiModel {
            pickers: PickersView {
                show_model_picker: true,
                picker_scrl: if m.pickers.picker_sel <= above {
                    0
                } else {
                    (m.pickers.picker_sel - above) as usize
                },
                ..m.pickers
            },
            ..m
        }
    }

    /// With the provider list open, the current provider first.
    pub open spec fn provider_picker_opened(self) -> TuiModel {
        let list = moved_first(self.host.provider_names(), self.account.provider);
        TuiModel {
            pickers: PickersView {
                provider_picker_list: list,
                provider_picker_keys: usable(self.host, list),
                provider_picker_sel: 0,
                show_provider_picker: true,
                ..self.pickers
            },
            ..self
        }
    }

    /// Whether a switch to a provider would hand it an existing conversation.
    pub open spec fn would_hand_over(self, provider: Seq<char>) -> bool {
        &&& provider != self.account.provider
        &&& {
            ||| (self.saved.live_mirror is Some && self.saved.live_mirror->0.messages.len() > 0)
            ||| exists|i: int|
                0 <= i < self.chat.output_lines.len() && conversational(
                    (#[trigger] self.chat.output_lines[i]).type_,
                )
        }
    }

    /// With a prompt for an API key.
    pub open spec fn api_key_prompted(self, provider: Seq<char>) -> TuiModel {
        let known = self.host.known(provider);
        let variable = match known.env_var {
            Some(v) => v,
            None => "API_KEY"@,
        };
        let hint = if known.supports_oauth {
            " Prefer browser login: Esc, then `/auth login xai`."@
        } else {
            ""@
        };
        let m = self.with_input(seq![]);
        (TuiModel {
            account: AccountView {
                awaiting_api_key: true,
                api_key_target: Some(provider),
                ..m.account
            },
            ..m
        }).say(
            "system"@,
            "Enter API key for "@ + provider + " (saved to OS keyring, env "@ + variable
                + "). Input is masked."@ + hint,
        )
    }

    /// With a browser login under way, where one can start.
    pub open spec fn login_started(self, provider: Seq<char>, then_models: bool) -> TuiModel {
        if !self.host.known(provider).supports_oauth {
            self.say(
                "system"@,
                "OAuth login is not implemented for '"@ + provider
                    + "'. Supported: xai. Use an API key via /auth key "@ + provider + "."@,
            )
        } else if self.chat.state != State::Idle {
            self.say("system"@, "Wait for the current turn to finish before logging in."@)
        } else if self.links.agent_tx is None {
            self.say("error"@, "Agent channel not ready; cannot start OAuth."@)
        } else {
            let m = self.set_cancel(false);
            (TuiModel {
                account: AccountView { pending_model_after_auth: then_models, ..m.account },
                ..m
            }).running().say(
                "system"@,
                "Starting xAI browser OAuth (device code)… A browser window should open. Approve the code shown next, or open the URL manually."@,
            ).to_agent("__auth_login__:"@ + provider)
        }
    }

    /// With a change of provider begun: signing in first, where that is
    /// needed, then the choice of a model.
    pub open spec fn provider_chosen(self, name: Seq<char>) -> TuiModel {
        let m = TuiModel {
            account: AccountView {
                pending_provider_selection: if name != self.account.provider {
                    Some(name)
                } else {
                    None
                },
                ..self.account
            },
            ..self
        };
        if !self.host.offers(name) {
            self
        } else if !self.host.known(name).needs_credential {
            m.model_picker_opened()
        } else if self.host.known(name).supports_oauth {
            (TuiModel {
                account: AccountView { pending_model_after_auth: true, ..m.account },
                ..m
            }).login_started(name, true)
        } else {
            (TuiModel {
                account: AccountView { pending_model_after_auth: true, ..m.account },
                ..m
            }).api_key_prompted(name)
        }
    }

    /// With a provider picked: asked for confirmation where a conversation
    /// would be handed over, else chosen.
    pub open spec fn provider_picked(self, name: Seq<char>) -> TuiModel {
        if self.would_hand_over(name) {
            TuiModel {
                prompts: PromptsView {
                    confirm_history_provider: Some(name),
                    confirm_history_sel: 0,
                    ..self.prompts
                },
                ..self
            }
        } else {
            self.provider_chosen(name)
        }
    }

    /// With the theme list open on the theme in use.
    pub open spec fn theme_picker_opened(self) -> TuiModel {
        let at = theme::place(self.host.themes, self.looks.theme.name);
        let sel: usize = if at < 0 {
            0
        } else {
            at as usize
        };
        TuiModel {
            looks: LooksView {
                theme_before_picker: Some(self.looks.theme.name),
                theme_picker_list: self.host.themes,
                theme_picker_sel: sel,
                theme: if sel < self.host.themes.len() {
                    self.host.themes[sel as int]
                } else {
                    self.looks.theme
                },
                show_theme_picker: true,
                ..self.looks
            },
            ..self
        }
    }

    /// With the theme list closed and the theme from before it back.
    pub open spec fn theme_picker_left(self) -> TuiModel {
        TuiModel {
            looks: LooksView {
                show_theme_picker: false,
                theme: match self.looks.theme_before_picker {
                    Some(name) => self.host.theme_named(name),
                    None => self.looks.theme,
                },
                theme_before_picker: None,
                ..self.looks
            },
            ..self
        }
    }
}

fn reorder(list: &Vec<String>, first: &str) -> (r: Vec<String>)
    ensures
        chars::strs(r@) == moved_first(chars::strs(list@), first@),
{
    let ghost all = chars::strs(list@);
    let mut same: Vec<String> = Vec::new();
    let mut rest: Vec<String> = Vec::new();
    let mut i: usize = 0;
    assert(chars::strs(same@) =~= equal_to(all.take(0), first@));
    assert(chars::strs(rest@) =~= other_than(all.take(0), first@));
    while i < list.len()
        invariant
            all == chars::strs(list@),
            0 <= i <= list@.len(),
            chars::strs(same@) == equal_to(all.take(i as int), first@),
            chars::strs(rest@) == other_than(all.take(i as int), first@),
        decreases list@.len() - i,
    {
        proof {
            assert(all.take(i + 1).drop_last() =~= all.take(i as int));
            assert(all.take(i + 1).last() == list@[i as int]@);
        }
        let item = list[i].clone();
        if chars::str_eq(item.as_str(), first) {
            proof {
                chars::lemma_strs_push(same@, item);
            }
            same.push(item);
        } else {
            proof {
                chars::lemma_strs_push(rest@, item);
            }
            rest.push(item);
        }
        i = i + 1;
    }
    assert(all.take(i as int) =~= all);
    let ghost a = same@;
    let ghost b = rest@;
    same.append(&mut rest);
    assert(chars::strs(same@) =~= chars::strs(a) + chars::strs(b));
    same
}

impl Tui {
    /// Which of the providers have a usable credential.
    pub fn usable_credentials(&self, list: &Vec<String>) -> (r: Vec<bool>)
        ensures
            r@ == usable(self@.host, chars::strs(list@)),
    {
        let ghost all = usable(self@.host, chars::strs(list@));
        let mut out: Vec<bool> = Vec::new();
        let mut i: usize = 0;
        assert(out@ =~= all.take(0));
        while i < list.len()
            invariant
                all == usable(self@.host, chars::strs(list@)),
                0 <= i <= list@.len(),
                out@ == all.take(i as int),
            decreases list@.len() - i,
        {
            let known = self.host.known_of(list[i].as_str());
            out.push(known.usable_credential);
            assert(out@ =~= all.take(i + 1));
            i = i + 1;
        }
        assert(all.take(i as int) =~= all);
        out
    }

    fn list_models(&mut self)
        ensures
            final(self)@ == old(self)@.models_listed(),
            old(self)@.wf() ==> final(self)@.wf(),
    {
        let target = match &self.account.pending_provider_selection {
            Some(p) => p.clone(),
            None => self.account.provider.clone(),
        };
        match self.host.find_provider(target.as_str()) {
            Some(i) => {
                let entry = &self.host.providers[i];
                let wanted = if self.account.pending_provider_selection.is_none() {
                    self.account.model.clone()
                } else if chars::str_eq(target.as_str(), "openrouter") {
                    String::from_str("gpt-5-mini")
                } else {
                    entry.default_model.clone()
                };
                let models = llm::clone_models(&entry.models);
                let sel = llm::find_model(&models, wanted.as_str());
                let n = models.len();
                assert(sel == 0 || sel < n);
                self.pickers.picker_models = models;
                self.pickers.picker_sel = sel;
            },
            None => {},
        }
    }

    pub fn open_model_picker(&mut self)
        ensures
            final(self)@ == old(self)@.model_picker_opened(),
            old(self)@.wf() ==> final(self)@.wf(),
    {
        self.list_models();
        let vh = self.picker_visible_height();
        let above: usize = if vh == 0 {
            0
        } else {
            vh - 1
        };
        self.pickers.picker_scrl = if self.pickers.picker_sel <= above {
            0
        } else {
            self.pickers.picker_sel - above
        };
        self.pickers.show_model_picker = true;
    }

    pub fn open_provider_picker(&mut self)
        ensures
            final(self)@ == old(self)@.provider_picker_opened(),
            old(self)@.wf() ==> final(self)@.wf(),
    {
        // Current provider first, matching render order so the
        // selection index always points at the displayed row.
        let names = reorder(
            &self.host.sorted_provider_names(),
            self.account.provider.as_str(),
        );
        self.pickers.provider_picker_keys = self.usable_credentials(&names);
        self.pickers.provider_picker_list = names;
        self.pickers.provider_picker_sel = 0;
        self.pickers.show_provider_picker = true;
    }

    pub fn provider_switch_needs_confirmation(&self, provider: &str) -> (r: bool)
        ensures
            r == self@.would_hand_over(provider@),
    {
        if chars::str_eq(provider, self.account.provider.as_str()) {
            return false;
        }
        match &self.saved.live_mirror {
            Some(mirror) => {
                if mirror.messages.len() > 0 {
                    return true;
                }
            },
            None => {},
        }
        let ghost lines = self@.chat.output_lines;
        let mut i: usize = 0;
        while i < self.chat.output_lines.len()
            invariant
                lines == self@.chat.output_lines,
                provider@ != self@.account.provider,
                0 <= i <= self.chat.output_lines@.len(),
                forall|j: int| 0 <= j < i ==> !conversational((#[trigger] lines[j]).type_),
            decreases self.chat.output_lines@.len() - i,
        {
            let t = self.chat.output_lines[i].type_.as_str();
            if chars::str_eq(t, "user") || chars::str_eq(t, "text") || chars::str_eq(t, "tool_use")
                || chars::str_eq(t, "tool_result") {
                assert(conversational(lines[i as int].type_));
                return true;
            }
            i = i + 1;
        }
        false
    }

    pub fn begin_api_key_prompt(&mut self, provider: &str)
        ensures
            final(self)@ == old(self)@.api_key_prompted(provider@),
            old(self)@.wf() ==> final(self)@.wf(),
    {
        let known = self.host.known_of(provider);
        let variable = match &known.env_var {
            Some(v) => v.clone(),
            None => String::from_str("API_KEY"),
        };
        let hint = if known.supports_oauth {
            " Prefer browser login: Esc, then `/auth login xai`."
        } else {
            ""
        };
        let lead = chars::cat4(
            "Enter API key for ",
            provider,
            " (saved to OS keyring, env ",
            variable.as_str(),
        );
        let content = chars::cat3(lead.as_str(), "). Input is masked.", hint);
        self.clear_input();
        self.account.awaiting_api_key = true;
        self.account.api_key_target = Some(String::from_str(provider));
        self.say("system", content.as_str());
    }

    /// Start device-code OAuth (browser) for a provider.
    /// When `then_models` is true (provider path), successful login opens
    /// the model list; on failure, falls back to API key paste then model list.
    pub fn begin_oauth_login(&mut self, provider: &str, then_models: bool)
        ensures
            final(self)@ == old(self)@.login_started(provider@, then_models),
            old(self)@.wf() ==> final(self)@.wf(),
    {
        if !self.host.known_of(provider).supports_oauth {
            let content = chars::cat5(
                "OAuth login is not implemented for '",
                provider,
                "'. Supported: xai. Use an API key via /auth key ",
                provider,
                ".",
            );
            self.say("system", content.as_str());
            return;
        }
        if self.chat.state != State::Idle {
            self.say("system", "Wait for the current turn to finish before logging in.");
            return;
        }
        if self.links.agent_tx.is_none() {
            self.say("error", "Agent channel not ready; cannot start OAuth.");
            return;
        }
        self.set_cancel(false);
        self.account.pending_model_after_auth = then_models;
        self.begin_running();
        self.say(
            "system",
            "Starting xAI browser OAuth (device code)… A browser window should open. Approve the code shown next, or open the URL manually.",
        );
        let command = chars::cat2("__auth_login__:", provider);
        self.to_agent(command.as_str());
    }

    pub fn begin_provider_selection(&mut self, name: &str)
        ensures
            final(self)@ == old(self)@.provider_chosen(name@),
            old(self)@.wf() ==> final(self)@.wf(),
    {
        if self.host.find_provider(name).is_none() {
            return;
        }
        self.account.pending_provider_selection = if chars::str_eq(
            name,
            self.account.provider.as_str(),
        ) {
            None
        } else {
            Some(String::from_str(name))
        };
        // Auth first (browser OAuth or API key), then model list. Live
        // catalogs need credentials; model-before-login was backwards.
        let known = self.host.known_of(name);
        let needed = known.needs_credential;
        let browser = known.supports_oauth;
        if !needed {
            self.open_model_picker();
        } else {
            self.account.pending_model_after_auth = true;
            if browser {
                self.begin_oauth_login(name, true);
            } else {
                self.begin_api_key_prompt(name);
            }
        }
    }

    /// Picks a provider, with a question first where a conversation would be
    /// handed over.
    pub fn pick_provider(&mut self, name: &str)
        ensures
            final(self)@ == old(self)@.provider_picked(name@),
            old(self)@.wf() ==> final(self)@.wf(),
    {
        if self.provider_switch_needs_confirmation(name) {
            self.prompts.confirm_history_provider = Some(String::from_str(name));
            self.prompts.confirm_history_sel = 0;
        } else {
            self.begin_provider_selection(name);
        }
    }

    pub fn open_theme_picker(&mut self)
        ensures
            final(self)@ == old(self)@.theme_picker_opened(),
            old(self)@.wf() ==> final(self)@.wf(),
    {
        let sel: usize = match theme::find_theme(
            &self.host.themes,
            self.looks.theme.name.as_str(),
        ) {
            Some(i) => i,
            None => 0,
        };
        self.looks.theme_before_picker = Some(self.looks.theme.name.clone());
        self.looks.theme_picker_list = theme::clone_themes(&self.host.themes);
        self.looks.theme_picker_sel = sel;
        // Live-preview current selection immediately
        if sel < self.host.themes.len() {
            self.looks.theme = theme::clone_theme(&self.host.themes[sel]);
        }
        self.looks.show_theme_picker = true;
    }

    /// Closes the theme list and takes the theme from before it back.
    pub fn leave_theme_picker(&mut self)
        ensures
            final(self)@ == old(self)@.theme_picker_left(),
    {
        self.looks.show_theme_picker = false;
        let prev = chars::clone_opt(&self.looks.theme_before_picker);
        match prev {
            Some(name) => {
                self.looks.theme = self.host.theme_or_default(name.as_str());
            },
            None => {},
        }
        self.looks.theme_before_picker = None;
    }
}

} // verus!
