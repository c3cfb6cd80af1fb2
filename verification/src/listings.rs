//! Answers of the host that end up in the transcript: skills, MCP servers,
//! rate-limit resets, API keys.

use crate::chars;
use crate::preferences;
use crate::session_ops;
use crate::sorting;
use crate::state::{AccountView, PickersView, Tui, TuiModel};
use vstd::prelude::*;

verus! {

/// A skill pack.
#[derive(Debug, PartialEq, Eq)]
pub struct Skill {
    pub name: String,
    pub description: String,
}

/// The skills that were found, and where packs go.
#[derive(Debug, PartialEq, Eq)]
pub struct SkillList {
    pub dir: String,
    pub skills: Vec<Skill>,
}

/// How a list shows skills.
pub open spec fn skill_rows(v: Seq<Skill>) -> Seq<char>
    decreases v.len(),
{
    if v.len() == 0 {
        seq![]
    } else {
        skill_rows(v.drop_last()) + ("  "@ + v.last().name@ + " - "@ + v.last().description@
            + "\n"@)
    }
}

/// The report on the skills that were found.
pub open spec fn skills_text(list: SkillList) -> Seq<char> {
    if list.skills@.len() == 0 {
        "No skills found. Add packs as "@ + list.dir@
            + "/<name>/SKILL.md (or set CAIRN_SKILLS_DIR)."@
    } else {
        "Skills ("@ + chars::decimal(list.skills@.len()) + ") from "@ + list.dir@ + ":\n"@
            + skill_rows(list.skills@)
            + "Load in-chat with the skill tool: {\"name\":\"...\"}"@
    }
}

/// A configured MCP server.
#[derive(Debug, PartialEq, Eq)]
pub struct McpServer {
    pub name: String,
    pub disabled: bool,
    pub command: String,
    /// The arguments, with a space between neighbours and secrets taken out;
    /// none where there are no arguments.
    pub args: Option<String>,
}

/// The MCP servers of the configuration, and where that is.
#[derive(Debug, PartialEq, Eq)]
pub struct McpList {
    pub config_path: Option<String>,
    pub servers: Vec<McpServer>,
}

/// The names of some servers.
pub open spec fn server_names(v: Seq<McpServer>) -> Seq<Seq<char>> {
    Seq::new(v.len(), |i: int| v[i].name@)
}

/// The place of the first server with the given name, from `i` on, or -1.
pub open spec fn server_from(v: Seq<McpServer>, i: int, name: Seq<char>) -> int
    decreases v.len() - i,
{
    if i < 0 || i >= v.len() {
        -1
    } else if v[i].name@ == name {
        i
    } else {
        server_from(v, i + 1, name)
    }
}

/// How a list shows a server.
pub open spec fn server_row(s: McpServer) -> Seq<char> {
    let state = if s.disabled {
        "disabled"@
    } else {
        "enabled"@
    };
    let args = match s.args {
        Some(a) => " "@ + a@,
        None => seq![],
    };
    "  "@ + s.name@ + " ["@ + state + "] - "@ + s.command@ + args + "\n"@
}

/// How a list shows the servers with the given names.
pub open spec fn server_rows(v: Seq<McpServer>, names: Seq<Seq<char>>) -> Seq<char>
    decreases names.len(),
{
    if names.len() == 0 {
        seq![]
    } else {
        let i = server_from(v, 0, names.last());
        server_rows(v, names.drop_last()) + if i >= 0 {
            server_row(v[i])
        } else {
            seq![]
        }
    }
}

/// The report on the configured servers, in the order of their names.
pub open spec fn mcp_text(list: McpList) -> Seq<char> {
    if list.servers@.len() == 0 {
        "No MCP servers in config. Add mcp.servers (or mcpServers) to "@
            + (match list.config_path {
            Some(p) => p@,
            None => "~/.config/cairn-code/config.json"@,
        }) + "."@
    } else {
        "Configured MCP servers:\n"@ + server_rows(
            list.servers@,
            sorting::texts_sorted(server_names(list.servers@)),
        ) + "Tools register at startup as mcp_<server>_<tool> (permission required)."@
    }
}

impl TuiModel {
    /// With a listing in the transcript, or why there is none.
    pub open spec fn listing_reported(self, outcome: Result<Seq<char>, Seq<char>>) -> TuiModel {
        match outcome {
            Ok(body) => self.say("system"@, body),
            Err(e) => self.say("error"@, "Error loading configuration: "@ + e),
        }
    }

    /// With the outcome of a rate-limit command reported.
    pub open spec fn reset_reported(self, outcome: Result<Seq<char>, Seq<char>>) -> TuiModel {
        match outcome {
            Ok(body) => self.say("system"@, body),
            Err(e) => self.say("error"@, e),
        }
    }

    /// With the marks of the provider list brought up to date.
    pub open spec fn keys_refreshed(self) -> TuiModel {
        TuiModel {
            pickers: PickersView {
                provider_picker_keys: crate::pickers::usable(self.host, self.pickers.provider_picker_list),
                ..self.pickers
            },
            ..self
        }
    }

    /// With the removal of an API key reported. A key that the environment
    /// holds is mentioned, for it still counts.
    pub open spec fn removal_reported(
        self,
        name: Seq<char>,
        outcome: Result<bool, Seq<char>>,
    ) -> TuiModel {
        let known = self.host.known(name);
        let variable = match known.env_var {
            Some(v) => v,
            None => "its environment variable"@,
        };
        let note = if known.env_key_set {
            " Note: "@ + variable
                + " is still set in the environment and will still be used."@
        } else {
            seq![]
        };
        let m = match outcome {
            Ok(true) => self.say("system"@, "Removed saved API key for "@ + name + "."@ + note),
            Ok(false) => self.say("system"@, "No saved API key for "@ + name + "."@),
            Err(e) => self.say("error"@, "Failed to remove API key for "@ + name + ": "@ + e),
        };
        m.keys_refreshed()
    }

    /// With an API key saved: on to the choice of a model where a change of
    /// provider waits for it.
    pub open spec fn key_saved(self, target: Seq<char>, tail: Seq<char>) -> TuiModel {
        if self.account.pending_model_after_auth {
            (TuiModel {
                account: AccountView { pending_model_after_auth: false, ..self.account },
                ..self
            }).say(
                "system"@,
                "API key saved for "@ + target + " ("@ + tail + "). Choose a model."@,
            ).model_picker_opened()
        } else {
            self.say("system"@, "API key saved for "@ + target + " ("@ + tail + ")."@)
        }
    }

    /// With an API key that could not be saved: a change of provider that
    /// waits for it is given up.
    pub open spec fn key_not_saved(self, target: Seq<char>, error: Seq<char>) -> TuiModel {
        let m = if self.account.pending_model_after_auth {
            self.selection_cancelled()
        } else {
            self
        };
        m.say("error"@, "Failed to save API key for "@ + target + ": "@ + error)
    }
}

fn skill_rows_text(v: &Vec<Skill>) -> (r: String)
    ensures
        r@ == skill_rows(v@),
{
    let mut out = String::new();
    let mut i: usize = 0;
    assert(out@ =~= skill_rows(v@.take(0)));
    while i < v.len()
        invariant
            0 <= i <= v@.len(),
            out@ == skill_rows(v@.take(i as int)),
        decreases v@.len() - i,
    {
        assert(v@.take(i + 1).drop_last() =~= v@.take(i as int));
        assert(v@.take(i + 1).last() == v@[i as int]);
        let row = chars::cat5("  ", v[i].name.as_str(), " - ", v[i].description.as_str(), "\n");
        out.append(row.as_str());
        i = i + 1;
    }
    assert(v@.take(i as int) =~= v@);
    out
}

fn format_skills(list: &SkillList) -> (r: String)
    ensures
        r@ == skills_text(*list),
{
    if list.skills.len() == 0 {
        return chars::cat3(
            "No skills found. Add packs as ",
            list.dir.as_str(),
            "/<name>/SKILL.md (or set CAIRN_SKILLS_DIR).",
        );
    }
    let n = chars::count_string(list.skills.len());
    let rows = skill_rows_text(&list.skills);
    let head = chars::cat5("Skills (", n.as_str(), ") from ", list.dir.as_str(), ":\n");
    chars::cat3(
        head.as_str(),
        rows.as_str(),
        "Load in-chat with the skill tool: {\"name\":\"...\"}",
    )
}

fn format_server(s: &McpServer) -> (r: String)
    ensures
        r@ == server_row(*s),
{
    let state = if s.disabled {
        "disabled"
    } else {
        "enabled"
    };
    let args = match &s.args {
        Some(a) => chars::cat2(" ", a.as_str()),
        None => String::new(),
    };
    assert(s.args is None ==> args@ =~= seq![]);
    let head = chars::cat5("  ", s.name.as_str(), " [", state, "] - ");
    chars::cat4(head.as_str(), s.command.as_str(), args.as_str(), "\n")
}

fn find_server(v: &Vec<McpServer>, name: &str) -> (r: Option<usize>)
    ensures
        match r {
            Some(i) => i < v@.len() && i == server_from(v@, 0, name@),
            None => server_from(v@, 0, name@) < 0,
        },
{
    let mut i: usize = 0;
    while i < v.len()
        invariant
            0 <= i <= v@.len(),
            server_from(v@, 0, name@) == server_from(v@, i as int, name@),
        decreases v@.len() - i,
    {
        if chars::str_eq(v[i].name.as_str(), name) {
            return Some(i);
        }
        i = i + 1;
    }
    None
}

fn names_of(v: &Vec<McpServer>) -> (r: Vec<String>)
    ensures
        chars::strs(r@) == server_names(v@),
{
    let ghost all = server_names(v@);
    let mut out: Vec<String> = Vec::new();
    let mut i: usize = 0;
    assert(chars::strs(out@) =~= all.take(0));
    while i < v.len()
        invariant
            all == server_names(v@),
            0 <= i <= v@.len(),
            chars::strs(out@) == all.take(i as int),
        decreases v@.len() - i,
    {
        let n = v[i].name.clone();
        proof {
            chars::lemma_strs_push(out@, n);
            assert(all.take(i + 1) =~= all.take(i as int).push(n@));
        }
        out.push(n);
        i = i + 1;
    }
    assert(all.take(i as int) =~= all);
    out
}

fn server_rows_text(v: &Vec<McpServer>, names: &Vec<String>) -> (r: String)
    ensures
        r@ == server_rows(v@, chars::strs(names@)),
{
    let ghost all = chars::strs(names@);
    let mut out = String::new();
    let mut i: usize = 0;
    assert(out@ =~= server_rows(v@, all.take(0)));
    while i < names.len()
        invariant
            all == chars::strs(names@),
            0 <= i <= names@.len(),
            out@ == server_rows(v@, all.take(i as int)),
        decreases names@.len() - i,
    {
        proof {
            assert(all.take(i + 1).drop_last() =~= all.take(i as int));
            assert(all.take(i + 1).last() == names@[i as int]@);
        }
        match find_server(v, names[i].as_str()) {
            Some(k) => {
                let row = format_server(&v[k]);
                out.append(row.as_str());
            },
            None => {
                assert(out@ + Seq::<char>::empty() =~= out@);
            },
        }
        i = i + 1;
    }
    assert(all.take(i as int) =~= all);
    out
}

fn format_servers(list: &McpList) -> (r: String)
    ensures
        r@ == mcp_text(*list),
{
    if list.servers.len() == 0 {
        let path = match &list.config_path {
            Some(p) => p.as_str(),
            None => "~/.config/cairn-code/config.json",
        };
        return chars::cat3(
            "No MCP servers in config. Add mcp.servers (or mcpServers) to ",
            path,
            ".",
        );
    }
    let names = sorting::sort_strings(&names_of(&list.servers));
    let rows = server_rows_text(&list.servers, &names);
    chars::cat3(
        "Configured MCP servers:\n",
        rows.as_str(),
        "Tools register at startup as mcp_<server>_<tool> (permission required).",
    )
}

/// The report on skills that were found, or the error.
pub open spec fn skills_outcome(r: Result<SkillList, String>) -> Result<Seq<char>, Seq<char>> {
    match r {
        Ok(list) => Ok(skills_text(list)),
        Err(e) => Err(e@),
    }
}

/// The report on the configured servers, or the error.
pub open spec fn mcp_outcome(r: Result<McpList, String>) -> Result<Seq<char>, Seq<char>> {
    match r {
        Ok(list) => Ok(mcp_text(list)),
        Err(e) => Err(e@),
    }
}

/// Whether a key was removed, or the error.
pub open spec fn removal_outcome(r: Result<bool, String>) -> Result<bool, Seq<char>> {
    match r {
        Ok(b) => Ok(b),
        Err(e) => Err(e@),
    }
}

impl Tui {
    fn report_listing(&mut self, result: Result<String, String>)
        ensures
            final(self)@ == old(self)@.listing_reported(session_ops::answered(result)),
            old(self)@.wf() ==> final(self)@.wf(),
    {
        match result {
            Ok(body) => self.say("system", body.as_str()),
            Err(e) => {
                let content = chars::cat2("Error loading configuration: ", e.as_str());
                self.say("error", content.as_str());
            },
        }
    }

    /// Takes in the skills that were found.
    pub fn skills_listed(&mut self, result: Result<SkillList, String>)
        ensures
            final(self)@ == old(self)@.listing_reported(skills_outcome(result)),
            old(self)@.wf() ==> final(self)@.wf(),
    {
        let body: Result<String, String> = match result {
            Ok(list) => Ok(format_skills(&list)),
            Err(e) => Err(e),
        };
        self.report_listing(body);
    }

    /// Takes in the configured MCP servers.
    pub fn mcp_servers_listed(&mut self, result: Result<McpList, String>)
        ensures
            final(self)@ == old(self)@.listing_reported(mcp_outcome(result)),
            old(self)@.wf() ==> final(self)@.wf(),
    {
        let body: Result<String, String> = match result {
            Ok(list) => Ok(format_servers(&list)),
            Err(e) => Err(e),
        };
        self.report_listing(body);
    }

    /// Takes in the outcome of a rate-limit command.
    pub fn reset_finished(&mut self, result: Result<String, String>)
        ensures
            final(self)@ == old(self)@.reset_reported(session_ops::answered(result)),
            old(self)@.wf() ==> final(self)@.wf(),
    {
        match result {
            Ok(body) => self.say("system", body.as_str()),
            Err(e) => self.say("error", e.as_str()),
        }
    }

    fn refresh_keys(&mut self)
        ensures
            final(self)@ == old(self)@.keys_refreshed(),
            old(self)@.wf() ==> final(self)@.wf(),
    {
        self.pickers.provider_picker_keys =
        self.usable_credentials(&self.pickers.provider_picker_list);
    }

    /// Takes in whether a saved API key was removed.
    pub fn api_key_removed(&mut self, name: &str, result: Result<bool, String>)
        ensures
            final(self)@ == old(self)@.removal_reported(name@, removal_outcome(result)),
            old(self)@.wf() ==> final(self)@.wf(),
    {
        match result {
            Ok(removed) => {
                if removed {
                    let known = self.host.known_of(name);
                    let note = if known.env_key_set {
                        let variable = match &known.env_var {
                            Some(v) => v.as_str(),
                            None => "its environment variable",
                        };
                        chars::cat3(
                            " Note: ",
                            variable,
                            " is still set in the environment and will still be used.",
                        )
                    } else {
                        String::new()
                    };
                    assert(!self@.host.known(name@).env_key_set ==> note@ =~= seq![]);
                    let content = chars::cat4(
                        "Removed saved API key for ",
                        name,
                        ".",
                        note.as_str(),
                    );
                    self.say("system", content.as_str());
                } else {
                    let content = chars::cat3("No saved API key for ", name, ".");
                    self.say("system", content.as_str());
                }
            },
            Err(e) => {
                let content = chars::cat4(
                    "Failed to remove API key for ",
                    name,
                    ": ",
                    e.as_str(),
                );
                self.say("error", content.as_str());
            },
        }
        self.refresh_keys();
    }

    fn use_saved_key(&mut self, target: &str, tail: &str)
        ensures
            final(self)@ == old(self)@.key_saved(target@, tail@),
            old(self)@.wf() ==> final(self)@.wf(),
    {
        let lead = chars::cat4("API key saved for ", target, " (", tail);
        if self.account.pending_model_after_auth {
            // Provider switch path: on to the model list (live catalog).
            self.account.pending_model_after_auth = false;
            let content = chars::cat2(lead.as_str(), "). Choose a model.");
            self.say("system", content.as_str());
            self.open_model_picker();
        } else {
            // `/auth key` saves credentials only; it must not bypass
            // cross-provider history-transfer confirmation.
            let content = chars::cat2(lead.as_str(), ").");
            self.say("system", content.as_str());
        }
    }

    /// Takes in whether an API key was saved; `tail` is how it is shown.
    pub fn api_key_saved(&mut self, target: &str, tail: &str, result: Result<(), String>)
        ensures
            final(self)@ == (match preferences::failure(result) {
                None => old(self)@.key_saved(target@, tail@),
                Some(e) => old(self)@.key_not_saved(target@, e),
            }),
            old(self)@.wf() ==> final(self)@.wf(),
    {
        match result {
            Ok(_) => self.use_saved_key(target, tail),
            Err(e) => {
                if self.account.pending_model_after_auth {
                    self.cancel_pending_provider_selection();
                }
                let content = chars::cat4("Failed to save API key for ", target, ": ", e.as_str());
                self.say("error", content.as_str());
            },
        }
    }
}

/// Saving an API key never puts another provider or model to use; that waits
/// for a model to be confirmed.
pub proof fn law_api_key_switches_nothing(
    m: TuiModel,
    target: Seq<char>,
    tail: Seq<char>,
    error: Seq<char>,
)
    ensures
        m.key_saved(target, tail).account.provider == m.account.provider,
        m.key_saved(target, tail).account.model == m.account.model,
        m.key_not_saved(target, error).account.provider == m.account.provider,
        m.key_not_saved(target, error).account.model == m.account.model,
        m.key_not_saved(target, error).account.pending_provider_selection is None
            || !m.account.pending_model_after_auth,
{
    reveal(TuiModel::say);
}

} // verus!
