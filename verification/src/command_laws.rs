//! What each slash command comes to.

use crate::chars;
use crate::commands;
use crate::llm::Usage;
use crate::prompt_laws::adds;
use crate::request::{After, RequestView};
use crate::state::{SelectDump, State, TuiModel};
use crate::theme;
use crate::transcript;
use vstd::prelude::*;

verus! {

/// The length of a command's name and the characters that tell it from others
/// of that length.
spec fn is_name(s: Seq<char>, len: nat, a: char, b: char, c: char) -> bool {
    &&& s.len() == len
    &&& s[1] == a
    &&& len > 2 ==> s[2] == b
    &&& len > 3 ==> s[3] == c
}

proof fn lemma_names()
    ensures
        is_name("/auth"@, 5, 'a', 'u', 't'),
        is_name("/clear"@, 6, 'c', 'l', 'e'),
        is_name("/compact"@, 8, 'c', 'o', 'm'),
        is_name("/copy"@, 5, 'c', 'o', 'p'),
        is_name("/cost"@, 5, 'c', 'o', 's'),
        is_name("/delete"@, 7, 'd', 'e', 'l'),
        is_name("/exit"@, 5, 'e', 'x', 'i'),
        is_name("/help"@, 5, 'h', 'e', 'l'),
        is_name("/mcp"@, 4, 'm', 'c', 'p'),
        is_name("/model"@, 6, 'm', 'o', 'd'),
        is_name("/mouse"@, 6, 'm', 'o', 'u'),
        is_name("/provider"@, 9, 'p', 'r', 'o'),
        is_name("/q"@, 2, 'q', ' ', ' '),
        is_name("/quit"@, 5, 'q', 'u', 'i'),
        is_name("/reset"@, 6, 'r', 'e', 's'),
        is_name("/resume"@, 7, 'r', 'e', 's'),
        is_name("/save"@, 5, 's', 'a', 'v'),
        is_name("/select"@, 7, 's', 'e', 'l'),
        is_name("/sessions"@, 9, 's', 'e', 's'),
        is_name("/skills"@, 7, 's', 'k', 'i'),
        is_name("/suggestions"@, 12, 's', 'u', 'g'),
        is_name("/theme"@, 6, 't', 'h', 'e'),
        is_name("/thinking"@, 9, 't', 'h', 'i'),
{
    reveal_strlit("/auth");
    reveal_strlit("/clear");
    reveal_strlit("/compact");
    reveal_strlit("/copy");
    reveal_strlit("/cost");
    reveal_strlit("/delete");
    reveal_strlit("/exit");
    reveal_strlit("/help");
    reveal_strlit("/mcp");
    reveal_strlit("/model");
    reveal_strlit("/mouse");
    reveal_strlit("/provider");
    reveal_strlit("/q");
    reveal_strlit("/quit");
    reveal_strlit("/reset");
    reveal_strlit("/resume");
    reveal_strlit("/save");
    reveal_strlit("/select");
    reveal_strlit("/sessions");
    reveal_strlit("/skills");
    reveal_strlit("/suggestions");
    reveal_strlit("/theme");
    reveal_strlit("/thinking");
}

/// Whether a line is the given words, however they are spaced.
pub open spec fn says(line: Seq<char>, parts: Seq<Seq<char>>) -> bool {
    chars::words(line) == parts
}

/// Whether a step says one line of the given type and does nothing else.
pub open spec fn only_says(before: TuiModel, after: TuiModel, type_: Seq<char>) -> bool {
    &&& after.outbox == before.outbox
    &&& after.chat.output_lines.len() == before.chat.output_lines.len() + 1
    &&& after.chat.output_lines.drop_last() == before.chat.output_lines
    &&& after.chat.output_lines.last().type_ == type_
    &&& after == (TuiModel { chat: after.chat, ..before })
    &&& after.chat.state == before.chat.state
}

proof fn lemma_says(m: TuiModel, t: Seq<char>, c: Seq<char>)
    ensures
        only_says(m, m.say(t, c), t),
        m.say(t, c).chat.output_lines.last() == transcript::plain(t, c),
        m.say(t, c).chat.output_lines == m.chat.output_lines.push(transcript::plain(t, c)),
{
    reveal(TuiModel::say);
    assert(m.say(t, c).chat.output_lines.drop_last() =~= m.chat.output_lines);
}

/// The program ends by `/exit`, `/quit` or `/q` and by no other command, and
/// ending it changes nothing else.
pub proof fn law_only_exit_words_end_the_program(m: TuiModel, line: Seq<char>)
    ensures
        ({
            let parts = chars::words(line);
            let ends = parts.len() > 0 && (parts[0] == "/exit"@ || parts[0] == "/quit"@ || parts[0]
                == "/q"@);
            &&& m.commanded(line).1 <==> !ends
            &&& ends ==> m.commanded(line).0 == m
            &&& parts.len() == 0 ==> m.commanded(line) == (m, true)
        }),
{
    reveal(TuiModel::commanded);
}

/// `/resume` opens the list of saved sessions to read one from, `/delete` to
/// remove one from; with nothing saved, both only say so.
pub proof fn law_session_list_commands(m: TuiModel, line: Seq<char>)
    ensures
        says(line, seq!["/resume"@]) && m.host.sessions.len() > 0 ==> {
            let after = m.commanded(line).0;
            &&& after.saved.show_session_picker
            &&& !after.saved.session_picker_delete
            &&& after.saved.picker_sessions == m.host.sessions
            &&& after.saved.picker_session_sel == 0
            &&& after.outbox == m.outbox
            &&& after.chat == m.chat
        },
        says(line, seq!["/delete"@]) && m.host.sessions.len() > 0 ==> {
            let after = m.commanded(line).0;
            &&& after.saved.show_session_picker
            &&& after.saved.session_picker_delete
            &&& after.saved.picker_sessions == m.host.sessions
            &&& after.saved.picker_session_sel == 0
            &&& after.outbox == m.outbox
            &&& after.chat == m.chat
        },
        (says(line, seq!["/resume"@]) || says(line, seq!["/delete"@])) && m.host.sessions.len() == 0
            ==> only_says(m, m.commanded(line).0, "system"@),
{
    lemma_names();
    reveal(TuiModel::commanded);
    reveal(TuiModel::resume_command);
    reveal(TuiModel::delete_command);
    let none = "No saved sessions to delete."@;
    let neither = "No saved sessions. Use /save to save the current conversation first."@;
    lemma_says(m, "system"@, none);
    lemma_says(m, "system"@, neither);
}

/// `/delete` with words after it asks which session they mean and removes
/// nothing before that is known; then it removes that one.
pub proof fn law_delete_by_query(m: TuiModel, line: Seq<char>, id: Seq<char>, error: Seq<char>)
    requires
        chars::words(line).len() == 2,
        chars::words(line)[0] == "/delete"@,
    ensures
        adds(m, m.commanded(line).0, RequestView::ResolveSession(chars::words(line)[1])),
        m.commanded(line).0.saved == m.saved,
        adds(m, m.query_resolved(Ok(id)), RequestView::DeleteSession(id)),
        only_says(m, m.query_resolved(Err(error)), "error"@),
{
    lemma_names();
    reveal(TuiModel::commanded);
    reveal(TuiModel::delete_command);
    reveal(TuiModel::ask);
    let parts = chars::words(line);
    assert(parts.skip(1) =~= seq![parts[1]]);
    lemma_says(m, "error"@, error);
}

/// `/save` writes the conversation and will say so; without one it says that
/// there is nothing to save. `/sessions` only lists.
pub proof fn law_save_and_list(m: TuiModel, line: Seq<char>)
    ensures
        says(line, seq!["/save"@]) && m.snapshot().messages.len() > 0 ==> {
            let after = m.commanded(line).0;
            adds(
                m,
                after,
                RequestView::SaveSession { session: m.session_file(), then: After::Announce },
            ) && after.chat == m.chat
        },
        says(line, seq!["/save"@]) && m.snapshot().messages.len() == 0 ==> only_says(
            m,
            m.commanded(line).0,
            "system"@,
        ),
        says(line, seq!["/sessions"@]) ==> only_says(m, m.commanded(line).0, "system"@),
{
    lemma_names();
    reveal(TuiModel::commanded);
    reveal(TuiModel::ask);
    lemma_says(m, "system"@, "Nothing to save - no conversation yet."@);
    lemma_says(m, "system"@, "No saved sessions."@);
    lemma_says(
        m,
        "system"@,
        chars::trim_end(
            "Saved sessions:\n"@ + crate::session_ops::session_rows(
                m.host.sessions,
                m.host.unix_secs as nat,
            ),
        ),
    );
}

/// The commands that ask the host for something ask for just that.
pub proof fn law_commands_that_ask(m: TuiModel, line: Seq<char>)
    ensures
        says(line, seq!["/skills"@]) ==> adds(m, m.commanded(line).0, RequestView::ListSkills)
            && m.commanded(line).0.chat == m.chat,
        says(line, seq!["/mcp"@]) ==> adds(m, m.commanded(line).0, RequestView::ListMcpServers)
            && m.commanded(line).0.chat == m.chat,
        chars::words(line).len() > 0 && chars::words(line)[0] == "/reset"@ ==> adds(
            m,
            m.commanded(line).0,
            RequestView::RunReset(chars::words(line).drop_first()),
        ),
{
    lemma_names();
    reveal(TuiModel::commanded);
    reveal(TuiModel::ask);
    let parts = chars::words(line);
    if parts.len() > 0 {
        assert(parts.skip(1) =~= parts.drop_first());
    }
}

proof fn lemma_switch_words()
    ensures
        "on"@ != "off"@,
        chars::lowered("on"@) == "on"@,
        chars::lowered("off"@) == "off"@,
        "off"@ != "true"@,
        "off"@ != "1"@,
        "off"@ != "show"@,
        "off"@ != "enable"@,
{
    reveal_strlit("on");
    reveal_strlit("off");
    reveal_strlit("true");
    reveal_strlit("1");
    reveal_strlit("show");
    reveal_strlit("enable");
    assert("on"@.len() != "off"@.len());
    assert("off"@.len() == 3 && "true"@.len() == 4 && "1"@.len() == 1 && "show"@.len() == 4
        && "enable"@.len() == 6);
    assert(chars::lowered("on"@) =~= "on"@);
    assert(chars::lowered("off"@) =~= "off"@);
}

/// The display switches turn on by `on`, off by `off`, and the other way round
/// without a word. They ask for the change to be saved and change nothing
/// themselves.
pub proof fn law_display_switches(m: TuiModel, line: Seq<char>)
    ensures
        says(line, seq!["/thinking"@]) ==> adds(
            m,
            m.commanded(line).0,
            RequestView::SaveThinking(!m.looks.show_thinking),
        ),
        says(line, seq!["/thinking"@, "on"@]) ==> adds(
            m,
            m.commanded(line).0,
            RequestView::SaveThinking(true),
        ),
        says(line, seq!["/thinking"@, "off"@]) ==> adds(
            m,
            m.commanded(line).0,
            RequestView::SaveThinking(false),
        ),
        says(line, seq!["/suggestions"@]) ==> adds(
            m,
            m.commanded(line).0,
            RequestView::SaveSuggestions(!m.looks.show_suggestions),
        ),
        says(line, seq!["/suggestions"@, "on"@]) ==> adds(
            m,
            m.commanded(line).0,
            RequestView::SaveSuggestions(true),
        ),
        says(line, seq!["/suggestions"@, "off"@]) ==> adds(
            m,
            m.commanded(line).0,
            RequestView::SaveSuggestions(false),
        ),
        chars::words(line).len() > 0 && (chars::words(line)[0] == "/thinking"@ || chars::words(
            line,
        )[0] == "/suggestions"@) ==> m.commanded(line).0.looks == m.looks,
{
    lemma_names();
    lemma_switch_words();
    reveal(TuiModel::commanded);
    reveal(TuiModel::thinking_command);
    reveal(TuiModel::suggestions_command);
    reveal(TuiModel::ask);
    reveal(TuiModel::say);
}

/// `/mouse` asks the terminal for the other setting, and for the one named
/// where that differs from the one in effect; else it only reports.
pub proof fn law_mouse_switch(m: TuiModel, line: Seq<char>)
    ensures
        says(line, seq!["/mouse"@]) ==> adds(
            m,
            m.commanded(line).0,
            RequestView::SetMouseCapture(!m.looks.mouse_capture),
        ),
        says(line, seq!["/mouse"@, "on"@]) ==> if m.looks.mouse_capture {
            only_says(m, m.commanded(line).0, "system"@)
        } else {
            adds(m, m.commanded(line).0, RequestView::SetMouseCapture(true))
        },
        says(line, seq!["/mouse"@, "off"@]) ==> if m.looks.mouse_capture {
            adds(m, m.commanded(line).0, RequestView::SetMouseCapture(false))
        } else {
            only_says(m, m.commanded(line).0, "system"@)
        },
{
    lemma_names();
    lemma_switch_words();
    reveal(TuiModel::commanded);
    reveal(TuiModel::mouse_command);
    reveal(TuiModel::ask);
    reveal(TuiModel::say);
    let after = m.mouse_reported();
    assert(after.chat.output_lines.drop_last() =~= m.chat.output_lines);
}

/// Mouse capture is what the terminal last switched it to, and stays where it
/// could not.
pub proof fn law_mouse_capture_follows_the_terminal(m: TuiModel, on: bool)
    ensures
        m.mouse_switched(on, true).looks.mouse_capture == on,
        m.mouse_switched(on, false).looks == m.looks,
        m.mouse_switched(on, true).outbox == m.outbox,
        m.mouse_switched(on, false).outbox == m.outbox,
{
    reveal(TuiModel::say);
}

/// A switch word that says neither on nor off is reported and changes nothing.
pub proof fn law_unknown_switch_words(m: TuiModel, line: Seq<char>)
    requires
        chars::words(line).len() == 2,
        ({
            let name = chars::words(line)[0];
            name == "/thinking"@ || name == "/suggestions"@ || name == "/mouse"@
        }),
        !commands::word_on(chars::lowered(chars::words(line)[1]), true, true),
        !commands::word_off(chars::lowered(chars::words(line)[1]), true, true),
    ensures
        only_says(m, m.commanded(line).0, "system"@),
{
    lemma_names();
    reveal(TuiModel::commanded);
    reveal(TuiModel::thinking_command);
    reveal(TuiModel::suggestions_command);
    reveal(TuiModel::mouse_command);
    let w = chars::lowered(chars::words(line)[1]);
    lemma_says(
        m,
        "system"@,
        "Unknown /thinking option '"@ + w + "'. Use /thinking, /thinking on, or /thinking off."@,
    );
    lemma_says(
        m,
        "system"@,
        "Unknown /suggestions option '"@ + w
            + "'. Use /suggestions, /suggestions on, or /suggestions off."@,
    );
    lemma_says(
        m,
        "system"@,
        "Unknown /mouse option '"@ + w + "'. Use /mouse, /mouse on, or /mouse off."@,
    );
}

/// `/select` shows the last answer in plain text, `/select all` the whole
/// transcript.
pub proof fn law_select_command(m: TuiModel, line: Seq<char>)
    ensures
        says(line, seq!["/select"@]) || says(line, seq!["/select"@, "last"@]) ==> m.commanded(
            line,
        ).0.pending_select == Some(SelectDump::LastAssistant),
        says(line, seq!["/select"@, "all"@]) ==> m.commanded(line).0.pending_select == Some(
            SelectDump::FullTranscript,
        ),
        says(line, seq!["/select"@]) ==> m.commanded(line).0.outbox == m.outbox && m.commanded(
            line,
        ).0.chat == m.chat,
{
    lemma_names();
    reveal(TuiModel::commanded);
    reveal(TuiModel::select_command);
    reveal_strlit("all");
    reveal_strlit("last");
    reveal_strlit("full");
    reveal_strlit("session");
    assert(chars::lowered("all"@) =~= "all"@);
    assert(chars::lowered("last"@) =~= "last"@);
    assert("last"@[0] != "full"@[0]);
    assert("last"@.len() == 4 && "all"@.len() == 3 && "session"@.len() == 7);
}

/// `/model` opens the model list, and with a name asks for that model of the
/// provider in use. `/help` opens help over an unchanged transcript.
pub proof fn law_model_and_help_commands(m: TuiModel, line: Seq<char>, id: Seq<char>)
    ensures
        says(line, seq!["/model"@]) ==> m.commanded(line).0.pickers.show_model_picker
            && m.commanded(line).0.outbox == m.outbox,
        says(line, seq!["/model"@, id]) ==> adds(
            m,
            m.commanded(line).0,
            RequestView::SaveProviderModel { provider: m.account.provider, model: id },
        ) && m.commanded(line).0.account == m.account,
        says(line, seq!["/help"@]) ==> m.commanded(line).0.prompts.show_help && m.commanded(
            line,
        ).0.chat == m.chat && m.commanded(line).0.outbox == m.outbox,
{
    lemma_names();
    reveal(TuiModel::commanded);
    reveal(TuiModel::model_command);
    reveal(TuiModel::help_opened);
    reveal(TuiModel::ask);
    assert(seq!["/model"@, id].skip(1) =~= seq![id]);
}

/// `/provider` opens the provider list; with a known name it picks that
/// provider, with another it only says so.
pub proof fn law_provider_command(m: TuiModel, line: Seq<char>, name: Seq<char>)
    ensures
        says(line, seq!["/provider"@]) ==> m.commanded(line).0.pickers.show_provider_picker
            && m.commanded(line).0.outbox == m.outbox,
        says(line, seq!["/provider"@, name]) && m.host.offers(chars::lowered(name)) ==> m.commanded(
            line,
        ).0 == m.provider_picked(chars::lowered(name)),
        says(line, seq!["/provider"@, name]) && !m.host.offers(chars::lowered(name)) ==> only_says(
            m,
            m.commanded(line).0,
            "system"@,
        ),
{
    lemma_names();
    reveal(TuiModel::commanded);
    reveal(TuiModel::provider_command);
    lemma_says(
        m,
        "system"@,
        "Unknown provider '"@ + chars::lowered(name) + "'. Use /provider to pick from the list."@,
    );
}

/// `/compact` tells the agent to summarize and runs; while a turn runs it only
/// says to wait.
pub proof fn law_compact_command(m: TuiModel, line: Seq<char>)
    requires
        says(line, seq!["/compact"@]),
    ensures
        m.chat.state == State::Idle && m.links.agent_tx is Some ==> adds(
            m,
            m.commanded(line).0,
            RequestView::Agent("__compact__"@),
        ) && m.commanded(line).0.chat.state == State::Running,
        m.chat.state == State::Idle && m.links.agent_tx is None ==> m.commanded(line).0 == m,
        m.chat.state == State::Running ==> only_says(m, m.commanded(line).0, "system"@),
{
    lemma_names();
    reveal(TuiModel::commanded);
    reveal(TuiModel::compact_command);
    reveal(TuiModel::running);
    reveal(TuiModel::to_agent);
    reveal(TuiModel::ask);
    lemma_says(m, "system"@, "Wait for the current turn to finish before compacting."@);
}

proof fn lemma_auth_words()
    ensures
        "login"@.len() == 5,
        "key"@.len() == 3,
        "logout"@.len() == 6,
        "status"@.len() == 6,
        "logout"@[0] == 'l',
        "status"@[0] == 's',
{
    reveal_strlit("login");
    reveal_strlit("key");
    reveal_strlit("logout");
    reveal_strlit("status");
}

/// `/auth logout` and `/auth status` tell the agent so; `/auth login` starts
/// the browser login of the named provider where it has one; `/auth key` asks
/// for a key where the provider takes one.
pub proof fn law_auth_commands(m: TuiModel, line: Seq<char>, name: Seq<char>)
    requires
        m.chat.state == State::Idle,
        m.links.agent_tx is Some,
        m.links.cancel_flag is None,
    ensures
        says(line, seq!["/auth"@, "logout"@, name]) ==> adds(
            m,
            m.commanded(line).0,
            RequestView::Agent("__auth_logout__:"@ + chars::lowered(name)),
        ),
        says(line, seq!["/auth"@, "status"@]) || says(line, seq!["/auth"@]) ==> adds(
            m,
            m.commanded(line).0,
            RequestView::Agent("__auth_status__"@),
        ),
        says(line, seq!["/auth"@, "login"@, name]) && m.host.known(
            chars::lowered(name),
        ).supports_oauth ==> adds(
            m,
            m.commanded(line).0,
            RequestView::Agent("__auth_login__:"@ + chars::lowered(name)),
        ) && m.commanded(line).0.chat.state == State::Running,
        says(line, seq!["/auth"@, "login"@, name]) && !m.host.known(
            chars::lowered(name),
        ).supports_oauth ==> only_says(m, m.commanded(line).0, "system"@),
        says(line, seq!["/auth"@, "key"@, name]) && m.host.known(
            chars::lowered(name),
        ).requires_api_key ==> m.commanded(line).0.account.awaiting_api_key && m.commanded(
            line,
        ).0.account.api_key_target == Some(chars::lowered(name)) && m.commanded(line).0.outbox
            == m.outbox,
        says(line, seq!["/auth"@, "key"@, name]) && !m.host.known(
            chars::lowered(name),
        ).requires_api_key ==> only_says(m, m.commanded(line).0, "system"@),
{
    lemma_names();
    lemma_auth_words();
    reveal(TuiModel::commanded);
    reveal(TuiModel::auth_command);
    reveal(TuiModel::running);
    reveal(TuiModel::to_agent);
    reveal(TuiModel::set_cancel);
    reveal(TuiModel::ask);
    reveal(TuiModel::say);
    let p = chars::lowered(name);
    lemma_says(m, "system"@, "Provider '"@ + p + "' does not use a cloud API key."@);
    lemma_says(
        m,
        "system"@,
        "OAuth login is not implemented for '"@ + p
            + "'. Supported: xai. Use an API key via /auth key "@ + p + "."@,
    );
}

/// `/theme` with the name of a theme asks for that theme to be saved, and keeps
/// the one in use for the case that it cannot be; an unknown name is an error.
pub proof fn law_theme_command(m: TuiModel, line: Seq<char>, name: Seq<char>)
    requires
        name != "list"@,
        says(line, seq!["/theme"@, name]),
    ensures
        (exists|i: int| 0 <= i < m.host.themes.len() && (#[trigger] m.host.themes[i]).name == name)
            ==> exists|i: int|
            #![trigger m.host.themes[i]]
            0 <= i < m.host.themes.len() && m.host.themes[i].name == name && adds(
                m,
                m.commanded(line).0,
                RequestView::SaveTheme { selected: m.host.themes[i], previous: m.looks.theme },
            ),
        (forall|i: int| 0 <= i < m.host.themes.len() ==> (#[trigger] m.host.themes[i]).name != name)
            ==> only_says(m, m.commanded(line).0, "error"@),
        m.commanded(line).0.looks == m.looks,
{
    lemma_names();
    reveal(TuiModel::commanded);
    reveal(TuiModel::theme_command);
    reveal(TuiModel::ask);
    reveal(TuiModel::say);
    theme::lemma_place(m.host.themes, name);
    assert(seq!["/theme"@, name].skip(1) =~= seq![name]);
    let at = theme::place(m.host.themes, name);
    if at >= 0 {
        assert(m.host.themes[at].name == name);
    } else {
        let all = chars::joined(theme::names(m.host.themes), ", "@);
        lemma_says(m, "error"@, "Unknown theme '"@ + name + "'. Themes: "@ + all);
    }
}

/// `/clear` leaves nothing of the conversation but a line that says so: no
/// transcript, no counts, no session, no images. What there was is saved first,
/// and the agent forgets it too. While a turn runs, nothing is cleared.
pub proof fn law_clear_command(m: TuiModel, line: Seq<char>)
    requires
        says(line, seq!["/clear"@]),
        m.saved.live_mirror is None,
        m.links.agent_tx is Some,
    ensures
        m.chat.state == State::Idle ==> {
            let after = m.commanded(line).0;
            let cleared = RequestView::Agent("__clear__"@);
            &&& after.chat.output_lines.len() == 1
            &&& after.chat.output_lines[0].type_ == "system"@
            &&& after.chat.total_usage == Usage::none()
            &&& after.chat.streaming_text.len() == 0
            &&& after.chat.stream_thinking.len() == 0
            &&& after.saved.current_session_id is None
            &&& after.saved.session_created_at == 0
            &&& after.composer.pending_images.len() == 0
            &&& m.snapshot().messages.len() == 0 ==> after.outbox == m.outbox.push(cleared)
            &&& m.snapshot().messages.len() > 0 ==> after.outbox == m.outbox.push(
                RequestView::SaveSession { session: m.session_file(), then: After::Discard },
            ).push(cleared)
        },
        m.chat.state == State::Running ==> only_says(m, m.commanded(line).0, "system"@),
{
    lemma_names();
    reveal(TuiModel::commanded);
    reveal(TuiModel::cleared);
    reveal(TuiModel::to_agent);
    reveal(TuiModel::ask);
    reveal(TuiModel::say);
    lemma_says(m, "system"@, "Wait for the current turn to finish before clearing."@);
}

/// After `/clear` the mirror of the agent's transcript is empty too, so that a
/// later save writes nothing of the old conversation.
pub proof fn law_clear_forgets_the_mirror(m: TuiModel, line: Seq<char>)
    requires
        says(line, seq!["/clear"@]),
        m.chat.state == State::Idle,
    ensures
        m.commanded(line).0.snapshot().messages.len() == 0,
        m.saved.live_mirror is Some ==> m.commanded(line).0.outbox.last()
            == RequestView::StoreMirror,
{
    lemma_names();
    reveal(TuiModel::commanded);
    reveal(TuiModel::cleared);
    reveal(TuiModel::to_agent);
    reveal(TuiModel::ask);
    reveal(TuiModel::say);
    let after = m.commanded(line).0;
    let lines = after.chat.output_lines;
    reveal_strlit("system");
    reveal_strlit("user");
    reveal_strlit("text");
    reveal_strlit("tool_use");
    reveal_strlit("tool_result");
    assert("system"@.len() == 6);
    assert("user"@.len() == 4 && "text"@.len() == 4 && "tool_use"@.len() == 8
        && "tool_result"@.len() == 11);
    assert(lines.drop_last() =~= seq![]);
    assert(crate::session_ops::line_messages(lines.drop_last()) =~= seq![]);
    assert(crate::session_ops::line_message(lines.last()) is None);
}

/// `/cost` tells the tokens in and out, the cached ones, the model, and the
/// estimate, in one line of the transcript.
pub proof fn law_cost_command(m: TuiModel, line: Seq<char>)
    requires
        says(line, seq!["/cost"@]),
    ensures
        only_says(m, m.commanded(line).0, "system"@),
        m.commanded(line).0.chat.output_lines.last().content == "Tokens: "@ + chars::decimal(
            m.chat.total_usage.input_tokens as nat,
        ) + " in, "@ + chars::decimal(m.chat.total_usage.output_tokens as nat) + " out  •  "@
            + chars::decimal(
            (m.chat.total_usage.cache_read + m.chat.total_usage.cache_create) as nat,
        ) + "\nModel: "@ + m.account.model + "\nEstimated cost: "@ + m.host.cost_text,
{
    lemma_names();
    reveal(TuiModel::commanded);
    reveal(TuiModel::cost_shown);
    lemma_says(m, "system"@, m.commanded(line).0.chat.output_lines.last().content);
    reveal(TuiModel::say);
    assert(m.commanded(line).0.chat.output_lines.drop_last() =~= m.chat.output_lines);
}

/// `/copy` puts the most recent answer on its way to the clipboard, and says so
/// where there is none.
pub proof fn law_copy_command(m: TuiModel, line: Seq<char>)
    requires
        says(line, seq!["/copy"@]),
    ensures
        m.last_assistant() is Some ==> adds(
            m,
            m.commanded(line).0,
            RequestView::CopyText(m.last_assistant()->0),
        ),
        m.last_assistant() is None ==> only_says(m, m.commanded(line).0, "system"@),
{
    lemma_names();
    reveal(TuiModel::commanded);
    reveal(TuiModel::copy_asked);
    reveal(TuiModel::ask);
    lemma_says(
        m,
        "system"@,
        "Nothing to copy (no assistant message yet). Try /select to open plain-text view."@,
    );
}

/// A name that is none of the commands is an error, and does nothing else.
pub proof fn law_unknown_command(m: TuiModel, line: Seq<char>)
    requires
        chars::words(line).len() > 0,
        forall|i: int|
            0 <= i < crate::completion::SLASH_COMMANDS@.len() ==> chars::words(line)[0] != (
            #[trigger] crate::completion::SLASH_COMMANDS@[i]).0@,
    ensures
        only_says(m, m.commanded(line).0, "error"@),
        m.commanded(line).1,
{
    reveal(TuiModel::commanded);
    let name = chars::words(line)[0];
    let t = crate::completion::SLASH_COMMANDS@;
    assert(t[0].0@ == "/auth"@ && t[1].0@ == "/clear"@ && t[2].0@ == "/compact"@ && t[3].0@
        == "/copy"@ && t[4].0@ == "/cost"@ && t[5].0@ == "/delete"@ && t[6].0@ == "/exit"@
        && t[7].0@ == "/help"@ && t[8].0@ == "/mcp"@ && t[9].0@ == "/model"@ && t[10].0@
        == "/mouse"@ && t[11].0@ == "/provider"@ && t[12].0@ == "/q"@ && t[13].0@ == "/quit"@
        && t[14].0@ == "/reset"@ && t[15].0@ == "/resume"@ && t[16].0@ == "/save"@ && t[17].0@
        == "/select"@ && t[18].0@ == "/sessions"@ && t[19].0@ == "/skills"@ && t[20].0@
        == "/suggestions"@ && t[21].0@ == "/theme"@ && t[22].0@ == "/thinking"@);
    lemma_says(m, "error"@, "Unknown command: "@ + name + " (type /help)"@);
}

} // verus!
