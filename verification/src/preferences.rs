//! Preferences and selections, once the host has tried to save them.

use crate::chars;
use crate::request::Request;
use crate::request;
use crate::state::{AccountView, LooksView, Tui, TuiModel};
use crate::theme;
use crate::theme::Theme;
use vstd::prelude::*;

verus! {

/// The error of an outcome, if it has one.
pub open spec fn failure<T>(r: Result<T, String>) -> Option<Seq<char>> {
    match r {
        Ok(_) => None,
        Err(e) => Some(e@),
    }
}

/// `on` or `off`.
pub open spec fn on_off(b: bool) -> Seq<char> {
    if b {
        "on"@
    } else {
        "off"@
    }
}

/// `on` or `off`.
pub fn on_off_text(b: bool) -> (r: &'static str)
    ensures
        r@ == on_off(b),
{
    if b {
        "on"
    } else {
        "off"
    }
}

impl TuiModel {
    /// With a report on what was saved.
    pub open spec fn save_reported(
        self,
        error: Option<Seq<char>>,
        success: Seq<char>,
        context: Seq<char>,
    ) -> TuiModel {
        match error {
            None => self.say("system"@, success),
            Some(e) => self.say("error"@, "Failed to save "@ + context + ": "@ + e),
        }
    }

    /// With provider and model in use, once they are saved; as before, where
    /// they are not.
    pub open spec fn selection_applied(
        self,
        provider: Seq<char>,
        model: Seq<char>,
        error: Option<Seq<char>>,
    ) -> TuiModel {
        let m = self.save_reported(
            error,
            "Provider set to: "@ + provider + "\nModel set to: "@ + model,
            "provider and model selection"@,
        );
        if error is Some {
            m
        } else {
            (TuiModel {
                account: AccountView { provider, model, ..m.account },
                ..m
            }).to_agent(
                "__switch__:"@ + provider + ":"@ + model,
            )
        }
    }

    /// With the selected theme, once it is saved; with the previous one, where
    /// it is not.
    pub open spec fn theme_applied(
        self,
        selected: theme::ThemeView,
        previous: theme::ThemeView,
        error: Option<Seq<char>>,
    ) -> TuiModel {
        let m = self.save_reported(
            error,
            "Theme set to: "@ + selected.label + " ("@ + selected.name + ")"@,
            "theme preference"@,
        );
        TuiModel {
            looks: LooksView {
                theme: if error is None {
                    selected
                } else {
                    previous
                },
                ..m.looks
            },
            ..m
        }
    }

    /// With thinking shown or hidden, once that is saved.
    pub open spec fn thinking_applied(self, next: bool, error: Option<Seq<char>>) -> TuiModel {
        let detail = if next {
            "Full thinking streams and is kept in the transcript."@
        } else {
            "Thinking is hidden; a short \"Thought for …\" line is kept (default)."@
        };
        let m = self.save_reported(
            error,
            "Thinking display: "@ + on_off(next) + ". "@ + detail,
            "thinking preference"@,
        );
        if error is None {
            TuiModel {
                looks: LooksView { show_thinking: next, ..m.looks },
                ..m
            }
        } else {
            m
        }
    }

    /// With suggestions shown or hidden, once that is saved.
    pub open spec fn suggestions_applied(self, next: bool, error: Option<Seq<char>>) -> TuiModel {
        let detail = if next {
            "Grayed ready-to-send prompts appear when the composer is empty (Tab/→ to accept)."@
        } else {
            "Idle composer stays blank (default)."@
        };
        let m = self.save_reported(
            error,
            "Suggestions: "@ + on_off(next) + ". "@ + detail,
            "suggestions preference"@,
        );
        if error is None {
            m.suggesting(next)
        } else {
            m
        }
    }

    /// With provider and model on their way to being saved.
    pub open spec fn selection_asked(self, provider: Seq<char>, model: Seq<char>) -> TuiModel {
        self.ask(request::RequestView::SaveProviderModel { provider, model })
    }
}

impl Tui {
    /// Asks the host to save a provider and a model; they are used once it has.
    pub fn finish_provider_model_selection(&mut self, provider: &str, model: &str)
        ensures
            final(self)@ == old(self)@.selection_asked(provider@, model@),
            old(self)@.wf() ==> final(self)@.wf(),
    {
        self.ask(
            Request::SaveProviderModel {
                provider: String::from_str(provider),
                model: String::from_str(model),
            },
        );
    }

    fn report_config_save(
        &mut self,
        result: &Result<(), String>,
        success: &str,
        context: &str,
    ) -> (saved: bool)
        ensures
            final(self)@ == old(self)@.save_reported(failure(*result), success@, context@),
            saved == (failure(*result) is None),
            old(self)@.wf() ==> final(self)@.wf(),
    {
        match result {
            Ok(_) => {
                self.say("system", success);
                true
            },
            Err(e) => {
                let content = chars::cat4("Failed to save ", context, ": ", e.as_str());
                self.say("error", content.as_str());
                false
            },
        }
    }

    /// Finish provider/model selection and synchronize the agent.
    pub fn apply_provider_model_selection(
        &mut self,
        provider: String,
        model: String,
        result: Result<(), String>,
    )
        ensures
            final(self)@ == old(self)@.selection_applied(provider@, model@, failure(result)),
            old(self)@.wf() ==> final(self)@.wf(),
    {
        let success = chars::cat4(
            "Provider set to: ",
            provider.as_str(),
            "\nModel set to: ",
            model.as_str(),
        );
        if !self.report_config_save(&result, success.as_str(), "provider and model selection") {
            return;
        }
        let command = chars::cat4("__switch__:", provider.as_str(), ":", model.as_str());
        self.account.provider = provider;
        self.account.model = model;
        self.to_agent(command.as_str());
    }

    pub fn apply_theme_preference(
        &mut self,
        selected: Theme,
        previous: Theme,
        result: Result<(), String>,
    )
        ensures
            final(self)@ == old(self)@.theme_applied(selected@, previous@, failure(result)),
            old(self)@.wf() ==> final(self)@.wf(),
    {
        let success = chars::cat5(
            "Theme set to: ",
            selected.label.as_str(),
            " (",
            selected.name.as_str(),
            ")",
        );
        if self.report_config_save(&result, success.as_str(), "theme preference") {
            self.looks.theme = selected;
        } else {
            self.looks.theme = previous;
        }
    }

    pub fn apply_thinking_preference(&mut self, next: bool, result: Result<(), String>)
        ensures
            final(self)@ == old(self)@.thinking_applied(next, failure(result)),
            old(self)@.wf() ==> final(self)@.wf(),
    {
        let detail = if next {
            "Full thinking streams and is kept in the transcript."
        } else {
            "Thinking is hidden; a short \"Thought for …\" line is kept (default)."
        };
        let success = chars::cat4("Thinking display: ", on_off_text(next), ". ", detail);
        if self.report_config_save(&result, success.as_str(), "thinking preference") {
            self.looks.show_thinking = next;
        }
    }

    pub fn apply_suggestions_preference(&mut self, next: bool, result: Result<(), String>)
        ensures
            final(self)@ == old(self)@.suggestions_applied(next, failure(result)),
            old(self)@.wf() ==> final(self)@.wf(),
    {
        let detail = if next {
            "Grayed ready-to-send prompts appear when the composer is empty (Tab/→ to accept)."
        } else {
            "Idle composer stays blank (default)."
        };
        let success = chars::cat4("Suggestions: ", on_off_text(next), ". ", detail);
        if self.report_config_save(&result, success.as_str(), "suggestions preference") {
            self.set_show_suggestions(next);
        }
    }
}

/// A provider and model that could not be saved change nothing but the
/// transcript, which gets one error line.
pub proof fn law_unsaved_selection_changes_nothing(
    m: TuiModel,
    provider: Seq<char>,
    model: Seq<char>,
    error: Seq<char>,
)
    ensures
        m.selection_applied(provider, model, Some(error)) == m.say(
            "error"@,
            "Failed to save "@ + "provider and model selection"@ + ": "@ + error,
        ),
{
}

/// Display preferences that could not be saved change nothing but the
/// transcript, which gets one error line.
pub proof fn law_unsaved_preference_changes_nothing(m: TuiModel, next: bool, error: Seq<char>)
    ensures
        m.thinking_applied(next, Some(error)) == m.say(
            "error"@,
            "Failed to save "@ + "thinking preference"@ + ": "@ + error,
        ),
        m.suggestions_applied(next, Some(error)) == m.say(
            "error"@,
            "Failed to save "@ + "suggestions preference"@ + ": "@ + error,
        ),
{
}

/// A theme that could not be saved leaves the previous one.
pub proof fn law_unsaved_theme_is_taken_back(
    m: TuiModel,
    selected: theme::ThemeView,
    previous: theme::ThemeView,
    error: Seq<char>,
)
    ensures
        m.theme_applied(selected, previous, Some(error)).looks.theme == previous,
{
}

} // verus!
