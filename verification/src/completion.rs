//! Slash-command table, fuzzy matching, and composer completions.

use crate::chars;
use crate::sorting;
use crate::transcript;
use crate::transcript::OutputLine;
use vstd::prelude::*;

verus! {

// ---------------------------------------------------------------------------
// Ghost text and idle suggestions
// ---------------------------------------------------------------------------

/// What a completion adds to the typed text, where it extends it.
pub open spec fn ghost_suffix(input: Seq<char>, completion: Seq<char>) -> Option<Seq<char>> {
    if completion.len() > input.len() && chars::begins(
        chars::lowered(completion),
        chars::lowered(input),
    ) {
        Some(completion.skip(input.len() as int))
    } else {
        None
    }
}

/// Gray ghost text after the typed prefix: `/e` + `/exit` → `xit`.
/// Returns `None` when the completion does not extend the current input.
pub fn slash_ghost_suffix(input: &str, completion: &str) -> (r: Option<String>)
    ensures
        chars::opt(r) == ghost_suffix(input@, completion@),
{
    let n = input.unicode_len();
    let c = chars::to_chars(completion);
    if c.len() <= n {
        return None;
    }
    let low = chars::to_lower(completion);
    let typed = chars::to_lower(input);
    if !chars::starts_with(low.as_str(), typed.as_str()) {
        return None;
    }
    let rest = chars::range_string(&c, n, c.len());
    assert(rest@ =~= completion@.skip(input@.len() as int));
    Some(rest)
}

/// The most recent of the lines with the given type.
pub open spec fn latest(lines: Seq<transcript::OutputView>, type_: Seq<char>) -> Option<
    transcript::OutputView,
>
    decreases lines.len(),
{
    if lines.len() == 0 {
        None
    } else if lines.last().type_ == type_ {
        Some(lines.last())
    } else {
        latest(lines.drop_last(), type_)
    }
}

/// The lines that a suggestion looks at.
pub open spec fn recent(lines: Seq<transcript::OutputView>) -> Seq<transcript::OutputView> {
    if lines.len() <= 40 {
        lines
    } else {
        lines.skip(lines.len() - 40)
    }
}

/// The prompt that follows up on what a user asked for, where there is one.
pub open spec fn follow_up(request: Seq<char>) -> Option<Seq<char>> {
    let low = chars::lowered(request);
    if chars::has(low, "test"@) {
        Some("Run the tests, fix any failures, and report the final result"@)
    } else if chars::has(low, "commit"@) || chars::has(low, "push"@) {
        Some("Review the git status and diff, then commit and push if the changes look good"@)
    } else if chars::has(low, "fix"@) || chars::has(low, "bug"@) {
        Some("Verify the fix works end-to-end and check for related regressions"@)
    } else if chars::has(low, "refactor"@) {
        Some("Continue the refactor and keep behavior covered by tests"@)
    } else {
        None
    }
}

/// The ready-to-send prompt for a transcript.
pub open spec fn idle_suggestion(lines: Seq<transcript::OutputView>) -> Seq<char> {
    let near = recent(lines);
    if latest(near, "error"@) is Some {
        "Retry the last step and fix any errors you hit"@
    } else if latest(near, "tool_use"@) is Some {
        let tool = latest(near, "tool_use"@)->0.tool_name;
        if tool == "shell"@ {
            "Summarize the command output and what we should do next"@
        } else if tool == "file_read"@ || tool == "grep"@ || tool == "glob"@ {
            "Based on the "@ + tool
                + " results, explain what you found and recommend next steps"@
        } else {
            "Summarize the "@ + tool + " results and continue with the next step"@
        }
    } else if latest(near, "user"@) is Some && follow_up(latest(near, "user"@)->0.content) is Some {
        follow_up(latest(near, "user"@)->0.content)->0
    } else if latest(near, "text"@) is Some {
        "Continue with the next step from your previous plan"@
    } else {
        "Give me an overview of this codebase and how it is organized"@
    }
}

/// The suggestion for an empty transcript.
pub fn default_empty_suggestion() -> (r: &'static str)
    ensures
        r@ == "Give me an overview of this codebase and how it is organized"@,
{
    "Give me an overview of this codebase and how it is organized"
}

/// The index of the most recent of the last lines with the given type.
fn find_latest(lines: &[OutputLine], type_: &str) -> (r: Option<usize>)
    ensures
        match r {
            Some(i) => i < lines@.len() && latest(recent(transcript::outputs(lines@)), type_@)
                == Some(lines@[i as int]@),
            None => latest(recent(transcript::outputs(lines@)), type_@) is None,
        },
{
    let ghost all = transcript::outputs(lines@);
    let ghost near = recent(all);
    let n = lines.len();
    let low: usize = if n > 40 {
        n - 40
    } else {
        0
    };
    let mut k: usize = n;
    assert(near.take(n - low) =~= near);
    while k > low
        invariant
            n == lines@.len(),
            low <= k <= n,
            low == (if n > 40 {
                n - 40
            } else {
                0
            }),
            all == transcript::outputs(lines@),
            near == recent(all),
            near.len() == n - low,
            latest(near, type_@) == latest(near.take(k - low), type_@),
        decreases k,
    {
        proof {
            let t = near.take(k - low);
            assert(t.drop_last() =~= near.take(k - 1 - low));
            assert(t.last() == lines@[k - 1]@);
        }
        if chars::str_eq(lines[k - 1].type_.as_str(), type_) {
            return Some(k - 1);
        }
        k = k - 1;
    }
    None
}

fn follow_up_prompt(request: &str) -> (r: Option<&'static str>)
    ensures
        match r {
            Some(s) => follow_up(request@) == Some(s@),
            None => follow_up(request@) is None,
        },
{
    let low = chars::to_lower(request);
    let l = low.as_str();
    if chars::contains(l, "test") {
        Some("Run the tests, fix any failures, and report the final result")
    } else if chars::contains(l, "commit") || chars::contains(l, "push") {
        Some("Review the git status and diff, then commit and push if the changes look good")
    } else if chars::contains(l, "fix") || chars::contains(l, "bug") {
        Some("Verify the fix works end-to-end and check for related regressions")
    } else if chars::contains(l, "refactor") {
        Some("Continue the refactor and keep behavior covered by tests")
    } else {
        None
    }
}

/// Pick a short ready-to-send prompt from recent transcript context.
/// Tab/→ inserts it into the composer as a real user message.
pub fn compute_idle_suggestion(lines: &[OutputLine]) -> (r: String)
    ensures
        r@ == idle_suggestion(transcript::outputs(lines@)),
{
    if let Some(_) = find_latest(lines, "error") {
        return String::from_str("Retry the last step and fix any errors you hit");
    }
    if let Some(i) = find_latest(lines, "tool_use") {
        let tool = lines[i].tool_name.as_str();
        if chars::str_eq(tool, "shell") {
            return String::from_str("Summarize the command output and what we should do next");
        }
        if chars::str_eq(tool, "file_read") || chars::str_eq(tool, "grep") || chars::str_eq(
            tool,
            "glob",
        ) {
            return chars::cat3(
                "Based on the ",
                tool,
                " results, explain what you found and recommend next steps",
            );
        }
        return chars::cat3(
            "Summarize the ",
            tool,
            " results and continue with the next step",
        );
    }
    if let Some(i) = find_latest(lines, "user") {
        if let Some(prompt) = follow_up_prompt(lines[i].content.as_str()) {
            return String::from_str(prompt);
        }
    }
    if let Some(_) = find_latest(lines, "text") {
        return String::from_str("Continue with the next step from your previous plan");
    }
    String::from_str(default_empty_suggestion())
}

// ---------------------------------------------------------------------------
// The command table
// ---------------------------------------------------------------------------

/// Whether a completed command still needs another argument.
pub open spec fn wants_more(completion: Seq<char>) -> bool {
    let c = chars::trim_end(completion);
    c == "/auth"@ || c == "/auth login"@ || c == "/auth logout"@ || c == "/auth key"@ || c
        == "/reset"@ || c == "/theme"@ || c == "/model"@ || c == "/provider"@ || c == "/resume"@
        || c == "/delete"@ || c == "/thinking"@ || c == "/suggestions"@ || c == "/mouse"@
}

/// Commands that still need another argument after Tab.
pub fn completion_wants_trailing_space(completion: &str) -> (r: bool)
    ensures
        r == wants_more(completion@),
{
    let t = chars::trimmed_end(completion);
    let c = t.as_str();
    chars::str_eq(c, "/auth") || chars::str_eq(c, "/auth login") || chars::str_eq(
        c,
        "/auth logout",
    ) || chars::str_eq(c, "/auth key") || chars::str_eq(c, "/reset") || chars::str_eq(c, "/theme")
        || chars::str_eq(c, "/model") || chars::str_eq(c, "/provider") || chars::str_eq(
        c,
        "/resume",
    ) || chars::str_eq(c, "/delete") || chars::str_eq(c, "/thinking") || chars::str_eq(
        c,
        "/suggestions",
    ) || chars::str_eq(c, "/mouse")
}

/// Base slash commands paired with the one-line help shown in the composer
/// picker. This is the source of truth for `cmd_picker_list`, so a new command
/// only has to be added here to show up in completions and in the list.
pub const SLASH_COMMANDS: [(&'static str, &'static str); 23] = [
    ("/auth", "Manage provider credentials"),
    ("/clear", "Clear the conversation"),
    ("/compact", "Summarize the conversation to free context"),
    ("/copy", "Copy the last reply to the clipboard"),
    ("/cost", "Show token usage and estimated cost"),
    ("/delete", "Delete a saved session"),
    ("/exit", "Exit Cairn"),
    ("/help", "List commands and keybindings"),
    ("/mcp", "List configured MCP servers"),
    ("/model", "Switch the active model"),
    ("/mouse", "Toggle mouse capture"),
    ("/provider", "Switch the active provider"),
    ("/q", "Exit Cairn"),
    ("/quit", "Exit Cairn"),
    ("/reset", "Show ChatGPT rate-limit reset times"),
    ("/resume", "Resume a saved session"),
    ("/save", "Save the current session"),
    ("/select", "Plain-text view for terminal selection"),
    ("/sessions", "List saved sessions"),
    ("/skills", "List available skills"),
    ("/suggestions", "Toggle idle prompt suggestions"),
    ("/theme", "Change the color theme"),
    ("/thinking", "Toggle thinking output"),
];

/// The names of the base commands, in the order of the table.
pub open spec fn command_names() -> Seq<Seq<char>> {
    Seq::new(SLASH_COMMANDS@.len(), |i: int| SLASH_COMMANDS@[i].0@)
}

/// The help of the first command with the given name, from row `i` of the table on.
pub open spec fn help_from(i: int, name: Seq<char>) -> Option<Seq<char>>
    decreases SLASH_COMMANDS@.len() - i,
{
    if i < 0 || i >= SLASH_COMMANDS@.len() {
        None
    } else if SLASH_COMMANDS@[i].0@ == name {
        Some(SLASH_COMMANDS@[i].1@)
    } else {
        help_from(i + 1, name)
    }
}

/// The help label for a picker row.
pub open spec fn completion_help(completion: Seq<char>) -> Option<Seq<char>> {
    let parts = chars::words(completion);
    let n = parts.len();
    if n == 1 {
        help_from(0, parts[0])
    } else if n == 2 && parts[0] == "/auth"@ && parts[1] == "login"@ {
        Some("Sign in to a provider"@)
    } else if n == 2 && parts[0] == "/auth"@ && parts[1] == "logout"@ {
        Some("Remove stored credentials"@)
    } else if n == 2 && parts[0] == "/auth"@ && parts[1] == "status"@ {
        Some("Show credential status"@)
    } else if n == 2 && parts[0] == "/auth"@ && parts[1] == "key"@ {
        Some("Paste an API key"@)
    } else if n == 2 && parts[0] == "/theme"@ && parts[1] == "list"@ {
        Some("List theme names"@)
    } else if n == 2 && parts[0] == "/reset"@ && parts[1] == "list"@ {
        Some("List banked rate-limit resets"@)
    } else if n == 2 && parts[0] == "/reset"@ && parts[1] == "apply"@ {
        Some("Apply a banked rate-limit reset"@)
    } else if n == 2 && parts[0] == "/reset"@ && parts[1] == "status"@ {
        Some("Show rate-limit reset status"@)
    } else if n == 2 && parts[1] == "on"@ {
        Some("Enable"@)
    } else if n == 2 && parts[1] == "off"@ {
        Some("Disable"@)
    } else if (n == 3 && parts[0] == "/auth"@) || (n == 2 && parts[0] == "/provider"@) {
        Some("provider"@)
    } else if n >= 1 && parts[0] == "/model"@ {
        Some("model"@)
    } else if n == 2 && parts[0] == "/theme"@ {
        Some("theme"@)
    } else if n == 2 && (parts[0] == "/resume"@ || parts[0] == "/delete"@) {
        Some("session id"@)
    } else {
        None
    }
}

fn command_help(name: &str) -> (r: Option<&'static str>)
    ensures
        match r {
            Some(s) => help_from(0, name@) == Some(s@),
            None => help_from(0, name@) is None,
        },
{
    let mut i: usize = 0;
    while i < 23
        invariant
            0 <= i <= 23,
            help_from(0, name@) == help_from(i as int, name@),
        decreases 23 - i,
    {
        let row = SLASH_COMMANDS[i];
        if chars::str_eq(row.0, name) {
            return Some(row.1);
        }
        i = i + 1;
    }
    None
}

/// One-line help for a picker row: the command's own description for a bare
/// command, otherwise a label for the argument being completed.
pub fn slash_completion_help(completion: &str) -> (r: Option<&'static str>)
    ensures
        match r {
            Some(s) => completion_help(completion@) == Some(s@),
            None => completion_help(completion@) is None,
        },
{
    let parts = chars::split_words(completion);
    let n = parts.len();
    assert(chars::words(completion@).len() == n);
    if n == 0 {
        return None;
    }
    let root = parts[0].as_str();
    if n == 1 {
        return command_help(root);
    }
    let arg = parts[1].as_str();
    if n == 2 {
        if chars::str_eq(root, "/auth") {
            if chars::str_eq(arg, "login") {
                return Some("Sign in to a provider");
            }
            if chars::str_eq(arg, "logout") {
                return Some("Remove stored credentials");
            }
            if chars::str_eq(arg, "status") {
                return Some("Show credential status");
            }
            if chars::str_eq(arg, "key") {
                return Some("Paste an API key");
            }
        }
        if chars::str_eq(root, "/theme") && chars::str_eq(arg, "list") {
            return Some("List theme names");
        }
        if chars::str_eq(root, "/reset") {
            if chars::str_eq(arg, "list") {
                return Some("List banked rate-limit resets");
            }
            if chars::str_eq(arg, "apply") {
                return Some("Apply a banked rate-limit reset");
            }
            if chars::str_eq(arg, "status") {
                return Some("Show rate-limit reset status");
            }
        }
        if chars::str_eq(arg, "on") {
            return Some("Enable");
        }
        if chars::str_eq(arg, "off") {
            return Some("Disable");
        }
    }
    if (n == 3 && chars::str_eq(root, "/auth")) || (n == 2 && chars::str_eq(root, "/provider")) {
        Some("provider")
    } else if chars::str_eq(root, "/model") {
        Some("model")
    } else if n == 2 && chars::str_eq(root, "/theme") {
        Some("theme")
    } else if n == 2 && (chars::str_eq(root, "/resume") || chars::str_eq(root, "/delete")) {
        Some("session id")
    } else {
        None
    }
}

// ---------------------------------------------------------------------------
// Fuzzy matching
// ---------------------------------------------------------------------------

/// The first place at or after `from` where `c` stands, or -1.
pub open spec fn next_hit(s: Seq<char>, from: int, c: char) -> int
    decreases s.len() - from,
{
    if from < 0 || from >= s.len() {
        -1
    } else if s[from] == c {
        from
    } else {
        next_hit(s, from + 1, c)
    }
}

/// Whether a segment of a name starts after this character.
pub open spec fn separates(c: char) -> bool {
    c == '/' || c == '-' || c == '_' || c == '.' || c == ':' || c == ' '
}

/// Whether a segment of a name starts at `idx`.
pub open spec fn starts_segment(cand: Seq<char>, idx: int) -> bool {
    idx == 0 || separates(cand[idx - 1])
}

/// What a hit right after the one before it is worth: the most of all.
pub const RUN_GAIN: i128 = 13;

/// What a hit that starts a segment is worth.
pub const ANCHOR_GAIN: i128 = 11;

/// The most that a late hit loses: less than an anchor is worth.
pub const MAX_LATENESS: usize = 10;

/// What a hit at `idx` adds to the score when the hit before it was at `prev`
/// (-2 for the first one): adjacency and segment starts count for it, lateness
/// against it, and always for less.
pub open spec fn hit_gain(cand: Seq<char>, prev: int, idx: int) -> int {
    (if prev + 1 == idx {
        RUN_GAIN as int
    } else {
        0
    }) + (if starts_segment(cand, idx) {
        ANCHOR_GAIN as int
    } else {
        0
    }) - (if idx <= MAX_LATENESS {
        idx
    } else {
        MAX_LATENESS as int
    })
}

/// The gains of matching `q` in `cand` from `next` on, each character at its
/// first place after the one before it; nothing when one has no place.
pub open spec fn walk(cand: Seq<char>, q: Seq<char>, next: int, prev: int) -> Option<int>
    decreases q.len(),
{
    if q.len() == 0 {
        Some(0)
    } else {
        let idx = next_hit(cand, next, q[0]);
        if idx < 0 {
            None
        } else {
            match walk(cand, q.drop_first(), idx + 1, idx) {
                Some(s) => Some(s + hit_gain(cand, prev, idx)),
                None => None,
            }
        }
    }
}

/// The score of `query` against `candidate`, upper and lower case taken as one.
pub open spec fn score(candidate: Seq<char>, query: Seq<char>) -> Option<int> {
    let cand = chars::lowered(candidate);
    let q = chars::lowered(query);
    if q.len() == 0 {
        Some(0)
    } else {
        match walk(cand, q, 0, -2) {
            Some(s) => Some(
                s + (if chars::begins(cand, q) {
                    40int
                } else {
                    0
                }) - (if q.len() == 1 {
                    0
                } else if cand.len() - q.len() <= 20 {
                    cand.len() - q.len()
                } else {
                    20
                }),
            ),
            None => None,
        }
    }
}

/// Whether `at` lists places of `c`, in order and from `from` on, that spell `q`.
pub open spec fn spells(at: Seq<int>, c: Seq<char>, q: Seq<char>, from: int) -> bool {
    &&& at.len() == q.len()
    &&& forall|i: int| 0 <= i < at.len() ==> from <= #[trigger] at[i] < c.len() && c[at[i]] == q[i]
    &&& forall|i: int, j: int| 0 <= i < j < at.len() ==> #[trigger] at[i] < #[trigger] at[j]
}

/// Whether the characters of `q` appear in `c` in order, from `from` on.
pub open spec fn appears(c: Seq<char>, q: Seq<char>, from: int) -> bool {
    exists|at: Seq<int>| #[trigger] spells(at, c, q, from)
}

proof fn lemma_next_hit(s: Seq<char>, from: int, c: char)
    requires
        0 <= from,
    ensures
        next_hit(s, from, c) == -1 || (from <= next_hit(s, from, c) < s.len() && s[next_hit(
            s,
            from,
            c,
        )] == c),
        next_hit(s, from, c) == -1 ==> forall|i: int| from <= i < s.len() ==> #[trigger] s[i] != c,
        next_hit(s, from, c) >= 0 ==> forall|i: int|
            from <= i < next_hit(s, from, c) ==> #[trigger] s[i] != c,
    decreases s.len() - from,
{
    if from < s.len() && s[from] != c {
        lemma_next_hit(s, from + 1, c);
    }
}

proof fn lemma_walk(c: Seq<char>, q: Seq<char>, next: int, prev: int)
    requires
        0 <= next,
    ensures
        walk(c, q, next, prev) is Some <==> appears(c, q, next),
        walk(c, q, next, prev) is Some && next <= c.len() ==> q.len() + next <= c.len(),
    decreases q.len(),
{
    if q.len() == 0 {
        let none = Seq::<int>::empty();
        assert(spells(none, c, q, next));
    } else {
        let idx = next_hit(c, next, q[0]);
        lemma_next_hit(c, next, q[0]);
        if idx >= 0 {
            lemma_walk(c, q.drop_first(), idx + 1, idx);
        }
        if appears(c, q, next) {
            let at = choose|at: Seq<int>| #[trigger] spells(at, c, q, next);
            assert(c[at[0]] == q[0]);
            let rest = at.drop_first();
            assert forall|i: int| 0 <= i < rest.len() implies idx + 1 <= #[trigger] rest[i]
                < c.len() && c[rest[i]] == q.drop_first()[i] by {
                assert(rest[i] == at[i + 1]);
                assert(at[0] < at[i + 1]);
                assert(idx <= at[0]);
            }
            assert forall|i: int, j: int| 0 <= i < j < rest.len() implies #[trigger] rest[i]
                < #[trigger] rest[j] by {
                assert(at[i + 1] < at[j + 1]);
            }
            assert(spells(rest, c, q.drop_first(), idx + 1));
        }
        if walk(c, q, next, prev) is Some {
            let rest = choose|at: Seq<int>| #[trigger] spells(at, c, q.drop_first(), idx + 1);
            let at = seq![idx] + rest;
            assert forall|i: int| 0 <= i < at.len() implies next <= #[trigger] at[i] < c.len()
                && c[at[i]] == q[i] by {
                if i > 0 {
                    assert(at[i] == rest[i - 1]);
                    assert(q[i] == q.drop_first()[i - 1]);
                }
            }
            assert forall|i: int, j: int| 0 <= i < j < at.len() implies #[trigger] at[i]
                < #[trigger] at[j] by {
                assert(at[j] == rest[j - 1]);
                if i > 0 {
                    assert(at[i] == rest[i - 1]);
                }
            }
            assert(spells(at, c, q, next));
        }
    }
}

/// A query matches a candidate just where its characters appear in the
/// candidate in order, upper and lower case taken as one.
pub proof fn law_fuzzy_match(candidate: Seq<char>, query: Seq<char>)
    ensures
        score(candidate, query) is Some <==> appears(
            chars::lowered(candidate),
            chars::lowered(query),
            0,
        ),
{
    lemma_walk(chars::lowered(candidate), chars::lowered(query), 0, -2);
    if query.len() == 0 {
        assert(spells(Seq::empty(), chars::lowered(candidate), chars::lowered(query), 0));
    }
}

/// A hit that follows the one before it, or that starts a segment, is worth more
/// than any hit buried mid-word, wherever the two stand.
pub proof fn law_anchors_outweigh_lateness(
    a: Seq<char>,
    prev_a: int,
    i: int,
    b: Seq<char>,
    prev_b: int,
    j: int,
)
    requires
        0 <= i < a.len(),
        0 <= j < b.len(),
        prev_a + 1 == i || starts_segment(a, i),
        prev_b + 1 != j,
        !starts_segment(b, j),
    ensures
        hit_gain(a, prev_a, i) > 0 > hit_gain(b, prev_b, j),
{
}

/// Of two hits of the same sort, the earlier one is worth more, up to where
/// lateness no longer counts.
pub proof fn law_early_hits_beat_late_ones(
    a: Seq<char>,
    prev_a: int,
    i: int,
    b: Seq<char>,
    prev_b: int,
    j: int,
)
    requires
        0 <= i < j < b.len(),
        i < a.len(),
        i < MAX_LATENESS,
        prev_a + 1 == i <==> prev_b + 1 == j,
        starts_segment(a, i) <==> starts_segment(b, j),
    ensures
        hit_gain(a, prev_a, i) > hit_gain(b, prev_b, j),
{
}

/// For a query of one character, a hit that starts a segment ranks above a hit
/// buried mid-word, however late it comes.
pub proof fn law_boundary_hits_rank_first(a: Seq<char>, b: Seq<char>, query: Seq<char>)
    requires
        query.len() == 1,
        score(a, query) is Some,
        score(b, query) is Some,
        ({
            let c = chars::lowered(query)[0];
            &&& starts_segment(chars::lowered(a), next_hit(chars::lowered(a), 0, c))
            &&& !starts_segment(chars::lowered(b), next_hit(chars::lowered(b), 0, c))
        }),
    ensures
        score(a, query)->0 > score(b, query)->0,
{
    let q = chars::lowered(query);
    let (ca, cb) = (chars::lowered(a), chars::lowered(b));
    let (i, j) = (next_hit(ca, 0, q[0]), next_hit(cb, 0, q[0]));
    lemma_next_hit(ca, 0, q[0]);
    lemma_next_hit(cb, 0, q[0]);
    assert(q.drop_first().len() == 0);
    assert(walk(ca, q.drop_first(), i + 1, i) == Some(0int));
    assert(walk(cb, q.drop_first(), j + 1, j) == Some(0int));
    law_anchors_outweigh_lateness(ca, -2, i, cb, -2, j);
    assert(!chars::begins(cb, q)) by {
        if chars::begins(cb, q) {
            assert(cb[0] == q[0]);
        }
    }
}

/// A candidate that starts with the query ranks above every candidate that
/// only holds its characters further on or apart.
pub proof fn law_prefixes_rank_first(a: Seq<char>, b: Seq<char>, query: Seq<char>)
    requires
        query.len() > 0,
        chars::begins(chars::lowered(a), chars::lowered(query)),
        !chars::begins(chars::lowered(b), chars::lowered(query)),
        score(b, query) is Some,
    ensures
        score(a, query) is Some,
        score(a, query)->0 > score(b, query)->0,
{
    let q = chars::lowered(query);
    let (ca, cb) = (chars::lowered(a), chars::lowered(b));
    assert(q.skip(0) =~= q);
    lemma_walk(cb, q, 0, -2);
    lemma_prefix_walk(ca, cb, q, 0, 0, -2);
}

/// From its `k`-th character on, a query gains no more in a candidate where it
/// stands further on than in one that starts with it.
proof fn lemma_prefix_walk(
    ca: Seq<char>,
    cb: Seq<char>,
    q: Seq<char>,
    k: int,
    next: int,
    prev: int,
)
    requires
        chars::begins(ca, q),
        0 <= k <= q.len(),
        k <= next,
        k == 0 ==> next == 0 && prev == -2,
        k > 0 ==> prev + 1 == next && next <= cb.len() && cb[prev] == q[k - 1],
        walk(cb, q.skip(k), next, prev) is Some,
    ensures
        ({
            let prev_a = if k == 0 {
                -2
            } else {
                k - 1
            };
            walk(ca, q.skip(k), k, prev_a) is Some && walk(ca, q.skip(k), k, prev_a)->0 >= walk(
                cb,
                q.skip(k),
                next,
                prev,
            )->0
        }),
    decreases q.len() - k,
{
    if k < q.len() {
        let rest = q.skip(k);
        assert(rest[0] == q[k]);
        assert(rest.drop_first() =~= q.skip(k + 1));
        assert(ca[k] == q[k]);
        assert(next_hit(ca, k, q[k]) == k);
        let idx = next_hit(cb, next, q[k]);
        lemma_next_hit(cb, next, q[k]);
        lemma_prefix_walk(ca, cb, q, k + 1, idx + 1, idx);
        if k > 0 {
            assert(ca[k - 1] == q[k - 1]);
        }
    }
}

fn find_hit(cand: &Vec<char>, from: usize, c: char) -> (r: Option<usize>)
    requires
        from <= cand@.len(),
    ensures
        match r {
            Some(i) => from <= i < cand@.len() && next_hit(cand@, from as int, c) == i,
            None => next_hit(cand@, from as int, c) == -1,
        },
{
    let mut i: usize = from;
    while i < cand.len()
        invariant
            from <= i <= cand@.len(),
            next_hit(cand@, from as int, c) == next_hit(cand@, i as int, c),
        decreases cand@.len() - i,
    {
        if cand[i] == c {
            return Some(i);
        }
        i = i + 1;
    }
    None
}

/// Fuzzy-match `query` against `candidate`, case-insensitively.
///
/// Returns `None` unless every character of `query` appears in `candidate` in
/// order, so `/mdl` finds `/model` but `/xyz` finds nothing. The score only has
/// to order candidates against each other, not mean anything on its own: real
/// prefixes rank above scattered matches, and consecutive or word-boundary hits
/// rank above hits buried mid-word.
pub fn fuzzy_score(candidate: &str, query: &str) -> (r: Option<i128>)
    ensures
        match r {
            Some(n) => score(candidate@, query@) == Some(n as int),
            None => score(candidate@, query@) is None,
        },
{
    let low = chars::to_lower(candidate);
    let typed = chars::to_lower(query);
    let cand = chars::to_chars(low.as_str());
    let q = chars::to_chars(typed.as_str());
    if q.len() == 0 {
        return Some(0);
    }
    proof {
        lemma_walk(cand@, q@, 0, -2);
    }
    let len = cand.len();
    if q.len() > len {
        return None;
    }
    let mut total: i128 = 0;
    let mut next: usize = 0;
    let mut prev_hit: Option<usize> = None;
    let mut k: usize = 0;
    assert(q@.skip(0) =~= q@);
    while k < q.len()
        invariant
            cand@ == chars::lowered(candidate@),
            q@ == chars::lowered(query@),
            q@.len() > 0,
            len == cand@.len(),
            0 <= k <= q@.len(),
            next <= cand@.len(),
            -10 * k <= total <= 24 * k,
            match prev_hit {
                Some(p) => p < cand@.len(),
                None => true,
            },
            ({
                let prev = match prev_hit {
                    Some(p) => p as int,
                    None => -2,
                };
                match walk(cand@, q@, 0, -2) {
                    Some(s) => walk(cand@, q@.skip(k as int), next as int, prev) == Some(s - total),
                    None => walk(cand@, q@.skip(k as int), next as int, prev) is None,
                }
            }),
        decreases q@.len() - k,
    {
        proof {
            assert(q@.skip(k as int).drop_first() =~= q@.skip(k + 1));
            assert(q@.skip(k as int)[0] == q@[k as int]);
        }
        let idx: usize = match find_hit(&cand, next, q[k]) {
            Some(i) => i,
            None => {
                return None;
            },
        };
        next = idx + 1;
        // Runs of adjacent characters are what "typing the start of a word"
        // looks like, so they weigh most.
        let adjacent: bool = match prev_hit {
            Some(p) => p + 1 == idx,
            None => false,
        };
        if adjacent {
            total = total + RUN_GAIN;
        }
        // Segment starts (`/auth`, `grok-4.5`, `model_x`) are strong anchors.
        let anchored: bool = idx == 0 || {
            let before = cand[idx - 1];
            before == '/' || before == '-' || before == '_' || before == '.' || before == ':'
                || before == ' '
        };
        if anchored {
            total = total + ANCHOR_GAIN;
        }
        // Early hits beat late ones, but never by enough to outweigh an anchor.
        if idx <= MAX_LATENESS {
            total = total - idx as i128;
        } else {
            total = total - MAX_LATENESS as i128;
        }
        prev_hit = Some(idx);
        k = k + 1;
    }
    assert(q@.skip(k as int).len() == 0);
    // What the user typed verbatim is almost always what they meant.
    if chars::starts_with(low.as_str(), typed.as_str()) {
        total = total + 40;
    }
    // Between two matches the tighter one is the better guess - but only once
    // the query says something. A bare `/` matches everything equally well, and
    // length is then the only differing term, which would silently re-sort the
    // whole command list by name length.
    if q.len() > 1 {
        let slack: usize = len - q.len();
        if slack <= 20 {
            total = total - slack as i128;
        } else {
            total = total - 20;
        }
    }
    Some(total)
}

/// The places of the candidates that match, in order.
pub open spec fn matching(cands: Seq<Seq<char>>, query: Seq<char>) -> Seq<int>
    decreases cands.len(),
{
    if cands.len() == 0 {
        seq![]
    } else {
        let before = matching(cands.drop_last(), query);
        if score(cands.last(), query) is Some {
            before.push(cands.len() - 1)
        } else {
            before
        }
    }
}

/// Higher scores first, equal scores in the order of the candidates.
pub open spec fn better(cands: Seq<Seq<char>>, query: Seq<char>) -> spec_fn(int, int) -> bool {
    |i: int, j: int|
        score(cands[i], query)->0 > score(cands[j], query)->0 || (score(cands[i], query)->0 == score(
            cands[j],
            query,
        )->0 && i <= j)
}

/// The places of the candidates that match, best match first.
pub open spec fn ranking(cands: Seq<Seq<char>>, query: Seq<char>) -> Seq<int> {
    matching(cands, query).sort_by(better(cands, query))
}

/// The texts at the given places, each behind `prefix`.
pub open spec fn picked(cands: Seq<Seq<char>>, places: Seq<int>, prefix: Seq<char>) -> Seq<
    Seq<char>,
> {
    Seq::new(places.len(), |i: int| prefix + cands[places[i]])
}

/// The candidates that match, best match first, each behind `prefix` and none
/// twice in a row.
pub open spec fn ranked(cands: Seq<Seq<char>>, query: Seq<char>, prefix: Seq<char>) -> Seq<
    Seq<char>,
> {
    sorting::deduped(picked(cands, ranking(cands, query), prefix))
}

proof fn lemma_better(cands: Seq<Seq<char>>, query: Seq<char>)
    ensures
        vstd::relations::total_ordering(better(cands, query)),
{
}

proof fn lemma_matching(cands: Seq<Seq<char>>, query: Seq<char>)
    ensures
        forall|i: int|
            0 <= i < matching(cands, query).len() ==> 0 <= #[trigger] matching(cands, query)[i]
                < cands.len() && score(cands[matching(cands, query)[i]], query) is Some,
    decreases cands.len(),
{
    if cands.len() > 0 {
        lemma_matching(cands.drop_last(), query);
        let m = matching(cands, query);
        let b = matching(cands.drop_last(), query);
        assert forall|i: int| 0 <= i < m.len() implies 0 <= #[trigger] m[i] < cands.len()
            && score(cands[m[i]], query) is Some by {
            if i < b.len() {
                assert(m[i] == b[i]);
                assert(cands.drop_last()[b[i]] == cands[b[i]]);
            }
        }
    }
}

/// The values of a list of places.
pub open spec fn places(v: Seq<usize>) -> Seq<int> {
    Seq::new(v.len(), |i: int| v[i] as int)
}

/// The places of the candidates that match, best match first.
fn rank_places(candidates: &[String], query: &str) -> (r: Vec<usize>)
    ensures
        places(r@) == ranking(chars::strs(candidates@), query@),
        forall|i: int| 0 <= i < r@.len() ==> #[trigger] r@[i] < candidates@.len(),
{
    let ghost all = chars::strs(candidates@);
    let ghost leq = better(all, query@);
    let mut order: Vec<usize> = Vec::new();
    let mut scores: Vec<i128> = Vec::new();
    let mut i: usize = 0;
    proof {
        assert(all.take(0) =~= Seq::<Seq<char>>::empty());
        assert(places(order@) =~= Seq::<int>::empty());
        assert(matching(all.take(0), query@) =~= Seq::<int>::empty());
    }
    while i < candidates.len()
        invariant
            all == chars::strs(candidates@),
            leq == better(all, query@),
            0 <= i <= candidates@.len(),
            scores@.len() == order@.len(),
            forall|j: int|
                0 <= j < order@.len() ==> #[trigger] order@[j] < i && score(
                    all[order@[j] as int],
                    query@,
                ) == Some(scores@[j] as int),
            vstd::relations::sorted_by(places(order@), leq),
            places(order@).to_multiset() == matching(all.take(i as int), query@).to_multiset(),
        decreases candidates@.len() - i,
    {
        proof {
            assert(all.take(i + 1).drop_last() =~= all.take(i as int));
            assert(all.take(i + 1).last() == all[i as int]);
        }
        match fuzzy_score(candidates[i].as_str(), query) {
            Some(s) => {
                let mut k: usize = order.len();
                while k > 0 && scores[k - 1] < s
                    invariant
                        leq == better(all, query@),
                        0 <= k <= order@.len(),
                        scores@.len() == order@.len(),
                        score(all[i as int], query@) == Some(s as int),
                        forall|j: int|
                            0 <= j < order@.len() ==> #[trigger] order@[j] < i && score(
                                all[order@[j] as int],
                                query@,
                            ) == Some(scores@[j] as int),
                        forall|j: int|
                            k <= j < order@.len() ==> #[trigger] leq(i as int, places(order@)[j]),
                    decreases k,
                {
                    assert(order@[k - 1] < i);
                    assert(leq(i as int, places(order@)[k - 1]));
                    k = k - 1;
                }
                proof {
                    let p = places(order@);
                    assert forall|j: int| 0 <= j < k implies #[trigger] leq(p[j], i as int) by {
                        assert(order@[j] < i);
                        assert(order@[k - 1] < i);
                        if j < k - 1 {
                            assert(leq(p[j], p[k - 1]));
                        }
                    }
                    sorting::lemma_insert_sorted(p, i as int, k as int, leq);
                    vstd::seq_lib::to_multiset_build(
                        matching(all.take(i as int), query@),
                        i as int,
                    );
                    assert(places(order@.insert(k as int, i)) =~= p.insert(k as int, i as int));
                }
                let ghost before = order@;
                let ghost scores_before = scores@;
                order.insert(k, i);
                scores.insert(k, s);
                assert forall|j: int| 0 <= j < order@.len() implies #[trigger] order@[j] < i + 1
                    && score(all[order@[j] as int], query@) == Some(scores@[j] as int) by {
                    if j < k {
                        assert(order@[j] == before[j]);
                    } else if j > k {
                        assert(order@[j] == before[j - 1]);
                        assert(scores@[j] == scores_before[j - 1]);
                    }
                }
            },
            None => {},
        }
        i = i + 1;
    }
    proof {
        assert(all.take(i as int) =~= all);
        lemma_better(all, query@);
        sorting::lemma_is_sorted(places(order@), matching(all, query@), leq);
    }
    order
}

/// Rank `candidates` by fuzzy match against `query`, dropping non-matches, and
/// show each behind `prefix`.
///
/// Equal scores keep the caller's original order, so a bare `/` still lists the
/// commands in the order they were declared.
pub fn fuzzy_rank(candidates: &[String], query: &str, prefix: &str) -> (r: Vec<String>)
    ensures
        chars::strs(r@) == ranked(chars::strs(candidates@), query@, prefix@),
{
    let order = rank_places(candidates, query);
    let ghost all = chars::strs(candidates@);
    let ghost shown = picked(all, places(order@), prefix@);
    let mut out: Vec<String> = Vec::new();
    let mut i: usize = 0;
    assert(chars::strs(out@) =~= shown.take(0));
    while i < order.len()
        invariant
            all == chars::strs(candidates@),
            shown == picked(all, places(order@), prefix@),
            forall|j: int| 0 <= j < order@.len() ==> #[trigger] order@[j] < candidates@.len(),
            0 <= i <= order@.len(),
            chars::strs(out@) == shown.take(i as int),
        decreases order@.len() - i,
    {
        let line = chars::cat2(prefix, candidates[order[i]].as_str());
        proof {
            chars::lemma_strs_push(out@, line);
            assert(shown.take(i + 1) =~= shown.take(i as int).push(shown[i as int]));
        }
        out.push(line);
        i = i + 1;
    }
    assert(shown.take(i as int) =~= shown);
    sorting::dedup_strings(out)
}

/// A ranking lists just the candidates that match, higher scores first and
/// equal scores in the order of the candidates.
pub proof fn law_ranking_order(cands: Seq<Seq<char>>, query: Seq<char>)
    ensures
        ranking(cands, query).to_multiset() == matching(cands, query).to_multiset(),
        forall|i: int|
            0 <= i < ranking(cands, query).len() ==> 0 <= #[trigger] ranking(cands, query)[i]
                < cands.len() && score(cands[ranking(cands, query)[i]], query) is Some,
        forall|i: int, j: int|
            #![trigger ranking(cands, query)[i], ranking(cands, query)[j]]
            0 <= i < j < ranking(cands, query).len() ==> better(cands, query)(
                ranking(cands, query)[i],
                ranking(cands, query)[j],
            ),
{
    let m = matching(cands, query);
    let r = ranking(cands, query);
    let leq = better(cands, query);
    lemma_better(cands, query);
    lemma_matching(cands, query);
    m.lemma_sort_by_ensures(leq);
    assert forall|i: int| 0 <= i < r.len() implies 0 <= #[trigger] r[i] < cands.len() && score(
        cands[r[i]],
        query,
    ) is Some by {
        assert(r.contains(r[i]));
        assert(m.contains(r[i]));
        let k = choose|k: int| 0 <= k < m.len() && m[k] == r[i];
        assert(0 <= m[k] < cands.len());
    }
    assert forall|i: int, j: int|
        #![trigger r[i], r[j]]
        0 <= i < j < r.len() implies better(cands, query)(r[i], r[j]) by {
        assert(leq(r[i], r[j]));
    }
}

// ---------------------------------------------------------------------------
// Contextual completions
// ---------------------------------------------------------------------------

pub const TOGGLES: [&'static str; 2] = ["on", "off"];

pub const RESET_ACTIONS: [&'static str; 3] = ["list", "apply", "status"];

pub const AUTH_ACTIONS: [&'static str; 4] = ["login", "logout", "status", "key"];

/// The options that start with `typed`, each behind `prefix`.
pub open spec fn offers(prefix: Seq<char>, options: Seq<Seq<char>>, typed: Seq<char>) -> Seq<
    Seq<char>,
>
    decreases options.len(),
{
    if options.len() == 0 {
        seq![]
    } else {
        let before = offers(prefix, options.drop_last(), typed);
        if chars::begins(options.last(), typed) {
            before.push(prefix + options.last())
        } else {
            before
        }
    }
}

/// The texts, each behind `prefix`.
pub open spec fn prefixed(prefix: Seq<char>, list: Seq<Seq<char>>) -> Seq<Seq<char>> {
    Seq::new(list.len(), |i: int| prefix + list[i])
}

/// The texts of some literals.
pub open spec fn literals(v: Seq<&'static str>) -> Seq<Seq<char>> {
    Seq::new(v.len(), |i: int| v[i]@)
}

/// The options of a command, given its words and whether another one follows.
pub open spec fn option_completions(
    prefix: Seq<char>,
    options: Seq<Seq<char>>,
    parts: Seq<Seq<char>>,
    spaced: bool,
) -> Seq<Seq<char>> {
    if parts.len() == 1 && spaced {
        prefixed(prefix, options)
    } else if parts.len() == 2 && !spaced {
        offers(prefix, options, chars::lowered(parts[1]))
    } else {
        seq![]
    }
}

/// The values of a command that takes one argument out of a list.
pub open spec fn value_completions(
    prefix: Seq<char>,
    list: Seq<Seq<char>>,
    parts: Seq<Seq<char>>,
    spaced: bool,
) -> Seq<Seq<char>> {
    if parts.len() == 1 && spaced {
        prefixed(prefix, list)
    } else if parts.len() == 2 && !spaced {
        ranked(list, parts[1], prefix)
    } else {
        seq![]
    }
}

/// The actions of `/auth`, and the providers that one of them takes.
pub open spec fn auth_completions(
    providers: Seq<Seq<char>>,
    parts: Seq<Seq<char>>,
    spaced: bool,
) -> Seq<Seq<char>> {
    let action = chars::lowered(parts[1]);
    let prefix = "/auth "@ + action + " "@;
    if parts.len() < 2 {
        option_completions("/auth "@, literals(AUTH_ACTIONS@), parts, spaced)
    } else if parts.len() == 2 && !spaced {
        ranked(literals(AUTH_ACTIONS@), action, "/auth "@)
    } else if action == "login"@ || action == "logout"@ || action == "key"@ {
        if parts.len() == 2 {
            prefixed(prefix, providers)
        } else if parts.len() == 3 && !spaced {
            ranked(providers, parts[2], prefix)
        } else {
            seq![]
        }
    } else {
        seq![]
    }
}

/// The theme names, and `list`.
pub open spec fn theme_completions(
    themes: Seq<Seq<char>>,
    parts: Seq<Seq<char>>,
    spaced: bool,
) -> Seq<Seq<char>> {
    let list = seq!["/theme list"@];
    if parts.len() == 1 && spaced {
        list + prefixed("/theme "@, themes)
    } else if parts.len() == 2 && !spaced {
        let hits = ranked(themes, parts[1], "/theme "@);
        if chars::begins("list"@, chars::lowered(parts[1])) {
            sorting::deduped(list + hits)
        } else {
            sorting::deduped(hits)
        }
    } else {
        seq![]
    }
}

/// The models of the active provider, by a name that may hold spaces.
pub open spec fn model_completions(
    models: Seq<Seq<char>>,
    parts: Seq<Seq<char>>,
    spaced: bool,
) -> Seq<Seq<char>> {
    if parts.len() == 1 && spaced {
        prefixed("/model "@, models)
    } else if parts.len() >= 2 && !spaced {
        ranked(models, chars::joined(parts.skip(1), " "@), "/model "@)
    } else {
        seq![]
    }
}

/// What the composer offers to complete an input with.
pub open spec fn completions(
    input: Seq<char>,
    base: Seq<Seq<char>>,
    models: Seq<Seq<char>>,
    providers: Seq<Seq<char>>,
    themes: Seq<Seq<char>>,
    sessions: Seq<Seq<char>>,
) -> Seq<Seq<char>> {
    let parts = chars::words(input);
    let spaced = input.last() == ' ' || input.last() == '\t';
    let cmd = chars::lowered(parts[0]);
    if input.len() == 0 || input[0] != '/' {
        seq![]
    } else if parts.len() == 0 {
        base
    } else if parts.len() == 1 && !spaced {
        ranked(base, cmd, ""@)
    } else if cmd == "/thinking"@ || cmd == "/suggestions"@ || cmd == "/mouse"@ {
        option_completions(cmd + " "@, literals(TOGGLES@), parts, spaced)
    } else if cmd == "/reset"@ {
        option_completions("/reset "@, literals(RESET_ACTIONS@), parts, spaced)
    } else if cmd == "/auth"@ {
        auth_completions(providers, parts, spaced)
    } else if cmd == "/theme"@ {
        theme_completions(themes, parts, spaced)
    } else if cmd == "/model"@ {
        model_completions(models, parts, spaced)
    } else if cmd == "/provider"@ {
        value_completions("/provider "@, providers, parts, spaced)
    } else if cmd == "/resume"@ || cmd == "/delete"@ {
        value_completions(cmd + " "@, sessions, parts, spaced)
    } else {
        seq![]
    }
}

fn no_completions() -> (r: Vec<String>)
    ensures
        chars::strs(r@) == Seq::<Seq<char>>::empty(),
{
    let r: Vec<String> = Vec::new();
    assert(chars::strs(r@) =~= Seq::<Seq<char>>::empty());
    r
}

fn prefix_all(prefix: &str, list: &[String]) -> (r: Vec<String>)
    ensures
        chars::strs(r@) == prefixed(prefix@, chars::strs(list@)),
{
    let ghost all = prefixed(prefix@, chars::strs(list@));
    let mut out: Vec<String> = Vec::new();
    let mut i: usize = 0;
    assert(chars::strs(out@) =~= all.take(0));
    while i < list.len()
        invariant
            all == prefixed(prefix@, chars::strs(list@)),
            0 <= i <= list@.len(),
            chars::strs(out@) == all.take(i as int),
        decreases list@.len() - i,
    {
        let line = chars::cat2(prefix, list[i].as_str());
        proof {
            chars::lemma_strs_push(out@, line);
            assert(all.take(i + 1) =~= all.take(i as int).push(all[i as int]));
        }
        out.push(line);
        i = i + 1;
    }
    assert(all.take(i as int) =~= all);
    out
}

proof fn lemma_offers_all(prefix: Seq<char>, options: Seq<Seq<char>>)
    ensures
        offers(prefix, options, seq![]) == prefixed(prefix, options),
    decreases options.len(),
{
    if options.len() > 0 {
        lemma_offers_all(prefix, options.drop_last());
        assert(options.last().subrange(0, 0) =~= seq![]);
        assert(options.last().take(0) =~= seq![]);
        assert(prefixed(prefix, options) =~= prefixed(prefix, options.drop_last()).push(
            prefix + options.last(),
        ));
    } else {
        assert(prefixed(prefix, options) =~= seq![]);
    }
}

fn offer_options(prefix: &str, options: &[&'static str], typed: &str) -> (r: Vec<String>)
    ensures
        chars::strs(r@) == offers(prefix@, literals(options@), typed@),
{
    let ghost all = literals(options@);
    let mut out: Vec<String> = Vec::new();
    let mut i: usize = 0;
    assert(chars::strs(out@) =~= offers(prefix@, all.take(0), typed@));
    while i < options.len()
        invariant
            all == literals(options@),
            0 <= i <= options@.len(),
            chars::strs(out@) == offers(prefix@, all.take(i as int), typed@),
        decreases options@.len() - i,
    {
        proof {
            assert(all.take(i + 1).drop_last() =~= all.take(i as int));
            assert(all.take(i + 1).last() == options@[i as int]@);
        }
        if chars::starts_with(options[i], typed) {
            let line = chars::cat2(prefix, options[i]);
            proof {
                chars::lemma_strs_push(out@, line);
            }
            out.push(line);
        }
        i = i + 1;
    }
    assert(all.take(i as int) =~= all);
    out
}

fn complete_option(
    prefix: &str,
    options: &[&'static str],
    parts: &Vec<String>,
    spaced: bool,
) -> (r: Vec<String>)
    ensures
        chars::strs(r@) == option_completions(
            prefix@,
            literals(options@),
            chars::strs(parts@),
            spaced,
        ),
{
    if parts.len() == 1 && spaced {
        proof {
            lemma_offers_all(prefix@, literals(options@));
            reveal_strlit("");
            assert(""@ =~= seq![]);
        }
        offer_options(prefix, options, "")
    } else if parts.len() == 2 && !spaced {
        let typed = chars::to_lower(parts[1].as_str());
        offer_options(prefix, options, typed.as_str())
    } else {
        no_completions()
    }
}

fn complete_value(prefix: &str, list: &[String], parts: &Vec<String>, spaced: bool) -> (r: Vec<
    String,
>)
    ensures
        chars::strs(r@) == value_completions(
            prefix@,
            chars::strs(list@),
            chars::strs(parts@),
            spaced,
        ),
{
    if parts.len() == 1 && spaced {
        prefix_all(prefix, list)
    } else if parts.len() == 2 && !spaced {
        fuzzy_rank(list, parts[1].as_str(), prefix)
    } else {
        no_completions()
    }
}

fn option_texts(options: &[&'static str]) -> (r: Vec<String>)
    ensures
        chars::strs(r@) == literals(options@),
{
    let ghost all = literals(options@);
    let mut out: Vec<String> = Vec::new();
    let mut i: usize = 0;
    assert(chars::strs(out@) =~= all.take(0));
    while i < options.len()
        invariant
            all == literals(options@),
            0 <= i <= options@.len(),
            chars::strs(out@) == all.take(i as int),
        decreases options@.len() - i,
    {
        let text = String::from_str(options[i]);
        proof {
            chars::lemma_strs_push(out@, text);
            assert(all.take(i + 1) =~= all.take(i as int).push(text@));
        }
        out.push(text);
        i = i + 1;
    }
    assert(all.take(i as int) =~= all);
    out
}

fn complete_auth(providers: &[String], parts: &Vec<String>, spaced: bool) -> (r: Vec<String>)
    ensures
        chars::strs(r@) == auth_completions(
            chars::strs(providers@),
            chars::strs(parts@),
            spaced,
        ),
{
    if parts.len() < 2 {
        return complete_option("/auth ", &AUTH_ACTIONS, parts, spaced);
    }
    let low = chars::to_lower(parts[1].as_str());
    let action = low.as_str();
    if parts.len() == 2 && !spaced {
        let actions = option_texts(&AUTH_ACTIONS);
        return fuzzy_rank(&actions, action, "/auth ");
    }
    if chars::str_eq(action, "login") || chars::str_eq(action, "logout") || chars::str_eq(
        action,
        "key",
    ) {
        let prefix = chars::cat3("/auth ", action, " ");
        if parts.len() == 2 {
            return prefix_all(prefix.as_str(), providers);
        }
        if parts.len() == 3 && !spaced {
            return fuzzy_rank(providers, parts[2].as_str(), prefix.as_str());
        }
    }
    no_completions()
}

fn complete_theme(themes: &[String], parts: &Vec<String>, spaced: bool) -> (r: Vec<String>)
    ensures
        chars::strs(r@) == theme_completions(chars::strs(themes@), chars::strs(parts@), spaced),
{
    let list = String::from_str("/theme list");
    if parts.len() == 1 && spaced {
        let mut v = prefix_all("/theme ", themes);
        let ghost tail = chars::strs(v@);
        v.insert(0, list);
        assert(chars::strs(v@) =~= seq!["/theme list"@] + tail);
        return v;
    }
    if parts.len() == 2 && !spaced {
        let mut v = fuzzy_rank(themes, parts[1].as_str(), "/theme ");
        let typed = chars::to_lower(parts[1].as_str());
        if chars::starts_with("list", typed.as_str()) {
            let ghost tail = chars::strs(v@);
            v.insert(0, list);
            assert(chars::strs(v@) =~= seq!["/theme list"@] + tail);
        }
        return sorting::dedup_strings(v);
    }
    no_completions()
}

fn complete_model(models: &[String], parts: &Vec<String>, spaced: bool) -> (r: Vec<String>)
    ensures
        chars::strs(r@) == model_completions(chars::strs(models@), chars::strs(parts@), spaced),
{
    if parts.len() == 1 && spaced {
        return prefix_all("/model ", models);
    }
    if parts.len() >= 2 && !spaced {
        let rest = chars::tail(parts, 1);
        let typed = chars::join(&rest, " ");
        return fuzzy_rank(models, typed.as_str(), "/model ");
    }
    no_completions()
}

/// Contextual slash-command completions for the composer.
///
/// Supports base commands, `/auth` subcommands + providers, `/theme` names,
/// `/model` ids for the active provider, `/provider` names, and short session
/// ids for `/resume` / `/delete`. Matching of all these is fuzzy, best match
/// first. The fixed words of `/reset`, of the on/off switches and `/theme list`
/// match by prefix.
pub fn slash_completions(
    input: &str,
    base_commands: &[String],
    models: &[String],
    providers: &[String],
    themes: &[String],
    session_ids: &[String],
) -> (r: Vec<String>)
    ensures
        chars::strs(r@) == completions(
            input@,
            chars::strs(base_commands@),
            chars::strs(models@),
            chars::strs(providers@),
            chars::strs(themes@),
            chars::strs(session_ids@),
        ),
{
    if !chars::starts_with_char(input, '/') {
        return no_completions();
    }
    let spaced = chars::ends_with_char(input, ' ') || chars::ends_with_char(input, '\t');
    let parts = chars::split_words(input);
    assert(chars::words(input@).len() == parts@.len());
    if parts.len() == 0 {
        return chars::clone_strings(base_commands);
    }
    let low = chars::to_lower(parts[0].as_str());
    let cmd = low.as_str();
    // Still typing the root command: `/mo` → `/model`, `/mdl` → `/model`
    if parts.len() == 1 && !spaced {
        return fuzzy_rank(base_commands, cmd, "");
    }
    if chars::str_eq(cmd, "/thinking") || chars::str_eq(cmd, "/suggestions") || chars::str_eq(
        cmd,
        "/mouse",
    ) {
        let prefix = chars::cat2(cmd, " ");
        complete_option(prefix.as_str(), &TOGGLES, &parts, spaced)
    } else if chars::str_eq(cmd, "/reset") {
        complete_option("/reset ", &RESET_ACTIONS, &parts, spaced)
    } else if chars::str_eq(cmd, "/auth") {
        complete_auth(providers, &parts, spaced)
    } else if chars::str_eq(cmd, "/theme") {
        complete_theme(themes, &parts, spaced)
    } else if chars::str_eq(cmd, "/model") {
        complete_model(models, &parts, spaced)
    } else if chars::str_eq(cmd, "/provider") {
        complete_value("/provider ", providers, &parts, spaced)
    } else if chars::str_eq(cmd, "/resume") || chars::str_eq(cmd, "/delete") {
        let prefix = chars::cat2(cmd, " ");
        complete_value(prefix.as_str(), session_ids, &parts, spaced)
    } else {
        no_completions()
    }
}

proof fn lemma_slash_score(c: Seq<char>)
    requires
        c.len() > 0,
        c[0] == '/',
    ensures
        score(c, seq!['/']) == Some(51int),
{
    let cand = chars::lowered(c);
    let q = chars::lowered(seq!['/']);
    assert(q =~= seq!['/']);
    assert(cand[0] == '/');
    assert(next_hit(cand, 0, '/') == 0);
    assert(q.drop_first().len() == 0);
    assert(walk(cand, q.drop_first(), 1, 0) == Some(0int));
    assert(walk(cand, q, 0, -2) == Some(ANCHOR_GAIN as int));
    assert(cand.subrange(0, 1) =~= q);
    assert(cand.take(1) =~= q);
}

proof fn lemma_all_match(cands: Seq<Seq<char>>, query: Seq<char>)
    requires
        forall|i: int| 0 <= i < cands.len() ==> score(#[trigger] cands[i], query) is Some,
    ensures
        matching(cands, query) == Seq::new(cands.len(), |i: int| i),
    decreases cands.len(),
{
    if cands.len() > 0 {
        let init = cands.drop_last();
        assert forall|i: int| 0 <= i < init.len() implies score(
            #[trigger] init[i],
            query,
        ) is Some by {
            assert(init[i] == cands[i]);
        }
        lemma_all_match(init, query);
        assert(score(cands[cands.len() - 1], query) is Some);
    }
    assert(matching(cands, query) =~= Seq::new(cands.len(), |i: int| i));
}

/// A bare `/` lists commands in the order they were given.
pub proof fn law_bare_slash_keeps_order(
    base: Seq<Seq<char>>,
    models: Seq<Seq<char>>,
    providers: Seq<Seq<char>>,
    themes: Seq<Seq<char>>,
    sessions: Seq<Seq<char>>,
)
    requires
        forall|i: int| 0 <= i < base.len() ==> (#[trigger] base[i]).len() > 0 && base[i][0] == '/',
    ensures
        completions("/"@, base, models, providers, themes, sessions) == sorting::deduped(base),
{
    reveal_strlit("/");
    reveal_strlit("");
    let s = "/"@;
    assert(s =~= seq!['/']);
    assert(chars::words(s) =~= seq![s]) by {
        chars::lemma_word_len_is(s, 1);
        chars::lemma_trim_start_is(s, 0);
        assert(s.skip(0) =~= s);
        assert(s.take(1) =~= s);
        assert(s.skip(1) =~= seq![]);
        assert(chars::words(seq![]) =~= seq![]) by {
            chars::lemma_trim_start(Seq::<char>::empty());
        }
    }
    assert(chars::lowered(s) =~= s);
    assert forall|i: int| 0 <= i < base.len() implies score(#[trigger] base[i], s) is Some by {
        lemma_slash_score(base[i]);
    }
    lemma_all_match(base, s);
    let m = matching(base, s);
    let leq = better(base, s);
    assert forall|i: int, j: int| 0 <= i < j < m.len() implies #[trigger] leq(m[i], m[j]) by {
        lemma_slash_score(base[i]);
        lemma_slash_score(base[j]);
    }
    lemma_better(base, s);
    sorting::lemma_is_sorted(m, m, leq);
    assert(picked(base, m, ""@) =~= base) by {
        assert forall|i: int| 0 <= i < base.len() implies ""@ + #[trigger] base[i] == base[i] by {
            assert(""@ + base[i] =~= base[i]);
        }
    }
}

/// A bare `/` lists the whole command table in the order it is declared.
pub proof fn law_bare_slash_lists_every_command(
    models: Seq<Seq<char>>,
    providers: Seq<Seq<char>>,
    themes: Seq<Seq<char>>,
    sessions: Seq<Seq<char>>,
)
    ensures
        completions("/"@, command_names(), models, providers, themes, sessions) == command_names(),
{
    let names = command_names();
    reveal_strlit("/auth");
    reveal_strlit("/clear");
    reveal_strlit("/compact");
    reveal_strlit("/copy");
    reveal_strlit("/cost");
    reveal_strlit("/delete");
    reveal_strlit("/exit");
    reveal_strlit("/help");
    reveal_strlit("/mcp");
    reveal_strlit("/model");
    reveal_strlit("/mouse");
    reveal_strlit("/provider");
    reveal_strlit("/q");
    reveal_strlit("/quit");
    reveal_strlit("/reset");
    reveal_strlit("/resume");
    reveal_strlit("/save");
    reveal_strlit("/select");
    reveal_strlit("/sessions");
    reveal_strlit("/skills");
    reveal_strlit("/suggestions");
    reveal_strlit("/theme");
    reveal_strlit("/thinking");
    assert forall|i: int| 0 <= i < names.len() implies (#[trigger] names[i]).len() > 0
        && names[i][0] == '/' by {
        assert(names[i] == SLASH_COMMANDS@[i].0@);
    }
    law_bare_slash_keeps_order(names, models, providers, themes, sessions);
    assert forall|i: int| 0 < i < names.len() implies names[i - 1] != #[trigger] names[i] by {
        let a = SLASH_COMMANDS@[i - 1].0@;
        let b = SLASH_COMMANDS@[i].0@;
        assert(names[i] == b);
        assert(names[i - 1] == a);
        assert(a.len() != b.len() || a[1] != b[1] || a[2] != b[2] || a[3] != b[3] || a[4] != b[4]);
    }
    sorting::lemma_deduped_distinct(names);
}

} // verus!
