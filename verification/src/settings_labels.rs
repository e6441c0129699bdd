//! The names the settings panel shows for editor setting values, and the
//! labels and summary of the configured language servers.
use vstd::prelude::*;
use vstd::string::*;
use crate::text::{decimal_spec, push_decimal, push_text};

verus! {

/// When the editor saves files on its own.
#[derive(Debug, Clone, Copy, PartialEq, Eq)]
pub enum EditorAutoSaveMode {
    Off,
    AfterDelay,
    OnFocusChange,
    OnWindowChange,
}

/// The name of an auto-save mode.
pub fn autosave_mode_label(mode: EditorAutoSaveMode) -> (label: &'static str)
    ensures
        label@ == match mode {
            EditorAutoSaveMode::Off => "Off"@,
            EditorAutoSaveMode::AfterDelay => "After delay"@,
            EditorAutoSaveMode::OnFocusChange => "On focus change"@,
            EditorAutoSaveMode::OnWindowChange => "On window change"@,
        },
{
    match mode {
        EditorAutoSaveMode::Off => "Off",
        EditorAutoSaveMode::AfterDelay => "After delay",
        EditorAutoSaveMode::OnFocusChange => "On focus change",
        EditorAutoSaveMode::OnWindowChange => "On window change",
    }
}

/// When the code-action light bulb shows.
#[derive(Debug, Clone, Copy, PartialEq, Eq)]
pub enum EditorLightbulbMode {
    Off,
    On,
    OnCode,
}

/// The name of a light-bulb mode.
pub fn editor_lightbulb_label(mode: EditorLightbulbMode) -> (label: &'static str)
    ensures
        label@ == match mode {
            EditorLightbulbMode::Off => "Off"@,
            EditorLightbulbMode::On => "On"@,
            EditorLightbulbMode::OnCode => "On code"@,
        },
{
    match mode {
        EditorLightbulbMode::Off => "Off",
        EditorLightbulbMode::On => "On",
        EditorLightbulbMode::OnCode => "On code",
    }
}

/// What go-to-definition does when there are several targets.
#[derive(Debug, Clone, Copy, PartialEq, Eq)]
pub enum EditorGotoLocationMultiple {
    Peek,
    GotoAndPeek,
    Goto,
}

/// The name of a multiple-targets mode.
pub fn editor_goto_location_multiple_label(mode: EditorGotoLocationMultiple) -> (label: &'static str)
    ensures
        label@ == match mode {
            EditorGotoLocationMultiple::Peek => "Peek"@,
            EditorGotoLocationMultiple::GotoAndPeek => "Go to and peek"@,
            EditorGotoLocationMultiple::Goto => "Go to"@,
        },
{
    match mode {
        EditorGotoLocationMultiple::Peek => "Peek",
        EditorGotoLocationMultiple::GotoAndPeek => "Go to and peek",
        EditorGotoLocationMultiple::Goto => "Go to",
    }
}

/// Where validation decorations are drawn.
#[derive(Debug, Clone, Copy, PartialEq, Eq)]
pub enum EditorRenderValidationDecorations {
    Off,
    Editable,
    On,
}

/// The name of a validation-decorations mode.
pub fn editor_render_validation_decorations_label(mode: EditorRenderValidationDecorations) -> (label: &'static str)
    ensures
        label@ == match mode {
            EditorRenderValidationDecorations::Off => "Off"@,
            EditorRenderValidationDecorations::Editable => "Editable"@,
            EditorRenderValidationDecorations::On => "On"@,
        },
{
    match mode {
        EditorRenderValidationDecorations::Off => "Off",
        EditorRenderValidationDecorations::Editable => "Editable",
        EditorRenderValidationDecorations::On => "On",
    }
}

/// When the editor scrollbars show.
#[derive(Debug, Clone, Copy, PartialEq, Eq)]
pub enum EditorScrollbarVisibility {
    Auto,
    Visible,
    Hidden,
}

/// The name of a scrollbar visibility.
pub fn scrollbar_visibility_label(mode: EditorScrollbarVisibility) -> (label: &'static str)
    ensures
        label@ == match mode {
            EditorScrollbarVisibility::Auto => "Auto"@,
            EditorScrollbarVisibility::Visible => "Visible"@,
            EditorScrollbarVisibility::Hidden => "Hidden"@,
        },
{
    match mode {
        EditorScrollbarVisibility::Auto => "Auto",
        EditorScrollbarVisibility::Visible => "Visible",
        EditorScrollbarVisibility::Hidden => "Hidden",
    }
}

/// The badge of a server that equals the built-in server of its language.
pub const LSP_BADGE_BUILTIN: &'static str = "built-in";
/// The badge of a server that changes the built-in server of its language.
pub const LSP_BADGE_EDITED: &'static str = "edited";

/// What the settings panel reads of one configured language server: whether
/// it equals the built-in server of its language, whether its language has a
/// built-in server at all, and whether it is enabled.
#[derive(Debug, Clone, Copy, PartialEq, Eq)]
pub struct LspServerState {
    pub matches_builtin: bool,
    pub language_has_builtin: bool,
    pub enabled: bool,
}

/// The heading of the server at `index`: `Server <n>`, followed by
/// ` · <language>` when the language is set.
pub open spec fn server_label_spec(index: nat, language: Seq<char>) -> Seq<char> {
    let head = "Server "@ + decimal_spec(index + 1);
    if language.len() == 0 {
        head
    } else {
        head + seq![' ', '\u{00b7}', ' '] + language
    }
}

/// The heading of the server at `index` (see `server_label_spec`).
pub fn server_label(index: usize, language: &str) -> (label: String)
    requires
        index < usize::MAX,
    ensures
        label@ == server_label_spec(index as nat, language@),
{
    let mut label = String::new();
    push_text(&mut label, "Server ");
    push_decimal(&mut label, index + 1);
    if language.unicode_len() > 0 {
        push_text(&mut label, " \u{00b7} ");
        push_text(&mut label, language);
    }
    proof {
        reveal_strlit("Server ");
        reveal_strlit(" \u{00b7} ");
    }
    label
}

/// The badge of a server: `built-in` when it equals the built-in server of
/// its language, `edited` when its language has a built-in server it
/// changes, none for a custom server.
pub fn server_badge(server: &LspServerState) -> (badge: Option<&'static str>)
    ensures
        badge == (if server.matches_builtin {
            Some(LSP_BADGE_BUILTIN)
        } else if server.language_has_builtin {
            Some(LSP_BADGE_EDITED)
        } else {
            None
        }),
{
    if server.matches_builtin {
        Some(LSP_BADGE_BUILTIN)
    } else if server.language_has_builtin {
        Some(LSP_BADGE_EDITED)
    } else {
        None
    }
}

/// How many servers of `servers` equal their built-in server.
pub open spec fn builtin_count(servers: Seq<LspServerState>) -> nat
    decreases servers.len(),
{
    if servers.len() == 0 {
        0
    } else {
        builtin_count(servers.drop_last()) + if servers.last().matches_builtin { 1nat } else { 0nat }
    }
}

/// How many servers of `servers` are disabled.
pub open spec fn disabled_count(servers: Seq<LspServerState>) -> nat
    decreases servers.len(),
{
    if servers.len() == 0 {
        0
    } else {
        disabled_count(servers.drop_last()) + if servers.last().enabled { 0nat } else { 1nat }
    }
}

/// The one-line summary of the configured servers.
pub open spec fn lsp_servers_summary_spec(servers: Seq<LspServerState>) -> Seq<char> {
    let total = servers.len();
    let builtin = builtin_count(servers);
    let disabled = disabled_count(servers);
    if total == 0 {
        "No servers \u{00b7} LSP disabled"@
    } else {
        let base = if builtin == 0 {
            decimal_spec(total) + " custom servers"@
        } else if builtin == total {
            decimal_spec(total) + " servers, all built-in"@
        } else {
            decimal_spec(total) + " servers, "@ + decimal_spec(builtin) + " built-in"@
        };
        if disabled > 0 {
            base + ", "@ + decimal_spec(disabled) + " disabled"@
        } else {
            base
        }
    }
}

/// Both counts are at most the number of servers.
pub proof fn lemma_counts_bounded(servers: Seq<LspServerState>)
    ensures
        builtin_count(servers) <= servers.len(),
        disabled_count(servers) <= servers.len(),
    decreases servers.len(),
{
    if servers.len() > 0 {
        lemma_counts_bounded(servers.drop_last());
    }
}

/// The summary of the configured servers (see `lsp_servers_summary_spec`).
pub fn lsp_servers_summary(servers: &[LspServerState]) -> (summary: String)
    ensures
        summary@ == lsp_servers_summary_spec(servers@),
{
    let mut builtin: usize = 0;
    let mut disabled: usize = 0;
    let mut i: usize = 0;
    while i < servers.len()
        invariant
            i <= servers@.len(),
            builtin == builtin_count(servers@.take(i as int)),
            disabled == disabled_count(servers@.take(i as int)),
        decreases servers.len() - i,
    {
        proof {
            lemma_counts_bounded(servers@.take(i as int));
            assert(servers@.take(i + 1).drop_last() =~= servers@.take(i as int));
        }
        if servers[i].matches_builtin {
            builtin = builtin + 1;
        }
        if !servers[i].enabled {
            disabled = disabled + 1;
        }
        i = i + 1;
    }
    assert(servers@.take(servers@.len() as int) =~= servers@);
    let total = servers.len();
    proof {
        reveal_strlit("No servers \u{00b7} LSP disabled");
        reveal_strlit(" custom servers");
        reveal_strlit(" servers, all built-in");
        reveal_strlit(" servers, ");
        reveal_strlit(" built-in");
        reveal_strlit(", ");
        reveal_strlit(" disabled");
    }
    if total == 0 {
        return String::from_str("No servers \u{00b7} LSP disabled");
    }
    let mut summary = String::new();
    push_decimal(&mut summary, total);
    if builtin == 0 {
        push_text(&mut summary, " custom servers");
    } else if builtin == total {
        push_text(&mut summary, " servers, all built-in");
    } else {
        push_text(&mut summary, " servers, ");
        push_decimal(&mut summary, builtin);
        push_text(&mut summary, " built-in");
    }
    if disabled > 0 {
        push_text(&mut summary, ", ");
        push_decimal(&mut summary, disabled);
        push_text(&mut summary, " disabled");
    }
    summary
}

} // verus!
