use kuroya_logic::settings_labels::{
    autosave_mode_label, editor_goto_location_multiple_label, editor_lightbulb_label,
    editor_render_validation_decorations_label, lsp_servers_summary, scrollbar_visibility_label,
    server_badge, server_label, EditorAutoSaveMode, EditorGotoLocationMultiple,
    EditorLightbulbMode, EditorRenderValidationDecorations, EditorScrollbarVisibility,
    LspServerState, LSP_BADGE_BUILTIN, LSP_BADGE_EDITED,
};

fn builtin(enabled: bool) -> LspServerState {
    LspServerState { matches_builtin: true, language_has_builtin: true, enabled }
}

fn custom() -> LspServerState {
    LspServerState { matches_builtin: false, language_has_builtin: false, enabled: true }
}

#[test]
fn autosave_mode_label_names_modes() {
    assert_eq!(autosave_mode_label(EditorAutoSaveMode::Off), "Off");
    assert_eq!(autosave_mode_label(EditorAutoSaveMode::AfterDelay), "After delay");
    assert_eq!(autosave_mode_label(EditorAutoSaveMode::OnFocusChange), "On focus change");
    assert_eq!(autosave_mode_label(EditorAutoSaveMode::OnWindowChange), "On window change");
}

#[test]
fn editor_mode_labels_name_every_value() {
    assert_eq!(editor_lightbulb_label(EditorLightbulbMode::OnCode), "On code");
    assert_eq!(
        editor_goto_location_multiple_label(EditorGotoLocationMultiple::GotoAndPeek),
        "Go to and peek"
    );
    assert_eq!(
        editor_render_validation_decorations_label(EditorRenderValidationDecorations::Editable),
        "Editable"
    );
    assert_eq!(scrollbar_visibility_label(EditorScrollbarVisibility::Hidden), "Hidden");
}

#[test]
fn lsp_server_badges_distinguish_builtin_edited_and_custom() {
    assert_eq!(server_badge(&builtin(true)), Some(LSP_BADGE_BUILTIN));

    let edited = LspServerState { matches_builtin: false, language_has_builtin: true, enabled: true };
    assert_eq!(server_badge(&edited), Some(LSP_BADGE_EDITED));

    assert_eq!(server_badge(&custom()), None);
}

#[test]
fn lsp_server_labels_include_language_when_set() {
    assert_eq!(server_label(0, ""), "Server 1");
    assert_eq!(server_label(2, "go"), "Server 3 \u{00b7} go");
}

#[test]
fn lsp_servers_summary_reports_builtin_and_custom_counts() {
    assert_eq!(lsp_servers_summary(&[]), "No servers \u{00b7} LSP disabled");

    let all_enabled = vec![builtin(true); 6];
    assert_eq!(lsp_servers_summary(&all_enabled), "6 servers, all built-in");

    let mut mixed = vec![builtin(true), builtin(true), builtin(false), builtin(true)];
    mixed[0].matches_builtin = false;
    mixed.push(custom());
    assert_eq!(lsp_servers_summary(&mixed), "5 servers, 3 built-in, 1 disabled");

    assert_eq!(lsp_servers_summary(&[custom()]), "1 custom servers");
}

#[test]
fn lsp_servers_summary_reports_disabled_count() {
    let mut servers = vec![builtin(true); 4];
    servers[1].enabled = false;
    servers[2].enabled = false;

    assert_eq!(lsp_servers_summary(&servers), "4 servers, all built-in, 2 disabled");
}
