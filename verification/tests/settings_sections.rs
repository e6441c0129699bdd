use kuroya_logic::background_image::{
    background_image_chooser_failure_status, background_image_dialog_initial_dir,
    is_supported_background_image_path, validated_selected_background_image_path,
};
use kuroya_logic::labels::{
    settings_save_failed_status, settings_save_success_status, DISPLAY_ERROR_LABEL_MAX_CHARS,
};
use kuroya_logic::settings_panel::{plugin_is_disabled, set_plugin_disabled};
use kuroya_logic::settings_search::{
    settings_sections, SETTINGS_SECTION_DISCORD, SETTINGS_SECTION_LSP, SETTINGS_SECTION_PLUGINS,
    SETTINGS_SECTION_VIM,
};
use kuroya_logic::settings_text::{
    bounded_settings_display_text, bounded_settings_multiline_input,
    bounded_settings_multiline_join, developer_update_source_label,
    SETTINGS_DISPLAY_TEXT_MAX_CHARS, SETTINGS_TEXT_INPUT_MAX_CHARS,
};

#[test]
fn settings_save_success_status_mentions_terminal_provider_change() {
    let status = settings_save_success_status(None, true, 0, false, 0);

    assert!(status.contains("new terminals use the selected provider"));
}

#[test]
fn settings_save_success_status_mentions_restarted_provider_sessions() {
    let status = settings_save_success_status(None, true, 2, false, 0);

    assert!(status.contains("restarted 2 terminals with the selected provider"));
    assert!(!status.contains("new terminals use the selected provider"));
}

#[test]
fn settings_save_success_status_mentions_lsp_updates() {
    let status = settings_save_success_status(None, false, 0, true, 2);

    assert!(status.contains("LSP servers updated"));
    assert!(status.contains("reopened 2 LSP buffers"));
}

#[test]
fn settings_save_failed_status_sanitizes_and_bounds_error() {
    let error = format!(
        "first line\nsecond line \u{202e}{}",
        "x".repeat(DISPLAY_ERROR_LABEL_MAX_CHARS * 2)
    );

    let status = settings_save_failed_status(&error);

    assert!(!status.contains('\n'));
    assert!(!status.contains('\u{202e}'));
    assert!(status.contains("..."));
    assert!(
        status.chars().count()
            <= "Could not save settings: ".chars().count() + DISPLAY_ERROR_LABEL_MAX_CHARS
    );
}

#[test]
fn background_image_dialog_starts_from_current_image_parent() {
    assert_eq!(
        background_image_dialog_initial_dir("workspace", Some("C:/images/background.png"), false),
        "C:/images"
    );
}

#[test]
fn background_image_chooser_failure_status_sanitizes_error_detail() {
    let status = background_image_chooser_failure_status(&format!(
        "first line\nsecond line \u{202e}{}",
        "image-detail-".repeat(DISPLAY_ERROR_LABEL_MAX_CHARS * 2)
    ));

    assert!(status.starts_with("Could not open editor background image chooser: first line "));
    assert!(!status.contains('\n'));
    assert!(!status.contains('\u{202e}'));
    assert!(status.contains("..."));
}

#[test]
fn background_image_dialog_falls_back_to_workspace_root() {
    assert_eq!(background_image_dialog_initial_dir("workspace", None, false), "workspace");
    assert_eq!(background_image_dialog_initial_dir("workspace", Some("   "), false), "workspace");
    assert_eq!(background_image_dialog_initial_dir("workspace", Some("/"), false), "workspace");
    assert_eq!(
        background_image_dialog_initial_dir("workspace", Some(" C:/images "), true),
        "C:/images"
    );
    assert_eq!(background_image_dialog_initial_dir("workspace", Some("/wallpaper.png"), false), "/");
}

#[test]
fn background_image_extensions_are_matched_without_ascii_case() {
    assert!(is_supported_background_image_path("/images/background.PNG"));
    assert!(is_supported_background_image_path("images/photo.jpeg"));
    assert!(!is_supported_background_image_path("/images/background.svg"));
    assert!(!is_supported_background_image_path("/images/.png"));
    assert!(!is_supported_background_image_path("/images/png"));
}

#[test]
fn settings_sidebar_sections_keep_expected_order() {
    let sections = settings_sections();
    assert_eq!(
        sections,
        [
            "General",
            "Editor",
            "LSP",
            "Vim",
            "Terminal",
            "Files",
            "Appearance",
            "Source Control",
            "Developer",
            "Plugins",
            "Discord",
        ]
    );
    assert_eq!(sections[SETTINGS_SECTION_LSP], "LSP");
    assert_eq!(sections[SETTINGS_SECTION_VIM], "Vim");
    assert_eq!(sections[SETTINGS_SECTION_PLUGINS], "Plugins");
    assert_eq!(sections[SETTINGS_SECTION_DISCORD], "Discord");
    assert_eq!(SETTINGS_SECTION_DISCORD, sections.len() - 1);
}

#[test]
fn settings_display_text_strips_controls_and_bounds() {
    let raw = format!(
        "  src/\u{202e}main.rs\n{}  ",
        "a".repeat(SETTINGS_DISPLAY_TEXT_MAX_CHARS)
    );

    let display = bounded_settings_display_text(&raw, SETTINGS_DISPLAY_TEXT_MAX_CHARS, "empty");

    assert!(!display.contains('\u{202e}'));
    assert!(!display.contains('\n'));
    assert!(display.ends_with("..."));
    assert!(display.chars().count() <= SETTINGS_DISPLAY_TEXT_MAX_CHARS);
}

#[test]
fn settings_display_text_uses_sanitized_fallback_for_blank_values() {
    assert_eq!(
        bounded_settings_display_text("\u{202e}\n", 32, " Bundled\nfont "),
        "Bundled font"
    );
}

#[test]
fn developer_update_source_label_uses_default_for_blank_values() {
    assert_eq!(
        developer_update_source_label("\u{202e}\n"),
        "kaevris/kuroya (default)"
    );
}

#[test]
fn developer_update_source_label_bounds_custom_values() {
    let raw = format!(
        "owner/repo{}\u{202e}\n",
        "a".repeat(SETTINGS_DISPLAY_TEXT_MAX_CHARS)
    );
    let display = developer_update_source_label(&raw);

    assert!(!display.contains('\u{202e}'));
    assert!(!display.contains('\n'));
    assert!(display.ends_with("..."));
    assert!(display.chars().count() <= SETTINGS_DISPLAY_TEXT_MAX_CHARS);
}

#[test]
fn settings_multiline_input_preserves_line_breaks_but_hides_controls() {
    let display = bounded_settings_multiline_input("one\r\ntwo\u{202e}\u{200b}\u{feff}\nthree");

    assert_eq!(display, "one\ntwo\nthree");
}

#[test]
fn settings_multiline_join_bounds_without_losing_visible_raw_lines() {
    let long = "a".repeat(SETTINGS_TEXT_INPUT_MAX_CHARS + 80);
    let display = bounded_settings_multiline_join(&[" raw ", "", long.as_str()]);

    assert!(display.starts_with(" raw \n\n"));
    assert!(display.ends_with("..."));
    assert!(display.chars().count() <= SETTINGS_TEXT_INPUT_MAX_CHARS);
}

#[test]
fn plugin_membership_helpers_add_remove_and_dedup_ids() {
    let mut disabled_ids: Vec<String> = Vec::new();

    assert!(!plugin_is_disabled(&disabled_ids, "alpha.plugin"));
    set_plugin_disabled(&mut disabled_ids, "alpha.plugin", true);
    assert_eq!(disabled_ids, ["alpha.plugin".to_owned()]);
    assert!(plugin_is_disabled(&disabled_ids, "alpha.plugin"));

    set_plugin_disabled(&mut disabled_ids, "alpha.plugin", true);
    assert_eq!(disabled_ids, ["alpha.plugin".to_owned()]);

    set_plugin_disabled(&mut disabled_ids, "beta.plugin", false);
    assert_eq!(disabled_ids, ["alpha.plugin".to_owned()]);

    set_plugin_disabled(&mut disabled_ids, "alpha.plugin", false);
    assert!(disabled_ids.is_empty());

    set_plugin_disabled(&mut disabled_ids, "missing.plugin", false);
    assert!(disabled_ids.is_empty());
}

#[test]
fn selected_background_image_path_is_normalized_absolute_and_validated() {
    let image = "/tmp/kuroya-background-image-picker-selected/background.PNG";

    let selected = validated_selected_background_image_path(image, true).unwrap();
    assert!(selected.starts_with('/'));
    assert_eq!(selected, image);
}

#[test]
fn selected_background_image_rejects_unsupported_extensions() {
    let image = "/tmp/kuroya-background-image-picker-unsupported/background.svg";

    assert_eq!(
        validated_selected_background_image_path(image, true).unwrap_err(),
        "Selected file is not a supported raster image"
    );
    assert!(!is_supported_background_image_path(image));
    assert_eq!(
        validated_selected_background_image_path("/tmp/folder.png", false).unwrap_err(),
        "Selected background image is not a file"
    );
}
