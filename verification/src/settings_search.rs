//! Settings panel search: the table of searchable settings, query
//! tokenising, relevance scoring and the fuzzy fallback.
use vstd::prelude::*;
use vstd::string::*;
use fuzzy_matcher::FuzzyMatcher;
use crate::paths::{find_chars_from, lemma_first_occurrence_bounds, occurs_at};
use crate::ranking::{is_ranking, rank_scored_indices};
use crate::settings_text::{trim_spec, trim_string_in_place};
use crate::text::{push_char, push_text, str_chars, str_equal, string_from_chars};

verus! {

pub const SETTINGS_SECTION_GENERAL: usize = 0;
pub const SETTINGS_SECTION_EDITOR: usize = 1;
pub const SETTINGS_SECTION_LSP: usize = 2;
pub const SETTINGS_SECTION_VIM: usize = 3;
pub const SETTINGS_SECTION_TERMINAL: usize = 4;
pub const SETTINGS_SECTION_FILES: usize = 5;
pub const SETTINGS_SECTION_APPEARANCE: usize = 6;
pub const SETTINGS_SECTION_SOURCE_CONTROL: usize = 7;
pub const SETTINGS_SECTION_DEVELOPER: usize = 8;
pub const SETTINGS_SECTION_PLUGINS: usize = 9;
pub const SETTINGS_SECTION_DISCORD: usize = 10;
/// Number of settings sections.
pub const SETTINGS_SECTION_COUNT: usize = 11;

pub const SETTINGS_TARGET_GENERAL: &'static str = "settings.general";
pub const SETTINGS_TARGET_EDITOR_TEXT_LAYOUT: &'static str = "settings.editor.text_layout";
pub const SETTINGS_TARGET_EDITOR_DISPLAY: &'static str = "settings.editor.display";
pub const SETTINGS_TARGET_EDITOR_TYPING: &'static str = "settings.editor.typing";
pub const SETTINGS_TARGET_EDITOR_LANGUAGE: &'static str = "settings.editor.language";
pub const SETTINGS_TARGET_SCROLLBARS: &'static str = "settings.scrollbars";
pub const SETTINGS_TARGET_LSP: &'static str = "settings.lsp";
pub const SETTINGS_TARGET_EDITOR_CURSOR: &'static str = "settings.editor.cursor";
pub const SETTINGS_TARGET_EDITOR_CODE_VIEW: &'static str = "settings.editor.code_view";
pub const SETTINGS_TARGET_EDITOR_DIFF: &'static str = "settings.editor.diff";
pub const SETTINGS_TARGET_SOURCE_CONTROL: &'static str = "settings.source_control";
pub const SETTINGS_TARGET_VIM_KEYBINDINGS: &'static str = "settings.vim.keybindings";
pub const SETTINGS_TARGET_TERMINAL_PROFILE: &'static str = "settings.terminal.profile";
pub const SETTINGS_TARGET_TERMINAL_BUFFER: &'static str = "settings.terminal.buffer";
pub const SETTINGS_TARGET_TERMINAL_CURSOR: &'static str = "settings.terminal.cursor";
pub const SETTINGS_TARGET_TERMINAL_COLOR: &'static str = "settings.terminal.color";
pub const SETTINGS_TARGET_TERMINAL_INTERACTION: &'static str = "settings.terminal.interaction";
pub const SETTINGS_TARGET_FILES_SAVE_ACTIONS: &'static str = "settings.files.save_actions";
pub const SETTINGS_TARGET_FILES_SAVE_CLEANUP: &'static str = "settings.files.save_cleanup";
pub const SETTINGS_TARGET_APPEARANCE: &'static str = "settings.appearance";
pub const SETTINGS_TARGET_DEVELOPER: &'static str = "settings.developer";
pub const SETTINGS_TARGET_PLUGINS: &'static str = "settings.plugins";
pub const SETTINGS_TARGET_DISCORD: &'static str = "settings.discord";

/// Score of a token equal to the title.
pub const SETTINGS_SEARCH_SCORE_EXACT_TITLE: u32 = 4;
/// Score of a token that starts the title.
pub const SETTINGS_SEARCH_SCORE_TITLE_PREFIX: u32 = 3;
/// Score of a token found inside the title.
pub const SETTINGS_SEARCH_SCORE_TITLE_CONTAINS: u32 = 2;
/// Score of a token found only in the section, group or keywords.
pub const SETTINGS_SEARCH_SCORE_KEYWORD: u32 = 1;

/// Number of entries in the settings search table.
pub const SETTINGS_SEARCH_ENTRY_COUNT: usize = 87;

/// Names of the settings sections, in sidebar order.
pub open spec fn section_name_spec(section: usize) -> &'static str {
    if section == 0 { "General" } else if section == 1 { "Editor" } else if section == 2 { "LSP" }
    else if section == 3 { "Vim" } else if section == 4 { "Terminal" } else if section == 5 { "Files" }
    else if section == 6 { "Appearance" } else if section == 7 { "Source Control" }
    else if section == 8 { "Developer" } else if section == 9 { "Plugins" } else { "Discord" }
}

/// The name of settings section `section`.
pub fn settings_section_name(section: usize) -> (name: &'static str)
    requires
        section < SETTINGS_SECTION_COUNT,
    ensures
        name == section_name_spec(section),
{
    match section {
        0 => "General",
        1 => "Editor",
        2 => "LSP",
        3 => "Vim",
        4 => "Terminal",
        5 => "Files",
        6 => "Appearance",
        7 => "Source Control",
        8 => "Developer",
        9 => "Plugins",
        _ => "Discord",
    }
}

/// The section names in sidebar order.
pub fn settings_sections() -> (names: Vec<&'static str>)
    ensures
        names@.len() == SETTINGS_SECTION_COUNT,
        forall|i: int| 0 <= i < SETTINGS_SECTION_COUNT ==> #[trigger] names@[i] == section_name_spec(i as usize),
{
    let mut names: Vec<&'static str> = Vec::new();
    let mut i: usize = 0;
    while i < SETTINGS_SECTION_COUNT
        invariant
            i <= SETTINGS_SECTION_COUNT,
            names@.len() == i,
            forall|j: int| 0 <= j < i ==> #[trigger] names@[j] == section_name_spec(j as usize),
        decreases SETTINGS_SECTION_COUNT - i,
    {
        names.push(settings_section_name(i));
        i = i + 1;
    }
    names
}

/// A searchable setting: its section, the group heading it sits under, its
/// title and extra search keywords.
#[derive(Clone, Copy, Debug, PartialEq, Eq)]
pub struct SettingsSearchEntry {
    pub section: usize,
    pub group: &'static str,
    pub title: &'static str,
    pub keywords: &'static str,
}

/// The settings search table.
pub open spec fn settings_search_entry_spec(i: int) -> SettingsSearchEntry {
    if i == 0 {
        SettingsSearchEntry {
            section: SETTINGS_SECTION_FILES,
            group: "Save Actions",
            title: "Autosave",
            keywords: "auto save after delay focus window off file write",
        }
    } else if i == 1 {
        SettingsSearchEntry {
            section: SETTINGS_SECTION_FILES,
            group: "Save Actions",
            title: "Autosave delay",
            keywords: "auto save delay milliseconds ms timer",
        }
    } else if i == 2 {
        SettingsSearchEntry {
            section: SETTINGS_SECTION_GENERAL,
            group: "General",
            title: "Window zoom",
            keywords: "zoom scale interface ui size",
        }
    } else if i == 3 {
        SettingsSearchEntry {
            section: SETTINGS_SECTION_GENERAL,
            group: "General",
            title: "Minimap",
            keywords: "overview map scroll preview code visible",
        }
    } else if i == 4 {
        SettingsSearchEntry {
            section: SETTINGS_SECTION_GENERAL,
            group: "General",
            title: "Smooth scrolling",
            keywords: "scroll smooth beyond last line",
        }
    } else if i == 5 {
        SettingsSearchEntry {
            section: SETTINGS_SECTION_GENERAL,
            group: "General",
            title: "Scroll beyond last line",
            keywords: "scroll beyond last line end file editor",
        }
    } else if i == 6 {
        SettingsSearchEntry {
            section: SETTINGS_SECTION_GENERAL,
            group: "General",
            title: "Status bar",
            keywords: "footer diagnostics git branch visible",
        }
    } else if i == 7 {
        SettingsSearchEntry {
            section: SETTINGS_SECTION_DEVELOPER,
            group: "Developer",
            title: "Application info",
            keywords: "app version package build profile target platform settings schema update source repository",
        }
    } else if i == 8 {
        SettingsSearchEntry {
            section: SETTINGS_SECTION_DEVELOPER,
            group: "Developer",
            title: "Devtools",
            keywords: "verbose logging profiling debug diagnostics",
        }
    } else if i == 9 {
        SettingsSearchEntry {
            section: SETTINGS_SECTION_EDITOR,
            group: "Text and Layout",
            title: "Editor font size",
            keywords: "font text size zoom pixels code",
        }
    } else if i == 10 {
        SettingsSearchEntry {
            section: SETTINGS_SECTION_GENERAL,
            group: "General",
            title: "UI font size",
            keywords: "interface font size panels labels",
        }
    } else if i == 11 {
        SettingsSearchEntry {
            section: SETTINGS_SECTION_EDITOR,
            group: "Text and Layout",
            title: "Font family",
            keywords: "font face monospace editor ui ligatures variations weight",
        }
    } else if i == 12 {
        SettingsSearchEntry {
            section: SETTINGS_SECTION_EDITOR,
            group: "Text and Layout",
            title: "Line height",
            keywords: "line height spacing rows text layout",
        }
    } else if i == 13 {
        SettingsSearchEntry {
            section: SETTINGS_SECTION_EDITOR,
            group: "Text and Layout",
            title: "Word wrap",
            keywords: "wrap wrapping columns indent overflow long lines",
        }
    } else if i == 14 {
        SettingsSearchEntry {
            section: SETTINGS_SECTION_EDITOR,
            group: "Text and Layout",
            title: "Tabs and indentation",
            keywords: "tab size insert spaces detect indentation indent guides",
        }
    } else if i == 15 {
        SettingsSearchEntry {
            section: SETTINGS_SECTION_EDITOR,
            group: "Display",
            title: "Render whitespace",
            keywords: "space tab invisible whitespace control characters unicode",
        }
    } else if i == 16 {
        SettingsSearchEntry {
            section: SETTINGS_SECTION_EDITOR,
            group: "Scrollbars",
            title: "Scrollbars",
            keywords: "vertical horizontal scrollbar scrollbars scroller editor explorer code container visible hidden auto size theme track",
        }
    } else if i == 17 {
        SettingsSearchEntry {
            section: SETTINGS_SECTION_EDITOR,
            group: "Display",
            title: "Color decorators",
            keywords: "color picker inline preview swatches decorators",
        }
    } else if i == 18 {
        SettingsSearchEntry {
            section: SETTINGS_SECTION_EDITOR,
            group: "Display",
            title: "GPU acceleration",
            keywords: "gpu render acceleration performance graphics",
        }
    } else if i == 19 {
        SettingsSearchEntry {
            section: SETTINGS_SECTION_EDITOR,
            group: "Display",
            title: "Unicode highlight",
            keywords: "unicode invisible ambiguous non ascii control characters allowed locales",
        }
    } else if i == 20 {
        SettingsSearchEntry {
            section: SETTINGS_SECTION_EDITOR,
            group: "Typing Assistance",
            title: "Auto indent",
            keywords: "indent typing new lines context",
        }
    } else if i == 21 {
        SettingsSearchEntry {
            section: SETTINGS_SECTION_EDITOR,
            group: "Typing Assistance",
            title: "Auto close brackets",
            keywords: "brackets parentheses pairs auto closing delete overtype",
        }
    } else if i == 22 {
        SettingsSearchEntry {
            section: SETTINGS_SECTION_EDITOR,
            group: "Typing Assistance",
            title: "Auto close quotes",
            keywords: "quotes strings pairs auto closing delete overtype",
        }
    } else if i == 23 {
        SettingsSearchEntry {
            section: SETTINGS_SECTION_EDITOR,
            group: "Typing Assistance",
            title: "Auto surround",
            keywords: "surround wrap selection pairs brackets quotes",
        }
    } else if i == 24 {
        SettingsSearchEntry {
            section: SETTINGS_SECTION_EDITOR,
            group: "Typing Assistance",
            title: "Format on paste/type",
            keywords: "format paste type pasted typing formatter",
        }
    } else if i == 25 {
        SettingsSearchEntry {
            section: SETTINGS_SECTION_VIM,
            group: "Vim",
            title: "Vim keybindings",
            keywords: "vim vi modal mode normal insert command keybindings keyboard",
        }
    } else if i == 26 {
        SettingsSearchEntry {
            section: SETTINGS_SECTION_VIM,
            group: "Vim",
            title: "Disabled Vim bindings",
            keywords: "vim disable disabled bindings keys normal mode remove ignore",
        }
    } else if i == 27 {
        SettingsSearchEntry {
            section: SETTINGS_SECTION_VIM,
            group: "Vim",
            title: "Vim overrides",
            keywords: "vim override overrides remap mapping custom keys command after before",
        }
    } else if i == 28 {
        SettingsSearchEntry {
            section: SETTINGS_SECTION_EDITOR,
            group: "Typing Assistance",
            title: "Read-only",
            keywords: "readonly read only locked edit disabled message",
        }
    } else if i == 29 {
        SettingsSearchEntry {
            section: SETTINGS_SECTION_EDITOR,
            group: "Typing Assistance",
            title: "Multi cursor",
            keywords: "multi cursor column selection modifier paste limit alt ctrl",
        }
    } else if i == 30 {
        SettingsSearchEntry {
            section: SETTINGS_SECTION_EDITOR,
            group: "Typing Assistance",
            title: "Clipboard selection",
            keywords: "copy selection clipboard highlight empty middle click",
        }
    } else if i == 31 {
        SettingsSearchEntry {
            section: SETTINGS_SECTION_EDITOR,
            group: "Language Features",
            title: "Quick suggestions",
            keywords: "suggest autocomplete completion quick delay trigger characters",
        }
    } else if i == 32 {
        SettingsSearchEntry {
            section: SETTINGS_SECTION_EDITOR,
            group: "Language Features",
            title: "Suggest widget",
            keywords: "completion popup widget icons status details items methods functions snippets",
        }
    } else if i == 33 {
        SettingsSearchEntry {
            section: SETTINGS_SECTION_LSP,
            group: "LSP",
            title: "Hover",
            keywords: "lsp hover tooltip delay sticky above long line warning",
        }
    } else if i == 34 {
        SettingsSearchEntry {
            section: SETTINGS_SECTION_LSP,
            group: "LSP",
            title: "LSP servers",
            keywords: "lsp language server servers command args arguments root markers rust analyzer pyright typescript gopls clangd jdtls intelephense ruby lua dart kotlin swift vue svelte docker terraform powershell",
        }
    } else if i == 35 {
        SettingsSearchEntry {
            section: SETTINGS_SECTION_EDITOR,
            group: "Language Features",
            title: "Inline suggestions",
            keywords: "inline suggest completions ghost text ai edits toolbar delay",
        }
    } else if i == 36 {
        SettingsSearchEntry {
            section: SETTINGS_SECTION_LSP,
            group: "LSP",
            title: "Code lens",
            keywords: "code lens inline actions font size",
        }
    } else if i == 37 {
        SettingsSearchEntry {
            section: SETTINGS_SECTION_LSP,
            group: "LSP",
            title: "Inlay hints",
            keywords: "inlay hints type parameter inline labels padding font",
        }
    } else if i == 38 {
        SettingsSearchEntry {
            section: SETTINGS_SECTION_LSP,
            group: "LSP",
            title: "Parameter hints",
            keywords: "signature help lsp parameter trigger cycle",
        }
    } else if i == 39 {
        SettingsSearchEntry {
            section: SETTINGS_SECTION_LSP,
            group: "LSP",
            title: "Lightbulb",
            keywords: "lightbulb code actions quick fix refactor lsp",
        }
    } else if i == 40 {
        SettingsSearchEntry {
            section: SETTINGS_SECTION_LSP,
            group: "LSP",
            title: "Document highlights",
            keywords: "document highlights symbol references lsp",
        }
    } else if i == 41 {
        SettingsSearchEntry {
            section: SETTINGS_SECTION_LSP,
            group: "LSP",
            title: "Go to definitions",
            keywords: "go to definition declarations implementations references tests lsp navigation peek",
        }
    } else if i == 42 {
        SettingsSearchEntry {
            section: SETTINGS_SECTION_EDITOR,
            group: "Cursor and Highlight",
            title: "Cursor style",
            keywords: "caret cursor style width height blink blinking smooth overtype",
        }
    } else if i == 43 {
        SettingsSearchEntry {
            section: SETTINGS_SECTION_EDITOR,
            group: "Cursor and Highlight",
            title: "Line highlight",
            keywords: "line highlight active focus surrounding lines",
        }
    } else if i == 44 {
        SettingsSearchEntry {
            section: SETTINGS_SECTION_EDITOR,
            group: "Code View",
            title: "Folding",
            keywords: "fold folding controls imports regions maximum unfold",
        }
    } else if i == 45 {
        SettingsSearchEntry {
            section: SETTINGS_SECTION_EDITOR,
            group: "Code View",
            title: "Sticky scroll",
            keywords: "sticky scroll pinned scope headers lines",
        }
    } else if i == 46 {
        SettingsSearchEntry {
            section: SETTINGS_SECTION_EDITOR,
            group: "Code View",
            title: "Indent guides",
            keywords: "indent indentation guides active guide gutter",
        }
    } else if i == 47 {
        SettingsSearchEntry {
            section: SETTINGS_SECTION_EDITOR,
            group: "Code View",
            title: "Bracket guides",
            keywords: "bracket pair guides colorization match active horizontal",
        }
    } else if i == 48 {
        SettingsSearchEntry {
            section: SETTINGS_SECTION_EDITOR,
            group: "Code View",
            title: "Find",
            keywords: "find search replace history selection loop cursor result",
        }
    } else if i == 49 {
        SettingsSearchEntry {
            section: SETTINGS_SECTION_EDITOR,
            group: "Code View",
            title: "Editor minimap",
            keywords: "minimap side autohide slider scale characters max column section headers",
        }
    } else if i == 50 {
        SettingsSearchEntry {
            section: SETTINGS_SECTION_EDITOR,
            group: "Diff Editor",
            title: "Diff editor",
            keywords: "diff side by side inline whitespace unchanged algorithm word wrap",
        }
    } else if i == 51 {
        SettingsSearchEntry {
            section: SETTINGS_SECTION_SOURCE_CONTROL,
            group: "Source Control",
            title: "Source Control",
            keywords: "scm source control commit input actions badges repositories",
        }
    } else if i == 52 {
        SettingsSearchEntry {
            section: SETTINGS_SECTION_SOURCE_CONTROL,
            group: "Git",
            title: "Git repository detection",
            keywords: "git repository detection scan parent folders submodules worktrees",
        }
    } else if i == 53 {
        SettingsSearchEntry {
            section: SETTINGS_SECTION_SOURCE_CONTROL,
            group: "Git",
            title: "Git fetch, pull, and sync",
            keywords: "git fetch pull sync push prune tags rebase stash autofetch",
        }
    } else if i == 54 {
        SettingsSearchEntry {
            section: SETTINGS_SECTION_SOURCE_CONTROL,
            group: "Git",
            title: "Git blame",
            keywords: "git blame status bar decoration hover whitespace template",
        }
    } else if i == 55 {
        SettingsSearchEntry {
            section: SETTINGS_SECTION_TERMINAL,
            group: "Profile",
            title: "Terminal profile",
            keywords: "terminal shell profile provider detected powershell cmd nushell bash",
        }
    } else if i == 56 {
        SettingsSearchEntry {
            section: SETTINGS_SECTION_TERMINAL,
            group: "Profile",
            title: "Shell executable",
            keywords: "terminal shell executable path command powershell cmd",
        }
    } else if i == 57 {
        SettingsSearchEntry {
            section: SETTINGS_SECTION_TERMINAL,
            group: "Profile",
            title: "Shell arguments",
            keywords: "terminal shell args arguments flags command line",
        }
    } else if i == 58 {
        SettingsSearchEntry {
            section: SETTINGS_SECTION_TERMINAL,
            group: "Profile",
            title: "Start directory",
            keywords: "terminal cwd working directory start folder workspace root home",
        }
    } else if i == 59 {
        SettingsSearchEntry {
            section: SETTINGS_SECTION_TERMINAL,
            group: "Profile",
            title: "Split start directory",
            keywords: "terminal split cwd working directory pane",
        }
    } else if i == 60 {
        SettingsSearchEntry {
            section: SETTINGS_SECTION_TERMINAL,
            group: "Buffer and Text",
            title: "Scrollback rows",
            keywords: "terminal scrollback history buffer rows",
        }
    } else if i == 61 {
        SettingsSearchEntry {
            section: SETTINGS_SECTION_TERMINAL,
            group: "Buffer and Text",
            title: "Terminal font size",
            keywords: "terminal font text size zoom wheel",
        }
    } else if i == 62 {
        SettingsSearchEntry {
            section: SETTINGS_SECTION_TERMINAL,
            group: "Buffer and Text",
            title: "Terminal line height",
            keywords: "terminal line height letter spacing rows columns",
        }
    } else if i == 63 {
        SettingsSearchEntry {
            section: SETTINGS_SECTION_TERMINAL,
            group: "Cursor",
            title: "Terminal cursor",
            keywords: "terminal cursor style width blink blinking",
        }
    } else if i == 64 {
        SettingsSearchEntry {
            section: SETTINGS_SECTION_TERMINAL,
            group: "Color and Feedback",
            title: "Terminal colors",
            keywords: "terminal color contrast minimum theme bright ansi",
        }
    } else if i == 65 {
        SettingsSearchEntry {
            section: SETTINGS_SECTION_TERMINAL,
            group: "Color and Feedback",
            title: "Bell",
            keywords: "terminal bell sound flash notification duration",
        }
    } else if i == 66 {
        SettingsSearchEntry {
            section: SETTINGS_SECTION_TERMINAL,
            group: "Interaction",
            title: "Right click",
            keywords: "terminal right click context menu copy paste select word mouse",
        }
    } else if i == 67 {
        SettingsSearchEntry {
            section: SETTINGS_SECTION_TERMINAL,
            group: "Interaction",
            title: "Middle click",
            keywords: "terminal middle click paste mouse",
        }
    } else if i == 68 {
        SettingsSearchEntry {
            section: SETTINGS_SECTION_TERMINAL,
            group: "Interaction",
            title: "Copy on selection",
            keywords: "terminal copy selection clipboard select text",
        }
    } else if i == 69 {
        SettingsSearchEntry {
            section: SETTINGS_SECTION_TERMINAL,
            group: "Interaction",
            title: "Terminal tabs",
            keywords: "terminal tabs active tab icons action buttons focus hide condition",
        }
    } else if i == 70 {
        SettingsSearchEntry {
            section: SETTINGS_SECTION_TERMINAL,
            group: "Interaction",
            title: "Tab title",
            keywords: "terminal tab title rename name label process cwd workspace",
        }
    } else if i == 71 {
        SettingsSearchEntry {
            section: SETTINGS_SECTION_TERMINAL,
            group: "Interaction",
            title: "Tab location",
            keywords: "terminal tab location top left right split panel",
        }
    } else if i == 72 {
        SettingsSearchEntry {
            section: SETTINGS_SECTION_TERMINAL,
            group: "Interaction",
            title: "Startup visibility",
            keywords: "terminal startup hide show empty last closed panel",
        }
    } else if i == 73 {
        SettingsSearchEntry {
            section: SETTINGS_SECTION_TERMINAL,
            group: "Interaction",
            title: "Paste handling",
            keywords: "terminal paste bracketed multiline warning clipboard",
        }
    } else if i == 74 {
        SettingsSearchEntry {
            section: SETTINGS_SECTION_TERMINAL,
            group: "Interaction",
            title: "Word separators",
            keywords: "terminal word separators selection double click text",
        }
    } else if i == 75 {
        SettingsSearchEntry {
            section: SETTINGS_SECTION_FILES,
            group: "Save Actions",
            title: "Format on save",
            keywords: "format save formatter files write",
        }
    } else if i == 76 {
        SettingsSearchEntry {
            section: SETTINGS_SECTION_FILES,
            group: "Save Cleanup",
            title: "Trim trailing whitespace",
            keywords: "trim trailing whitespace spaces tabs save cleanup",
        }
    } else if i == 77 {
        SettingsSearchEntry {
            section: SETTINGS_SECTION_FILES,
            group: "Save Cleanup",
            title: "Insert final newline",
            keywords: "final newline insert end file save cleanup",
        }
    } else if i == 78 {
        SettingsSearchEntry {
            section: SETTINGS_SECTION_FILES,
            group: "Save Cleanup",
            title: "Trim final newlines",
            keywords: "trim final newlines trailing blank lines save cleanup",
        }
    } else if i == 79 {
        SettingsSearchEntry {
            section: SETTINGS_SECTION_APPEARANCE,
            group: "Theme",
            title: "Theme",
            keywords: "theme appearance color palette built in custom plugin dropdown",
        }
    } else if i == 80 {
        SettingsSearchEntry {
            section: SETTINGS_SECTION_APPEARANCE,
            group: "Theme",
            title: "Custom theme files",
            keywords: "theme appearance color palette custom style file toml input",
        }
    } else if i == 81 {
        SettingsSearchEntry {
            section: SETTINGS_SECTION_APPEARANCE,
            group: "Fonts",
            title: "Editor font file",
            keywords: "font file editor custom choose clear bundled ttf otf",
        }
    } else if i == 82 {
        SettingsSearchEntry {
            section: SETTINGS_SECTION_APPEARANCE,
            group: "Fonts",
            title: "UI font file",
            keywords: "font file ui interface custom choose clear bundled ttf otf",
        }
    } else if i == 83 {
        SettingsSearchEntry {
            section: SETTINGS_SECTION_APPEARANCE,
            group: "Editor background",
            title: "Editor background image",
            keywords: "editor background image wallpaper picture choose clear enable dim opacity",
        }
    } else if i == 84 {
        SettingsSearchEntry {
            section: SETTINGS_SECTION_APPEARANCE,
            group: "Editor background",
            title: "Editor background area",
            keywords: "editor background image wallpaper scope area full app editor only",
        }
    } else if i == 85 {
        SettingsSearchEntry {
            section: SETTINGS_SECTION_APPEARANCE,
            group: "Editor background",
            title: "Editor background scaling",
            keywords: "editor background image scaling fit cover contain stretch size",
        }
    } else {
        SettingsSearchEntry {
            section: SETTINGS_SECTION_APPEARANCE,
            group: "Editor background",
            title: "Editor background position",
            keywords: "editor background image vertical position top center bottom alignment",
        }
    }
}

/// Entry `i` of the settings search table.
pub fn settings_search_entry(i: usize) -> (entry: SettingsSearchEntry)
    requires
        i < SETTINGS_SEARCH_ENTRY_COUNT,
    ensures
        entry == settings_search_entry_spec(i as int),
{
    match i {
        0 => SettingsSearchEntry {
            section: SETTINGS_SECTION_FILES,
            group: "Save Actions",
            title: "Autosave",
            keywords: "auto save after delay focus window off file write",
        },
        1 => SettingsSearchEntry {
            section: SETTINGS_SECTION_FILES,
            group: "Save Actions",
            title: "Autosave delay",
            keywords: "auto save delay milliseconds ms timer",
        },
        2 => SettingsSearchEntry {
            section: SETTINGS_SECTION_GENERAL,
            group: "General",
            title: "Window zoom",
            keywords: "zoom scale interface ui size",
        },
        3 => SettingsSearchEntry {
            section: SETTINGS_SECTION_GENERAL,
            group: "General",
            title: "Minimap",
            keywords: "overview map scroll preview code visible",
        },
        4 => SettingsSearchEntry {
            section: SETTINGS_SECTION_GENERAL,
            group: "General",
            title: "Smooth scrolling",
            keywords: "scroll smooth beyond last line",
        },
        5 => SettingsSearchEntry {
            section: SETTINGS_SECTION_GENERAL,
            group: "General",
            title: "Scroll beyond last line",
            keywords: "scroll beyond last line end file editor",
        },
        6 => SettingsSearchEntry {
            section: SETTINGS_SECTION_GENERAL,
            group: "General",
            title: "Status bar",
            keywords: "footer diagnostics git branch visible",
        },
        7 => SettingsSearchEntry {
            section: SETTINGS_SECTION_DEVELOPER,
            group: "Developer",
            title: "Application info",
            keywords: "app version package build profile target platform settings schema update source repository",
        },
        8 => SettingsSearchEntry {
            section: SETTINGS_SECTION_DEVELOPER,
            group: "Developer",
            title: "Devtools",
            keywords: "verbose logging profiling debug diagnostics",
        },
        9 => SettingsSearchEntry {
            section: SETTINGS_SECTION_EDITOR,
            group: "Text and Layout",
            title: "Editor font size",
            keywords: "font text size zoom pixels code",
        },
        10 => SettingsSearchEntry {
            section: SETTINGS_SECTION_GENERAL,
            group: "General",
            title: "UI font size",
            keywords: "interface font size panels labels",
        },
        11 => SettingsSearchEntry {
            section: SETTINGS_SECTION_EDITOR,
            group: "Text and Layout",
            title: "Font family",
            keywords: "font face monospace editor ui ligatures variations weight",
        },
        12 => SettingsSearchEntry {
            section: SETTINGS_SECTION_EDITOR,
            group: "Text and Layout",
            title: "Line height",
            keywords: "line height spacing rows text layout",
        },
        13 => SettingsSearchEntry {
            section: SETTINGS_SECTION_EDITOR,
            group: "Text and Layout",
            title: "Word wrap",
            keywords: "wrap wrapping columns indent overflow long lines",
        },
        14 => SettingsSearchEntry {
            section: SETTINGS_SECTION_EDITOR,
            group: "Text and Layout",
            title: "Tabs and indentation",
            keywords: "tab size insert spaces detect indentation indent guides",
        },
        15 => SettingsSearchEntry {
            section: SETTINGS_SECTION_EDITOR,
            group: "Display",
            title: "Render whitespace",
            keywords: "space tab invisible whitespace control characters unicode",
        },
        16 => SettingsSearchEntry {
            section: SETTINGS_SECTION_EDITOR,
            group: "Scrollbars",
            title: "Scrollbars",
            keywords: "vertical horizontal scrollbar scrollbars scroller editor explorer code container visible hidden auto size theme track",
        },
        17 => SettingsSearchEntry {
            section: SETTINGS_SECTION_EDITOR,
            group: "Display",
            title: "Color decorators",
            keywords: "color picker inline preview swatches decorators",
        },
        18 => SettingsSearchEntry {
            section: SETTINGS_SECTION_EDITOR,
            group: "Display",
            title: "GPU acceleration",
            keywords: "gpu render acceleration performance graphics",
        },
        19 => SettingsSearchEntry {
            section: SETTINGS_SECTION_EDITOR,
            group: "Display",
            title: "Unicode highlight",
            keywords: "unicode invisible ambiguous non ascii control characters allowed locales",
        },
        20 => SettingsSearchEntry {
            section: SETTINGS_SECTION_EDITOR,
            group: "Typing Assistance",
            title: "Auto indent",
            keywords: "indent typing new lines context",
        },
        21 => SettingsSearchEntry {
            section: SETTINGS_SECTION_EDITOR,
            group: "Typing Assistance",
            title: "Auto close brackets",
            keywords: "brackets parentheses pairs auto closing delete overtype",
        },
        22 => SettingsSearchEntry {
            section: SETTINGS_SECTION_EDITOR,
            group: "Typing Assistance",
            title: "Auto close quotes",
            keywords: "quotes strings pairs auto closing delete overtype",
        },
        23 => SettingsSearchEntry {
            section: SETTINGS_SECTION_EDITOR,
            group: "Typing Assistance",
            title: "Auto surround",
            keywords: "surround wrap selection pairs brackets quotes",
        },
        24 => SettingsSearchEntry {
            section: SETTINGS_SECTION_EDITOR,
            group: "Typing Assistance",
            title: "Format on paste/type",
            keywords: "format paste type pasted typing formatter",
        },
        25 => SettingsSearchEntry {
            section: SETTINGS_SECTION_VIM,
            group: "Vim",
            title: "Vim keybindings",
            keywords: "vim vi modal mode normal insert command keybindings keyboard",
        },
        26 => SettingsSearchEntry {
            section: SETTINGS_SECTION_VIM,
            group: "Vim",
            title: "Disabled Vim bindings",
            keywords: "vim disable disabled bindings keys normal mode remove ignore",
        },
        27 => SettingsSearchEntry {
            section: SETTINGS_SECTION_VIM,
            group: "Vim",
            title: "Vim overrides",
            keywords: "vim override overrides remap mapping custom keys command after before",
        },
        28 => SettingsSearchEntry {
            section: SETTINGS_SECTION_EDITOR,
            group: "Typing Assistance",
            title: "Read-only",
            keywords: "readonly read only locked edit disabled message",
        },
        29 => SettingsSearchEntry {
            section: SETTINGS_SECTION_EDITOR,
            group: "Typing Assistance",
            title: "Multi cursor",
            keywords: "multi cursor column selection modifier paste limit alt ctrl",
        },
        30 => SettingsSearchEntry {
            section: SETTINGS_SECTION_EDITOR,
            group: "Typing Assistance",
            title: "Clipboard selection",
            keywords: "copy selection clipboard highlight empty middle click",
        },
        31 => SettingsSearchEntry {
            section: SETTINGS_SECTION_EDITOR,
            group: "Language Features",
            title: "Quick suggestions",
            keywords: "suggest autocomplete completion quick delay trigger characters",
        },
        32 => SettingsSearchEntry {
            section: SETTINGS_SECTION_EDITOR,
            group: "Language Features",
            title: "Suggest widget",
            keywords: "completion popup widget icons status details items methods functions snippets",
        },
        33 => SettingsSearchEntry {
            section: SETTINGS_SECTION_LSP,
            group: "LSP",
            title: "Hover",
            keywords: "lsp hover tooltip delay sticky above long line warning",
        },
        34 => SettingsSearchEntry {
            section: SETTINGS_SECTION_LSP,
            group: "LSP",
            title: "LSP servers",
            keywords: "lsp language server servers command args arguments root markers rust analyzer pyright typescript gopls clangd jdtls intelephense ruby lua dart kotlin swift vue svelte docker terraform powershell",
        },
        35 => SettingsSearchEntry {
            section: SETTINGS_SECTION_EDITOR,
            group: "Language Features",
            title: "Inline suggestions",
            keywords: "inline suggest completions ghost text ai edits toolbar delay",
        },
        36 => SettingsSearchEntry {
            section: SETTINGS_SECTION_LSP,
            group: "LSP",
            title: "Code lens",
            keywords: "code lens inline actions font size",
        },
        37 => SettingsSearchEntry {
            section: SETTINGS_SECTION_LSP,
            group: "LSP",
            title: "Inlay hints",
            keywords: "inlay hints type parameter inline labels padding font",
        },
        38 => SettingsSearchEntry {
            section: SETTINGS_SECTION_LSP,
            group: "LSP",
            title: "Parameter hints",
            keywords: "signature help lsp parameter trigger cycle",
        },
        39 => SettingsSearchEntry {
            section: SETTINGS_SECTION_LSP,
            group: "LSP",
            title: "Lightbulb",
            keywords: "lightbulb code actions quick fix refactor lsp",
        },
        40 => SettingsSearchEntry {
            section: SETTINGS_SECTION_LSP,
            group: "LSP",
            title: "Document highlights",
            keywords: "document highlights symbol references lsp",
        },
        41 => SettingsSearchEntry {
            section: SETTINGS_SECTION_LSP,
            group: "LSP",
            title: "Go to definitions",
            keywords: "go to definition declarations implementations references tests lsp navigation peek",
        },
        42 => SettingsSearchEntry {
            section: SETTINGS_SECTION_EDITOR,
            group: "Cursor and Highlight",
            title: "Cursor style",
            keywords: "caret cursor style width height blink blinking smooth overtype",
        },
        43 => SettingsSearchEntry {
            section: SETTINGS_SECTION_EDITOR,
            group: "Cursor and Highlight",
            title: "Line highlight",
            keywords: "line highlight active focus surrounding lines",
        },
        44 => SettingsSearchEntry {
            section: SETTINGS_SECTION_EDITOR,
            group: "Code View",
            title: "Folding",
            keywords: "fold folding controls imports regions maximum unfold",
        },
        45 => SettingsSearchEntry {
            section: SETTINGS_SECTION_EDITOR,
            group: "Code View",
            title: "Sticky scroll",
            keywords: "sticky scroll pinned scope headers lines",
        },
        46 => SettingsSearchEntry {
            section: SETTINGS_SECTION_EDITOR,
            group: "Code View",
            title: "Indent guides",
            keywords: "indent indentation guides active guide gutter",
        },
        47 => SettingsSearchEntry {
            section: SETTINGS_SECTION_EDITOR,
            group: "Code View",
            title: "Bracket guides",
            keywords: "bracket pair guides colorization match active horizontal",
        },
        48 => SettingsSearchEntry {
            section: SETTINGS_SECTION_EDITOR,
            group: "Code View",
            title: "Find",
            keywords: "find search replace history selection loop cursor result",
        },
        49 => SettingsSearchEntry {
            section: SETTINGS_SECTION_EDITOR,
            group: "Code View",
            title: "Editor minimap",
            keywords: "minimap side autohide slider scale characters max column section headers",
        },
        50 => SettingsSearchEntry {
            section: SETTINGS_SECTION_EDITOR,
            group: "Diff Editor",
            title: "Diff editor",
            keywords: "diff side by side inline whitespace unchanged algorithm word wrap",
        },
        51 => SettingsSearchEntry {
            section: SETTINGS_SECTION_SOURCE_CONTROL,
            group: "Source Control",
            title: "Source Control",
            keywords: "scm source control commit input actions badges repositories",
        },
        52 => SettingsSearchEntry {
            section: SETTINGS_SECTION_SOURCE_CONTROL,
            group: "Git",
            title: "Git repository detection",
            keywords: "git repository detection scan parent folders submodules worktrees",
        },
        53 => SettingsSearchEntry {
            section: SETTINGS_SECTION_SOURCE_CONTROL,
            group: "Git",
            title: "Git fetch, pull, and sync",
            keywords: "git fetch pull sync push prune tags rebase stash autofetch",
        },
        54 => SettingsSearchEntry {
            section: SETTINGS_SECTION_SOURCE_CONTROL,
            group: "Git",
            title: "Git blame",
            keywords: "git blame status bar decoration hover whitespace template",
        },
        55 => SettingsSearchEntry {
            section: SETTINGS_SECTION_TERMINAL,
            group: "Profile",
            title: "Terminal profile",
            keywords: "terminal shell profile provider detected powershell cmd nushell bash",
        },
        56 => SettingsSearchEntry {
            section: SETTINGS_SECTION_TERMINAL,
            group: "Profile",
            title: "Shell executable",
            keywords: "terminal shell executable path command powershell cmd",
        },
        57 => SettingsSearchEntry {
            section: SETTINGS_SECTION_TERMINAL,
            group: "Profile",
            title: "Shell arguments",
            keywords: "terminal shell args arguments flags command line",
        },
        58 => SettingsSearchEntry {
            section: SETTINGS_SECTION_TERMINAL,
            group: "Profile",
            title: "Start directory",
            keywords: "terminal cwd working directory start folder workspace root home",
        },
        59 => SettingsSearchEntry {
            section: SETTINGS_SECTION_TERMINAL,
            group: "Profile",
            title: "Split start directory",
            keywords: "terminal split cwd working directory pane",
        },
        60 => SettingsSearchEntry {
            section: SETTINGS_SECTION_TERMINAL,
            group: "Buffer and Text",
            title: "Scrollback rows",
            keywords: "terminal scrollback history buffer rows",
        },
        61 => SettingsSearchEntry {
            section: SETTINGS_SECTION_TERMINAL,
            group: "Buffer and Text",
            title: "Terminal font size",
            keywords: "terminal font text size zoom wheel",
        },
        62 => SettingsSearchEntry {
            section: SETTINGS_SECTION_TERMINAL,
            group: "Buffer and Text",
            title: "Terminal line height",
            keywords: "terminal line height letter spacing rows columns",
        },
        63 => SettingsSearchEntry {
            section: SETTINGS_SECTION_TERMINAL,
            group: "Cursor",
            title: "Terminal cursor",
            keywords: "terminal cursor style width blink blinking",
        },
        64 => SettingsSearchEntry {
            section: SETTINGS_SECTION_TERMINAL,
            group: "Color and Feedback",
            title: "Terminal colors",
            keywords: "terminal color contrast minimum theme bright ansi",
        },
        65 => SettingsSearchEntry {
            section: SETTINGS_SECTION_TERMINAL,
            group: "Color and Feedback",
            title: "Bell",
            keywords: "terminal bell sound flash notification duration",
        },
        66 => SettingsSearchEntry {
            section: SETTINGS_SECTION_TERMINAL,
            group: "Interaction",
            title: "Right click",
            keywords: "terminal right click context menu copy paste select word mouse",
        },
        67 => SettingsSearchEntry {
            section: SETTINGS_SECTION_TERMINAL,
            group: "Interaction",
            title: "Middle click",
            keywords: "terminal middle click paste mouse",
        },
        68 => SettingsSearchEntry {
            section: SETTINGS_SECTION_TERMINAL,
            group: "Interaction",
            title: "Copy on selection",
            keywords: "terminal copy selection clipboard select text",
        },
        69 => SettingsSearchEntry {
            section: SETTINGS_SECTION_TERMINAL,
            group: "Interaction",
            title: "Terminal tabs",
            keywords: "terminal tabs active tab icons action buttons focus hide condition",
        },
        70 => SettingsSearchEntry {
            section: SETTINGS_SECTION_TERMINAL,
            group: "Interaction",
            title: "Tab title",
            keywords: "terminal tab title rename name label process cwd workspace",
        },
        71 => SettingsSearchEntry {
            section: SETTINGS_SECTION_TERMINAL,
            group: "Interaction",
            title: "Tab location",
            keywords: "terminal tab location top left right split panel",
        },
        72 => SettingsSearchEntry {
            section: SETTINGS_SECTION_TERMINAL,
            group: "Interaction",
            title: "Startup visibility",
            keywords: "terminal startup hide show empty last closed panel",
        },
        73 => SettingsSearchEntry {
            section: SETTINGS_SECTION_TERMINAL,
            group: "Interaction",
            title: "Paste handling",
            keywords: "terminal paste bracketed multiline warning clipboard",
        },
        74 => SettingsSearchEntry {
            section: SETTINGS_SECTION_TERMINAL,
            group: "Interaction",
            title: "Word separators",
            keywords: "terminal word separators selection double click text",
        },
        75 => SettingsSearchEntry {
            section: SETTINGS_SECTION_FILES,
            group: "Save Actions",
            title: "Format on save",
            keywords: "format save formatter files write",
        },
        76 => SettingsSearchEntry {
            section: SETTINGS_SECTION_FILES,
            group: "Save Cleanup",
            title: "Trim trailing whitespace",
            keywords: "trim trailing whitespace spaces tabs save cleanup",
        },
        77 => SettingsSearchEntry {
            section: SETTINGS_SECTION_FILES,
            group: "Save Cleanup",
            title: "Insert final newline",
            keywords: "final newline insert end file save cleanup",
        },
        78 => SettingsSearchEntry {
            section: SETTINGS_SECTION_FILES,
            group: "Save Cleanup",
            title: "Trim final newlines",
            keywords: "trim final newlines trailing blank lines save cleanup",
        },
        79 => SettingsSearchEntry {
            section: SETTINGS_SECTION_APPEARANCE,
            group: "Theme",
            title: "Theme",
            keywords: "theme appearance color palette built in custom plugin dropdown",
        },
        80 => SettingsSearchEntry {
            section: SETTINGS_SECTION_APPEARANCE,
            group: "Theme",
            title: "Custom theme files",
            keywords: "theme appearance color palette custom style file toml input",
        },
        81 => SettingsSearchEntry {
            section: SETTINGS_SECTION_APPEARANCE,
            group: "Fonts",
            title: "Editor font file",
            keywords: "font file editor custom choose clear bundled ttf otf",
        },
        82 => SettingsSearchEntry {
            section: SETTINGS_SECTION_APPEARANCE,
            group: "Fonts",
            title: "UI font file",
            keywords: "font file ui interface custom choose clear bundled ttf otf",
        },
        83 => SettingsSearchEntry {
            section: SETTINGS_SECTION_APPEARANCE,
            group: "Editor background",
            title: "Editor background image",
            keywords: "editor background image wallpaper picture choose clear enable dim opacity",
        },
        84 => SettingsSearchEntry {
            section: SETTINGS_SECTION_APPEARANCE,
            group: "Editor background",
            title: "Editor background area",
            keywords: "editor background image wallpaper scope area full app editor only",
        },
        85 => SettingsSearchEntry {
            section: SETTINGS_SECTION_APPEARANCE,
            group: "Editor background",
            title: "Editor background scaling",
            keywords: "editor background image scaling fit cover contain stretch size",
        },
        _ => SettingsSearchEntry {
            section: SETTINGS_SECTION_APPEARANCE,
            group: "Editor background",
            title: "Editor background position",
            keywords: "editor background image vertical position top center bottom alignment",
        },
    }
}

/// Every character is ASCII.
pub open spec fn ascii_text(s: Seq<char>) -> bool {
    forall|i: int| 0 <= i < s.len() ==> (#[trigger] s[i] as u32) < 128
}

/// ASCII upper-case letters become lower case; other characters stay.
pub open spec fn ascii_lower_char(c: char) -> char {
    if 'A' <= c && c <= 'Z' { ((c as u32) + 32) as char } else { c }
}

/// `str::to_lowercase` of `s`: the lower-case mapping of Unicode.
pub uninterp spec fn lowercase(s: Seq<char>) -> Seq<char>;

/// `char::is_alphanumeric` of `c`: alphabetic or numeric in Unicode.
pub uninterp spec fn char_alphanumeric(c: char) -> bool;

/// `str::to_lowercase`. The result is the Unicode lower-case mapping of `s`;
/// for ASCII text it lowers exactly the letters `A`-`Z`. Beyond ASCII nothing
/// about it is stated here.
#[verifier::external_body]
pub(crate) fn str_to_lowercase(s: &str) -> (lower: String)
    ensures
        lower@ == lowercase(s@),
        ascii_text(s@) ==> lower@ == s@.map_values(|c: char| ascii_lower_char(c)),
{
    s.to_lowercase()
}

/// `char::is_alphanumeric`. For ASCII characters the answer is whether `c` is
/// a letter or a digit; beyond ASCII nothing about it is stated here.
#[verifier::external_body]
pub(crate) fn char_is_alphanumeric(c: char) -> (alnum: bool)
    ensures
        alnum == char_alphanumeric(c),
        (c as u32) < 128 ==> alnum == (('a' <= c && c <= 'z') || ('A' <= c && c <= 'Z') || ('0' <= c && c <= '9')),
{
    c.is_alphanumeric()
}

/// The scroll target that a search entry opens: one per section, refined by
/// group in the Editor, Terminal and Files sections.
pub open spec fn entry_target_spec(section: usize, group: Seq<char>) -> &'static str {
    if section == SETTINGS_SECTION_GENERAL { SETTINGS_TARGET_GENERAL }
    else if section == SETTINGS_SECTION_EDITOR && group == "Text and Layout"@ { SETTINGS_TARGET_EDITOR_TEXT_LAYOUT }
    else if section == SETTINGS_SECTION_EDITOR && group == "Display"@ { SETTINGS_TARGET_EDITOR_DISPLAY }
    else if section == SETTINGS_SECTION_EDITOR && group == "Typing Assistance"@ { SETTINGS_TARGET_EDITOR_TYPING }
    else if section == SETTINGS_SECTION_EDITOR && group == "Language Features"@ { SETTINGS_TARGET_EDITOR_LANGUAGE }
    else if section == SETTINGS_SECTION_EDITOR && group == "Cursor and Highlight"@ { SETTINGS_TARGET_EDITOR_CURSOR }
    else if section == SETTINGS_SECTION_EDITOR && group == "Code View"@ { SETTINGS_TARGET_EDITOR_CODE_VIEW }
    else if section == SETTINGS_SECTION_EDITOR && group == "Diff Editor"@ { SETTINGS_TARGET_EDITOR_DIFF }
    else if section == SETTINGS_SECTION_EDITOR && group == "Scrollbars"@ { SETTINGS_TARGET_SCROLLBARS }
    else if section == SETTINGS_SECTION_VIM { SETTINGS_TARGET_VIM_KEYBINDINGS }
    else if section == SETTINGS_SECTION_TERMINAL && group == "Profile"@ { SETTINGS_TARGET_TERMINAL_PROFILE }
    else if section == SETTINGS_SECTION_TERMINAL && group == "Buffer and Text"@ { SETTINGS_TARGET_TERMINAL_BUFFER }
    else if section == SETTINGS_SECTION_TERMINAL && group == "Cursor"@ { SETTINGS_TARGET_TERMINAL_CURSOR }
    else if section == SETTINGS_SECTION_TERMINAL && group == "Color and Feedback"@ { SETTINGS_TARGET_TERMINAL_COLOR }
    else if section == SETTINGS_SECTION_TERMINAL && group == "Interaction"@ { SETTINGS_TARGET_TERMINAL_INTERACTION }
    else if section == SETTINGS_SECTION_FILES && group == "Save Actions"@ { SETTINGS_TARGET_FILES_SAVE_ACTIONS }
    else if section == SETTINGS_SECTION_FILES && group == "Save Cleanup"@ { SETTINGS_TARGET_FILES_SAVE_CLEANUP }
    else if section == SETTINGS_SECTION_LSP { SETTINGS_TARGET_LSP }
    else if section == SETTINGS_SECTION_APPEARANCE { SETTINGS_TARGET_APPEARANCE }
    else if section == SETTINGS_SECTION_SOURCE_CONTROL { SETTINGS_TARGET_SOURCE_CONTROL }
    else if section == SETTINGS_SECTION_DEVELOPER { SETTINGS_TARGET_DEVELOPER }
    else { SETTINGS_TARGET_GENERAL }
}

/// The scroll target for a search entry.
pub fn settings_search_entry_target(entry: SettingsSearchEntry) -> (target: &'static str)
    ensures
        target == entry_target_spec(entry.section, entry.group@),
{
    let section = entry.section;
    let group = entry.group;
    if section == SETTINGS_SECTION_GENERAL { SETTINGS_TARGET_GENERAL }
    else if section == SETTINGS_SECTION_EDITOR && str_equal(group, "Text and Layout") { SETTINGS_TARGET_EDITOR_TEXT_LAYOUT }
    else if section == SETTINGS_SECTION_EDITOR && str_equal(group, "Display") { SETTINGS_TARGET_EDITOR_DISPLAY }
    else if section == SETTINGS_SECTION_EDITOR && str_equal(group, "Typing Assistance") { SETTINGS_TARGET_EDITOR_TYPING }
    else if section == SETTINGS_SECTION_EDITOR && str_equal(group, "Language Features") { SETTINGS_TARGET_EDITOR_LANGUAGE }
    else if section == SETTINGS_SECTION_EDITOR && str_equal(group, "Cursor and Highlight") { SETTINGS_TARGET_EDITOR_CURSOR }
    else if section == SETTINGS_SECTION_EDITOR && str_equal(group, "Code View") { SETTINGS_TARGET_EDITOR_CODE_VIEW }
    else if section == SETTINGS_SECTION_EDITOR && str_equal(group, "Diff Editor") { SETTINGS_TARGET_EDITOR_DIFF }
    else if section == SETTINGS_SECTION_EDITOR && str_equal(group, "Scrollbars") { SETTINGS_TARGET_SCROLLBARS }
    else if section == SETTINGS_SECTION_VIM { SETTINGS_TARGET_VIM_KEYBINDINGS }
    else if section == SETTINGS_SECTION_TERMINAL && str_equal(group, "Profile") { SETTINGS_TARGET_TERMINAL_PROFILE }
    else if section == SETTINGS_SECTION_TERMINAL && str_equal(group, "Buffer and Text") { SETTINGS_TARGET_TERMINAL_BUFFER }
    else if section == SETTINGS_SECTION_TERMINAL && str_equal(group, "Cursor") { SETTINGS_TARGET_TERMINAL_CURSOR }
    else if section == SETTINGS_SECTION_TERMINAL && str_equal(group, "Color and Feedback") { SETTINGS_TARGET_TERMINAL_COLOR }
    else if section == SETTINGS_SECTION_TERMINAL && str_equal(group, "Interaction") { SETTINGS_TARGET_TERMINAL_INTERACTION }
    else if section == SETTINGS_SECTION_FILES && str_equal(group, "Save Actions") { SETTINGS_TARGET_FILES_SAVE_ACTIONS }
    else if section == SETTINGS_SECTION_FILES && str_equal(group, "Save Cleanup") { SETTINGS_TARGET_FILES_SAVE_CLEANUP }
    else if section == SETTINGS_SECTION_LSP { SETTINGS_TARGET_LSP }
    else if section == SETTINGS_SECTION_APPEARANCE { SETTINGS_TARGET_APPEARANCE }
    else if section == SETTINGS_SECTION_SOURCE_CONTROL { SETTINGS_TARGET_SOURCE_CONTROL }
    else if section == SETTINGS_SECTION_DEVELOPER { SETTINGS_TARGET_DEVELOPER }
    else { SETTINGS_TARGET_GENERAL }
}

/// The lower-cased search text of an entry and its lower-cased title.
pub struct SettingsSearchHaystack {
    pub haystack: String,
    pub title: String,
}

/// Section name, group, title and keywords separated by spaces, lower-cased.
pub open spec fn haystack_text_spec(e: SettingsSearchEntry) -> Seq<char> {
    lowercase(section_name_spec(e.section)@ + seq![' '] + e.group@ + seq![' '] + e.title@ + seq![' '] + e.keywords@)
}

/// The search text of an entry.
pub fn settings_search_haystack(entry: SettingsSearchEntry) -> (h: SettingsSearchHaystack)
    requires
        entry.section < SETTINGS_SECTION_COUNT,
    ensures
        h.haystack@ == haystack_text_spec(entry),
        h.title@ == lowercase(entry.title@),
{
    let mut text = String::new();
    push_text(&mut text, settings_section_name(entry.section));
    push_char(&mut text, ' ');
    push_text(&mut text, entry.group);
    push_char(&mut text, ' ');
    push_text(&mut text, entry.title);
    push_char(&mut text, ' ');
    push_text(&mut text, entry.keywords);
    proof {
        assert(text@ =~= section_name_spec(entry.section)@ + seq![' '] + entry.group@ + seq![' '] + entry.title@
            + seq![' '] + entry.keywords@);
    }
    let haystack = str_to_lowercase(text.as_str());
    let title = str_to_lowercase(entry.title);
    SettingsSearchHaystack { haystack, title }
}

proof fn lemma_entry_sections(i: int)
    requires
        0 <= i < SETTINGS_SEARCH_ENTRY_COUNT,
    ensures
        settings_search_entry_spec(i).section < SETTINGS_SECTION_COUNT,
{
}

/// The search texts of all entries, in table order.
pub fn settings_search_haystacks() -> (hs: Vec<SettingsSearchHaystack>)
    ensures
        hs@.len() == SETTINGS_SEARCH_ENTRY_COUNT,
        forall|i: int| 0 <= i < SETTINGS_SEARCH_ENTRY_COUNT ==> (#[trigger] hs@[i]).haystack@
            == haystack_text_spec(settings_search_entry_spec(i))
            && hs@[i].title@ == lowercase(settings_search_entry_spec(i).title@),
{
    let mut hs: Vec<SettingsSearchHaystack> = Vec::new();
    let mut i: usize = 0;
    while i < SETTINGS_SEARCH_ENTRY_COUNT
        invariant
            i <= SETTINGS_SEARCH_ENTRY_COUNT,
            hs@.len() == i,
            forall|j: int| 0 <= j < i ==> (#[trigger] hs@[j]).haystack@
                == haystack_text_spec(settings_search_entry_spec(j))
                && hs@[j].title@ == lowercase(settings_search_entry_spec(j).title@),
        decreases SETTINGS_SEARCH_ENTRY_COUNT - i,
    {
        let entry = settings_search_entry(i);
        proof {
            lemma_entry_sections(i as int);
        }
        hs.push(settings_search_haystack(entry));
        i = i + 1;
    }
    hs
}

/// `t` occurs somewhere in `s`.
pub open spec fn contains_text(s: Seq<char>, t: Seq<char>) -> bool {
    exists|i: int| occurs_at(s, t, i)
}

/// How well `token` matches an entry: equal to the title, a prefix of it,
/// inside it, anywhere in the search text, or not at all.
pub open spec fn token_score_spec(title: Seq<char>, haystack: Seq<char>, token: Seq<char>) -> Option<u32> {
    if title == token {
        Some(SETTINGS_SEARCH_SCORE_EXACT_TITLE)
    } else if occurs_at(title, token, 0) {
        Some(SETTINGS_SEARCH_SCORE_TITLE_PREFIX)
    } else if contains_text(title, token) {
        Some(SETTINGS_SEARCH_SCORE_TITLE_CONTAINS)
    } else if contains_text(haystack, token) {
        Some(SETTINGS_SEARCH_SCORE_KEYWORD)
    } else {
        None
    }
}

fn chars_contain(s: &Vec<char>, t: &Vec<char>) -> (found: bool)
    ensures
        found == contains_text(s@, t@),
{
    proof {
        lemma_first_occurrence_bounds(s@, t@, 0);
    }
    match find_chars_from(s, t, 0) {
        Some(_) => true,
        None => {
            proof {
                assert forall|i: int| !occurs_at(s@, t@, i) by {
                    if i >= 0 {
                    }
                }
            }
            false
        },
    }
}

/// Scores one lower-cased token against an entry (see `token_score_spec`).
pub fn settings_search_token_score(haystack: &SettingsSearchHaystack, token: &str) -> (score: Option<u32>)
    ensures
        score == token_score_spec(haystack.title@, haystack.haystack@, token@),
{
    let title = str_chars(haystack.title.as_str());
    let tok = str_chars(token);
    if str_equal(haystack.title.as_str(), token) {
        Some(SETTINGS_SEARCH_SCORE_EXACT_TITLE)
    } else if crate::paths::chars_occur_at(&title, &tok, 0) {
        Some(SETTINGS_SEARCH_SCORE_TITLE_PREFIX)
    } else if chars_contain(&title, &tok) {
        Some(SETTINGS_SEARCH_SCORE_TITLE_CONTAINS)
    } else if chars_contain(&str_chars(haystack.haystack.as_str()), &tok) {
        Some(SETTINGS_SEARCH_SCORE_KEYWORD)
    } else {
        None
    }
}

/// Adds the token of a finished run: the run trimmed and lower-cased, kept
/// when not empty.
pub open spec fn flush_token(tokens: Seq<Seq<char>>, run: Seq<char>) -> Seq<Seq<char>> {
    if run.len() > 0 && lowercase(trim_spec(run)).len() > 0 {
        tokens.push(lowercase(trim_spec(run)))
    } else {
        tokens
    }
}

/// Tokens finished so far and the run of alphanumeric characters being read.
pub open spec fn token_scan(q: Seq<char>) -> (Seq<Seq<char>>, Seq<char>)
    decreases q.len(),
{
    if q.len() == 0 {
        (seq![], seq![])
    } else {
        let (tokens, run) = token_scan(q.drop_last());
        if char_alphanumeric(q.last()) {
            (tokens, run.push(q.last()))
        } else {
            (flush_token(tokens, run), seq![])
        }
    }
}

/// The search tokens of a query: its maximal runs of alphanumeric characters,
/// trimmed and lower-cased, empty ones dropped.
pub open spec fn tokens_spec(q: Seq<char>) -> Seq<Seq<char>> {
    let (tokens, run) = token_scan(q);
    flush_token(tokens, run)
}

/// The characters of each string.
pub open spec fn strings_view(v: Seq<String>) -> Seq<Seq<char>> {
    v.map_values(|s: String| s@)
}

fn flush_run(tokens: &mut Vec<String>, run: &Vec<char>)
    ensures
        strings_view(final(tokens)@) == flush_token(strings_view(old(tokens)@), run@),
{
    if run.len() > 0 {
        let mut text = string_from_chars(run);
        trim_string_in_place(&mut text);
        let lower = str_to_lowercase(text.as_str());
        if lower.unicode_len() > 0 {
            let ghost before = strings_view(tokens@);
            tokens.push(lower);
            assert(strings_view(tokens@) =~= before.push(lowercase(trim_spec(run@))));
        }
    }
}

/// Splits a query into search tokens (see `tokens_spec`).
pub fn settings_search_tokens(query: &str) -> (tokens: Vec<String>)
    ensures
        strings_view(tokens@) == tokens_spec(query@),
{
    let chars = str_chars(query);
    let mut tokens: Vec<String> = Vec::new();
    let mut run: Vec<char> = Vec::new();
    let mut i: usize = 0;
    while i < chars.len()
        invariant
            i <= chars@.len(),
            chars@ == query@,
            (strings_view(tokens@), run@) == token_scan(query@.subrange(0, i as int)),
        decreases chars.len() - i,
    {
        let c = chars[i];
        proof {
            assert(query@.subrange(0, i + 1).drop_last() =~= query@.subrange(0, i as int));
        }
        if char_is_alphanumeric(c) {
            run.push(c);
        } else {
            flush_run(&mut tokens, &run);
            run = Vec::new();
            assert(run@ =~= Seq::<char>::empty());
        }
        i = i + 1;
    }
    assert(query@.subrange(0, chars.len() as int) =~= query@);
    flush_run(&mut tokens, &run);
    tokens
}

/// The total score of an entry for all tokens, `None` when a token does not
/// match.
pub open spec fn entry_total_spec(title: Seq<char>, haystack: Seq<char>, tokens: Seq<Seq<char>>) -> Option<int>
    decreases tokens.len(),
{
    if tokens.len() == 0 {
        Some(0)
    } else {
        match entry_total_spec(title, haystack, tokens.drop_last()) {
            None => None,
            Some(a) => match token_score_spec(title, haystack, tokens.last()) {
                None => None,
                Some(b) => Some(a + b),
            },
        }
    }
}

/// Totals add up over the tokens: the total for two runs of tokens is the
/// sum of their totals, and there is one exactly when both have one. In
/// particular a single token totals its own score, and every token adds its
/// score to the total of the tokens before it.
pub proof fn lemma_entry_total_adds_over_tokens(
    title: Seq<char>,
    haystack: Seq<char>,
    first: Seq<Seq<char>>,
    second: Seq<Seq<char>>,
)
    ensures
        entry_total_spec(title, haystack, first + second) == match (
            entry_total_spec(title, haystack, first),
            entry_total_spec(title, haystack, second),
        ) {
            (Some(x), Some(y)) => Some(x + y),
            _ => None::<int>,
        },
    decreases second.len(),
{
    if second.len() == 0 {
        assert(first + second =~= first);
    } else {
        let rest = second.drop_last();
        assert((first + second).drop_last() =~= first + rest);
        assert((first + second).last() == second.last());
        lemma_entry_total_adds_over_tokens(title, haystack, first, rest);
    }
}

/// One token totals its own score, and a token added after others adds its
/// score to their total; so with several matching tokens an entry's total is
/// at least the score of each of them.
pub proof fn lemma_each_token_adds_its_score(
    title: Seq<char>,
    haystack: Seq<char>,
    tokens: Seq<Seq<char>>,
    token: Seq<char>,
)
    ensures
        entry_total_spec(title, haystack, seq![token]) == match token_score_spec(title, haystack, token) {
            Some(s) => Some(s as int),
            None => None::<int>,
        },
        entry_total_spec(title, haystack, tokens) matches Some(a)
            ==> (token_score_spec(title, haystack, token) matches Some(s)
            ==> entry_total_spec(title, haystack, tokens.push(token)) == Some(a + s)
                && a + s >= s && a + s >= a),
{
    let single = seq![token];
    assert(single.drop_last() =~= Seq::<Seq<char>>::empty());
    assert(single.last() == token);
    assert(entry_total_spec(title, haystack, Seq::<Seq<char>>::empty()) == Some(0int));
    assert(entry_total_spec(title, haystack, single) == match token_score_spec(title, haystack, token) {
        Some(s) => Some(s as int),
        None => None::<int>,
    });
    assert(tokens.push(token) =~= tokens + single);
    lemma_entry_total_adds_over_tokens(title, haystack, tokens, seq![token]);
    lemma_total_bounds(title, haystack, tokens);
}

proof fn lemma_total_bounds(title: Seq<char>, haystack: Seq<char>, tokens: Seq<Seq<char>>)
    ensures
        entry_total_spec(title, haystack, tokens) matches Some(t) ==> 0 <= t <= 4 * tokens.len(),
    decreases tokens.len(),
{
    if tokens.len() > 0 {
        lemma_total_bounds(title, haystack, tokens.drop_last());
    }
}

proof fn lemma_total_none_stays(title: Seq<char>, haystack: Seq<char>, tokens: Seq<Seq<char>>, j: int)
    requires
        0 <= j <= tokens.len(),
        entry_total_spec(title, haystack, tokens.subrange(0, j)) is None,
    ensures
        entry_total_spec(title, haystack, tokens) is None,
    decreases tokens.len() - j,
{
    if j < tokens.len() {
        assert(tokens.subrange(0, j + 1).drop_last() =~= tokens.subrange(0, j));
        lemma_total_none_stays(title, haystack, tokens, j + 1);
    } else {
        assert(tokens.subrange(0, j) =~= tokens);
    }
}

/// Total score of one entry for all tokens.
fn entry_total(haystack: &SettingsSearchHaystack, tokens: &Vec<String>) -> (total: Option<i128>)
    ensures
        total matches Some(t) ==> entry_total_spec(haystack.title@, haystack.haystack@, strings_view(tokens@)) == Some(t as int),
        total is None ==> entry_total_spec(haystack.title@, haystack.haystack@, strings_view(tokens@)) is None,
{
    let ghost all = strings_view(tokens@);
    let mut score: i128 = 0;
    let n = tokens.len();
    let mut i: usize = 0;
    while i < n
        invariant
            n == tokens@.len(),
            i <= n,
            all == strings_view(tokens@),
            entry_total_spec(haystack.title@, haystack.haystack@, all.subrange(0, i as int)) == Some(score as int),
            0 <= score <= 4 * i,
        decreases n - i,
    {
        proof {
            assert(all.subrange(0, i + 1).drop_last() =~= all.subrange(0, i as int));
            assert(all.subrange(0, i + 1).last() == tokens@[i as int]@);
        }
        match settings_search_token_score(haystack, tokens[i].as_str()) {
            None => {
                proof {
                    lemma_total_none_stays(haystack.title@, haystack.haystack@, all, i + 1);
                }
                return None;
            },
            Some(s) => {
                score = score + s as i128;
            },
        }
        i = i + 1;
    }
    assert(all.subrange(0, tokens@.len() as int) =~= all);
    Some(score)
}

/// Per-entry totals as candidate scores.
pub open spec fn exact_scores_spec(tokens: Seq<Seq<char>>) -> Seq<Option<i128>> {
    Seq::new(SETTINGS_SEARCH_ENTRY_COUNT as nat, |i: int| {
        let e = settings_search_entry_spec(i);
        match entry_total_spec(lowercase(e.title@), haystack_text_spec(e), tokens) {
            Some(t) => Some(t as i128),
            None => None,
        }
    })
}

/// Tokens joined by single spaces.
pub open spec fn join_tokens(tokens: Seq<Seq<char>>) -> Seq<char>
    decreases tokens.len(),
{
    if tokens.len() == 0 {
        seq![]
    } else if tokens.len() == 1 {
        tokens[0]
    } else {
        join_tokens(tokens.drop_last()) + seq![' '] + tokens.last()
    }
}

/// The fuzzy score that `SkimMatcherV2::default().fuzzy_match(choice,
/// pattern)` gives.
pub uninterp spec fn skim_fuzzy_score(choice: Seq<char>, pattern: Seq<char>) -> Option<i64>;

/// `SkimMatcherV2::default().fuzzy_match(choice, pattern)`. The result is a
/// function of the two strings alone; an empty pattern scores `Some(0)`.
/// Which other inputs match, and with which score, is not stated here.
#[verifier::external_body]
pub(crate) fn skim_fuzzy_match(choice: &str, pattern: &str) -> (score: Option<i64>)
    ensures
        score == skim_fuzzy_score(choice@, pattern@),
        pattern@.len() == 0 ==> score == Some(0i64),
{
    fuzzy_matcher::skim::SkimMatcherV2::default().fuzzy_match(choice, pattern)
}

/// Fuzzy scores of every entry against `query`.
pub open spec fn fuzzy_scores_for(query: Seq<char>) -> Seq<Option<i128>> {
    Seq::new(SETTINGS_SEARCH_ENTRY_COUNT as nat, |i: int|
        match skim_fuzzy_score(haystack_text_spec(settings_search_entry_spec(i)), query) {
            Some(v) => Some(v as i128),
            None => None,
        })
}

/// Fuzzy scores of every entry against the joined tokens.
pub open spec fn fuzzy_scores_spec(tokens: Seq<Seq<char>>) -> Seq<Option<i128>> {
    fuzzy_scores_for(join_tokens(tokens))
}

/// Whether some candidate has a score.
pub open spec fn any_scored(scores: Seq<Option<i128>>) -> bool {
    exists|i: int| 0 <= i < scores.len() && (#[trigger] scores[i]) is Some
}

/// The entries named by a list of table positions.
pub open spec fn entries_at(r: Seq<usize>) -> Seq<SettingsSearchEntry> {
    r.map_values(|k: usize| settings_search_entry_spec(k as int))
}

fn entries_for(ranked: &Vec<usize>) -> (entries: Vec<SettingsSearchEntry>)
    requires
        forall|k: int| 0 <= k < ranked@.len() ==> (#[trigger] ranked@[k]) < SETTINGS_SEARCH_ENTRY_COUNT,
    ensures
        entries@ == entries_at(ranked@),
{
    let mut entries: Vec<SettingsSearchEntry> = Vec::new();
    let mut k: usize = 0;
    while k < ranked.len()
        invariant
            k <= ranked@.len(),
            forall|j: int| 0 <= j < ranked@.len() ==> (#[trigger] ranked@[j]) < SETTINGS_SEARCH_ENTRY_COUNT,
            entries@ == entries_at(ranked@.subrange(0, k as int)),
        decreases ranked.len() - k,
    {
        entries.push(settings_search_entry(ranked[k]));
        k = k + 1;
        assert(entries@ =~= entries_at(ranked@.subrange(0, k as int)));
    }
    assert(ranked@.subrange(0, ranked@.len() as int) =~= ranked@);
    entries
}

fn join_token_strings(tokens: &Vec<String>) -> (joined: String)
    ensures
        joined@ == join_tokens(strings_view(tokens@)),
{
    let ghost all = strings_view(tokens@);
    let mut joined = String::new();
    let mut i: usize = 0;
    while i < tokens.len()
        invariant
            i <= tokens@.len(),
            all == strings_view(tokens@),
            joined@ == join_tokens(all.subrange(0, i as int)),
        decreases tokens.len() - i,
    {
        proof {
            assert(all.subrange(0, i + 1).drop_last() =~= all.subrange(0, i as int));
            assert(all.subrange(0, i + 1).last() == tokens@[i as int]@);
        }
        if i > 0 {
            push_char(&mut joined, ' ');
        } else {
            assert(joined@ =~= Seq::<char>::empty());
        }
        push_text(&mut joined, tokens[i].as_str());
        proof {
            let sub = all.subrange(0, i + 1);
            if i == 0 {
                assert(joined@ =~= sub[0]);
            } else {
                assert(joined@ =~= join_tokens(sub.drop_last()) + seq![' '] + sub.last());
            }
        }
        i = i + 1;
    }
    assert(all.subrange(0, tokens@.len() as int) =~= all);
    joined
}

/// Settings matching a query. Every token must match an entry; matches are
/// ordered by total score, then table order. When no entry matches every
/// token, the entries that the fuzzy matcher accepts for the joined tokens
/// are returned, best fuzzy score first. A query without tokens finds nothing.
pub fn settings_search_results(query: &str) -> (results: Vec<SettingsSearchEntry>)
    ensures
        ({
            let tokens = tokens_spec(query@);
            if tokens.len() == 0 {
                results@.len() == 0
            } else if any_scored(exact_scores_spec(tokens)) {
                exists|r: Seq<usize>| is_ranking(exact_scores_spec(tokens), r) && results@ == entries_at(r)
            } else {
                exists|r: Seq<usize>| is_ranking(fuzzy_scores_spec(tokens), r) && results@ == entries_at(r)
            }
        }),
{
    let tokens = settings_search_tokens(query);
    if tokens.len() == 0 {
        return Vec::new();
    }
    let ghost toks = strings_view(tokens@);
    let haystacks = settings_search_haystacks();
    let mut scores: Vec<Option<i128>> = Vec::new();
    let mut any = false;
    let mut i: usize = 0;
    while i < haystacks.len()
        invariant
            i <= haystacks@.len() == SETTINGS_SEARCH_ENTRY_COUNT,
            toks == strings_view(tokens@),
            forall|j: int| 0 <= j < SETTINGS_SEARCH_ENTRY_COUNT ==> (#[trigger] haystacks@[j]).haystack@
                == haystack_text_spec(settings_search_entry_spec(j))
                && haystacks@[j].title@ == lowercase(settings_search_entry_spec(j).title@),
            scores@ == exact_scores_spec(toks).subrange(0, i as int),
            any == any_scored(scores@),
        decreases haystacks.len() - i,
    {
        let t = entry_total(&haystacks[i], &tokens);
        let ghost before = scores@;
        scores.push(t);
        proof {
            assert(scores@ =~= exact_scores_spec(toks).subrange(0, i + 1));
            if t is Some {
                assert(scores@[i as int] is Some);
            }
            if any_scored(before) {
                let j = choose|j: int| 0 <= j < before.len() && (#[trigger] before[j]) is Some;
                assert(scores@[j] is Some);
            }
            if any_scored(scores@) && !any_scored(before) {
                let j = choose|j: int| 0 <= j < scores@.len() && (#[trigger] scores@[j]) is Some;
                if j < i {
                    assert(before[j] is Some);
                }
            }
        }
        if t.is_some() {
            any = true;
        }
        i = i + 1;
    }
    assert(scores@ =~= exact_scores_spec(toks));
    if any {
        let ranked = rank_scored_indices(&scores);
        return entries_for(&ranked);
    }
    let joined = join_token_strings(&tokens);
    settings_search_fuzzy_results(joined.as_str())
}

/// The entries the fuzzy matcher accepts for `query`, best score first and
/// in table order among equal scores.
pub fn settings_search_fuzzy_results(query: &str) -> (results: Vec<SettingsSearchEntry>)
    ensures
        exists|r: Seq<usize>| is_ranking(fuzzy_scores_for(query@), r) && results@ == entries_at(r),
{
    let haystacks = settings_search_haystacks();
    let mut fuzzy: Vec<Option<i128>> = Vec::new();
    let mut j: usize = 0;
    while j < haystacks.len()
        invariant
            j <= haystacks@.len() == SETTINGS_SEARCH_ENTRY_COUNT,
            forall|k: int| 0 <= k < SETTINGS_SEARCH_ENTRY_COUNT ==> (#[trigger] haystacks@[k]).haystack@
                == haystack_text_spec(settings_search_entry_spec(k)),
            fuzzy@ == fuzzy_scores_for(query@).subrange(0, j as int),
        decreases haystacks.len() - j,
    {
        let score = match skim_fuzzy_match(haystacks[j].haystack.as_str(), query) {
            Some(v) => Some(v as i128),
            None => None,
        };
        fuzzy.push(score);
        j = j + 1;
        assert(fuzzy@ =~= fuzzy_scores_for(query@).subrange(0, j as int));
    }
    assert(fuzzy@ =~= fuzzy_scores_for(query@));
    let ranked = rank_scored_indices(&fuzzy);
    entries_for(&ranked)
}

/// The remembered result selection applies only to the same query and is
/// clamped to the last result.
pub fn settings_search_selection_for_query(stored: Option<(String, usize)>, query: &str, results_len: usize) -> (selection: usize)
    ensures
        ({
            let base: usize = match stored {
                Some(pair) => if pair.0@ == query@ { pair.1 } else { 0 },
                None => 0,
            };
            let last: usize = if results_len == 0 { 0 } else { (results_len - 1) as usize };
            selection == if base < last { base } else { last }
        }),
{
    let base: usize = match &stored {
        Some(pair) => if str_equal(pair.0.as_str(), query) { pair.1 } else { 0 },
        None => 0,
    };
    let last: usize = if results_len == 0 { 0 } else { results_len - 1 };
    if base < last {
        base
    } else {
        last
    }
}

} // verus!
