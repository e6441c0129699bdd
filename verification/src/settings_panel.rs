//! Decisions of the settings panel: what Escape and a click outside the
//! panel do to the search query, the pending actions and the armed discard
//! confirmation, which controls stay enabled while a Vim key is being
//! captured, and the plugin membership list of the plugins section.
use vstd::prelude::*;
use crate::session_save::{remove_from_order, strs_view, without_str};
use crate::settings_text::{is_whitespace_char, whitespace_spec};
use crate::text::str_equal;
use crate::settings_search::{SETTINGS_SECTION_COUNT, SETTINGS_SECTION_VIM};

verus! {

/// What the panel was asked to do during one frame.
#[derive(Debug, Clone)]
pub struct PendingSettingsPanelActions {
    pub apply: bool,
    pub reset: bool,
    pub reload: bool,
    pub close: bool,
    pub choose_editor_font: bool,
    pub clear_editor_font: bool,
    pub choose_ui_font: bool,
    pub clear_ui_font: bool,
    pub choose_background_image: bool,
    pub clear_background_image: bool,
    pub status: Option<String>,
}

impl PendingSettingsPanelActions {
    /// No action requested.
    pub open spec fn is_idle(&self) -> bool {
        &&& !self.apply
        &&& !self.reset
        &&& !self.reload
        &&& !self.close
        &&& !self.choose_editor_font
        &&& !self.clear_editor_font
        &&& !self.choose_ui_font
        &&& !self.clear_ui_font
        &&& !self.choose_background_image
        &&& !self.clear_background_image
        &&& self.status.is_none()
    }

    /// The same actions as `other`, except `close`.
    pub open spec fn same_except_close(&self, other: &Self) -> bool {
        &&& self.apply == other.apply
        &&& self.reset == other.reset
        &&& self.reload == other.reload
        &&& self.choose_editor_font == other.choose_editor_font
        &&& self.clear_editor_font == other.clear_editor_font
        &&& self.choose_ui_font == other.choose_ui_font
        &&& self.clear_ui_font == other.clear_ui_font
        &&& self.choose_background_image == other.choose_background_image
        &&& self.clear_background_image == other.clear_background_image
        &&& self.status == other.status
    }
}

impl Default for PendingSettingsPanelActions {
    fn default() -> (actions: Self)
        ensures
            actions.is_idle(),
    {
        PendingSettingsPanelActions {
            apply: false,
            reset: false,
            reload: false,
            close: false,
            choose_editor_font: false,
            clear_editor_font: false,
            choose_ui_font: false,
            clear_ui_font: false,
            choose_background_image: false,
            clear_background_image: false,
            status: None,
        }
    }
}

/// The close button reads "Cancel" while there are unapplied edits.
pub fn settings_panel_close_button_label(has_pending_inputs: bool) -> (label: &'static str)
    ensures
        label@ == (if has_pending_inputs { "Cancel"@ } else { "Close"@ }),
{
    if has_pending_inputs {
        "Cancel"
    } else {
        "Close"
    }
}

/// The close button's hover text.
pub fn settings_panel_close_button_hover_text(has_pending_inputs: bool) -> (text: &'static str)
    ensures
        text@ == (if has_pending_inputs {
            "Close settings without applying changes"@
        } else {
            "Close settings"@
        }),
{
    if has_pending_inputs {
        "Close settings without applying changes"
    } else {
        "Close settings"
    }
}

/// Nothing but white space (`str::trim` leaves it empty).
pub open spec fn is_blank_spec(s: Seq<char>) -> bool {
    forall|i: int| 0 <= i < s.len() ==> #[trigger] whitespace_spec(s[i])
}

/// Whether `s` trims to the empty string.
pub fn is_blank(s: &str) -> (blank: bool)
    ensures
        blank == is_blank_spec(s@),
{
    let n = s.unicode_len();
    let mut i: usize = 0;
    while i < n
        invariant
            n == s@.len(),
            i <= n,
            forall|j: int| 0 <= j < i ==> #[trigger] whitespace_spec(s@[j]),
        decreases n - i,
    {
        if !is_whitespace_char(s.get_char(i)) {
            return false;
        }
        i = i + 1;
    }
    true
}

/// The state a dismissal (Escape with a blank query, or a click outside the
/// panel) leads to: with unapplied edits and no armed confirmation it arms
/// the confirmation; otherwise it disarms it and closes.
pub open spec fn dismiss_post(close: bool, confirmed: bool, has_pending_inputs: bool) -> (bool, bool) {
    if has_pending_inputs && !confirmed {
        (close, true)
    } else {
        (true, false)
    }
}

/// Escape in the settings panel: a non-blank search query is cleared first;
/// otherwise the panel is dismissed as `dismiss_post` says.
pub fn apply_settings_panel_escape(
    search_query: &mut String,
    actions: &mut PendingSettingsPanelActions,
    discard_confirmed: &mut bool,
    has_pending_inputs: bool,
)
    ensures
        final(actions).same_except_close(&*old(actions)),
        !is_blank_spec(old(search_query)@) ==> {
            &&& final(search_query)@.len() == 0
            &&& final(actions).close == old(actions).close
            &&& *final(discard_confirmed) == *old(discard_confirmed)
        },
        is_blank_spec(old(search_query)@) ==> {
            &&& final(search_query)@ == old(search_query)@
            &&& (final(actions).close, *final(discard_confirmed))
                == dismiss_post(old(actions).close, *old(discard_confirmed), has_pending_inputs)
        },
{
    if !is_blank(search_query.as_str()) {
        *search_query = String::new();
        return;
    }
    if has_pending_inputs && !*discard_confirmed {
        *discard_confirmed = true;
        return;
    }
    *discard_confirmed = false;
    actions.close = true;
}

/// A click outside the settings panel dismisses it as `dismiss_post` says.
pub fn apply_settings_panel_outside_click(
    actions: &mut PendingSettingsPanelActions,
    discard_confirmed: &mut bool,
    has_pending_inputs: bool,
)
    ensures
        final(actions).same_except_close(&*old(actions)),
        (final(actions).close, *final(discard_confirmed))
            == dismiss_post(old(actions).close, *old(discard_confirmed), has_pending_inputs),
{
    if has_pending_inputs && !*discard_confirmed {
        *discard_confirmed = true;
        return;
    }
    *discard_confirmed = false;
    actions.close = true;
}

/// With unapplied edits, the first dismissal only arms the confirmation and
/// the second one closes the panel and disarms it; without unapplied edits a
/// single dismissal closes it.
pub proof fn lemma_dismiss_needs_confirmation_only_with_pending_inputs(has_pending_inputs: bool)
    ensures
        has_pending_inputs ==> dismiss_post(false, false, true) == (false, true),
        has_pending_inputs ==> {
            let first = dismiss_post(false, false, true);
            dismiss_post(first.0, first.1, true) == (true, false)
        },
        dismiss_post(false, false, false) == (true, false),
        forall|close: bool, confirmed: bool| #[trigger] dismiss_post(close, confirmed, has_pending_inputs).0
            ==> (close || confirmed || !has_pending_inputs),
{
}

/// Escape is left to the Vim key capture while it is active.
pub fn settings_panel_escape_should_apply(vim_capture_active: bool) -> (apply: bool)
    ensures
        apply == !vim_capture_active,
{
    !vim_capture_active
}

/// The search field is disabled while a Vim key is captured.
pub fn settings_search_enabled(vim_capture_active: bool) -> (enabled: bool)
    ensures
        enabled == !vim_capture_active,
{
    !vim_capture_active
}

/// Section navigation is disabled while a Vim key is captured.
pub fn settings_panel_navigation_enabled(vim_capture_active: bool) -> (enabled: bool)
    ensures
        enabled == !vim_capture_active,
{
    !vim_capture_active
}

/// The footer buttons are disabled while a Vim key is captured.
pub fn settings_panel_footer_actions_enabled(vim_capture_active: bool) -> (enabled: bool)
    ensures
        enabled == !vim_capture_active,
{
    !vim_capture_active
}

/// Whether `id` is in the disabled-plugin list.
pub fn plugin_is_disabled(disabled_ids: &[String], id: &str) -> (disabled: bool)
    ensures
        disabled == strs_view(disabled_ids@).contains(id@),
{
    let mut i: usize = 0;
    while i < disabled_ids.len()
        invariant
            i <= disabled_ids@.len(),
            forall|j: int| 0 <= j < i ==> #[trigger] disabled_ids@[j]@ != id@,
        decreases disabled_ids.len() - i,
    {
        if str_equal(disabled_ids[i].as_str(), id) {
            assert(strs_view(disabled_ids@)[i as int] == id@);
            return true;
        }
        i = i + 1;
    }
    proof {
        assert forall|j: int| 0 <= j < strs_view(disabled_ids@).len()
            implies #[trigger] strs_view(disabled_ids@)[j] != id@ by {
            assert(strs_view(disabled_ids@)[j] == disabled_ids@[j]@);
        }
    }
    false
}

/// Disabling adds `id` once; enabling removes every occurrence of it.
pub fn set_plugin_disabled(disabled_ids: &mut Vec<String>, id: &str, disabled: bool)
    ensures
        strs_view(final(disabled_ids)@) == (if disabled {
            if strs_view(old(disabled_ids)@).contains(id@) {
                strs_view(old(disabled_ids)@)
            } else {
                strs_view(old(disabled_ids)@).push(id@)
            }
        } else {
            without_str(strs_view(old(disabled_ids)@), id@)
        }),
{
    if disabled {
        if !plugin_is_disabled(disabled_ids.as_slice(), id) {
            let ghost before = disabled_ids@;
            disabled_ids.push(id.to_owned());
            assert(strs_view(disabled_ids@) =~= strs_view(before).push(id@));
        }
    } else {
        remove_from_order(disabled_ids, id);
    }
}

/// Switching sections drops the highlighted and pending-scroll search
/// targets; leaving the Vim section also ends a key capture, which the
/// returned flag asks the caller to do. Staying on the same section changes
/// nothing.
pub fn apply_settings_panel_section_change(
    previous_section: usize,
    current_section: usize,
    highlighted_target: &mut Option<String>,
    pending_scroll_target: &mut Option<String>,
) -> (clear_vim_capture: bool)
    ensures
        previous_section == current_section ==> {
            &&& !clear_vim_capture
            &&& *final(highlighted_target) == *old(highlighted_target)
            &&& *final(pending_scroll_target) == *old(pending_scroll_target)
        },
        previous_section != current_section ==> {
            &&& clear_vim_capture == (previous_section == SETTINGS_SECTION_VIM)
            &&& *final(highlighted_target) is None
            &&& *final(pending_scroll_target) is None
        },
{
    if previous_section == current_section {
        return false;
    }
    *highlighted_target = None;
    *pending_scroll_target = None;
    previous_section == SETTINGS_SECTION_VIM
}

/// A restored section index is kept inside the section list.
pub fn clamp_settings_panel_section(section: usize) -> (clamped: usize)
    ensures
        clamped == (if section < SETTINGS_SECTION_COUNT { section } else { (SETTINGS_SECTION_COUNT - 1) as usize }),
{
    if section < SETTINGS_SECTION_COUNT {
        section
    } else {
        SETTINGS_SECTION_COUNT - 1
    }
}

/// The prompt shown in the footer while a discard waits for confirmation.
pub const SETTINGS_CONFIRM_DISCARD_PROMPT: &'static str = "Unsaved changes \u{2014} click again to discard";

/// What the footer offers: whether the discard prompt replaces the draft
/// message, and which of Apply, Reset, Reload and Close/Cancel are enabled.
#[derive(Debug, Clone, Copy, PartialEq, Eq)]
pub struct SettingsPanelFooter {
    pub show_discard_prompt: bool,
    pub apply_enabled: bool,
    pub reset_enabled: bool,
    pub reload_enabled: bool,
    pub close_enabled: bool,
}

/// The footer state: the discard prompt shows while a discard is armed and
/// there is something to discard; Apply needs pending inputs, Reset needs
/// pending inputs or settings that differ from the defaults; all actions are
/// off while a Vim key is being captured.
pub fn settings_panel_footer(
    vim_capture_active: bool,
    has_pending_inputs: bool,
    confirm_discard_armed: bool,
    defaults_differ: bool,
) -> (footer: SettingsPanelFooter)
    ensures
        footer == (SettingsPanelFooter {
            show_discard_prompt: confirm_discard_armed && has_pending_inputs,
            apply_enabled: !vim_capture_active && has_pending_inputs,
            reset_enabled: !vim_capture_active && (has_pending_inputs || defaults_differ),
            reload_enabled: !vim_capture_active,
            close_enabled: !vim_capture_active,
        }),
{
    let actions_enabled = settings_panel_footer_actions_enabled(vim_capture_active);
    SettingsPanelFooter {
        show_discard_prompt: confirm_discard_armed && has_pending_inputs,
        apply_enabled: actions_enabled && has_pending_inputs,
        reset_enabled: actions_enabled && (has_pending_inputs || defaults_differ),
        reload_enabled: actions_enabled,
        close_enabled: actions_enabled,
    }
}

/// Which settings target is highlighted, and which one the panel should
/// scroll to once it is laid out.
pub struct SettingsHighlightState {
    pub active_target: Option<String>,
    /// `None` when this state does not scroll at all; otherwise the target
    /// still waiting to be scrolled to, if any.
    pub pending_scroll_target: Option<Option<String>>,
}

/// What laying out one target does.
#[derive(Debug, Clone, Copy, PartialEq, Eq, Structural)]
pub struct SettingsTargetMark {
    /// Scroll the target into view.
    pub scroll_to: bool,
    /// Paint the highlight behind the target.
    pub highlight: bool,
}

impl SettingsHighlightState {
    /// Highlights `active_target` and scrolls to `pending_scroll_target`.
    pub fn new(active_target: Option<String>, pending_scroll_target: Option<String>) -> (state: Self)
        ensures
            state.active_target == active_target,
            state.pending_scroll_target == Some(pending_scroll_target),
    {
        SettingsHighlightState { active_target, pending_scroll_target: Some(pending_scroll_target) }
    }

    /// Highlights nothing and never scrolls.
    pub fn disabled() -> (state: Self)
        ensures
            state.active_target is None,
            state.pending_scroll_target is None,
    {
        SettingsHighlightState { active_target: None, pending_scroll_target: None }
    }

    /// Laying out `target`: it is scrolled to when it is the pending scroll
    /// target, which is then consumed, and highlighted when it is the active
    /// target.
    pub fn mark_target(&mut self, target: &str) -> (mark: SettingsTargetMark)
        ensures
            mark.scroll_to == (old(self).pending_scroll_target matches Some(Some(p)) && p@ == target@),
            mark.highlight == (old(self).active_target matches Some(a) && a@ == target@),
            final(self).active_target == old(self).active_target,
            final(self).pending_scroll_target == (if mark.scroll_to {
                Some(None::<String>)
            } else {
                old(self).pending_scroll_target
            }),
    {
        let scroll_to = match &self.pending_scroll_target {
            Some(Some(pending)) => str_equal(pending.as_str(), target),
            _ => false,
        };
        if scroll_to {
            self.pending_scroll_target = Some(None);
        }
        let highlight = match &self.active_target {
            Some(active) => str_equal(active.as_str(), target),
            None => false,
        };
        SettingsTargetMark { scroll_to, highlight }
    }
}

} // verus!
