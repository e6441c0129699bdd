//! Discovered workspace plugins and the ids the user disabled.
use vstd::prelude::*;
use vstd::string::*;
use crate::settings_text::{trim_spec, trim_string_in_place};
use crate::session_save::strs_view;
use crate::text::str_equal;

verus! {

/// A plugin found in the workspace: the folder it was found in and the id
/// its manifest declares.
#[derive(Debug, Clone, PartialEq, Eq)]
pub struct PluginDescriptor {
    pub root: String,
    pub id: String,
}

/// The manifest id `id` is disabled: some disabled entry equals it once its
/// surrounding white space is trimmed.
pub open spec fn id_disabled(disabled: Seq<Seq<char>>, id: Seq<char>) -> bool {
    exists|j: int| 0 <= j < disabled.len() && #[trigger] disabled[j] == trim_spec(id)
}

/// The plugins of `plugins` that are not disabled, in their order.
pub open spec fn kept_plugins(plugins: Seq<PluginDescriptor>, disabled: Seq<Seq<char>>) -> Seq<PluginDescriptor>
    decreases plugins.len(),
{
    if plugins.len() == 0 {
        seq![]
    } else {
        let kept = kept_plugins(plugins.drop_last(), disabled);
        if id_disabled(disabled, plugins.last().id@) {
            kept
        } else {
            kept.push(plugins.last())
        }
    }
}

/// Whether some entry of `disabled_ids` equals the trimmed manifest id.
pub fn plugin_id_disabled(disabled_ids: &[String], id: &str) -> (disabled: bool)
    ensures
        disabled == id_disabled(strs_view(disabled_ids@), id@),
{
    let mut trimmed = String::from_str(id);
    trim_string_in_place(&mut trimmed);
    let ghost ids = strs_view(disabled_ids@);
    let mut j: usize = 0;
    while j < disabled_ids.len()
        invariant
            j <= disabled_ids@.len(),
            ids == strs_view(disabled_ids@),
            trimmed@ == trim_spec(id@),
            forall|k: int| 0 <= k < j ==> ids[k] != trimmed@,
        decreases disabled_ids.len() - j,
    {
        if str_equal(disabled_ids[j].as_str(), trimmed.as_str()) {
            assert(ids[j as int] == trim_spec(id@));
            return true;
        }
        j = j + 1;
    }
    false
}

/// Drops the plugins whose manifest id is disabled and returns how many were
/// dropped; the others keep their order.
pub fn filter_disabled_workspace_plugins(
    plugins: &mut Vec<PluginDescriptor>,
    disabled_ids: &[String],
) -> (removed: usize)
    ensures
        final(plugins)@ == kept_plugins(old(plugins)@, strs_view(disabled_ids@)),
        removed == old(plugins)@.len() - final(plugins)@.len(),
{
    let ghost all = plugins@;
    let ghost disabled = strs_view(disabled_ids@);
    if disabled_ids.len() == 0 {
        proof {
            lemma_nothing_disabled_keeps_all(all, disabled);
        }
        return 0;
    }
    let before = plugins.len();
    let mut rest: Vec<PluginDescriptor> = Vec::new();
    std::mem::swap(plugins, &mut rest);
    let mut i: usize = 0;
    assert(all.subrange(0, 0) =~= Seq::<PluginDescriptor>::empty());
    assert(rest@ =~= all.subrange(0, all.len() as int));
    while rest.len() > 0
        invariant
            i <= all.len(),
            rest@ == all.subrange(i as int, all.len() as int),
            plugins@ == kept_plugins(all.subrange(0, i as int), disabled),
            plugins@.len() <= i,
            disabled == strs_view(disabled_ids@),
            before == all.len(),
        decreases rest.len(),
    {
        let plugin = rest.remove(0);
        assert(plugin == all[i as int]);
        assert(all.subrange(0, i + 1).drop_last() =~= all.subrange(0, i as int));
        assert(all.subrange(0, i + 1).last() == all[i as int]);
        if !plugin_id_disabled(disabled_ids, plugin.id.as_str()) {
            plugins.push(plugin);
        }
        i = i + 1;
        assert(rest@ =~= all.subrange(i as int, all.len() as int));
    }
    assert(all.subrange(0, i as int) =~= all);
    before - plugins.len()
}

/// With no disabled id, every plugin is kept.
pub proof fn lemma_nothing_disabled_keeps_all(plugins: Seq<PluginDescriptor>, disabled: Seq<Seq<char>>)
    requires
        disabled.len() == 0,
    ensures
        kept_plugins(plugins, disabled) == plugins,
    decreases plugins.len(),
{
    if plugins.len() > 0 {
        lemma_nothing_disabled_keeps_all(plugins.drop_last(), disabled);
        assert(plugins.drop_last().push(plugins.last()) =~= plugins);
    }
}

} // verus!
