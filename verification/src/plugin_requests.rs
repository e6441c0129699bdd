//! A workspace plugin asking the editor to open a file: refused without an
//! open folder, and for paths that leave the workspace or name no file.
use vstd::prelude::*;
use vstd::string::*;
use crate::app_state::KuroyaApp;
use crate::background_image::{file_name_chars, file_name_spec};
use crate::labels::{display_path_label, label_spec, DISPLAY_PATH_LABEL_MAX_CHARS};
use crate::text::{push_text, str_chars, string_from_chars};
use crate::watcher::{stays_within_root_spec, workspace_path_stays_within_root_lexically};

verus! {

/// The status when a plugin's file cannot be opened: the plugin id and the
/// file name, each as a bounded single-line label.
pub open spec fn plugin_open_failed_status_spec(plugin_id: Seq<char>, path: Seq<char>) -> Seq<char> {
    "Plugin "@ + label_spec(plugin_id, DISPLAY_PATH_LABEL_MAX_CHARS as nat, "(unnamed)"@)
        + " could not open "@ + label_spec(file_name_spec(path), DISPLAY_PATH_LABEL_MAX_CHARS as nat, "(unnamed)"@)
}

/// The status when a plugin's file cannot be opened (see
/// `plugin_open_failed_status_spec`).
pub fn plugin_open_failed_status(plugin_id: &str, path: &str) -> (status: String)
    ensures
        status@ == plugin_open_failed_status_spec(plugin_id@, path@),
{
    let mut status = String::new();
    push_text(&mut status, "Plugin ");
    let id = display_path_label(plugin_id);
    push_text(&mut status, id.as_str());
    push_text(&mut status, " could not open ");
    let chars = str_chars(path);
    let name_chars = file_name_chars(&chars);
    let name = string_from_chars(name_chars.as_slice());
    let label = display_path_label(name.as_str());
    push_text(&mut status, label.as_str());
    status
}

/// Handles a plugin's request to open `path` (`path_is_file` says whether
/// it names an existing file). Without an open folder the request is dropped
/// and the status says so; a path that leaves the workspace root or names no
/// file is refused with a status naming the plugin and the file; otherwise
/// the path to open is returned. Only the status line changes.
pub fn plugin_open_file_request(
    app: &mut KuroyaApp,
    plugin_id: &str,
    path: &str,
    path_is_file: bool,
) -> (open: Option<String>)
    ensures
        *final(app) == (KuroyaApp { status: final(app).status, ..*old(app) }),
        old(app).workspace_placeholder ==> open is None && final(app).status@ == "No folder open"@,
        !old(app).workspace_placeholder && (!stays_within_root_spec(old(app).workspace_root@, path@) || !path_is_file)
            ==> open is None && final(app).status@ == plugin_open_failed_status_spec(plugin_id@, path@),
        !old(app).workspace_placeholder && stays_within_root_spec(old(app).workspace_root@, path@) && path_is_file
            ==> (open matches Some(p) && p@ == path@ && final(app).status == old(app).status),
{
    if app.workspace_placeholder {
        app.status = String::from_str("No folder open");
        return None;
    }
    if !workspace_path_stays_within_root_lexically(app.workspace_root.as_str(), path) || !path_is_file {
        app.status = plugin_open_failed_status(plugin_id, path);
        return None;
    }
    Some(path.to_owned())
}

} // verus!
