use kuroya_logic::git_repos::{
    git_open_parent_repositories, git_scan_root_is_cacheable, GitAutoRepositoryDetection,
    GitOpenRepositoryInParentFolders,
};
use kuroya_logic::repository_scan::{git_repository_for_open_editor_candidates, RepositoryScan};

/// A folder tree in memory: each folder, its child folders in listed order,
/// and whether it holds a `.git` marker.
struct Tree(Vec<(&'static str, Vec<&'static str>, bool)>);

impl Tree {
    fn children(&self, folder: &str, max_children: usize) -> Vec<(String, bool)> {
        let entry = self.0.iter().find(|(name, _, _)| *name == folder);
        let names = entry.map(|(_, children, _)| children.clone()).unwrap_or_default();
        names
            .into_iter()
            .take(max_children)
            .map(|child| (child.to_string(), self.has_marker(child)))
            .collect()
    }

    fn has_marker(&self, folder: &str) -> bool {
        self.0.iter().any(|(name, _, marker)| *name == folder && *marker)
    }

    fn search(
        &self,
        root: &str,
        max_depth: usize,
        ignored: &[String],
        max_children: usize,
        max_visited: usize,
    ) -> Option<String> {
        let mut scan = RepositoryScan::start(root, max_depth, max_children, max_visited);
        while let Some(folder) = scan.next_folder() {
            let children = self.children(&folder, max_children);
            if let Some(found) = scan.children_listed(children, ignored) {
                return Some(found);
            }
        }
        None
    }
}

#[test]
fn git_subfolder_scan_respects_visited_folder_limit() {
    let tree = Tree(vec![
        ("root", vec!["root/a"], false),
        ("root/a", vec!["root/a/nested"], false),
        ("root/a/nested", vec![], true),
    ]);

    assert_eq!(tree.search("root", 3, &[], 16, 1), None);
    assert_eq!(tree.search("root", 3, &[], 16, 4), Some("root/a/nested".to_string()));
}

#[test]
fn repository_scan_visits_children_in_listed_order_depth_first() {
    let tree = Tree(vec![
        ("root", vec!["root/a", "root/b"], false),
        ("root/a", vec!["root/a/deep"], false),
        ("root/a/deep", vec![], true),
        ("root/b", vec![], true),
    ]);

    // All children of a folder are checked for markers before the search
    // descends into the first of them.
    assert_eq!(tree.search("root", 3, &[], 16, 100), Some("root/b".to_string()));

    let tree = Tree(vec![
        ("root", vec!["root/a", "root/b"], false),
        ("root/a", vec!["root/a/deep"], false),
        ("root/a/deep", vec![], true),
        ("root/b", vec!["root/b/deep"], false),
        ("root/b/deep", vec![], true),
    ]);
    assert_eq!(tree.search("root", 3, &[], 16, 100), Some("root/a/deep".to_string()));
}

#[test]
fn repository_scan_stops_at_the_depth_limit() {
    let tree = Tree(vec![
        ("root", vec!["root/a"], false),
        ("root/a", vec!["root/a/b"], false),
        ("root/a/b", vec![], true),
    ]);

    assert_eq!(tree.search("root", 1, &[], 16, 100), None);
    assert_eq!(tree.search("root", 2, &[], 16, 100), Some("root/a/b".to_string()));
}

#[test]
fn repository_scan_skips_ignored_folders() {
    let tree = Tree(vec![
        ("root", vec!["root/node_modules", "root/src"], false),
        ("root/node_modules", vec![], true),
        ("root/src", vec![], true),
    ]);

    assert_eq!(
        tree.search("root", 2, &["node_modules".to_string()], 16, 100),
        Some("root/src".to_string())
    );
}

#[test]
fn repository_scan_with_a_zero_limit_finds_nothing() {
    let tree = Tree(vec![("root", vec!["root/a"], false), ("root/a", vec![], true)]);

    assert_eq!(tree.search("root", 0, &[], 16, 100), None);
    assert_eq!(tree.search("root", 2, &[], 0, 100), None);
    assert_eq!(tree.search("root", 2, &[], 16, 0), None);
    assert_eq!(tree.search("root", 2, &[], 16, 100), Some("root/a".to_string()));
}

#[test]
fn git_parent_repository_policy_matches_vs_code_setting_values() {
    assert!(git_open_parent_repositories(GitOpenRepositoryInParentFolders::Always));
    assert!(git_open_parent_repositories(GitOpenRepositoryInParentFolders::Prompt));
    assert!(!git_open_parent_repositories(GitOpenRepositoryInParentFolders::Never));
}

#[test]
fn git_scan_root_is_cached_only_for_searching_modes() {
    assert!(git_scan_root_is_cacheable(GitAutoRepositoryDetection::SubFolders));
    assert!(git_scan_root_is_cacheable(GitAutoRepositoryDetection::OpenEditors));
    assert!(!git_scan_root_is_cacheable(GitAutoRepositoryDetection::True));
    assert!(!git_scan_root_is_cacheable(GitAutoRepositoryDetection::False));
}

fn repository_for_open_editor(root: &str, path: &str, ignored: &[String], markers: &[&str]) -> Option<String> {
    git_repository_for_open_editor_candidates(root, path, false, ignored)
        .into_iter()
        .find(|folder| markers.contains(&folder.as_str()))
}

#[test]
fn git_open_editor_detection_walks_up_to_the_workspace_root() {
    let root = "/tmp/kuroya-auto-repo/workspace";
    let source = "/tmp/kuroya-auto-repo/workspace/packages/app/src/main.rs";

    assert_eq!(
        git_repository_for_open_editor_candidates(root, source, false, &[]),
        vec![
            "/tmp/kuroya-auto-repo/workspace/packages/app/src",
            "/tmp/kuroya-auto-repo/workspace/packages/app",
            "/tmp/kuroya-auto-repo/workspace/packages",
            "/tmp/kuroya-auto-repo/workspace",
        ]
    );
    let markers = ["/tmp/kuroya-auto-repo/workspace/packages/app"];
    assert_eq!(
        repository_for_open_editor(root, source, &[], &markers),
        Some("/tmp/kuroya-auto-repo/workspace/packages/app".to_owned())
    );
    assert_eq!(repository_for_open_editor(root, source, &["packages".to_owned()], &markers), None);
    assert_eq!(
        git_repository_for_open_editor_candidates(root, source, false, &["packages".to_owned()]),
        vec!["/tmp/kuroya-auto-repo/workspace"]
    );
}

#[test]
fn git_open_editor_detection_ignores_paths_outside_workspace() {
    let root = "/tmp/kuroya-open-editor-outside/workspace";
    let source = "/tmp/kuroya-open-editor-outside/outside_repo/src/main.rs";

    assert!(git_repository_for_open_editor_candidates(root, source, false, &[]).is_empty());
    assert_eq!(
        repository_for_open_editor(root, source, &[], &["/tmp/kuroya-open-editor-outside/outside_repo"]),
        None
    );
}

#[test]
fn git_open_editor_detection_starts_at_an_open_folder() {
    assert_eq!(
        git_repository_for_open_editor_candidates("ws", "ws/lib", true, &[]),
        vec!["ws/lib", "ws"]
    );
}
