use kuroya_logic::workspace_plugins::{
    filter_disabled_workspace_plugins, plugin_id_disabled, PluginDescriptor,
};

fn test_plugin_descriptor(id: &str) -> PluginDescriptor {
    PluginDescriptor { root: format!(".kuroya/plugins/{id}"), id: id.to_owned() }
}

#[test]
fn disabled_plugin_ids_filter_discovered_descriptors() {
    let mut plugins = vec![
        test_plugin_descriptor("alpha.plugin"),
        test_plugin_descriptor("beta.plugin"),
        test_plugin_descriptor("gamma.plugin"),
    ];

    let removed = filter_disabled_workspace_plugins(
        &mut plugins,
        &["beta.plugin".to_owned(), "missing.plugin".to_owned()],
    );

    assert_eq!(removed, 1);
    assert_eq!(
        plugins.iter().map(|plugin| plugin.id.as_str()).collect::<Vec<_>>(),
        ["alpha.plugin", "gamma.plugin"]
    );
    assert_eq!(filter_disabled_workspace_plugins(&mut plugins, &[]), 0);
    assert_eq!(
        filter_disabled_workspace_plugins(&mut plugins, &["alpha.plugin".to_owned()]),
        1
    );
}

#[test]
fn disabled_plugin_ids_match_the_trimmed_manifest_id() {
    assert!(plugin_id_disabled(&["beta.plugin".to_owned()], "  beta.plugin\t"));
    assert!(!plugin_id_disabled(&[" beta.plugin".to_owned()], "beta.plugin"));

    let mut plugins = vec![test_plugin_descriptor(" beta.plugin "), test_plugin_descriptor("gamma")];
    assert_eq!(filter_disabled_workspace_plugins(&mut plugins, &["beta.plugin".to_owned()]), 1);
    assert_eq!(plugins, vec![test_plugin_descriptor("gamma")]);
}
