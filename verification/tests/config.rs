use k_launcher::config::{
    BuiltinPlugin, ExternalPluginCfg, LoggingCfg, PluginsCfg, SearchCfg, TerminalCfg,
};

#[test]
fn search_defaults() {
    let s = SearchCfg::default();
    assert_eq!(s.max_results, 8);
    assert_eq!(s.debounce_ms, 50);
    assert_eq!(s.frecency_compact_threshold, 50);
}

#[test]
fn plugin_defaults_enable_everything() {
    let p = PluginsCfg::default();
    assert!(p.calc && p.cmd && p.files && p.apps);
    assert!(p.external.is_empty());
    assert_eq!(
        p.builtin_plugins(),
        vec![BuiltinPlugin::Cmd, BuiltinPlugin::Calc, BuiltinPlugin::Files, BuiltinPlugin::Apps]
    );
}

#[test]
fn disabled_builtins_are_skipped() {
    let p = PluginsCfg { calc: false, cmd: true, files: false, apps: true, external: vec![] };
    assert_eq!(p.builtin_plugins(), vec![BuiltinPlugin::Cmd, BuiltinPlugin::Apps]);
}

#[test]
fn other_defaults() {
    assert_eq!(LoggingCfg::default().max_log_files, 7);
    assert!(TerminalCfg::default().cmd.is_none());
    let e = ExternalPluginCfg::default();
    assert_eq!(e.timeout_secs, 5);
    assert!(e.name.is_empty() && e.path.is_empty() && e.args.is_empty());
}
