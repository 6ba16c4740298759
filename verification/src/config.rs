//! Configuration sections that the launcher's logic reads, with their
//! defaults. Every field is optional in the configuration file; a missing
//! field takes the default given here.

use vstd::prelude::*;

verus! {

/// How searching behaves.
#[derive(Debug, Clone)]
pub struct SearchCfg {
    pub max_results: usize,
    pub debounce_ms: u64,
    pub frecency_compact_threshold: usize,
}

impl Default for SearchCfg {
    fn default() -> (c: Self)
        ensures
            c.max_results == 8,
            c.debounce_ms == 50,
            c.frecency_compact_threshold == 50,
    {
        SearchCfg { max_results: 8, debounce_ms: 50, frecency_compact_threshold: 50 }
    }
}

/// How many log files are kept.
#[derive(Debug, Clone)]
pub struct LoggingCfg {
    pub max_log_files: usize,
}

impl Default for LoggingCfg {
    fn default() -> (c: Self)
        ensures
            c.max_log_files == 7,
    {
        LoggingCfg { max_log_files: 7 }
    }
}

/// The terminal command line used for terminal commands, if any.
#[derive(Debug, Clone)]
pub struct TerminalCfg {
    pub cmd: Option<String>,
}

impl Default for TerminalCfg {
    fn default() -> (c: Self)
        ensures
            c.cmd is None,
    {
        TerminalCfg { cmd: None }
    }
}

/// A plugin that runs as a separate program and answers over its standard
/// input and output.
#[derive(Debug, Clone)]
pub struct ExternalPluginCfg {
    pub name: String,
    pub path: String,
    pub args: Vec<String>,
    pub timeout_secs: u64,
}

impl Default for ExternalPluginCfg {
    fn default() -> (c: Self)
        ensures
            c.name@ == Seq::<char>::empty(),
            c.path@ == Seq::<char>::empty(),
            c.args@ == Seq::<String>::empty(),
            c.timeout_secs == 5,
    {
        ExternalPluginCfg { name: String::new(), path: String::new(), args: Vec::new(), timeout_secs: 5 }
    }
}

/// Which plugins run.
#[derive(Debug, Clone)]
pub struct PluginsCfg {
    pub calc: bool,
    pub cmd: bool,
    pub files: bool,
    pub apps: bool,
    pub external: Vec<ExternalPluginCfg>,
}

impl Default for PluginsCfg {
    fn default() -> (c: Self)
        ensures
            c.calc,
            c.cmd,
            c.files,
            c.apps,
            c.external@ == Seq::<ExternalPluginCfg>::empty(),
    {
        PluginsCfg { calc: true, cmd: true, files: true, apps: true, external: Vec::new() }
    }
}

/// The plugins that ship with the launcher.
#[derive(Debug, Clone, Copy, PartialEq, Eq, Structural)]
pub enum BuiltinPlugin {
    Cmd,
    Calc,
    Files,
    Apps,
}

/// The enabled built-in plugins, in the order in which they are consulted:
/// commands, calculator, files, applications.
pub open spec fn enabled_builtins(cfg: PluginsCfg) -> Seq<BuiltinPlugin> {
    (if cfg.cmd { seq![BuiltinPlugin::Cmd] } else { Seq::empty() })
        + (if cfg.calc { seq![BuiltinPlugin::Calc] } else { Seq::empty() })
        + (if cfg.files { seq![BuiltinPlugin::Files] } else { Seq::empty() })
        + (if cfg.apps { seq![BuiltinPlugin::Apps] } else { Seq::empty() })
}

impl PluginsCfg {
    /// The built-in plugins to start; see [`enabled_builtins`].
    pub fn builtin_plugins(&self) -> (v: Vec<BuiltinPlugin>)
        ensures
            v@ == enabled_builtins(*self),
    {
        let mut v: Vec<BuiltinPlugin> = Vec::new();
        if self.cmd {
            v.push(BuiltinPlugin::Cmd);
        }
        if self.calc {
            v.push(BuiltinPlugin::Calc);
        }
        if self.files {
            v.push(BuiltinPlugin::Files);
        }
        if self.apps {
            v.push(BuiltinPlugin::Apps);
        }
        assert(v@ =~= enabled_builtins(*self));
        v
    }
}

} // verus!
