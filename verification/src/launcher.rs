//! Turning a launch action into the processes to start: command-line
//! splitting for programs, terminal selection for terminal commands, and the
//! helper programs used to open paths and fill the clipboard.
//!
//! Starting processes, reading the environment and searching `PATH` happen
//! outside this crate; what they find comes in as a [`TerminalEnv`].

use vstd::prelude::*;

use crate::domain::LaunchAction;
use crate::text::{
    lemma_words_non_empty, shell_split, shell_words, split_words, strs, trim, trimmed, words,
};

verus! {

/// A program and its arguments.
pub struct Invocation {
    pub program: String,
    pub args: Vec<String>,
}

/// A terminal emulator and the flags that make it run a command.
pub struct TerminalCommand {
    pub bin: String,
    pub exec_flag: Vec<String>,
}

/// What the environment says about terminals: the `TERM_CMD` and `TERMINAL`
/// variables, and for each known terminal, in order, whether it is installed.
pub struct TerminalEnv {
    pub term_cmd: Option<String>,
    pub terminal: Option<String>,
    pub installed: Vec<bool>,
}

/// Number of terminal emulators that are looked for when nothing is configured.
pub const KNOWN_TERMINAL_COUNT: usize = 7;

/// The known terminals, in order of preference.
pub open spec fn known_bin(i: int) -> Seq<char> {
    if i == 0 {
        "ghostty"@
    } else if i == 1 {
        "foot"@
    } else if i == 2 {
        "kitty"@
    } else if i == 3 {
        "alacritty"@
    } else if i == 4 {
        "wezterm"@
    } else if i == 5 {
        "konsole"@
    } else {
        "xterm"@
    }
}

/// The flag with which the `i`-th known terminal runs a command.
pub open spec fn known_flag(i: int) -> Seq<char> {
    if i == 4 {
        "start"@
    } else {
        "-e"@
    }
}

/// The `i`-th known terminal and its flag.
pub fn known_terminal(i: usize) -> (r: (&'static str, &'static str))
    requires
        i < KNOWN_TERMINAL_COUNT,
    ensures
        r.0@ == known_bin(i as int),
        r.1@ == known_flag(i as int),
{
    if i == 0 {
        ("ghostty", "-e")
    } else if i == 1 {
        ("foot", "-e")
    } else if i == 2 {
        ("kitty", "-e")
    } else if i == 3 {
        ("alacritty", "-e")
    } else if i == 4 {
        ("wezterm", "start")
    } else if i == 5 {
        ("konsole", "-e")
    } else {
        ("xterm", "-e")
    }
}

/// A terminal command line read as the program and its flags; the program is
/// empty when the line holds no word.
pub open spec fn parsed_terminal(s: Seq<char>) -> (Seq<char>, Seq<Seq<char>>) {
    let w = words(s);
    if w.len() == 0 {
        (Seq::empty(), Seq::empty())
    } else {
        (w[0], w.skip(1))
    }
}

/// The first known terminal at or after `i` that is installed.
pub open spec fn first_installed(installed: Seq<bool>, i: int) -> Option<int>
    decreases KNOWN_TERMINAL_COUNT - i,
{
    if i < 0 || i >= KNOWN_TERMINAL_COUNT || i >= installed.len() {
        None
    } else if installed[i] {
        Some(i)
    } else {
        first_installed(installed, i + 1)
    }
}

pub open spec fn opt_view(o: Option<&str>) -> Option<Seq<char>> {
    match o {
        Some(s) => Some(s@),
        None => None,
    }
}

pub open spec fn opt_string_view(o: Option<String>) -> Option<Seq<char>> {
    match o {
        Some(s) => Some(s@),
        None => None,
    }
}

/// The terminal to use: the configured command line if it holds a word, else
/// `TERM_CMD` (trimmed) if it holds a word, else `TERMINAL` (trimmed, run with
/// `-e`) if not blank, else the first installed known terminal.
pub open spec fn chosen_terminal(
    configured: Option<Seq<char>>,
    term_cmd: Option<Seq<char>>,
    terminal: Option<Seq<char>>,
    installed: Seq<bool>,
) -> Option<(Seq<char>, Seq<Seq<char>>)> {
    if configured is Some && words(configured->0).len() > 0 {
        Some(parsed_terminal(configured->0))
    } else if term_cmd is Some && words(trimmed(term_cmd->0)).len() > 0 {
        Some(parsed_terminal(trimmed(term_cmd->0)))
    } else if terminal is Some && trimmed(terminal->0).len() > 0 {
        Some((trimmed(terminal->0), seq!["-e"@]))
    } else {
        match first_installed(installed, 0) {
            Some(i) => Some((known_bin(i), seq![known_flag(i)])),
            None => None,
        }
    }
}

/// A configured command line that holds a word is used whatever the
/// environment says: its first word is the program, the rest its flags.
pub proof fn lemma_configured_terminal_wins(
    c: Seq<char>,
    term_cmd: Option<Seq<char>>,
    terminal: Option<Seq<char>>,
    installed: Seq<bool>,
)
    requires
        words(c).len() > 0,
    ensures
        chosen_terminal(Some(c), term_cmd, terminal, installed) == Some((words(c)[0], words(c).skip(1))),
{
}

/// Without a usable configured command line, `TERM_CMD` (trimmed) wins over
/// `TERMINAL` and the installed terminals when it holds a word.
pub proof fn lemma_term_cmd_before_terminal(
    configured: Option<Seq<char>>,
    tc: Seq<char>,
    terminal: Option<Seq<char>>,
    installed: Seq<bool>,
)
    requires
        configured is None || words(configured->0).len() == 0,
        words(trimmed(tc)).len() > 0,
    ensures
        chosen_terminal(configured, Some(tc), terminal, installed) == Some(
            (words(trimmed(tc))[0], words(trimmed(tc)).skip(1)),
        ),
        forall|t1: Option<Seq<char>>, t2: Option<Seq<char>>|
            chosen_terminal(configured, Some(tc), t1, installed) == chosen_terminal(
                configured,
                Some(tc),
                t2,
                installed,
            ),
{
}

/// With neither a configured command line nor `TERM_CMD` holding a word, a
/// non-blank `TERMINAL` is used, trimmed, with the flag `-e`.
pub proof fn lemma_terminal_variable(
    configured: Option<Seq<char>>,
    term_cmd: Option<Seq<char>>,
    t: Seq<char>,
    installed: Seq<bool>,
)
    requires
        configured is None || words(configured->0).len() == 0,
        term_cmd is None || words(trimmed(term_cmd->0)).len() == 0,
        trimmed(t).len() > 0,
    ensures
        chosen_terminal(configured, term_cmd, Some(t), installed) == Some((trimmed(t), seq!["-e"@])),
{
}

proof fn lemma_first_installed(installed: Seq<bool>, i: int, k: int)
    requires
        0 <= i <= k,
        k < KNOWN_TERMINAL_COUNT,
        k < installed.len(),
        installed[k],
        forall|j: int| i <= j < k ==> !installed[j],
    ensures
        first_installed(installed, i) == Some(k),
    decreases k - i,
{
    if i < k {
        lemma_first_installed(installed, i + 1, k);
    }
}

proof fn lemma_none_installed(installed: Seq<bool>, i: int)
    requires
        0 <= i,
        forall|j: int| i <= j < KNOWN_TERMINAL_COUNT && j < installed.len() ==> !installed[j],
    ensures
        first_installed(installed, i) is None,
    decreases KNOWN_TERMINAL_COUNT - i,
{
    if i < KNOWN_TERMINAL_COUNT && i < installed.len() {
        lemma_none_installed(installed, i + 1);
    }
}

/// With nothing set, the first installed known terminal is used with its
/// flag, and no terminal at all when none of them is installed.
pub proof fn lemma_known_terminal_fallback(
    configured: Option<Seq<char>>,
    term_cmd: Option<Seq<char>>,
    terminal: Option<Seq<char>>,
    installed: Seq<bool>,
    k: int,
)
    requires
        configured is None || words(configured->0).len() == 0,
        term_cmd is None || words(trimmed(term_cmd->0)).len() == 0,
        terminal is None || trimmed(terminal->0).len() == 0,
    ensures
        0 <= k < KNOWN_TERMINAL_COUNT && k < installed.len() && installed[k] && (forall|j: int|
            0 <= j < k ==> !installed[j]) ==> chosen_terminal(configured, term_cmd, terminal, installed)
            == Some((known_bin(k), seq![known_flag(k)])),
        (forall|j: int| 0 <= j < KNOWN_TERMINAL_COUNT && j < installed.len() ==> !installed[j])
            ==> chosen_terminal(configured, term_cmd, terminal, installed) is None,
{
    if 0 <= k < KNOWN_TERMINAL_COUNT && k < installed.len() && installed[k] && (forall|j: int|
        0 <= j < k ==> !installed[j]) {
        lemma_first_installed(installed, 0, k);
    }
    if forall|j: int| 0 <= j < KNOWN_TERMINAL_COUNT && j < installed.len() ==> !installed[j] {
        lemma_none_installed(installed, 0);
    }
}

/// Reads a terminal command line such as `"kitty -e"`: the first word is the
/// program, the others its flags.
pub fn parse_term_cmd(s: &str) -> (t: TerminalCommand)
    ensures
        t.bin@ == parsed_terminal(s@).0,
        strs(t.exec_flag@) == parsed_terminal(s@).1,
        t.bin@.len() > 0 <==> words(s@).len() > 0,
{
    proof {
        lemma_words_non_empty(s@);
    }
    let mut w = split_words(s);
    if w.len() == 0 {
        TerminalCommand { bin: String::new(), exec_flag: Vec::new() }
    } else {
        let ghost all = w@;
        let bin = w.remove(0);
        assert(w@ =~= all.skip(1));
        assert(strs(w@) =~= strs(all).skip(1));
        TerminalCommand { bin, exec_flag: w }
    }
}

/// Picks the terminal to run commands in; see [`chosen_terminal`].
pub fn resolve_terminal(configured: Option<&str>, env: &TerminalEnv) -> (r: Option<TerminalCommand>)
    ensures
        match chosen_terminal(
            opt_view(configured),
            opt_string_view(env.term_cmd),
            opt_string_view(env.terminal),
            env.installed@,
        ) {
            None => r is None,
            Some((bin, flags)) => r is Some && r->0.bin@ == bin && strs(r->0.exec_flag@) == flags,
        },
{
    if let Some(cmd) = configured {
        let term = parse_term_cmd(cmd);
        if term.bin.as_str().unicode_len() > 0 {
            return Some(term);
        }
    }
    if let Some(val) = &env.term_cmd {
        let val = trim(val.as_str());
        let term = parse_term_cmd(val.as_str());
        if term.bin.as_str().unicode_len() > 0 {
            return Some(term);
        }
    }
    if let Some(val) = &env.terminal {
        let bin = trim(val.as_str());
        if bin.as_str().unicode_len() > 0 {
            let mut exec_flag: Vec<String> = Vec::new();
            exec_flag.push(String::from_str("-e"));
            assert(strs(exec_flag@) =~= seq!["-e"@]);
            return Some(TerminalCommand { bin, exec_flag });
        }
    }
    let n = if env.installed.len() < KNOWN_TERMINAL_COUNT {
        env.installed.len()
    } else {
        KNOWN_TERMINAL_COUNT
    };
    let mut i: usize = 0;
    while i < n
        invariant
            n <= KNOWN_TERMINAL_COUNT,
            n <= env.installed@.len(),
            n == KNOWN_TERMINAL_COUNT || n == env.installed@.len(),
            i <= n,
            first_installed(env.installed@, 0) == first_installed(env.installed@, i as int),
            chosen_terminal(
                opt_view(configured),
                opt_string_view(env.term_cmd),
                opt_string_view(env.terminal),
                env.installed@,
            ) == match first_installed(env.installed@, 0) {
                Some(j) => Some((known_bin(j), seq![known_flag(j)])),
                None => None,
            },
        decreases n - i,
    {
        if env.installed[i] {
            let (bin, flag) = known_terminal(i);
            let mut exec_flag: Vec<String> = Vec::new();
            exec_flag.push(String::from_str(flag));
            assert(strs(exec_flag@) =~= seq![known_flag(i as int)]);
            return Some(TerminalCommand { bin: String::from_str(bin), exec_flag });
        }
        i = i + 1;
    }
    None
}

/// The processes to start for one launch action.
pub enum LaunchPlan {
    /// Start the program in a session of its own, detached from the launcher.
    Detached(Invocation),
    /// Start the program that opens a path.
    Open(Invocation),
    /// Start `primary`; if it cannot be started, start `fallback` and write
    /// `input` to its standard input.
    Copy { primary: Invocation, fallback: Invocation, input: String },
    /// Start nothing.
    Nothing,
}

/// A program and its arguments, as text.
pub open spec fn command(program: Seq<char>, args: Seq<Seq<char>>) -> (Seq<char>, Seq<Seq<char>>) {
    (program, args)
}

pub open spec fn invocation_view(i: Invocation) -> (Seq<char>, Seq<Seq<char>>) {
    (i.program@, strs(i.args@))
}

/// The abstract form of a plan.
pub enum PlanView {
    Detached((Seq<char>, Seq<Seq<char>>)),
    Open((Seq<char>, Seq<Seq<char>>)),
    Copy((Seq<char>, Seq<Seq<char>>), (Seq<char>, Seq<Seq<char>>), Seq<char>),
    Nothing,
}

impl View for LaunchPlan {
    type V = PlanView;

    open spec fn view(&self) -> PlanView {
        match self {
            LaunchPlan::Detached(i) => PlanView::Detached(invocation_view(*i)),
            LaunchPlan::Open(i) => PlanView::Open(invocation_view(*i)),
            LaunchPlan::Copy { primary, fallback, input } => PlanView::Copy(
                invocation_view(*primary),
                invocation_view(*fallback),
                input@,
            ),
            LaunchPlan::Nothing => PlanView::Nothing,
        }
    }
}

/// What launching `action` starts, given the configured terminal command
/// line and the environment:
/// - a program: its command line split into arguments, the first being the
///   program, started detached; nothing for an empty command line;
/// - a terminal command: the chosen terminal with its flags, then
///   `sh -c <command>`, started detached; nothing if no terminal is found;
/// - a path: `xdg-open <path>`;
/// - a value to copy: `wl-copy <value>`, or else `xclip -selection clipboard`
///   fed the value.
pub open spec fn planned(configured: Option<Seq<char>>, env: TerminalEnv, action: LaunchAction) -> PlanView {
    match action {
        LaunchAction::SpawnProcess(cmd) => {
            let w = shell_words(cmd@);
            if w.len() == 0 {
                PlanView::Nothing
            } else {
                PlanView::Detached(command(w[0], w.skip(1)))
            }
        },
        LaunchAction::SpawnInTerminal(cmd) => {
            match chosen_terminal(
                configured,
                opt_string_view(env.term_cmd),
                opt_string_view(env.terminal),
                env.installed@,
            ) {
                None => PlanView::Nothing,
                Some((bin, flags)) => PlanView::Detached(
                    command(bin, flags + seq!["sh"@, "-c"@, cmd@]),
                ),
            }
        },
        LaunchAction::OpenPath(path) => PlanView::Open(command("xdg-open"@, seq![path@])),
        LaunchAction::CopyToClipboard(value) => PlanView::Copy(
            command("wl-copy"@, seq![value@]),
            command("xclip"@, seq!["-selection"@, "clipboard"@]),
            value@,
        ),
    }
}

/// A program action starts its command line as split: the program is the
/// first argument and every other argument follows, in order; an empty
/// command line starts nothing.
pub proof fn lemma_program_plan_uses_whole_command_line(
    configured: Option<Seq<char>>,
    env: TerminalEnv,
    cmd: String,
)
    ensures
        shell_words(cmd@).len() == 0 ==> planned(configured, env, LaunchAction::SpawnProcess(cmd))
            == PlanView::Nothing,
        shell_words(cmd@).len() > 0 ==> (planned(configured, env, LaunchAction::SpawnProcess(cmd)) matches PlanView::Detached(
            (program, args),
        ) && seq![program] + args == shell_words(cmd@) && args.len() + 1 == shell_words(cmd@).len()),
{
    let w = shell_words(cmd@);
    if w.len() > 0 {
        assert(seq![w[0]] + w.skip(1) =~= w);
    }
}

/// A terminal action starts the chosen terminal with its flags, followed by
/// `sh`, `-c` and the whole command as one argument; without a terminal it
/// starts nothing.
pub proof fn lemma_terminal_plan_runs_command_through_sh(
    configured: Option<Seq<char>>,
    env: TerminalEnv,
    cmd: String,
)
    ensures
        ({
            let chosen = chosen_terminal(
                configured,
                opt_string_view(env.term_cmd),
                opt_string_view(env.terminal),
                env.installed@,
            );
            let p = planned(configured, env, LaunchAction::SpawnInTerminal(cmd));
            &&& chosen is None ==> p == PlanView::Nothing
            &&& chosen matches Some((bin, flags)) ==> (p matches PlanView::Detached((program, args))
                && program == bin && args.len() == flags.len() + 3 && args.take(flags.len() as int)
                == flags && args[flags.len() as int] == "sh"@ && args[flags.len() + 1int] == "-c"@
                && args[flags.len() + 2int] == cmd@)
        }),
{
    let chosen = chosen_terminal(
        configured,
        opt_string_view(env.term_cmd),
        opt_string_view(env.terminal),
        env.installed@,
    );
    if let Some((bin, flags)) = chosen {
        let args = flags + seq!["sh"@, "-c"@, cmd@];
        assert(args.take(flags.len() as int) =~= flags);
    }
}

/// Opening a path passes the path, unchanged, as the only argument of
/// `xdg-open`; copying passes the value to `wl-copy` as its only argument and
/// to the fallback as its input.
pub proof fn lemma_open_and_copy_pass_the_value(
    configured: Option<Seq<char>>,
    env: TerminalEnv,
    value: String,
)
    ensures
        planned(configured, env, LaunchAction::OpenPath(value)) matches PlanView::Open((program, args))
            && program == "xdg-open"@ && args.len() == 1 && args[0] == value@,
        planned(configured, env, LaunchAction::CopyToClipboard(value)) matches PlanView::Copy(
            (primary, pargs),
            (fallback, fargs),
            input,
        ) && primary == "wl-copy"@ && pargs.len() == 1 && pargs[0] == value@ && fallback == "xclip"@
            && input == value@,
{
}

/// Launches actions on a Unix desktop, running terminal commands in the
/// configured terminal when there is one.
pub struct UnixAppLauncher {
    terminal_cmd: Option<String>,
}

impl UnixAppLauncher {
    pub closed spec fn configured_terminal(&self) -> Option<Seq<char>> {
        opt_string_view(self.terminal_cmd)
    }

    pub fn new(terminal_cmd: Option<String>) -> (l: UnixAppLauncher)
        ensures
            l.configured_terminal() == opt_string_view(terminal_cmd),
    {
        UnixAppLauncher { terminal_cmd }
    }

    pub fn terminal_cmd(&self) -> (c: Option<&str>)
        ensures
            opt_view(c) == self.configured_terminal(),
    {
        match &self.terminal_cmd {
            Some(c) => Some(c.as_str()),
            None => None,
        }
    }

    /// The processes to start for `action`; see [`planned`].
    pub fn plan(&self, action: &LaunchAction, env: &TerminalEnv) -> (p: LaunchPlan)
        ensures
            p@ == planned(self.configured_terminal(), *env, *action),
    {
        match action {
            LaunchAction::SpawnProcess(cmd) => match program_invocation(cmd.as_str()) {
                Some(inv) => LaunchPlan::Detached(inv),
                None => LaunchPlan::Nothing,
            },
            LaunchAction::SpawnInTerminal(cmd) => {
                match resolve_terminal(self.terminal_cmd(), env) {
                    Some(term) => LaunchPlan::Detached(terminal_invocation(term, cmd.as_str())),
                    None => LaunchPlan::Nothing,
                }
            },
            LaunchAction::OpenPath(path) => {
                let mut args: Vec<String> = Vec::new();
                args.push(path.clone());
                assert(strs(args@) =~= seq![path@]);
                LaunchPlan::Open(Invocation { program: String::from_str("xdg-open"), args })
            },
            LaunchAction::CopyToClipboard(value) => {
                let mut args: Vec<String> = Vec::new();
                args.push(value.clone());
                assert(strs(args@) =~= seq![value@]);
                let mut xclip_args: Vec<String> = Vec::new();
                xclip_args.push(String::from_str("-selection"));
                xclip_args.push(String::from_str("clipboard"));
                assert(strs(xclip_args@) =~= seq!["-selection"@, "clipboard"@]);
                LaunchPlan::Copy {
                    primary: Invocation { program: String::from_str("wl-copy"), args },
                    fallback: Invocation { program: String::from_str("xclip"), args: xclip_args },
                    input: value.clone(),
                }
            },
        }
    }
}

impl Default for UnixAppLauncher {
    fn default() -> (l: Self)
        ensures
            l.configured_terminal() is None,
    {
        UnixAppLauncher::new(None)
    }
}

/// A command line as a program and its arguments; `None` when it holds no
/// argument.
pub fn program_invocation(cmd: &str) -> (r: Option<Invocation>)
    ensures
        match r {
            None => shell_words(cmd@).len() == 0,
            Some(i) => shell_words(cmd@).len() > 0 && invocation_view(i) == command(
                shell_words(cmd@)[0],
                shell_words(cmd@).skip(1),
            ),
        },
{
    let mut parts = shell_split(cmd);
    if parts.len() == 0 {
        None
    } else {
        let ghost all = parts@;
        let program = parts.remove(0);
        assert(parts@ =~= all.skip(1));
        assert(strs(parts@) =~= strs(all).skip(1));
        Some(Invocation { program, args: parts })
    }
}

/// Runs `cmd` through `sh -c` in the terminal `term`.
pub fn terminal_invocation(term: TerminalCommand, cmd: &str) -> (i: Invocation)
    ensures
        invocation_view(i) == command(term.bin@, strs(term.exec_flag@) + seq!["sh"@, "-c"@, cmd@]),
{
    let mut args = term.exec_flag;
    let ghost flags = args@;
    args.push(String::from_str("sh"));
    args.push(String::from_str("-c"));
    args.push(String::from_str(cmd));
    assert(strs(args@) =~= strs(flags) + seq!["sh"@, "-c"@, cmd@]);
    Invocation { program: term.bin, args }
}

} // verus!
