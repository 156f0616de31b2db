use vstd::prelude::*;
use vstd::string::*;
use crate::text::{str_eq, str_starts_with, strings_view};

verus! {

/// The family of operating system the server runs on.
#[derive(Clone, Copy, Debug, PartialEq, Eq, Structural)]
pub enum HostOs {
    Windows,
    Unix,
}

/// Hidden startup line for bash: reports the working directory through an
/// OSC 7 escape before every prompt, fires once, then clears the screen.
pub const SHELL_INTEGRATION_BASH: &'static str = " eval '__sw_cwd(){ printf \"\\e]7;file://%s%s\\e\\\\\" \"${HOSTNAME:-localhost}\" \"$PWD\";};PROMPT_COMMAND=\"__sw_cwd${PROMPT_COMMAND:+;$PROMPT_COMMAND}\"' 2>/dev/null;__sw_cwd;printf '\\ec'\n";

/// Hidden startup line for zsh, installed through the precmd and chpwd hooks.
pub const SHELL_INTEGRATION_ZSH: &'static str = " eval '__sw_cwd(){ printf \"\\e]7;file://%s%s\\e\\\\\" \"${HOST:-localhost}\" \"$PWD\";};autoload -Uz add-zsh-hook;add-zsh-hook precmd __sw_cwd;add-zsh-hook chpwd __sw_cwd' 2>/dev/null;__sw_cwd;printf '\\ec'\n";

/// Hidden startup line for fish, run whenever `PWD` changes.
pub const SHELL_INTEGRATION_FISH: &'static str = " eval 'function __sw_cwd --on-variable PWD; printf \"\\e]7;file://%s%s\\e\\\\\" (hostname) $PWD; end' 2>/dev/null;__sw_cwd;printf '\\ec'\n";

/// The integration line injected for a shell identifier, if any. Windows
/// shells get none: their clients parse the prompt instead.
pub open spec fn integration_script_spec(shell_type: Seq<char>, os: HostOs) -> Option<&'static str> {
    if os == HostOs::Windows {
        None
    } else if shell_type == "bash"@ {
        Some(SHELL_INTEGRATION_BASH)
    } else if shell_type == "zsh"@ {
        Some(SHELL_INTEGRATION_ZSH)
    } else if shell_type == "fish"@ {
        Some(SHELL_INTEGRATION_FISH)
    } else {
        None
    }
}

pub fn get_shell_integration_script(shell_type: &str, os: HostOs) -> (r: Option<&'static str>)
    ensures
        r == integration_script_spec(shell_type@, os),
{
    if os == HostOs::Windows {
        None
    } else if str_eq(shell_type, "bash") {
        Some(SHELL_INTEGRATION_BASH)
    } else if str_eq(shell_type, "zsh") {
        Some(SHELL_INTEGRATION_ZSH)
    } else if str_eq(shell_type, "fish") {
        Some(SHELL_INTEGRATION_FISH)
    } else {
        None
    }
}

/// A logical shell identifier, as a client names it.
#[derive(Debug, PartialEq, Eq)]
pub enum ShellKind {
    Cmd,
    PowerShell,
    Wsl,
    GitBash,
    Bash,
    Zsh,
    /// `custom:<path>`: the path after the prefix, used verbatim.
    Custom(String),
    /// Absent or unrecognized: the host's default shell.
    Default,
}

/// `k` is the kind that the identifier `t` names. Matching is exact and
/// case-sensitive.
pub open spec fn names_kind(t: Option<Seq<char>>, k: ShellKind) -> bool {
    match t {
        None => k == ShellKind::Default,
        Some(s) => if s == "cmd"@ {
            k == ShellKind::Cmd
        } else if s == "powershell"@ {
            k == ShellKind::PowerShell
        } else if s == "wsl"@ {
            k == ShellKind::Wsl
        } else if s == "gitbash"@ {
            k == ShellKind::GitBash
        } else if s == "bash"@ {
            k == ShellKind::Bash
        } else if s == "zsh"@ {
            k == ShellKind::Zsh
        } else if s.len() >= 7 && s.subrange(0, 7) == "custom:"@ {
            k matches ShellKind::Custom(p) && p@ == s.subrange(7, s.len() as int)
        } else {
            k == ShellKind::Default
        },
    }
}

pub open spec fn opt_view(t: Option<&str>) -> Option<Seq<char>> {
    match t {
        Some(s) => Some(s@),
        None => None,
    }
}

/// Classifies a requested shell identifier.
pub fn shell_kind(shell_type: Option<&str>) -> (k: ShellKind)
    ensures
        names_kind(opt_view(shell_type), k),
{
    proof {
        reveal_strlit("custom:");
    }
    match shell_type {
        None => ShellKind::Default,
        Some(s) => if str_eq(s, "cmd") {
            ShellKind::Cmd
        } else if str_eq(s, "powershell") {
            ShellKind::PowerShell
        } else if str_eq(s, "wsl") {
            ShellKind::Wsl
        } else if str_eq(s, "gitbash") {
            ShellKind::GitBash
        } else if str_eq(s, "bash") {
            ShellKind::Bash
        } else if str_eq(s, "zsh") {
            ShellKind::Zsh
        } else if str_starts_with(s, "custom:") {
            let path = s.substring_char(7, s.unicode_len());
            ShellKind::Custom(path.to_owned())
        } else {
            ShellKind::Default
        },
    }
}

/// What the host was found to offer, for the identifiers whose resolution
/// depends on it.
#[derive(Debug)]
pub struct ShellProbes {
    /// The server's own `SHELL` variable, if set.
    pub env_shell: Option<String>,
    /// The first PowerShell interpreter that could be started, if any.
    pub powershell: Option<String>,
    /// A Git Bash executable, if one was found.
    pub gitbash: Option<String>,
}

/// An executable and its base arguments.
#[derive(Debug)]
pub struct ShellCommand {
    pub program: String,
    pub args: Vec<String>,
}

pub open spec fn default_program(os: HostOs, env_shell: Option<String>) -> Seq<char> {
    if os == HostOs::Windows {
        "cmd.exe"@
    } else {
        match env_shell {
            Some(s) => s@,
            None => "/bin/bash"@,
        }
    }
}

/// The executable that a shell kind resolves to on a host.
pub open spec fn program_spec(k: ShellKind, os: HostOs, p: ShellProbes) -> Seq<char> {
    match k {
        ShellKind::Cmd => if os == HostOs::Windows {
            "cmd.exe"@
        } else {
            default_program(os, p.env_shell)
        },
        ShellKind::PowerShell => if os == HostOs::Windows {
            match p.powershell {
                Some(s) => s@,
                None => "powershell.exe"@,
            }
        } else {
            default_program(os, p.env_shell)
        },
        ShellKind::Wsl => if os == HostOs::Windows {
            "wsl.exe"@
        } else {
            default_program(os, p.env_shell)
        },
        ShellKind::GitBash => if os == HostOs::Windows {
            match p.gitbash {
                Some(s) => s@,
                None => default_program(os, p.env_shell),
            }
        } else {
            default_program(os, p.env_shell)
        },
        ShellKind::Bash => "bash"@,
        ShellKind::Zsh => "zsh"@,
        ShellKind::Custom(path) => path@,
        ShellKind::Default => default_program(os, p.env_shell),
    }
}

/// Whether the resolved command starts a login shell (a Git Bash found on
/// Windows); every other resolution has no base arguments.
pub open spec fn login_spec(k: ShellKind, os: HostOs, p: ShellProbes) -> bool {
    k == ShellKind::GitBash && os == HostOs::Windows && p.gitbash is Some
}

pub open spec fn command_matches(c: ShellCommand, program: Seq<char>, login: bool) -> bool {
    &&& c.program@ == program
    &&& login ==> c.args@.len() == 1 && c.args@[0]@ == "--login"@
    &&& !login ==> c.args@.len() == 0
}

fn plain_command(program: &str) -> (c: ShellCommand)
    ensures
        command_matches(c, program@, false),
{
    ShellCommand { program: program.to_owned(), args: Vec::new() }
}

fn copy_opt(s: &Option<String>) -> (r: Option<String>)
    ensures
        r == *s,
{
    match s {
        Some(v) => Some(v.clone()),
        None => None,
    }
}

/// The host's default shell: `cmd.exe` on Windows, elsewhere the server's
/// `SHELL`, or `/bin/bash` when it is unset.
pub fn get_default_shell(os: HostOs, env_shell: Option<String>) -> (c: ShellCommand)
    ensures
        command_matches(c, default_program(os, env_shell), false),
{
    match os {
        HostOs::Windows => plain_command("cmd.exe"),
        HostOs::Unix => match env_shell {
            Some(s) => ShellCommand { program: s, args: Vec::new() },
            None => plain_command("/bin/bash"),
        },
    }
}

/// Resolves a shell kind to a command. Identifiers of another platform
/// degrade to the default shell rather than fail.
pub fn resolve_shell(kind: &ShellKind, os: HostOs, probes: &ShellProbes) -> (c: ShellCommand)
    ensures
        command_matches(c, program_spec(*kind, os, *probes), login_spec(*kind, os, *probes)),
{
    match kind {
        ShellKind::Cmd => match os {
            HostOs::Windows => plain_command("cmd.exe"),
            HostOs::Unix => get_default_shell(os, copy_opt(&probes.env_shell)),
        },
        ShellKind::PowerShell => match os {
            HostOs::Windows => match &probes.powershell {
                Some(path) => plain_command(path.as_str()),
                None => plain_command("powershell.exe"),
            },
            HostOs::Unix => get_default_shell(os, copy_opt(&probes.env_shell)),
        },
        ShellKind::Wsl => match os {
            HostOs::Windows => plain_command("wsl.exe"),
            HostOs::Unix => get_default_shell(os, copy_opt(&probes.env_shell)),
        },
        ShellKind::GitBash => match os {
            HostOs::Windows => match &probes.gitbash {
                Some(path) => {
                    let mut args: Vec<String> = Vec::new();
                    args.push(String::from_str("--login"));
                    ShellCommand { program: path.clone(), args }
                },
                None => get_default_shell(os, copy_opt(&probes.env_shell)),
            },
            HostOs::Unix => get_default_shell(os, copy_opt(&probes.env_shell)),
        },
        ShellKind::Bash => plain_command("bash"),
        ShellKind::Zsh => plain_command("zsh"),
        ShellKind::Custom(path) => plain_command(path.as_str()),
        ShellKind::Default => get_default_shell(os, copy_opt(&probes.env_shell)),
    }
}

/// Resolves a requested shell identifier to a command on a host.
pub fn get_shell_by_type(shell_type: Option<&str>, os: HostOs, probes: &ShellProbes) -> (c: ShellCommand)
    ensures
        exists|k: ShellKind|
            names_kind(opt_view(shell_type), k) && command_matches(
                c,
                program_spec(k, os, *probes),
                login_spec(k, os, *probes),
            ),
{
    let kind = shell_kind(shell_type);
    resolve_shell(&kind, os, probes)
}

/// Shell resolution is a function of the requested identifier and the host
/// alone: two commands that resolve one identifier on one host name the
/// same executable with the same arguments.
pub proof fn lemma_resolution_deterministic(
    t: Option<Seq<char>>,
    os: HostOs,
    probes: ShellProbes,
    c1: ShellCommand,
    c2: ShellCommand,
)
    requires
        exists|k: ShellKind|
            names_kind(t, k) && command_matches(
                c1,
                program_spec(k, os, probes),
                login_spec(k, os, probes),
            ),
        exists|k: ShellKind|
            names_kind(t, k) && command_matches(
                c2,
                program_spec(k, os, probes),
                login_spec(k, os, probes),
            ),
    ensures
        c1.program@ == c2.program@,
        strings_view(c1.args@) == strings_view(c2.args@),
{
    let k1 = choose|k: ShellKind|
        names_kind(t, k) && command_matches(c1, program_spec(k, os, probes), login_spec(k, os, probes));
    let k2 = choose|k: ShellKind|
        names_kind(t, k) && command_matches(c2, program_spec(k, os, probes), login_spec(k, os, probes));
    assert(program_spec(k1, os, probes) == program_spec(k2, os, probes));
    assert(login_spec(k1, os, probes) == login_spec(k2, os, probes));
    assert(strings_view(c1.args@) =~= strings_view(c2.args@));
}

} // verus!
