use vstd::prelude::*;
use vstd::string::*;
use crate::shell::{
    get_shell_by_type, names_kind, opt_view, program_spec, login_spec, command_matches,
    HostOs, ShellCommand, ShellKind, ShellProbes,
};
use crate::text::{str_eq, strings_view};

verus! {

/// Size of the terminal before the client asks for another.
pub const DEFAULT_COLS: u16 = 80;
pub const DEFAULT_ROWS: u16 = 24;

/// Fallback terminal type and locale.
pub const DEFAULT_TERM: &'static str = "xterm-256color";
pub const DEFAULT_LOCALE: &'static str = "en_US.UTF-8";

/// Marks a shell as launched by this server.
pub const TERM_PROGRAM_NAME: &'static str = "smart-workflow";

/// The shell setup a session starts from.
#[derive(Debug)]
pub struct SessionConfig {
    pub shell_type: Option<String>,
    pub shell_args: Option<Vec<String>>,
    pub cwd: Option<String>,
    /// Variables to add; for a name given twice the later entry counts.
    pub env: Option<Vec<(String, String)>>,
}

impl SessionConfig {
    /// No identifier, arguments, directory or overlay: the default shell.
    pub fn default_config() -> (r: SessionConfig)
        ensures
            r.shell_type is None,
            r.shell_args is None,
            r.cwd is None,
            r.env is None,
    {
        SessionConfig { shell_type: None, shell_args: None, cwd: None, env: None }
    }
}

/// The server process's own values of the variables a shell must have.
#[derive(Debug)]
pub struct InheritedEnv {
    pub term: Option<String>,
    pub lang: Option<String>,
    pub lc_all: Option<String>,
    pub lc_ctype: Option<String>,
}

/// Everything needed to start a shell on a new pseudo-terminal.
#[derive(Debug)]
pub struct SpawnPlan {
    pub cols: u16,
    pub rows: u16,
    pub program: String,
    pub args: Vec<String>,
    pub cwd: Option<String>,
    /// Variables to set, in order; a later entry for a name replaces an
    /// earlier one.
    pub env: Vec<(String, String)>,
}

pub open spec fn pair_view(p: (String, String)) -> (Seq<char>, Seq<char>) {
    (p.0@, p.1@)
}

pub open spec fn pairs_view(v: Seq<(String, String)>) -> Seq<(Seq<char>, Seq<char>)> {
    v.map_values(|p: (String, String)| pair_view(p))
}

/// The value of the last entry named `key`: a later entry for a name
/// replaces an earlier one.
pub open spec fn lookup(v: Seq<(Seq<char>, Seq<char>)>, key: Seq<char>) -> Option<Seq<char>>
    decreases v.len(),
{
    if v.len() == 0 {
        None
    } else if v.last().0 == key {
        Some(v.last().1)
    } else {
        lookup(v.drop_last(), key)
    }
}

/// Variables that the server always sets itself.
pub open spec fn reserved(key: Seq<char>) -> bool {
    key == "TERM"@ || key == "LANG"@ || key == "LC_ALL"@ || key == "LC_CTYPE"@
}

/// The overlay without the reserved variables, order kept.
pub open spec fn extra_vars(v: Seq<(Seq<char>, Seq<char>)>) -> Seq<(Seq<char>, Seq<char>)>
    decreases v.len(),
{
    if v.len() == 0 {
        Seq::empty()
    } else if reserved(v.last().0) {
        extra_vars(v.drop_last())
    } else {
        extra_vars(v.drop_last()).push(v.last())
    }
}

pub open spec fn opt_string_view(s: Option<String>) -> Option<Seq<char>> {
    match s {
        Some(v) => Some(v@),
        None => None,
    }
}

/// A variable's value: from the overlay, else inherited, else the default.
pub open spec fn chosen(
    overlay: Seq<(Seq<char>, Seq<char>)>,
    key: Seq<char>,
    inherited: Option<String>,
    default: Seq<char>,
) -> Seq<char> {
    match lookup(overlay, key) {
        Some(v) => v,
        None => match inherited {
            Some(v) => v@,
            None => default,
        },
    }
}

/// The environment a shell is spawned with: `TERM` and the locale
/// variables first, then the rest of the overlay, then the launcher mark.
pub open spec fn spawn_env_spec(overlay: Seq<(Seq<char>, Seq<char>)>, inh: InheritedEnv) -> Seq<
    (Seq<char>, Seq<char>),
> {
    seq![
        ("TERM"@, chosen(overlay, "TERM"@, inh.term, DEFAULT_TERM@)),
        ("LANG"@, chosen(overlay, "LANG"@, inh.lang, DEFAULT_LOCALE@)),
        ("LC_ALL"@, chosen(overlay, "LC_ALL"@, inh.lc_all, DEFAULT_LOCALE@)),
        ("LC_CTYPE"@, chosen(overlay, "LC_CTYPE"@, inh.lc_ctype, DEFAULT_LOCALE@)),
    ] + extra_vars(overlay) + seq![("TERM_PROGRAM"@, TERM_PROGRAM_NAME@)]
}

pub open spec fn overlay_view(env: Option<Vec<(String, String)>>) -> Seq<(Seq<char>, Seq<char>)> {
    match env {
        Some(v) => pairs_view(v@),
        None => Seq::empty(),
    }
}

fn lookup_exec(v: &Vec<(String, String)>, key: &str) -> (r: Option<String>)
    ensures
        opt_string_view(r) == lookup(pairs_view(v@), key@),
{
    let mut i: usize = v.len();
    assert(pairs_view(v@).subrange(0, i as int) =~= pairs_view(v@));
    while i > 0
        invariant
            i <= v@.len(),
            lookup(pairs_view(v@), key@) == lookup(pairs_view(v@).subrange(0, i as int), key@),
        decreases i,
    {
        let ghost front = pairs_view(v@).subrange(0, i as int);
        assert(front.drop_last() =~= pairs_view(v@).subrange(0, i - 1));
        if str_eq(v[i - 1].0.as_str(), key) {
            return Some(v[i - 1].1.clone());
        }
        i = i - 1;
    }
    None
}

fn choose_value(overlay: &Vec<(String, String)>, key: &str, inherited: &Option<String>, default: &str) -> (r: String)
    ensures
        r@ == chosen(pairs_view(overlay@), key@, *inherited, default@),
{
    match lookup_exec(overlay, key) {
        Some(v) => v,
        None => match inherited {
            Some(v) => v.clone(),
            None => default.to_owned(),
        },
    }
}

fn is_reserved(key: &str) -> (r: bool)
    ensures
        r == reserved(key@),
{
    str_eq(key, "TERM") || str_eq(key, "LANG") || str_eq(key, "LC_ALL") || str_eq(key, "LC_CTYPE")
}

fn named(key: &str, value: String) -> (r: (String, String))
    ensures
        pair_view(r) == (key@, value@),
{
    (key.to_owned(), value)
}

/// Builds the spawn environment from the client's overlay and the server's
/// own variables.
pub fn spawn_env(overlay: &Vec<(String, String)>, inherited: &InheritedEnv) -> (r: Vec<(String, String)>)
    ensures
        pairs_view(r@) == spawn_env_spec(pairs_view(overlay@), *inherited),
{
    let mut r: Vec<(String, String)> = Vec::new();
    r.push(named("TERM", choose_value(overlay, "TERM", &inherited.term, DEFAULT_TERM)));
    r.push(named("LANG", choose_value(overlay, "LANG", &inherited.lang, DEFAULT_LOCALE)));
    r.push(named("LC_ALL", choose_value(overlay, "LC_ALL", &inherited.lc_all, DEFAULT_LOCALE)));
    r.push(named("LC_CTYPE", choose_value(overlay, "LC_CTYPE", &inherited.lc_ctype, DEFAULT_LOCALE)));
    let ghost head = pairs_view(r@);
    assert(head =~= seq![
        ("TERM"@, chosen(pairs_view(overlay@), "TERM"@, inherited.term, DEFAULT_TERM@)),
        ("LANG"@, chosen(pairs_view(overlay@), "LANG"@, inherited.lang, DEFAULT_LOCALE@)),
        ("LC_ALL"@, chosen(pairs_view(overlay@), "LC_ALL"@, inherited.lc_all, DEFAULT_LOCALE@)),
        ("LC_CTYPE"@, chosen(pairs_view(overlay@), "LC_CTYPE"@, inherited.lc_ctype, DEFAULT_LOCALE@)),
    ]);
    let ghost ov = pairs_view(overlay@);
    let n = overlay.len();
    let mut i: usize = 0;
    assert(ov.subrange(0, 0) =~= Seq::<(Seq<char>, Seq<char>)>::empty());
    assert(pairs_view(r@) =~= head + extra_vars(ov.subrange(0, 0)));
    while i < n
        invariant
            n == overlay@.len(),
            i <= n,
            ov == pairs_view(overlay@),
            pairs_view(r@) == head + extra_vars(ov.subrange(0, i as int)),
        decreases n - i,
    {
        assert(ov.subrange(0, i + 1).drop_last() =~= ov.subrange(0, i as int));
        let ghost s1 = ov.subrange(0, i + 1);
        assert(s1.last() == pair_view(overlay@[i as int]));
        if !is_reserved(overlay[i].0.as_str()) {
            let ghost before = pairs_view(r@);
            r.push((overlay[i].0.clone(), overlay[i].1.clone()));
            assert(pairs_view(r@) =~= before.push(pair_view(overlay@[i as int])));
            assert(pairs_view(r@) =~= head + extra_vars(ov.subrange(0, i + 1)));
        }
        i = i + 1;
    }
    assert(ov.subrange(0, n as int) =~= ov);
    let ghost mid = pairs_view(r@);
    r.push(named("TERM_PROGRAM", TERM_PROGRAM_NAME.to_owned()));
    assert(pairs_view(r@) =~= mid.push(("TERM_PROGRAM"@, TERM_PROGRAM_NAME@)));
    proof {
        assert(pairs_view(r@) =~= spawn_env_spec(ov, *inherited));
    }
    r
}

/// The base arguments of a resolved shell.
pub open spec fn base_args(login: bool) -> Seq<Seq<char>> {
    if login {
        seq!["--login"@]
    } else {
        Seq::empty()
    }
}

pub open spec fn extra_args(args: Option<Vec<String>>) -> Seq<Seq<char>> {
    match args {
        Some(v) => strings_view(v@),
        None => Seq::empty(),
    }
}

/// `p` starts the shell that `config` asks for on a terminal of the given
/// size.
pub open spec fn plans(
    p: SpawnPlan,
    cols: u16,
    rows: u16,
    config: SessionConfig,
    os: HostOs,
    probes: ShellProbes,
    inherited: InheritedEnv,
) -> bool {
    &&& p.cols == cols
    &&& p.rows == rows
    &&& exists|k: ShellKind|
        #![trigger names_kind(opt_string_view(config.shell_type), k)]
        names_kind(opt_string_view(config.shell_type), k) && p.program@ == program_spec(k, os, probes)
            && strings_view(p.args@) == base_args(login_spec(k, os, probes)) + extra_args(
            config.shell_args,
        )
    &&& p.cwd == config.cwd
    &&& pairs_view(p.env@) == spawn_env_spec(overlay_view(config.env), inherited)
}

fn as_opt_str(s: &Option<String>) -> (r: Option<&str>)
    ensures
        opt_view(r) == opt_string_view(*s),
{
    match s {
        Some(v) => Some(v.as_str()),
        None => None,
    }
}

/// Plans the launch of a session's shell: resolves the executable, appends
/// the requested arguments and builds the environment.
pub fn spawn_plan(
    cols: u16,
    rows: u16,
    config: &SessionConfig,
    os: HostOs,
    probes: &ShellProbes,
    inherited: &InheritedEnv,
) -> (p: SpawnPlan)
    ensures
        plans(p, cols, rows, *config, os, *probes, *inherited),
{
    let requested = as_opt_str(&config.shell_type);
    let cmd = get_shell_by_type(requested, os, probes);
    let ShellCommand { program, args: base } = cmd;
    let ghost k = choose|k: ShellKind|
        names_kind(opt_view(requested), k) && command_matches(
            cmd,
            program_spec(k, os, *probes),
            login_spec(k, os, *probes),
        );
    let mut args = base;
    assert(strings_view(args@) =~= base_args(login_spec(k, os, *probes)));
    match &config.shell_args {
        Some(extra) => {
            let ghost start = strings_view(args@);
            let mut i: usize = 0;
            while i < extra.len()
                invariant
                    i <= extra@.len(),
                    strings_view(args@) == start + strings_view(extra@).subrange(0, i as int),
                decreases extra@.len() - i,
            {
                let ghost before = strings_view(args@);
                args.push(extra[i].clone());
                assert(strings_view(args@) =~= before.push(extra@[i as int]@));
                assert(strings_view(args@) =~= start + strings_view(extra@).subrange(0, i + 1));
                i = i + 1;
            }
            assert(strings_view(extra@).subrange(0, extra@.len() as int) =~= strings_view(extra@));
        },
        None => {
            assert(strings_view(args@) =~= base_args(login_spec(k, os, *probes)) + Seq::empty());
        },
    }
    let env = match &config.env {
        Some(overlay) => spawn_env(overlay, inherited),
        None => spawn_env(&Vec::new(), inherited),
    };
    let cwd = match &config.cwd {
        Some(c) => Some(c.clone()),
        None => None,
    };
    let p = SpawnPlan { cols, rows, program, args, cwd, env };
    assert(names_kind(opt_string_view(config.shell_type), k));
    p
}

} // verus!
