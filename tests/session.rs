use pty_server::connection::{handle_command, Action, Connection, Inbound, Phase};
use pty_server::protocol::Command;
use pty_server::shell::{HostOs, ShellProbes, SHELL_INTEGRATION_BASH};
use pty_server::spawn::{spawn_env, spawn_plan, InheritedEnv, SessionConfig, DEFAULT_COLS, DEFAULT_ROWS};

fn text(s: &str) -> Inbound {
    Inbound::Text(s.to_string())
}

fn active_with(first: Option<Inbound>) -> (Connection, SessionConfig) {
    let mut c = Connection::new(HostOs::Unix);
    assert_eq!(c.phase(), Phase::AwaitInit);
    let cfg = c.first_message(first);
    assert_eq!(c.phase(), Phase::Active);
    (c, cfg)
}

fn no_inherited() -> InheritedEnv {
    InheritedEnv { term: None, lang: None, lc_all: None, lc_ctype: None }
}

fn unix_probes() -> ShellProbes {
    ShellProbes { env_shell: Some("/bin/zsh".to_string()), powershell: None, gitbash: None }
}

fn pair(a: &str, b: &str) -> (String, String) {
    (a.to_string(), b.to_string())
}

#[test]
fn raw_bytes_after_a_discarded_first_message_reach_the_default_shell() {
    let (mut c, cfg) = active_with(Some(Inbound::Binary(vec![1, 2, 3])));
    assert!(cfg.shell_type.is_none() && cfg.shell_args.is_none() && cfg.cwd.is_none() && cfg.env.is_none());
    let plan = spawn_plan(DEFAULT_COLS, DEFAULT_ROWS, &cfg, HostOs::Unix, &unix_probes(), &no_inherited());
    assert_eq!(plan.program, "/bin/zsh");
    assert_eq!(c.on_message(Inbound::Binary(b"ls\n".to_vec())), Action::Input(b"ls\n".to_vec()));
    assert_eq!(c.on_message(text("ls\n")), Action::Input(b"ls\n".to_vec()));
}

#[test]
fn init_first_message_selects_bash_and_injects_once() {
    let (mut c, cfg) = active_with(Some(text("{\"type\":\"init\",\"shell_type\":\"bash\"}")));
    assert_eq!(cfg.shell_type, Some("bash".to_string()));
    let plan = spawn_plan(DEFAULT_COLS, DEFAULT_ROWS, &cfg, HostOs::Unix, &unix_probes(), &no_inherited());
    assert_eq!(plan.program, "bash");
    assert_eq!(c.on_message(text("echo before\n")), Action::Input(b"echo before\n".to_vec()));
    assert_eq!(c.on_output_sent(), Action::Input(SHELL_INTEGRATION_BASH.as_bytes().to_vec()));
    assert_eq!(c.on_output_sent(), Action::Ignore);
    assert_eq!(c.on_message(text("pwd\n")), Action::Input(b"pwd\n".to_vec()));
    assert_eq!(c.on_output_sent(), Action::Ignore);
}

#[test]
fn output_without_a_named_shell_injects_nothing() {
    let (mut c, _) = active_with(Some(text("hello")));
    assert_eq!(c.on_output_sent(), Action::Ignore);
    let mut c = Connection::new(HostOs::Windows);
    c.first_message(Some(text("{\"type\":\"init\",\"shell_type\":\"bash\"}")));
    assert_eq!(c.on_output_sent(), Action::Ignore);
    let (mut c, _) = active_with(Some(text("{\"type\":\"init\",\"shell_type\":\"sh\"}")));
    assert_eq!(c.on_output_sent(), Action::Ignore);
}

#[test]
fn output_after_close_still_injects_once() {
    let (mut c, _) = active_with(Some(text("{\"type\":\"init\",\"shell_type\":\"zsh\"}")));
    assert_eq!(c.on_disconnect(), Action::Terminate);
    assert!(matches!(c.on_output_sent(), Action::Input(_)));
    assert_eq!(c.on_output_sent(), Action::Ignore);
}

#[test]
fn resize_mid_session_keeps_the_session_running() {
    let (mut c, _) = active_with(None);
    assert_eq!(
        c.on_message(text("{\"type\":\"resize\",\"cols\":120,\"rows\":40}")),
        Action::Resize { cols: 120, rows: 40 }
    );
    assert_eq!(c.phase(), Phase::Active);
    assert_eq!(c.on_message(text("echo ok\n")), Action::Input(b"echo ok\n".to_vec()));
}

#[test]
fn abrupt_disconnect_terminates_once() {
    let (mut c, _) = active_with(Some(text("{\"type\":\"init\"}")));
    assert_eq!(c.on_disconnect(), Action::Terminate);
    assert_eq!(c.phase(), Phase::Closing);
    assert_eq!(c.on_disconnect(), Action::Ignore);
    c.on_output_finished();
    assert_eq!(c.phase(), Phase::Closed);
    assert_eq!(c.on_disconnect(), Action::Ignore);
}

#[test]
fn close_frame_terminates() {
    let (mut c, _) = active_with(None);
    assert_eq!(c.on_message(Inbound::Close), Action::Terminate);
    assert_eq!(c.phase(), Phase::Closing);
    assert_eq!(c.on_disconnect(), Action::Ignore);
}

#[test]
fn plain_text_first_message_is_discarded() {
    let (mut c, cfg) = active_with(Some(text("hello")));
    assert!(cfg.shell_type.is_none());
    assert_eq!(c.on_message(text("echo hi\n")), Action::Input(b"echo hi\n".to_vec()));
}

#[test]
fn later_messages_dispatch() {
    let (mut c, _) = active_with(None);
    assert_eq!(c.on_message(Inbound::Ping(vec![9])), Action::Pong(vec![9]));
    assert_eq!(c.on_message(Inbound::Pong), Action::Ignore);
    assert_eq!(c.on_message(Inbound::Other), Action::Ignore);
    assert_eq!(c.on_message(text("{\"type\":\"env\",\"cwd\":\"/\"}")), Action::Ignore);
    assert_eq!(c.on_message(text("{\"type\":\"init\",\"shell_type\":\"zsh\"}")), Action::Ignore);
    assert_eq!(c.on_message(text("{\"type\":\"bogus\"}")), Action::Input(b"{\"type\":\"bogus\"}".to_vec()));
    assert_eq!(c.on_message(text("h\u{e9}")), Action::Input("h\u{e9}".as_bytes().to_vec()));
}

#[test]
fn commands_map_to_actions() {
    assert_eq!(handle_command(Command::Resize { cols: 1, rows: 2 }), Action::Resize { cols: 1, rows: 2 });
    assert_eq!(handle_command(Command::Env { cwd: None, env: None }), Action::Ignore);
}

#[test]
fn spawn_environment_priority_and_order() {
    let overlay = vec![pair("A", "1"), pair("LANG", "C.UTF-8"), pair("TERM_PROGRAM", "x"), pair("B", "2")];
    let inherited = InheritedEnv {
        term: Some("screen".to_string()),
        lang: Some("de_DE.UTF-8".to_string()),
        lc_all: None,
        lc_ctype: Some("C".to_string()),
    };
    let env = spawn_env(&overlay, &inherited);
    assert_eq!(
        env,
        vec![
            pair("TERM", "screen"),
            pair("LANG", "C.UTF-8"),
            pair("LC_ALL", "en_US.UTF-8"),
            pair("LC_CTYPE", "C"),
            pair("A", "1"),
            pair("TERM_PROGRAM", "x"),
            pair("B", "2"),
            pair("TERM_PROGRAM", "smart-workflow"),
        ]
    );
}

#[test]
fn spawn_environment_later_overlay_entry_wins() {
    let overlay = vec![pair("TERM", "a"), pair("TERM", "b"), pair("X", "1"), pair("X", "2")];
    let env = spawn_env(&overlay, &no_inherited());
    assert_eq!(env[0], pair("TERM", "b"));
    assert_eq!(env[4], pair("X", "1"));
    assert_eq!(env[5], pair("X", "2"));
}

#[test]
fn init_fields_reach_the_config() {
    let (_, cfg) = active_with(Some(text(
        "{\"type\":\"init\",\"shell_type\":\"custom:/bin/dash\",\"shell_args\":[\"-e\"],\"cwd\":\"/srv\",\"env\":{\"K\":\"v\"}}",
    )));
    assert_eq!(cfg.shell_type, Some("custom:/bin/dash".to_string()));
    assert_eq!(cfg.shell_args, Some(vec!["-e".to_string()]));
    assert_eq!(cfg.cwd, Some("/srv".to_string()));
    assert_eq!(cfg.env, Some(vec![pair("K", "v")]));
    let (_, cfg) = active_with(Some(text("{\"type\":\"resize\",\"cols\":1,\"rows\":1}")));
    assert!(cfg.shell_type.is_none());
}

#[test]
fn spawn_environment_defaults() {
    let env = spawn_env(&vec![], &no_inherited());
    assert_eq!(
        env,
        vec![
            pair("TERM", "xterm-256color"),
            pair("LANG", "en_US.UTF-8"),
            pair("LC_ALL", "en_US.UTF-8"),
            pair("LC_CTYPE", "en_US.UTF-8"),
            pair("TERM_PROGRAM", "smart-workflow"),
        ]
    );
}

#[test]
fn spawn_plan_appends_arguments_and_keeps_cwd() {
    let cfg = SessionConfig {
        shell_type: Some("gitbash".to_string()),
        shell_args: Some(vec!["-i".to_string()]),
        cwd: Some("C:\\work".to_string()),
        env: Some(vec![pair("TERM", "vt100")]),
    };
    let probes = ShellProbes { env_shell: None, powershell: None, gitbash: Some("G:\\bash.exe".to_string()) };
    let plan = spawn_plan(100, 30, &cfg, HostOs::Windows, &probes, &no_inherited());
    assert_eq!((plan.cols, plan.rows), (100, 30));
    assert_eq!(plan.program, "G:\\bash.exe");
    assert_eq!(plan.args, vec!["--login".to_string(), "-i".to_string()]);
    assert_eq!(plan.cwd, Some("C:\\work".to_string()));
    assert_eq!(plan.env[0], pair("TERM", "vt100"));
    assert_eq!(plan.env.len(), 5);
}
