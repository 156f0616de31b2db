use vstd::prelude::*;
use vstd::string::*;
use vstd::utf8::encode_utf8;
use crate::protocol::{parse_command, json_of_text, is_command, decodes_to, tag_is, Command, Json};
use crate::shell::{get_shell_integration_script, integration_script_spec, HostOs};
use crate::spawn::{opt_string_view, SessionConfig};

verus! {

/// A message received from the client.
#[derive(Debug)]
pub enum Inbound {
    Text(String),
    Binary(Vec<u8>),
    Ping(Vec<u8>),
    Pong,
    Close,
    /// Any other frame; ignored.
    Other,
}

/// What the connection's owner is to do next.
#[derive(Debug, PartialEq, Eq)]
pub enum Action {
    /// Change the terminal's size.
    Resize { cols: u16, rows: u16 },
    /// Write these bytes to the terminal's input.
    Input(Vec<u8>),
    /// Answer a ping with these bytes.
    Pong(Vec<u8>),
    /// Stop the shell and wait for the output relay to drain.
    Terminate,
    /// Nothing to do.
    Ignore,
}

/// Where a connection stands in its life.
#[derive(Clone, Copy, Debug, PartialEq, Eq, Structural)]
pub enum Phase {
    /// Waiting for the first message, which chooses the shell.
    AwaitInit,
    /// The shell runs; messages are dispatched.
    Active,
    /// The shell has been told to stop; output drains.
    Closing,
    /// Output has ended; nothing is left running.
    Closed,
}

/// A text payload holds a control message.
pub open spec fn text_is_command(s: Seq<char>) -> bool {
    json_of_text(s) matches Some(j) && is_command(j)
}

/// The bytes that a message sends to the terminal's input.
pub open spec fn input_of(m: Inbound) -> Seq<u8> {
    match m {
        Inbound::Binary(b) => b@,
        Inbound::Text(t) => if text_is_command(t@) {
            Seq::empty()
        } else {
            encode_utf8(t@)
        },
        _ => Seq::empty(),
    }
}

/// What a control message asks of a running session: a resize, or nothing
/// (an `env` is inert, an `init` after the first message too).
pub open spec fn command_action(c: Command) -> Action {
    match c {
        Command::Resize { cols, rows } => Action::Resize { cols, rows },
        _ => Action::Ignore,
    }
}

/// The action for a message on a running session.
pub open spec fn dispatches_to(m: Inbound, a: Action) -> bool {
    match m {
        Inbound::Text(t) => if text_is_command(t@) {
            exists|c: Command|
                #![trigger decodes_to(json_of_text(t@)->0, c)]
                decodes_to(json_of_text(t@)->0, c) && a == command_action(c)
        } else {
            a matches Action::Input(b) && b@ == encode_utf8(t@)
        },
        Inbound::Binary(b) => a == Action::Input(b),
        Inbound::Ping(d) => a == Action::Pong(d),
        Inbound::Close => a == Action::Terminate,
        _ => a == Action::Ignore,
    }
}

/// A text first message that is an `init`.
pub open spec fn is_init_text(t: Seq<char>) -> bool {
    text_is_command(t) && (json_of_text(t)->0 matches Json::Object(f) && tag_is(f@, "init"@))
}

/// The session setup that the first message selects: the fields of an
/// `init`, or the default shell for anything else.
pub open spec fn first_config(m: Option<Inbound>, c: SessionConfig) -> bool {
    let default = c.shell_type is None && c.shell_args is None && c.cwd is None && c.env is None;
    match m {
        Some(Inbound::Text(t)) => if is_init_text(t@) {
            decodes_to(
                json_of_text(t@)->0,
                Command::Init {
                    shell_type: c.shell_type,
                    shell_args: c.shell_args,
                    cwd: c.cwd,
                    env: c.env,
                },
            )
        } else {
            default
        },
        _ => default,
    }
}

/// The integration line a session's shell receives, if any: only when the
/// client named the shell.
pub open spec fn session_script(shell_type: Option<Seq<char>>, os: HostOs) -> Option<&'static str> {
    match shell_type {
        Some(t) => integration_script_spec(t, os),
        None => None,
    }
}

/// What happened on a running connection, in the order it happened.
#[derive(Debug)]
pub enum Event {
    /// A message after the first was dispatched.
    Message(Inbound),
    /// A chunk of terminal output was sent to the client.
    OutputSent,
}

pub open spec fn output_seen(evs: Seq<Event>) -> bool {
    exists|i: int| 0 <= i < evs.len() && #[trigger] evs[i] is OutputSent
}

pub open spec fn script_bytes(script: Option<&'static str>) -> Seq<u8> {
    match script {
        Some(s) => encode_utf8(s@),
        None => Seq::empty(),
    }
}

/// The bytes an event sends to the terminal's input, after `prior`: a
/// message's own input, and the integration line after the first output.
pub open spec fn event_input(prior: Seq<Event>, e: Event, script: Option<&'static str>) -> Seq<u8> {
    match e {
        Event::Message(m) => input_of(m),
        Event::OutputSent => if output_seen(prior) {
            Seq::empty()
        } else {
            script_bytes(script)
        },
    }
}

/// Everything a sequence of events sends to the terminal's input, in order.
pub open spec fn routed(evs: Seq<Event>, script: Option<&'static str>) -> Seq<u8>
    decreases evs.len(),
{
    if evs.len() == 0 {
        Seq::empty()
    } else {
        routed(evs.drop_last(), script) + event_input(evs.drop_last(), evs.last(), script)
    }
}

proof fn lemma_output_seen_push(evs: Seq<Event>, e: Event)
    ensures
        output_seen(evs.push(e)) == (output_seen(evs) || e is OutputSent),
{
    let s = evs.push(e);
    if output_seen(evs) {
        let i = choose|i: int| 0 <= i < evs.len() && #[trigger] evs[i] is OutputSent;
        assert(s[i] is OutputSent);
    }
    if e is OutputSent {
        assert(s[evs.len() as int] is OutputSent);
    }
    if output_seen(s) {
        let i = choose|i: int| 0 <= i < s.len() && #[trigger] s[i] is OutputSent;
        if i < evs.len() {
            assert(evs[i] is OutputSent);
        }
    }
}

/// The decisions of one client connection: which shell to start, what each
/// message asks for, and when the integration line is written.
pub struct Connection {
    phase: Phase,
    os: HostOs,
    script: Option<&'static str>,
    first_output: bool,
    /// What happened after the first message.
    events: Ghost<Seq<Event>>,
    /// Bytes sent to the terminal's input so far.
    input: Ghost<Seq<u8>>,
}

impl Connection {
    pub closed spec fn phase_spec(&self) -> Phase {
        self.phase
    }

    pub closed spec fn host_spec(&self) -> HostOs {
        self.os
    }

    /// The integration line of the session's shell.
    pub closed spec fn script_spec(&self) -> Option<&'static str> {
        self.script
    }

    pub closed spec fn output_started(&self) -> bool {
        !self.first_output
    }

    pub closed spec fn events(&self) -> Seq<Event> {
        self.events@
    }

    pub closed spec fn input(&self) -> Seq<u8> {
        self.input@
    }

    /// The terminal's input is exactly what the events routed to it, in
    /// order; nothing happens before the first message.
    pub open spec fn wf(&self) -> bool {
        &&& self.input() == routed(self.events(), self.script_spec())
        &&& self.output_started() == output_seen(self.events())
        &&& self.phase_spec() == Phase::AwaitInit ==> self.events().len() == 0
    }

    pub fn new(os: HostOs) -> (r: Connection)
        ensures
            r.phase_spec() == Phase::AwaitInit,
            r.host_spec() == os,
            r.events() == Seq::<Event>::empty(),
            r.input() == Seq::<u8>::empty(),
            r.wf(),
    {
        let r = Connection {
            phase: Phase::AwaitInit,
            os,
            script: None,
            first_output: true,
            events: Ghost(Seq::empty()),
            input: Ghost(Seq::empty()),
        };
        assert(!output_seen(r.events@));
        r
    }

    pub fn phase(&self) -> (r: Phase)
        ensures
            r == self.phase_spec(),
    {
        self.phase
    }

    /// Consumes the first message (`None` when the client went away before
    /// sending one) and chooses the shell. The message never reaches the
    /// terminal, whether or not it is an `init`.
    pub fn first_message(&mut self, msg: Option<Inbound>) -> (c: SessionConfig)
        requires
            old(self).phase_spec() == Phase::AwaitInit,
            old(self).wf(),
        ensures
            final(self).phase_spec() == Phase::Active,
            final(self).host_spec() == old(self).host_spec(),
            final(self).script_spec() == session_script(opt_string_view(c.shell_type), old(self).host_spec()),
            final(self).input() == old(self).input(),
            final(self).events() == old(self).events(),
            final(self).wf(),
            first_config(msg, c),
    {
        proof {
            reveal_strlit("init");
            reveal_strlit("resize");
            reveal_strlit("env");
        }
        self.phase = Phase::Active;
        let mut config = SessionConfig::default_config();
        if let Some(Inbound::Text(t)) = &msg {
            match parse_command(t.as_str()) {
                Some(Command::Init { shell_type, shell_args, cwd, env }) => {
                    config = SessionConfig { shell_type, shell_args, cwd, env };
                },
                Some(Command::Resize { .. }) => {
                    assert("resize"@.len() != "init"@.len());
                },
                Some(Command::Env { .. }) => {
                    assert("env"@.len() != "init"@.len());
                },
                None => {},
            }
        }
        self.script = match &config.shell_type {
            Some(t) => get_shell_integration_script(t.as_str(), self.os),
            None => None,
        };
        config
    }

    /// Dispatches a later message.
    pub fn on_message(&mut self, msg: Inbound) -> (a: Action)
        requires
            old(self).phase_spec() == Phase::Active,
            old(self).wf(),
        ensures
            dispatches_to(msg, a),
            final(self).events() == old(self).events().push(Event::Message(msg)),
            final(self).input() == old(self).input() + input_of(msg),
            final(self).script_spec() == old(self).script_spec(),
            final(self).host_spec() == old(self).host_spec(),
            final(self).wf(),
            final(self).phase_spec() == (if msg is Close {
                Phase::Closing
            } else {
                Phase::Active
            }),
    {
        let ghost m = msg;
        proof {
            lemma_output_seen_push(self.events@, Event::Message(m));
        }
        self.events = Ghost(self.events@.push(Event::Message(m)));
        self.input = Ghost(self.input@ + input_of(m));
        proof {
            assert(self.events@.drop_last() =~= old(self).events@);
        }
        match msg {
            Inbound::Text(t) => match parse_command(t.as_str()) {
                Some(cmd) => handle_command(cmd),
                None => Action::Input(t.as_str().as_bytes_vec()),
            },
            Inbound::Binary(b) => Action::Input(b),
            Inbound::Ping(d) => Action::Pong(d),
            Inbound::Close => {
                self.phase = Phase::Closing;
                Action::Terminate
            },
            Inbound::Pong => Action::Ignore,
            Inbound::Other => Action::Ignore,
        }
    }

    /// A chunk of output has been sent to the client. After the first one
    /// the integration line, if the shell has one, is to be written to the
    /// terminal's input at once, ahead of any later message.
    pub fn on_output_sent(&mut self) -> (a: Action)
        requires
            old(self).phase_spec() != Phase::AwaitInit,
            old(self).wf(),
        ensures
            !old(self).output_started() && old(self).script_spec() is Some ==> (a matches Action::Input(
                b,
            ) && b@ == script_bytes(old(self).script_spec())),
            !(!old(self).output_started() && old(self).script_spec() is Some) ==> a == Action::Ignore,
            final(self).events() == old(self).events().push(Event::OutputSent),
            final(self).input() == old(self).input() + event_input(
                old(self).events(),
                Event::OutputSent,
                old(self).script_spec(),
            ),
            final(self).output_started(),
            final(self).phase_spec() == old(self).phase_spec(),
            final(self).script_spec() == old(self).script_spec(),
            final(self).host_spec() == old(self).host_spec(),
            final(self).wf(),
    {
        proof {
            lemma_output_seen_push(self.events@, Event::OutputSent);
        }
        self.input = Ghost(self.input@ + event_input(self.events@, Event::OutputSent, self.script));
        self.events = Ghost(self.events@.push(Event::OutputSent));
        proof {
            assert(self.events@.drop_last() =~= old(self).events@);
        }
        if self.first_output {
            self.first_output = false;
            match self.script {
                Some(s) => Action::Input(s.as_bytes_vec()),
                None => Action::Ignore,
            }
        } else {
            Action::Ignore
        }
    }

    /// The client went away, or receiving or sending failed: the shell must
    /// be stopped. Only the first call asks for it.
    pub fn on_disconnect(&mut self) -> (a: Action)
        requires
            old(self).phase_spec() != Phase::AwaitInit,
        ensures
            a == (if old(self).phase_spec() == Phase::Active {
                Action::Terminate
            } else {
                Action::Ignore
            }),
            final(self).phase_spec() == (if old(self).phase_spec() == Phase::Active {
                Phase::Closing
            } else {
                old(self).phase_spec()
            }),
            final(self).input() == old(self).input(),
            final(self).events() == old(self).events(),
            final(self).script_spec() == old(self).script_spec(),
            final(self).output_started() == old(self).output_started(),
            final(self).host_spec() == old(self).host_spec(),
    {
        if self.phase == Phase::Active {
            self.phase = Phase::Closing;
            Action::Terminate
        } else {
            Action::Ignore
        }
    }

    /// The output relay has ended after the shell was stopped.
    pub fn on_output_finished(&mut self)
        requires
            old(self).phase_spec() == Phase::Closing,
        ensures
            final(self).phase_spec() == Phase::Closed,
            final(self).input() == old(self).input(),
            final(self).events() == old(self).events(),
            final(self).script_spec() == old(self).script_spec(),
            final(self).output_started() == old(self).output_started(),
            final(self).host_spec() == old(self).host_spec(),
    {
        self.phase = Phase::Closed;
    }
}

/// What a control message does to a running session.
pub fn handle_command(cmd: Command) -> (a: Action)
    ensures
        a == command_action(cmd),
{
    match cmd {
        Command::Resize { cols, rows } => Action::Resize { cols, rows },
        Command::Env { .. } => Action::Ignore,
        Command::Init { .. } => Action::Ignore,
    }
}

/// A message that carries terminal input verbatim: binary, or text that is
/// not a control message.
pub open spec fn is_raw(m: Inbound) -> bool {
    m is Binary || (m matches Inbound::Text(t) && !text_is_command(t@))
}

/// The bytes a raw message carries.
pub open spec fn payload(m: Inbound) -> Seq<u8> {
    match m {
        Inbound::Binary(b) => b@,
        Inbound::Text(t) => encode_utf8(t@),
        _ => Seq::empty(),
    }
}

/// The payloads of the messages among some events, one after another.
pub open spec fn payloads(evs: Seq<Event>) -> Seq<u8>
    decreases evs.len(),
{
    if evs.len() == 0 {
        Seq::empty()
    } else {
        payloads(evs.drop_last()) + match evs.last() {
            Event::Message(m) => payload(m),
            Event::OutputSent => Seq::empty(),
        }
    }
}

/// Terminal input sent after the first message reaches the terminal whole
/// and in order: for raw messages, what is routed to the terminal is their
/// payloads concatenated in the order received.
pub proof fn lemma_input_in_order(evs: Seq<Event>, script: Option<&'static str>)
    requires
        forall|i: int| 0 <= i < evs.len() ==> (#[trigger] evs[i] matches Event::Message(m) && is_raw(m)),
    ensures
        routed(evs, script) == payloads(evs),
    decreases evs.len(),
{
    if evs.len() > 0 {
        let init = evs.drop_last();
        assert forall|i: int| 0 <= i < init.len() implies (#[trigger] init[i] matches Event::Message(m)
            && is_raw(m)) by {
            assert(init[i] == evs[i]);
        }
        lemma_input_in_order(init, script);
        assert(evs[evs.len() - 1] matches Event::Message(m) && is_raw(m));
    }
}

/// What a prefix of the events routed is a prefix of what all of them did:
/// input is never reordered.
pub proof fn lemma_routed_prefix(evs: Seq<Event>, j: int, script: Option<&'static str>)
    requires
        0 <= j <= evs.len(),
    ensures
        routed(evs.subrange(0, j), script).len() <= routed(evs, script).len(),
        routed(evs, script).subrange(0, routed(evs.subrange(0, j), script).len() as int) == routed(
            evs.subrange(0, j),
            script,
        ),
    decreases evs.len(),
{
    if j == evs.len() {
        assert(evs.subrange(0, j) =~= evs);
        assert(routed(evs, script).subrange(0, routed(evs, script).len() as int) =~= routed(evs, script));
    } else {
        let init = evs.drop_last();
        assert(init.subrange(0, j) =~= evs.subrange(0, j));
        lemma_routed_prefix(init, j, script);
        let p = routed(evs.subrange(0, j), script);
        assert(routed(evs, script).subrange(0, p.len() as int) =~= routed(init, script).subrange(
            0,
            p.len() as int,
        ));
    }
}

/// The integration line follows the first output at once: the input routed
/// by the events up to and including the first output is the input before
/// it and then the line, and all later input comes after that.
pub proof fn lemma_script_after_first_output(evs: Seq<Event>, k: int, script: Option<&'static str>)
    requires
        0 <= k < evs.len(),
        evs[k] is OutputSent,
        !output_seen(evs.subrange(0, k)),
    ensures
        routed(evs.subrange(0, k + 1), script) == routed(evs.subrange(0, k), script) + script_bytes(
            script,
        ),
        routed(evs, script).subrange(0, routed(evs.subrange(0, k + 1), script).len() as int)
            == routed(evs.subrange(0, k), script) + script_bytes(script),
{
    let upto = evs.subrange(0, k + 1);
    assert(upto.drop_last() =~= evs.subrange(0, k));
    assert(upto.last() == evs[k]);
    lemma_routed_prefix(evs, k + 1, script);
}

} // verus!
