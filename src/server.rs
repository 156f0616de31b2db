use vstd::prelude::*;
use vstd::string::*;

verus! {

/// Listener settings.
#[derive(Clone, Copy, Debug, PartialEq, Eq, Structural)]
pub struct ServerConfig {
    /// Port on the loopback address; 0 lets the system pick one.
    pub port: u16,
}

/// The terminal server: one session per accepted connection.
#[derive(Debug)]
pub struct Server {
    config: ServerConfig,
}

impl Server {
    pub closed spec fn config_spec(&self) -> ServerConfig {
        self.config
    }

    pub fn new(config: ServerConfig) -> (r: Server)
        ensures
            r.config_spec() == config,
    {
        Server { config }
    }

    /// The port asked for.
    pub fn port(&self) -> (r: u16)
        ensures
            r == self.config_spec().port,
    {
        self.config.port
    }
}

pub open spec fn digit_char(d: nat) -> char {
    if d == 0 {
        '0'
    } else if d == 1 {
        '1'
    } else if d == 2 {
        '2'
    } else if d == 3 {
        '3'
    } else if d == 4 {
        '4'
    } else if d == 5 {
        '5'
    } else if d == 6 {
        '6'
    } else if d == 7 {
        '7'
    } else if d == 8 {
        '8'
    } else {
        '9'
    }
}

/// The decimal digits of `n`, without leading zeros.
pub open spec fn decimal(n: nat) -> Seq<char>
    decreases n,
{
    if n < 10 {
        seq![digit_char(n)]
    } else {
        decimal(n / 10).push(digit_char(n % 10))
    }
}

fn digit_str(d: u64) -> (r: &'static str)
    requires
        d < 10,
    ensures
        r@ == seq![digit_char(d as nat)],
{
    proof {
        reveal_strlit("0");
        reveal_strlit("1");
        reveal_strlit("2");
        reveal_strlit("3");
        reveal_strlit("4");
        reveal_strlit("5");
        reveal_strlit("6");
        reveal_strlit("7");
        reveal_strlit("8");
        reveal_strlit("9");
    }
    let r = if d == 0 {
        "0"
    } else if d == 1 {
        "1"
    } else if d == 2 {
        "2"
    } else if d == 3 {
        "3"
    } else if d == 4 {
        "4"
    } else if d == 5 {
        "5"
    } else if d == 6 {
        "6"
    } else if d == 7 {
        "7"
    } else if d == 8 {
        "8"
    } else {
        "9"
    };
    assert(r@ =~= seq![digit_char(d as nat)]);
    r
}

fn push_decimal(out: &mut String, n: u64)
    ensures
        final(out)@ == old(out)@ + decimal(n as nat),
    decreases n,
{
    if n >= 10 {
        push_decimal(out, n / 10);
    }
    out.append(digit_str(n % 10));
    proof {
        if n >= 10 {
            assert(old(out)@ + decimal(n as nat) =~= old(out)@ + decimal((n / 10) as nat) + seq![
                digit_char((n % 10) as nat),
            ]);
        }
    }
}

/// The address the server listens on.
pub fn bind_address(port: u16) -> (r: String)
    ensures
        r@ == "127.0.0.1:"@ + decimal(port as nat),
{
    let mut r = String::from_str("127.0.0.1:");
    push_decimal(&mut r, port as u64);
    r
}

/// The line announcing the bound port and the server's process id on
/// standard output: `{"port": <port>, "pid": <pid>}`.
pub fn announcement(port: u16, pid: u32) -> (r: String)
    ensures
        r@ == "{\"port\": "@ + decimal(port as nat) + ", \"pid\": "@ + decimal(pid as nat) + "}"@,
{
    let mut r = String::from_str("{\"port\": ");
    push_decimal(&mut r, port as u64);
    r.append(", \"pid\": ");
    push_decimal(&mut r, pid as u64);
    r.append("}");
    r
}

} // verus!
