use vstd::prelude::*;
use vstd::string::*;
use crate::text::{str_eq, str_starts_with, strings_view};

verus! {

/// What the command line asks for.
#[derive(Clone, Copy, Debug, PartialEq, Eq, Structural)]
pub enum CliRequest {
    /// Serve on this port; 0 lets the system pick one.
    Run { port: u16 },
    /// Print the usage and exit successfully.
    Help,
}

pub open spec fn is_digit(c: char) -> bool {
    '0' <= c && c <= '9'
}

pub open spec fn all_digits(s: Seq<char>) -> bool {
    forall|i: int| 0 <= i < s.len() ==> is_digit(#[trigger] s[i])
}

/// The number a string of decimal digits denotes.
pub open spec fn digits_value(s: Seq<char>) -> nat
    decreases s.len(),
{
    if s.len() == 0 {
        0
    } else {
        digits_value(s.drop_last()) * 10 + (s.last() as nat - '0' as nat) as nat
    }
}

/// A decimal `u16`: an optional `+`, then one or more digits, at most 65535.
pub open spec fn u16_text(s: Seq<char>) -> Option<u16> {
    let d = if s.len() > 0 && s[0] == '+' {
        s.drop_first()
    } else {
        s
    };
    if d.len() > 0 && all_digits(d) && digits_value(d) <= 0xffff {
        Some(digits_value(d) as u16)
    } else {
        None
    }
}

proof fn lemma_digits_value_grows(s: Seq<char>, k: int)
    requires
        0 <= k <= s.len(),
        all_digits(s),
    ensures
        digits_value(s.subrange(0, k)) <= digits_value(s),
    decreases s.len(),
{
    if k < s.len() {
        assert(s.drop_last() =~= s.subrange(0, s.len() - 1));
        assert(s.drop_last().subrange(0, k) =~= s.subrange(0, k));
        lemma_digits_value_grows(s.drop_last(), k);
    } else {
        assert(s.subrange(0, k) =~= s);
    }
}

/// Reads a decimal port number.
pub fn parse_u16(s: &str) -> (r: Option<u16>)
    ensures
        r == u16_text(s@),
{
    let n = s.unicode_len();
    let start: usize = if n > 0 && s.get_char(0) == '+' {
        1
    } else {
        0
    };
    let ghost d = s@.subrange(start as int, n as int);
    assert(d =~= (if s@.len() > 0 && s@[0] == '+' {
        s@.drop_first()
    } else {
        s@
    }));
    if start == n {
        return None;
    }
    let mut acc: u32 = 0;
    let mut i: usize = start;
    assert(d.subrange(0, 0) =~= Seq::<char>::empty());
    while i < n
        invariant
            start <= i <= n,
            n == s@.len(),
            d == s@.subrange(start as int, n as int),
            d == (if s@.len() > 0 && s@[0] == '+' {
                s@.drop_first()
            } else {
                s@
            }),
            all_digits(d.subrange(0, i - start)),
            acc as nat == digits_value(d.subrange(0, i - start)),
            acc <= 0xffff,
        decreases n - i,
    {
        let c = s.get_char(i);
        let ghost p = d.subrange(0, i - start + 1);
        assert(p.drop_last() =~= d.subrange(0, i - start));
        assert(p.last() == c);
        if c < '0' || c > '9' {
            assert(!is_digit(d[i - start]));
            assert(!all_digits(d));
            return None;
        }
        acc = acc * 10 + (c as u32 - '0' as u32);
        assert(acc as nat == digits_value(p));
        assert(all_digits(p));
        if acc > 0xffff {
            proof {
                if all_digits(d) {
                    lemma_digits_value_grows(d, i - start + 1);
                }
            }
            return None;
        }
        i = i + 1;
    }
    assert(d.subrange(0, n - start) =~= d);
    Some(acc as u16)
}

/// A port argument; one that does not read as a port gives 0.
pub open spec fn port_text(s: Seq<char>) -> u16 {
    match u16_text(s) {
        Some(p) => p,
        None => 0,
    }
}

/// The request of the arguments from index `i` on, with `port` read so far.
pub open spec fn parse_from(args: Seq<Seq<char>>, i: int, port: u16) -> CliRequest
    decreases args.len() - i,
{
    if i < 0 || i >= args.len() {
        CliRequest::Run { port }
    } else {
        let a = args[i];
        if a == "-p"@ || a == "--port"@ {
            if i + 1 < args.len() {
                parse_from(args, i + 2, port_text(args[i + 1]))
            } else {
                parse_from(args, i + 1, port)
            }
        } else if a.len() >= 7 && a.subrange(0, 7) == "--port="@ {
            parse_from(args, i + 1, port_text(a.subrange(7, a.len() as int)))
        } else if a == "-h"@ || a == "--help"@ {
            CliRequest::Help
        } else {
            parse_from(args, i + 1, port)
        }
    }
}

/// Reads the command line (program name first): `-p`/`--port <PORT>` or
/// `--port=<PORT>` sets the port, the last one winning; `-h`/`--help` asks
/// for the usage. Unknown arguments are skipped.
pub fn parse_args(args: &Vec<String>) -> (r: CliRequest)
    ensures
        r == parse_from(strings_view(args@), 1, 0),
{
    let ghost v = strings_view(args@);
    let n = args.len();
    let mut port: u16 = 0;
    let mut i: usize = 1;
    while i < n
        invariant
            n == args@.len(),
            v == strings_view(args@),
            1 <= i,
            parse_from(v, 1, 0) == parse_from(v, i as int, port),
        decreases n - i,
    {
        proof {
            reveal_strlit("--port=");
        }
        let a = args[i].as_str();
        assert(v[i as int] == a@);
        if str_eq(a, "-p") || str_eq(a, "--port") {
            if i + 1 < n {
                assert(v[i + 1] == args@[i + 1]@);
                port = match parse_u16(args[i + 1].as_str()) {
                    Some(p) => p,
                    None => 0,
                };
                i = i + 2;
            } else {
                i = i + 1;
            }
        } else if str_starts_with(a, "--port=") {
            port = match parse_u16(a.substring_char(7, a.unicode_len())) {
                Some(p) => p,
                None => 0,
            };
            i = i + 1;
        } else if str_eq(a, "-h") || str_eq(a, "--help") {
            return CliRequest::Help;
        } else {
            i = i + 1;
        }
    }
    CliRequest::Run { port }
}

} // verus!
