use pty_server::cli::{parse_args, parse_u16, CliRequest};
use pty_server::server::{announcement, bind_address, Server, ServerConfig};

fn args(a: &[&str]) -> Vec<String> {
    a.iter().map(|s| s.to_string()).collect()
}

#[test]
fn port_flags() {
    assert_eq!(parse_args(&args(&["pty-server"])), CliRequest::Run { port: 0 });
    assert_eq!(parse_args(&args(&["pty-server", "-p", "8080"])), CliRequest::Run { port: 8080 });
    assert_eq!(parse_args(&args(&["pty-server", "--port", "9"])), CliRequest::Run { port: 9 });
    assert_eq!(parse_args(&args(&["pty-server", "--port=443"])), CliRequest::Run { port: 443 });
    assert_eq!(parse_args(&args(&["pty-server", "-p", "x"])), CliRequest::Run { port: 0 });
    assert_eq!(parse_args(&args(&["pty-server", "-p"])), CliRequest::Run { port: 0 });
    assert_eq!(parse_args(&args(&["pty-server", "-p", "1", "--port=2"])), CliRequest::Run { port: 2 });
    assert_eq!(parse_args(&args(&["-p", "pty-server", "x"])), CliRequest::Run { port: 0 });
    assert_eq!(parse_args(&args(&["pty-server", "--verbose", "-p", "70000"])), CliRequest::Run { port: 0 });
}

#[test]
fn help_flags() {
    assert_eq!(parse_args(&args(&["pty-server", "-h"])), CliRequest::Help);
    assert_eq!(parse_args(&args(&["pty-server", "-p", "5", "--help", "-p", "6"])), CliRequest::Help);
    assert_eq!(parse_args(&args(&["pty-server", "-p", "-h"])), CliRequest::Run { port: 0 });
}

#[test]
fn decimal_ports() {
    assert_eq!(parse_u16("0"), Some(0));
    assert_eq!(parse_u16("+42"), Some(42));
    assert_eq!(parse_u16("0065535"), Some(65535));
    assert_eq!(parse_u16("65536"), None);
    assert_eq!(parse_u16("99999999999"), None);
    assert_eq!(parse_u16(""), None);
    assert_eq!(parse_u16("+"), None);
    assert_eq!(parse_u16("-1"), None);
    assert_eq!(parse_u16("12a"), None);
    assert_eq!(parse_u16(" 1"), None);
}

#[test]
fn server_addresses_and_announcement() {
    let s = Server::new(ServerConfig { port: 3000 });
    assert_eq!(s.port(), 3000);
    assert_eq!(bind_address(s.port()), "127.0.0.1:3000");
    assert_eq!(bind_address(0), "127.0.0.1:0");
    assert_eq!(announcement(54321, 4294967295), "{\"port\": 54321, \"pid\": 4294967295}");
    assert_eq!(announcement(7, 0), "{\"port\": 7, \"pid\": 0}");
}
