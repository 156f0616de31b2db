use pty_server::protocol::{decode_command, parse_command, Command, Json};

#[test]
fn resize_message() {
    match parse_command("{\"type\":\"resize\",\"cols\":120,\"rows\":40}") {
        Some(Command::Resize { cols, rows }) => {
            assert_eq!(cols, 120);
            assert_eq!(rows, 40);
        }
        other => panic!("unexpected {:?}", other),
    }
}

#[test]
fn resize_needs_both_sizes_in_range() {
    assert!(parse_command("{\"type\":\"resize\",\"cols\":120}").is_none());
    assert!(parse_command("{\"type\":\"resize\",\"cols\":70000,\"rows\":40}").is_none());
    assert!(parse_command("{\"type\":\"resize\",\"cols\":-1,\"rows\":40}").is_none());
    assert!(parse_command("{\"type\":\"resize\",\"cols\":1.5,\"rows\":40}").is_none());
    assert!(parse_command("{\"type\":\"resize\",\"cols\":\"80\",\"rows\":40}").is_none());
    assert!(parse_command("{\"type\":\"resize\",\"cols\":65535,\"rows\":0}").is_some());
}

#[test]
fn init_message_with_all_fields() {
    let text = "{\"type\":\"init\",\"shell_type\":\"bash\",\"shell_args\":[\"-l\",\"-i\"],\"cwd\":\"/tmp\",\"env\":{\"A\":\"1\",\"B\":\"2\"}}";
    match parse_command(text) {
        Some(Command::Init { shell_type, shell_args, cwd, env }) => {
            assert_eq!(shell_type, Some("bash".to_string()));
            assert_eq!(shell_args, Some(vec!["-l".to_string(), "-i".to_string()]));
            assert_eq!(cwd, Some("/tmp".to_string()));
            assert_eq!(
                env,
                Some(vec![("A".to_string(), "1".to_string()), ("B".to_string(), "2".to_string())])
            );
        }
        other => panic!("unexpected {:?}", other),
    }
}

#[test]
fn init_message_with_no_fields_or_nulls() {
    for text in ["{\"type\":\"init\"}", "{\"type\":\"init\",\"shell_type\":null,\"env\":null}"] {
        match parse_command(text) {
            Some(Command::Init { shell_type, shell_args, cwd, env }) => {
                assert!(shell_type.is_none() && shell_args.is_none() && cwd.is_none() && env.is_none());
            }
            other => panic!("unexpected {:?}", other),
        }
    }
}

#[test]
fn env_message_and_extra_members() {
    match parse_command("{\"cwd\":\"/home\",\"type\":\"env\",\"extra\":[1,2]}") {
        Some(Command::Env { cwd, env }) => {
            assert_eq!(cwd, Some("/home".to_string()));
            assert!(env.is_none());
        }
        other => panic!("unexpected {:?}", other),
    }
}

#[test]
fn rejected_payloads() {
    assert!(parse_command("hello").is_none());
    assert!(parse_command("ls\n").is_none());
    assert!(parse_command("").is_none());
    assert!(parse_command("{\"type\":\"quit\"}").is_none());
    assert!(parse_command("{\"cols\":1,\"rows\":2}").is_none());
    assert!(parse_command("[\"resize\"]").is_none());
    assert!(parse_command("{\"type\":\"init\",\"shell_args\":[\"a\",1]}").is_none());
    assert!(parse_command("{\"type\":\"init\",\"env\":{\"A\":1}}").is_none());
    assert!(parse_command("{\"type\":\"init\",\"cwd\":5}").is_none());
    assert!(parse_command("{\"type\":\"Resize\",\"cols\":1,\"rows\":2}").is_none());
}

#[test]
fn decode_from_a_tree() {
    let j = Json::Object(vec![
        ("type".to_string(), Json::Str("resize".to_string())),
        ("cols".to_string(), Json::Number(Some(7))),
        ("rows".to_string(), Json::Number(Some(9))),
    ]);
    assert!(matches!(decode_command(&j), Some(Command::Resize { cols: 7, rows: 9 })));
    let j = Json::Object(vec![
        ("type".to_string(), Json::Str("resize".to_string())),
        ("cols".to_string(), Json::Number(None)),
        ("rows".to_string(), Json::Number(Some(9))),
    ]);
    assert!(decode_command(&j).is_none());
    assert!(decode_command(&Json::Array(vec![])).is_none());
    assert!(decode_command(&Json::Null).is_none());
}
