use vstd::prelude::*;
use vstd::string::*;
use crate::text::str_eq;

verus! {

/// A JSON document as a tree of plain values.
#[derive(Debug)]
pub enum Json {
    Null,
    Bool(bool),
    /// A number, with its value where that is a non-negative integer that
    /// fits in 64 bits.
    Number(Option<u64>),
    Str(String),
    Array(Vec<Json>),
    /// Members in the order the parser gives them.
    Object(Vec<(String, Json)>),
}

/// A control message of the client protocol, discriminated by its `type`
/// member.
#[derive(Debug)]
pub enum Command {
    /// `{"type":"resize","cols","rows"}`
    Resize { cols: u16, rows: u16 },
    /// `{"type":"env","cwd"?,"env"?}`: accepted, and has no effect on a
    /// running session.
    Env { cwd: Option<String>, env: Option<Vec<(String, String)>> },
    /// `{"type":"init","shell_type"?,"shell_args"?,"cwd"?,"env"?}`: the shell
    /// setup, honoured as the first message of a connection only.
    Init {
        shell_type: Option<String>,
        shell_args: Option<Vec<String>>,
        cwd: Option<String>,
        env: Option<Vec<(String, String)>>,
    },
}

#[verifier::external_type_specification]
#[verifier::external_body]
pub struct ExJsonValue(serde_json::Value);

/// The tree that a JSON text parses to, or `None` when it is not JSON.
pub uninterp spec fn json_of_text(s: Seq<char>) -> Option<Json>;

/// Relies on serde_json::Value's variants and Number::as_u64: moves a parsed
/// value into the library's tree, one node for one node.
#[verifier::external_body]
fn json_from_value(v: serde_json::Value) -> Json {
    match v {
        serde_json::Value::Null => Json::Null,
        serde_json::Value::Bool(b) => Json::Bool(b),
        serde_json::Value::Number(n) => Json::Number(n.as_u64()),
        serde_json::Value::String(s) => Json::Str(s),
        serde_json::Value::Array(a) => Json::Array(a.into_iter().map(json_from_value).collect()),
        serde_json::Value::Object(m) => Json::Object(
            m.into_iter().map(|(k, v)| (k, json_from_value(v))).collect(),
        ),
    }
}

/// Relies on serde_json::from_str into serde_json::Value: the parse of a
/// JSON text, which depends on the text alone.
#[verifier::external_body]
fn parse_json(text: &str) -> (r: Option<Json>)
    ensures
        r == json_of_text(text@),
{
    serde_json::from_str::<serde_json::Value>(text).ok().map(json_from_value)
}

/// The value of the first member named `key`.
pub open spec fn member(fields: Seq<(String, Json)>, key: Seq<char>) -> Option<Json>
    decreases fields.len(),
{
    if fields.len() == 0 {
        None
    } else if fields[0].0@ == key {
        Some(fields[0].1)
    } else {
        member(fields.drop_first(), key)
    }
}

fn find_member<'a>(fields: &'a Vec<(String, Json)>, key: &str) -> (r: Option<&'a Json>)
    ensures
        match r {
            Some(v) => member(fields@, key@) == Some(*v),
            None => member(fields@, key@) is None,
        },
{
    let n = fields.len();
    let mut i: usize = 0;
    assert(fields@.subrange(0, n as int) =~= fields@);
    while i < n
        invariant
            n == fields@.len(),
            i <= n,
            member(fields@, key@) == member(fields@.subrange(i as int, n as int), key@),
        decreases n - i,
    {
        let ghost rest = fields@.subrange(i as int, n as int);
        assert(rest.drop_first() =~= fields@.subrange(i + 1, n as int));
        if str_eq(fields[i].0.as_str(), key) {
            return Some(&fields[i].1);
        }
        i = i + 1;
    }
    None
}

/// An optional member decodes to an optional string: absent or null gives
/// none, a string gives itself.
pub open spec fn opt_string_is(j: Option<Json>, out: Option<String>) -> bool {
    match j {
        None => out is None,
        Some(Json::Null) => out is None,
        Some(Json::Str(s)) => out == Some(s),
        _ => false,
    }
}

pub open spec fn all_strings(a: Seq<Json>) -> bool {
    forall|i: int| 0 <= i < a.len() ==> a[i] is Str
}

/// An optional member decodes to an optional list of strings.
pub open spec fn opt_strings_is(j: Option<Json>, out: Option<Vec<String>>) -> bool {
    match j {
        None => out is None,
        Some(Json::Null) => out is None,
        Some(Json::Array(a)) => match out {
            Some(v) => v@.len() == a@.len() && forall|i: int|
                0 <= i < a@.len() ==> a@[i] == Json::Str(#[trigger] v@[i]),
            None => false,
        },
        _ => false,
    }
}

pub open spec fn all_string_members(f: Seq<(String, Json)>) -> bool {
    forall|i: int| 0 <= i < f.len() ==> f[i].1 is Str
}

/// An optional member decodes to an optional map of strings to strings,
/// members kept in order.
pub open spec fn opt_string_map_is(j: Option<Json>, out: Option<Vec<(String, String)>>) -> bool {
    match j {
        None => out is None,
        Some(Json::Null) => out is None,
        Some(Json::Object(f)) => match out {
            Some(v) => v@.len() == f@.len() && forall|i: int|
                0 <= i < f@.len() ==> (#[trigger] v@[i]).0 == f@[i].0 && f@[i].1 == Json::Str(
                    v@[i].1,
                ),
            None => false,
        },
        _ => false,
    }
}

pub open spec fn u16_of(j: Option<Json>) -> Option<u16> {
    match j {
        Some(Json::Number(Some(n))) => if n <= 0xffff {
            Some(n as u16)
        } else {
            None
        },
        _ => None,
    }
}

pub open spec fn opt_string_ok(j: Option<Json>) -> bool {
    match j {
        None => true,
        Some(Json::Null) => true,
        Some(Json::Str(_)) => true,
        _ => false,
    }
}

pub open spec fn opt_strings_ok(j: Option<Json>) -> bool {
    match j {
        None => true,
        Some(Json::Null) => true,
        Some(Json::Array(a)) => all_strings(a@),
        _ => false,
    }
}

pub open spec fn opt_string_map_ok(j: Option<Json>) -> bool {
    match j {
        None => true,
        Some(Json::Null) => true,
        Some(Json::Object(f)) => all_string_members(f@),
        _ => false,
    }
}

pub open spec fn tag_is(f: Seq<(String, Json)>, tag: Seq<char>) -> bool {
    member(f, "type"@) matches Some(Json::Str(s)) && s@ == tag
}

/// `j` has the shape of one of the control messages.
pub open spec fn is_command(j: Json) -> bool {
    match j {
        Json::Object(f) => if tag_is(f@, "resize"@) {
            u16_of(member(f@, "cols"@)) is Some && u16_of(member(f@, "rows"@)) is Some
        } else if tag_is(f@, "env"@) {
            opt_string_ok(member(f@, "cwd"@)) && opt_string_map_ok(member(f@, "env"@))
        } else if tag_is(f@, "init"@) {
            opt_string_ok(member(f@, "shell_type"@)) && opt_strings_ok(member(f@, "shell_args"@))
                && opt_string_ok(member(f@, "cwd"@)) && opt_string_map_ok(member(f@, "env"@))
        } else {
            false
        },
        _ => false,
    }
}

/// `c` is the control message that `j` holds. Members other than those of
/// the message are ignored.
pub open spec fn decodes_to(j: Json, c: Command) -> bool {
    match j {
        Json::Object(f) => match c {
            Command::Resize { cols, rows } => tag_is(f@, "resize"@) && u16_of(member(f@, "cols"@))
                == Some(cols) && u16_of(member(f@, "rows"@)) == Some(rows),
            Command::Env { cwd, env } => tag_is(f@, "env"@) && opt_string_is(member(f@, "cwd"@), cwd)
                && opt_string_map_is(member(f@, "env"@), env),
            Command::Init { shell_type, shell_args, cwd, env } => tag_is(f@, "init"@)
                && opt_string_is(member(f@, "shell_type"@), shell_type) && opt_strings_is(
                member(f@, "shell_args"@),
                shell_args,
            ) && opt_string_is(member(f@, "cwd"@), cwd) && opt_string_map_is(
                member(f@, "env"@),
                env,
            ),
        },
        _ => false,
    }
}

pub open spec fn deref_opt(j: Option<&Json>) -> Option<Json> {
    match j {
        Some(v) => Some(*v),
        None => None,
    }
}

fn decode_opt_string(j: Option<&Json>) -> (r: Option<Option<String>>)
    ensures
        r is Some <==> opt_string_ok(deref_opt(j)),
        r matches Some(o) ==> opt_string_is(deref_opt(j), o),
{
    match j {
        None => Some(None),
        Some(Json::Null) => Some(None),
        Some(Json::Str(s)) => Some(Some(s.clone())),
        _ => None,
    }
}

fn decode_opt_strings(j: Option<&Json>) -> (r: Option<Option<Vec<String>>>)
    ensures
        r is Some <==> opt_strings_ok(deref_opt(j)),
        r matches Some(o) ==> opt_strings_is(deref_opt(j), o),
{
    match j {
        None => Some(None),
        Some(Json::Null) => Some(None),
        Some(Json::Array(a)) => {
            let mut v: Vec<String> = Vec::new();
            let mut i: usize = 0;
            while i < a.len()
                invariant
                    deref_opt(j) == Some(Json::Array(*a)),
                    i <= a@.len(),
                    v@.len() == i,
                    forall|k: int| 0 <= k < i ==> a@[k] == Json::Str(#[trigger] v@[k]),
                decreases a@.len() - i,
            {
                match &a[i] {
                    Json::Str(s) => v.push(s.clone()),
                    _ => {
                        assert(!(a@[i as int] is Str));
                        return None;
                    },
                }
                i = i + 1;
            }
            assert forall|k: int| 0 <= k < a@.len() implies a@[k] is Str by {
                assert(a@[k] == Json::Str(v@[k]));
            }
            Some(Some(v))
        },
        _ => None,
    }
}

fn decode_opt_string_map(j: Option<&Json>) -> (r: Option<Option<Vec<(String, String)>>>)
    ensures
        r is Some <==> opt_string_map_ok(deref_opt(j)),
        r matches Some(o) ==> opt_string_map_is(deref_opt(j), o),
{
    match j {
        None => Some(None),
        Some(Json::Null) => Some(None),
        Some(Json::Object(f)) => {
            let mut v: Vec<(String, String)> = Vec::new();
            let mut i: usize = 0;
            while i < f.len()
                invariant
                    deref_opt(j) == Some(Json::Object(*f)),
                    i <= f@.len(),
                    v@.len() == i,
                    forall|k: int|
                        0 <= k < i ==> (#[trigger] v@[k]).0 == f@[k].0 && f@[k].1 == Json::Str(
                            v@[k].1,
                        ),
                decreases f@.len() - i,
            {
                match &f[i].1 {
                    Json::Str(s) => v.push((f[i].0.clone(), s.clone())),
                    _ => {
                        assert(!(f@[i as int].1 is Str));
                        return None;
                    },
                }
                i = i + 1;
            }
            assert forall|k: int| 0 <= k < f@.len() implies f@[k].1 is Str by {
                assert(f@[k].1 == Json::Str(v@[k].1));
            }
            Some(Some(v))
        },
        _ => None,
    }
}

fn decode_u16(j: Option<&Json>) -> (r: Option<u16>)
    ensures
        r == u16_of(deref_opt(j)),
{
    match j {
        Some(Json::Number(Some(n))) => if *n <= 0xffff {
            Some(*n as u16)
        } else {
            None
        },
        _ => None,
    }
}

fn has_tag(f: &Vec<(String, Json)>, tag: &str) -> (r: bool)
    ensures
        r == tag_is(f@, tag@),
{
    match find_member(f, "type") {
        Some(Json::Str(s)) => str_eq(s.as_str(), tag),
        _ => false,
    }
}

/// Reads a control message out of a JSON tree: `None` unless the tree has
/// the shape of one.
pub fn decode_command(j: &Json) -> (r: Option<Command>)
    ensures
        r is Some <==> is_command(*j),
        r matches Some(c) ==> decodes_to(*j, c),
{
    match j {
        Json::Object(f) => if has_tag(f, "resize") {
            let cols = decode_u16(find_member(f, "cols"));
            let rows = decode_u16(find_member(f, "rows"));
            match (cols, rows) {
                (Some(cols), Some(rows)) => Some(Command::Resize { cols, rows }),
                _ => None,
            }
        } else if has_tag(f, "env") {
            let cwd = decode_opt_string(find_member(f, "cwd"));
            let env = decode_opt_string_map(find_member(f, "env"));
            match (cwd, env) {
                (Some(cwd), Some(env)) => Some(Command::Env { cwd, env }),
                _ => None,
            }
        } else if has_tag(f, "init") {
            let shell_type = decode_opt_string(find_member(f, "shell_type"));
            let shell_args = decode_opt_strings(find_member(f, "shell_args"));
            let cwd = decode_opt_string(find_member(f, "cwd"));
            let env = decode_opt_string_map(find_member(f, "env"));
            match (shell_type, shell_args, cwd, env) {
                (Some(shell_type), Some(shell_args), Some(cwd), Some(env)) => Some(
                    Command::Init { shell_type, shell_args, cwd, env },
                ),
                _ => None,
            }
        } else {
            None
        },
        _ => None,
    }
}

/// Parses a text payload as a control message: `None` when it is not JSON
/// or not the shape of one, in which case the payload is terminal input.
pub fn parse_command(text: &str) -> (r: Option<Command>)
    ensures
        match json_of_text(text@) {
            None => r is None,
            Some(j) => (r is Some <==> is_command(j)) && (r matches Some(c) ==> decodes_to(j, c)),
        },
{
    match parse_json(text) {
        Some(j) => decode_command(&j),
        None => None,
    }
}

} // verus!
