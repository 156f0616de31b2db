use vstd::prelude::*;
use vstd::string::*;

verus! {

/// PowerShell interpreters to try, most preferred first: PowerShell Core,
/// then Windows PowerShell.
pub fn powershell_candidates() -> (r: Vec<String>)
    ensures
        r@.len() == 2,
        r@[0]@ == "pwsh.exe"@,
        r@[1]@ == "powershell.exe"@,
{
    let mut r: Vec<String> = Vec::new();
    r.push(String::from_str("pwsh.exe"));
    r.push(String::from_str("powershell.exe"));
    r
}

/// Well-known Git Bash install locations, in the order they are tried.
pub fn gitbash_candidates(userprofile: &str) -> (r: Vec<String>)
    ensures
        r@.len() == 3,
        r@[0]@ == "C:\\Program Files\\Git\\bin\\bash.exe"@,
        r@[1]@ == "C:\\Program Files (x86)\\Git\\bin\\bash.exe"@,
        r@[2]@ == userprofile@ + "\\AppData\\Local\\Programs\\Git\\bin\\bash.exe"@,
{
    let mut r: Vec<String> = Vec::new();
    r.push(String::from_str("C:\\Program Files\\Git\\bin\\bash.exe"));
    r.push(String::from_str("C:\\Program Files (x86)\\Git\\bin\\bash.exe"));
    let mut user = userprofile.to_owned();
    user.append("\\AppData\\Local\\Programs\\Git\\bin\\bash.exe");
    r.push(user);
    r
}

/// Unicode White_Space.
pub open spec fn is_ws(c: char) -> bool {
    let u = c as u32;
    (0x9 <= u && u <= 0xd) || u == 0x20 || u == 0x85 || u == 0xa0 || u == 0x1680 || (0x2000 <= u
        && u <= 0x200a) || u == 0x2028 || u == 0x2029 || u == 0x202f || u == 0x205f || u == 0x3000
}

fn is_whitespace(c: char) -> (r: bool)
    ensures
        r == is_ws(c),
{
    let u = c as u32;
    (0x9 <= u && u <= 0xd) || u == 0x20 || u == 0x85 || u == 0xa0 || u == 0x1680 || (0x2000 <= u
        && u <= 0x200a) || u == 0x2028 || u == 0x2029 || u == 0x202f || u == 0x205f || u == 0x3000
}

pub open spec fn trim_start(s: Seq<char>) -> Seq<char>
    decreases s.len(),
{
    if s.len() > 0 && is_ws(s[0]) {
        trim_start(s.drop_first())
    } else {
        s
    }
}

pub open spec fn trim_end(s: Seq<char>) -> Seq<char>
    decreases s.len(),
{
    if s.len() > 0 && is_ws(s.last()) {
        trim_end(s.drop_last())
    } else {
        s
    }
}

/// Leading and trailing white space removed.
pub open spec fn trim(s: Seq<char>) -> Seq<char> {
    trim_end(trim_start(s))
}

/// `i` ends the first line of `s`: no newline before it, and a newline or
/// the end of the text at it.
pub open spec fn first_line_end(s: Seq<char>, i: int) -> bool {
    &&& 0 <= i <= s.len()
    &&& forall|j: int| 0 <= j < i ==> s[j] != '\n'
    &&& i == s.len() || s[i] == '\n'
}

pub open spec fn contains_git(l: Seq<char>) -> bool {
    exists|k: int| 0 <= k && k + 3 <= l.len() && #[trigger] l.subrange(k, k + 3) == "Git"@
}

/// The Git Bash that a `PATH` lookup reported: its first line of output,
/// trimmed, when that names a path inside a Git installation.
pub open spec fn gitbash_lookup_spec(out: Seq<char>, r: Option<Seq<char>>) -> bool {
    if out.len() == 0 {
        r is None
    } else {
        exists|i: int|
            #![trigger first_line_end(out, i)]
            first_line_end(out, i) && {
                let l = trim(out.subrange(0, i));
                if contains_git(l) {
                    r == Some(l)
                } else {
                    r is None
                }
            }
    }
}

proof fn lemma_trim_start_step(s: Seq<char>, i: int)
    requires
        0 <= i < s.len(),
        is_ws(s[i]),
    ensures
        trim_start(s.subrange(i, s.len() as int)) == trim_start(s.subrange(i + 1, s.len() as int)),
{
    let t = s.subrange(i, s.len() as int);
    assert(t.drop_first() =~= s.subrange(i + 1, s.len() as int));
}

proof fn lemma_trim_end_step(s: Seq<char>, a: int, b: int)
    requires
        0 <= a < b <= s.len(),
        is_ws(s[b - 1]),
    ensures
        trim_end(s.subrange(a, b)) == trim_end(s.subrange(a, b - 1)),
{
    let t = s.subrange(a, b);
    assert(t.drop_last() =~= s.subrange(a, b - 1));
}

/// The text with white space removed at both ends.
fn trim_str(s: &str) -> (r: &str)
    ensures
        r@ == trim(s@),
{
    let n = s.unicode_len();
    let mut a: usize = 0;
    assert(s@.subrange(0, n as int) =~= s@);
    while a < n && is_whitespace(s.get_char(a))
        invariant
            n == s@.len(),
            a <= n,
            trim_start(s@) == trim_start(s@.subrange(a as int, n as int)),
        decreases n - a,
    {
        proof {
            lemma_trim_start_step(s@, a as int);
        }
        a = a + 1;
    }
    let ghost front = s@.subrange(a as int, n as int);
    assert(trim_start(front) == front);
    let mut b: usize = n;
    assert(front =~= s@.subrange(a as int, b as int));
    while b > a && is_whitespace(s.get_char(b - 1))
        invariant
            n == s@.len(),
            a <= b <= n,
            front == s@.subrange(a as int, n as int),
            trim_end(front) == trim_end(s@.subrange(a as int, b as int)),
        decreases b - a,
    {
        proof {
            lemma_trim_end_step(s@, a as int, b as int);
        }
        b = b - 1;
    }
    let r = s.substring_char(a, b);
    assert(trim_end(r@) == r@);
    r
}

fn contains_git_str(l: &str) -> (r: bool)
    ensures
        r == contains_git(l@),
{
    proof {
        reveal_strlit("Git");
    }
    let n = l.unicode_len();
    if n < 3 {
        assert forall|k: int| 0 <= k && k + 3 <= l@.len() implies #[trigger] l@.subrange(k, k + 3)
            != "Git"@ by {}
        return false;
    }
    let ghost git = "Git"@;
    assert(git =~= seq!['G', 'i', 't']);
    let mut k: usize = 0;
    while k < n - 2
        invariant
            n == l@.len(),
            n >= 3,
            k <= n - 2,
            git == "Git"@,
            git =~= seq!['G', 'i', 't'],
            forall|j: int| 0 <= j < k ==> #[trigger] l@.subrange(j, j + 3) != git,
        decreases n - k,
    {
        let ghost w = l@.subrange(k as int, k + 3);
        if l.get_char(k) == 'G' && l.get_char(k + 1) == 'i' && l.get_char(k + 2) == 't' {
            assert(w =~= git);
            return true;
        }
        assert(w[0] == l@[k as int] && w[1] == l@[k + 1] && w[2] == l@[k + 2]);
        assert(w != git);
        k = k + 1;
    }
    false
}

/// Picks a Git Bash out of the output of a `PATH` lookup for `bash.exe`.
pub fn gitbash_from_lookup(stdout: &str) -> (r: Option<String>)
    ensures
        gitbash_lookup_spec(
            stdout@,
            match r {
                Some(p) => Some(p@),
                None => None,
            },
        ),
{
    let n = stdout.unicode_len();
    if n == 0 {
        return None;
    }
    let mut i: usize = 0;
    while i < n && stdout.get_char(i) != '\n'
        invariant
            n == stdout@.len(),
            i <= n,
            forall|j: int| 0 <= j < i ==> stdout@[j] != '\n',
        decreases n - i,
    {
        i = i + 1;
    }
    assert(first_line_end(stdout@, i as int));
    let line = trim_str(stdout.substring_char(0, i));
    if contains_git_str(line) {
        Some(line.to_owned())
    } else {
        None
    }
}

} // verus!
