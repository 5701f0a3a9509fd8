//! The `run` subcommand's arguments: `--method`, `--endpoint`, and repeatable
//! `--body key=value` and `--header key=value`, read into a [`Request`].
use vstd::prelude::*;
use crate::request::Request;

verus! {

/// An option of the `run` subcommand that takes a value.
#[derive(Clone, Copy, Debug, PartialEq, Eq, Structural)]
pub enum Flag {
    Method,
    Endpoint,
    Body,
    Header,
}

/// Why the `run` arguments were refused; an index points into the arguments.
#[derive(Clone, Copy, Debug, PartialEq, Eq, Structural)]
pub enum CliError {
    /// The flag is the last argument, with no value after it.
    MissingValue(Flag),
    /// The value at this index, given to this flag, has no `=`.
    InvalidPair(Flag, usize),
    /// The argument at this index is no known flag.
    UnknownArgument(usize),
    /// No `--method` was given.
    MissingMethod,
    /// No `--endpoint` was given.
    MissingEndpoint,
}

/// Pairs seen through their characters.
pub open spec fn pairs_view(v: Seq<(String, String)>) -> Seq<(Seq<char>, Seq<char>)> {
    v.map_values(|p: (String, String)| (p.0@, p.1@))
}

/// Sets `k` to `v`: the first pair with key `k` takes the value, or the pair
/// is added at the end when no pair has that key.
pub open spec fn put(s: Seq<(Seq<char>, Seq<char>)>, k: Seq<char>, v: Seq<char>) -> Seq<
    (Seq<char>, Seq<char>),
>
    decreases s.len(),
{
    if s.len() == 0 {
        seq![(k, v)]
    } else if s[0].0 == k {
        seq![(k, v)] + s.drop_first()
    } else {
        seq![s[0]] + put(s.drop_first(), k, v)
    }
}

/// The index of the first `=` of `s` at or after `i`, or the length of `s`.
pub open spec fn eq_index(s: Seq<char>, i: int) -> int
    decreases s.len() - i,
{
    if i >= s.len() {
        s.len() as int
    } else if s[i] == '=' {
        i
    } else {
        eq_index(s, i + 1)
    }
}

/// `key=value`, split at the first `=`; `None` without one.
pub open spec fn split_pair(s: Seq<char>) -> Option<(Seq<char>, Seq<char>)> {
    let e = eq_index(s, 0);
    if e < s.len() {
        Some((s.subrange(0, e), s.subrange(e + 1, s.len() as int)))
    } else {
        None
    }
}

/// The flag an argument spells, in its short or long form.
pub open spec fn flag_of(a: Seq<char>) -> Option<Flag> {
    if a == seq!['-', 'm'] || a == seq!['-', '-', 'm', 'e', 't', 'h', 'o', 'd'] {
        Some(Flag::Method)
    } else if a == seq!['-', 'e'] || a == seq!['-', '-', 'e', 'n', 'd', 'p', 'o', 'i', 'n', 't'] {
        Some(Flag::Endpoint)
    } else if a == seq!['-', 'b'] || a == seq!['-', '-', 'b', 'o', 'd', 'y'] {
        Some(Flag::Body)
    } else if a == seq!['-', 'h', 'd'] || a == seq!['-', '-', 'h', 'e', 'a', 'd', 'e', 'r'] {
        Some(Flag::Header)
    } else {
        None
    }
}

/// What the arguments have set so far.
pub struct Scanned {
    pub method: Option<Seq<char>>,
    pub endpoint: Option<Seq<char>>,
    pub body: Seq<(Seq<char>, Seq<char>)>,
    pub header: Seq<(Seq<char>, Seq<char>)>,
}

/// Nothing set yet.
pub open spec fn unset() -> Scanned {
    Scanned { method: None, endpoint: None, body: seq![], header: seq![] }
}

/// Reads `args` from index `i` on, each flag followed by its value; a later
/// `--method` or `--endpoint` overrides an earlier one, a repeated body or
/// header key takes the later value.
pub open spec fn scan(args: Seq<Seq<char>>, i: int, st: Scanned) -> Result<Scanned, CliError>
    decreases args.len() - i,
{
    if i < 0 || i >= args.len() {
        Ok(st)
    } else {
        match flag_of(args[i]) {
            None => Err(CliError::UnknownArgument(i as usize)),
            Some(f) => if i + 1 >= args.len() {
                Err(CliError::MissingValue(f))
            } else {
                let v = args[i + 1];
                match f {
                    Flag::Method => scan(args, i + 2, Scanned { method: Some(v), ..st }),
                    Flag::Endpoint => scan(args, i + 2, Scanned { endpoint: Some(v), ..st }),
                    Flag::Body => match split_pair(v) {
                        None => Err(CliError::InvalidPair(f, (i + 1) as usize)),
                        Some(p) => scan(args, i + 2, Scanned { body: put(st.body, p.0, p.1), ..st }),
                    },
                    Flag::Header => match split_pair(v) {
                        None => Err(CliError::InvalidPair(f, (i + 1) as usize)),
                        Some(p) => scan(
                            args,
                            i + 2,
                            Scanned { header: put(st.header, p.0, p.1), ..st },
                        ),
                    },
                }
            },
        }
    }
}

/// The arguments' texts.
pub open spec fn args_view(args: Seq<String>) -> Seq<Seq<char>> {
    args.map_values(|a: String| a@)
}

/// `r` is what reading `args` gives: the first refusal of the scan, then a
/// missing method, then a missing endpoint; else the request they describe,
/// unnamed and not persisted.
pub open spec fn read_as(args: Seq<String>, r: Result<Request, CliError>) -> bool {
    match scan(args_view(args), 0, unset()) {
        Err(e) => r == Err::<Request, CliError>(e),
        Ok(st) => if st.method is None {
            r == Err::<Request, CliError>(CliError::MissingMethod)
        } else if st.endpoint is None {
            r == Err::<Request, CliError>(CliError::MissingEndpoint)
        } else {
            r matches Ok(req) && Some(req.method@) == st.method && Some(req.endpoint@)
                == st.endpoint && pairs_view(req.body@) == st.body && pairs_view(req.header@)
                == st.header && req.name is None && !req.save_response
        },
    }
}

proof fn lemma_put_first(s: Seq<(Seq<char>, Seq<char>)>, k: Seq<char>, v: Seq<char>, j: int)
    requires
        0 <= j < s.len(),
        s[j].0 == k,
        forall|i: int| 0 <= i < j ==> s[i].0 != k,
    ensures
        put(s, k, v) == s.update(j, (k, v)),
    decreases s.len(),
{
    if j == 0 {
        assert(put(s, k, v) =~= s.update(j, (k, v)));
    } else {
        let t = s.drop_first();
        assert(s[0].0 != k);
        assert forall|i: int| 0 <= i < j - 1 implies t[i].0 != k by {
            assert(t[i] == s[i + 1]);
        }
        lemma_put_first(t, k, v, j - 1);
        assert(put(s, k, v) =~= s.update(j, (k, v)));
    }
}

proof fn lemma_put_absent(s: Seq<(Seq<char>, Seq<char>)>, k: Seq<char>, v: Seq<char>)
    requires
        forall|i: int| 0 <= i < s.len() ==> s[i].0 != k,
    ensures
        put(s, k, v) == s.push((k, v)),
    decreases s.len(),
{
    if s.len() == 0 {
        assert(put(s, k, v) =~= s.push((k, v)));
    } else {
        let t = s.drop_first();
        assert(s[0].0 != k);
        assert forall|i: int| 0 <= i < t.len() implies t[i].0 != k by {
            assert(t[i] == s[i + 1]);
        }
        lemma_put_absent(t, k, v);
        assert(put(s, k, v) =~= s.push((k, v)));
    }
}

/// Sets key `k` to `x` in `v`.
fn put_pair(v: &mut Vec<(String, String)>, k: String, x: String)
    ensures
        pairs_view(final(v)@) == put(pairs_view(old(v)@), k@, x@),
{
    let ghost s = pairs_view(v@);
    let mut j: usize = 0;
    while j < v.len()
        invariant
            j <= v.len(),
            s == pairs_view(v@),
            v@ == old(v)@,
            forall|i: int| 0 <= i < j ==> s[i].0 != k@,
        decreases v.len() - j,
    {
        if v[j].0 == k {
            proof {
                lemma_put_first(s, k@, x@, j as int);
            }
            v[j] = (k, x);
            assert(pairs_view(v@) =~= s.update(j as int, (k@, x@)));
            return;
        }
        j = j + 1;
    }
    proof {
        lemma_put_absent(s, k@, x@);
    }
    v.push((k, x));
    assert(pairs_view(v@) =~= s.push((k@, x@)));
}

/// Whether two texts are the same.
fn same_text(a: &str, b: &str) -> (r: bool)
    ensures
        r == (a@ == b@),
{
    let n = a.unicode_len();
    if n != b.unicode_len() {
        return false;
    }
    let mut i: usize = 0;
    while i < n
        invariant
            n == a@.len(),
            n == b@.len(),
            forall|j: int| 0 <= j < i ==> a@[j] == b@[j],
        decreases n - i,
    {
        if a.get_char(i) != b.get_char(i) {
            return false;
        }
        i = i + 1;
    }
    assert(a@ =~= b@);
    true
}

/// The flag that `a` spells, if any.
fn read_flag(a: &str) -> (r: Option<Flag>)
    ensures
        r == flag_of(a@),
{
    proof {
        reveal_strlit("-m");
        reveal_strlit("--method");
        reveal_strlit("-e");
        reveal_strlit("--endpoint");
        reveal_strlit("-b");
        reveal_strlit("--body");
        reveal_strlit("-hd");
        reveal_strlit("--header");
    }
    assert("-m"@ =~= seq!['-', 'm']);
    assert("--method"@ =~= seq!['-', '-', 'm', 'e', 't', 'h', 'o', 'd']);
    assert("-e"@ =~= seq!['-', 'e']);
    assert("--endpoint"@ =~= seq!['-', '-', 'e', 'n', 'd', 'p', 'o', 'i', 'n', 't']);
    assert("-b"@ =~= seq!['-', 'b']);
    assert("--body"@ =~= seq!['-', '-', 'b', 'o', 'd', 'y']);
    assert("-hd"@ =~= seq!['-', 'h', 'd']);
    assert("--header"@ =~= seq!['-', '-', 'h', 'e', 'a', 'd', 'e', 'r']);
    if same_text(a, "-m") || same_text(a, "--method") {
        Some(Flag::Method)
    } else if same_text(a, "-e") || same_text(a, "--endpoint") {
        Some(Flag::Endpoint)
    } else if same_text(a, "-b") || same_text(a, "--body") {
        Some(Flag::Body)
    } else if same_text(a, "-hd") || same_text(a, "--header") {
        Some(Flag::Header)
    } else {
        None
    }
}

/// Splits `key=value` at the first `=`.
pub fn split_key_value(s: &str) -> (r: Option<(String, String)>)
    ensures
        match split_pair(s@) {
            None => r is None,
            Some(p) => r matches Some(q) && q.0@ == p.0 && q.1@ == p.1,
        },
{
    let n = s.unicode_len();
    let mut i: usize = 0;
    while i < n
        invariant
            n == s@.len(),
            i <= n,
            eq_index(s@, 0) == eq_index(s@, i as int),
        decreases n - i,
    {
        if s.get_char(i) == '=' {
            let k = s.substring_char(0, i);
            let v = s.substring_char(i + 1, n);
            return Some((String::from_str(k), String::from_str(v)));
        }
        i = i + 1;
    }
    None
}

pub open spec fn opt_view(o: Option<String>) -> Option<Seq<char>> {
    match o {
        Some(s) => Some(s@),
        None => None,
    }
}

/// `-h` or `--help`.
pub open spec fn is_help_flag(a: Seq<char>) -> bool {
    a == seq!['-', 'h'] || a == seq!['-', '-', 'h', 'e', 'l', 'p']
}

/// Asks for help: no arguments at all, or `-h` or `--help` among them.
pub open spec fn wants_help(args: Seq<String>) -> bool {
    args.len() == 0 || exists|i: int| 0 <= i < args.len() && is_help_flag(#[trigger] args[i]@)
}

/// Reads the arguments of the `run` subcommand into the request they describe.
pub fn parse_run_command(args: &[String]) -> (r: Result<Request, CliError>)
    ensures
        read_as(args@, r),
{
    let ghost a = args_view(args@);
    let mut method: Option<String> = None;
    let mut endpoint: Option<String> = None;
    let mut body: Vec<(String, String)> = Vec::new();
    let mut header: Vec<(String, String)> = Vec::new();
    let mut i: usize = 0;
    assert(pairs_view(body@) =~= seq![]);
    assert(pairs_view(header@) =~= seq![]);
    while i < args.len()
        invariant
            i <= args.len(),
            a == args_view(args@),
            scan(a, 0, unset()) == scan(
                a,
                i as int,
                Scanned {
                    method: opt_view(method),
                    endpoint: opt_view(endpoint),
                    body: pairs_view(body@),
                    header: pairs_view(header@),
                },
            ),
        decreases args.len() - i,
    {
        assert(a[i as int] == args@[i as int]@);
        let flag = match read_flag(args[i].as_str()) {
            None => return Err(CliError::UnknownArgument(i)),
            Some(f) => f,
        };
        if i + 1 >= args.len() {
            return Err(CliError::MissingValue(flag));
        }
        assert(a[i + 1] == args@[i + 1]@);
        match flag {
            Flag::Method => {
                method = Some(args[i + 1].clone());
            },
            Flag::Endpoint => {
                endpoint = Some(args[i + 1].clone());
            },
            Flag::Body => match split_key_value(args[i + 1].as_str()) {
                None => return Err(CliError::InvalidPair(flag, i + 1)),
                Some(p) => {
                    put_pair(&mut body, p.0, p.1);
                },
            },
            Flag::Header => match split_key_value(args[i + 1].as_str()) {
                None => return Err(CliError::InvalidPair(flag, i + 1)),
                Some(p) => {
                    put_pair(&mut header, p.0, p.1);
                },
            },
        }
        i = i + 2;
    }
    let method = match method {
        None => return Err(CliError::MissingMethod),
        Some(m) => m,
    };
    let endpoint = match endpoint {
        None => return Err(CliError::MissingEndpoint),
        Some(e) => e,
    };
    Ok(Request::new(method, endpoint, body, header, None, false))
}

/// Reads the `run` subcommand: `None` when help is asked for, else the
/// request the arguments describe.
pub fn read_run_command(args: &[String]) -> (r: Result<Option<Request>, CliError>)
    ensures
        wants_help(args@) ==> r == Ok::<Option<Request>, CliError>(None),
        !wants_help(args@) ==> match r {
            Ok(Some(req)) => read_as(args@, Ok(req)),
            Ok(None) => false,
            Err(e) => read_as(args@, Err(e)),
        },
{
    proof {
        reveal_strlit("-h");
        reveal_strlit("--help");
    }
    assert("-h"@ =~= seq!['-', 'h']);
    assert("--help"@ =~= seq!['-', '-', 'h', 'e', 'l', 'p']);
    if args.len() == 0 {
        return Ok(None);
    }
    let mut i: usize = 0;
    while i < args.len()
        invariant
            i <= args.len(),
            "-h"@ == seq!['-', 'h'],
            "--help"@ == seq!['-', '-', 'h', 'e', 'l', 'p'],
            forall|j: int| 0 <= j < i ==> !is_help_flag(#[trigger] args@[j]@),
        decreases args.len() - i,
    {
        if same_text(args[i].as_str(), "-h") || same_text(args[i].as_str(), "--help") {
            assert(is_help_flag(args@[i as int]@));
            return Ok(None);
        }
        i = i + 1;
    }
    match parse_run_command(args) {
        Ok(req) => Ok(Some(req)),
        Err(e) => Err(e),
    }
}

} // verus!
