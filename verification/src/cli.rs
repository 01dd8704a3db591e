//! Command-line options and where the server keeps its data.
//!
//! `mini-ci [--port N] [--dir PATH]`: the server listens on `127.0.0.1`,
//! port 8787 unless `--port` says otherwise; its data directory is `--dir`,
//! else the `MINICI_DATA` environment variable, else `~/.mini-ci`.

use vstd::prelude::*;
use crate::paths::{join, path_join};
use crate::text::{chars_of, concat2, decimal, i64_to_decimal, opt_view, owned};

verus! {

/// The port the server listens on unless told otherwise.
pub open spec fn default_port() -> u16 {
    8787
}

/// What the command line asks for.
#[derive(Debug, Clone)]
pub struct CliOptions {
    pub port: u16,
    pub dir: Option<String>,
}

/// Why a command line was refused.
#[derive(Debug, Clone)]
pub enum CliError {
    /// `--port` or `--dir` came last, with no value after it.
    MissingValue(String),
    /// The value of `--port` is not a decimal number from 0 to 65535.
    InvalidPort(String),
}

/// The value of a string of decimal digits.
pub open spec fn digits_value(s: Seq<char>) -> int
    decreases s.len(),
{
    if s.len() == 0 {
        0
    } else {
        digits_value(s.drop_last()) * 10 + (s.last() as int - '0' as int)
    }
}

pub open spec fn all_digits(s: Seq<char>) -> bool {
    forall|i: int| 0 <= i < s.len() ==> '0' <= #[trigger] s[i] <= '9'
}

/// The port number that a `--port` value gives: one or more decimal
/// digits, with a value up to 65535.
pub open spec fn port_value(s: Seq<char>) -> Option<u16> {
    if s.len() > 0 && all_digits(s) && digits_value(s) <= 65535 {
        Some(digits_value(s) as u16)
    } else {
        None
    }
}

proof fn lemma_digits_value_nonneg(s: Seq<char>)
    requires
        all_digits(s),
    ensures
        digits_value(s) >= 0,
    decreases s.len(),
{
    if s.len() > 0 {
        lemma_digits_value_nonneg(s.drop_last());
    }
}

/// The port number that a `--port` value gives.
pub fn parse_port(s: &str) -> (res: Option<u16>)
    ensures
        res == port_value(s@),
{
    let v = chars_of(s);
    if v.len() == 0 {
        return None;
    }
    let mut value: u32 = 0;
    let mut i: usize = 0;
    while i < v.len()
        invariant
            v@ == s@,
            i <= v.len(),
            all_digits(v@.take(i as int)),
            value as int == digits_value(v@.take(i as int)),
            value <= 65535,
        decreases v.len() - i,
    {
        let c = v[i];
        assert(v@.take(i + 1).drop_last() =~= v@.take(i as int));
        if c < '0' || c > '9' {
            assert(!all_digits(v@)) by {
                assert(v@[i as int] == c);
            }
            return None;
        }
        let d = (c as u32) - 48;
        let next = value * 10 + d;
        if next > 65535 {
            proof {
                lemma_digits_value_nonneg(v@.take(i + 1));
                lemma_prefix_value_bound(v@, i + 1);
            }
            return None;
        }
        value = next;
        i = i + 1;
    }
    assert(v@.take(v.len() as int) =~= v@);
    Some(value as u16)
}

/// The value of a string of digits is at least that of any prefix.
proof fn lemma_prefix_value_bound(s: Seq<char>, k: int)
    requires
        0 <= k <= s.len(),
        all_digits(s.take(k)),
    ensures
        all_digits(s) ==> digits_value(s) >= digits_value(s.take(k)),
    decreases s.len() - k,
{
    if k < s.len() && all_digits(s) {
        assert(all_digits(s.take(k + 1)));
        lemma_prefix_value_bound(s, k + 1);
        assert(s.take(k + 1).drop_last() =~= s.take(k));
        lemma_digits_value_nonneg(s.take(k));
    } else if k == s.len() {
        assert(s.take(k) =~= s);
    }
}

/// The options that a command line (without the program name) gives, read
/// left to right from the given options; a later `--port` or `--dir` wins,
/// other words are ignored.
pub open spec fn options_from(args: Seq<Seq<char>>, port: u16, dir: Option<Seq<char>>) -> Result<
    (u16, Option<Seq<char>>),
    Seq<char>,
>
    decreases args.len(),
{
    if args.len() == 0 {
        Ok((port, dir))
    } else if args[0] == "--port"@ {
        if args.len() < 2 {
            Err("--port"@)
        } else {
            match port_value(args[1]) {
                Some(p) => options_from(args.skip(2), p, dir),
                None => Err(args[1]),
            }
        }
    } else if args[0] == "--dir"@ {
        if args.len() < 2 {
            Err("--dir"@)
        } else {
            options_from(args.skip(2), port, Some(args[1]))
        }
    } else {
        options_from(args.skip(1), port, dir)
    }
}

/// The views of a list of strings.
pub open spec fn arg_list(args: Seq<String>) -> Seq<Seq<char>> {
    args.map_values(|s: String| s@)
}

fn str_eq(a: &String, b: &str) -> (res: bool)
    ensures
        res == (a@ == b@),
{
    *a == owned(b)
}

/// The options that a command line (without the program name) gives.
pub fn parse_args(args: &Vec<String>) -> (res: Result<CliOptions, CliError>)
    ensures
        match options_from(arg_list(args@), default_port(), None) {
            Ok((port, dir)) => res matches Ok(o) && o.port == port && opt_view(o.dir) == dir,
            Err(w) => res matches Err(e) && match e {
                CliError::MissingValue(f) => f@ == w,
                CliError::InvalidPort(v) => v@ == w,
            },
        },
{
    let mut port: u16 = 8787;
    let mut dir: Option<String> = None;
    let mut i: usize = 0;
    let ghost all = arg_list(args@);
    assert(all.skip(0) =~= all);
    while i < args.len()
        invariant
            i <= args.len(),
            all == arg_list(args@),
            options_from(all, default_port(), None) == options_from(
                all.skip(i as int),
                port,
                opt_view(dir),
            ),
        decreases args.len() - i,
    {
        let ghost rest = all.skip(i as int);
        assert(rest[0] == args@[i as int]@);
        if str_eq(&args[i], "--port") {
            if i + 1 >= args.len() {
                return Err(CliError::MissingValue(owned("--port")));
            }
            assert(rest[1] == args@[i + 1]@);
            match parse_port(args[i + 1].as_str()) {
                Some(p) => {
                    port = p;
                },
                None => {
                    return Err(CliError::InvalidPort(args[i + 1].clone()));
                },
            }
            assert(rest.skip(2) =~= all.skip(i + 2));
            i = i + 2;
        } else if str_eq(&args[i], "--dir") {
            if i + 1 >= args.len() {
                return Err(CliError::MissingValue(owned("--dir")));
            }
            assert(rest[1] == args@[i + 1]@);
            dir = Some(args[i + 1].clone());
            assert(rest.skip(2) =~= all.skip(i + 2));
            i = i + 2;
        } else {
            assert(rest.skip(1) =~= all.skip(i + 1));
            i = i + 1;
        }
    }
    Ok(CliOptions { port, dir })
}

/// The data directory: the `--dir` option, else the `MINICI_DATA`
/// environment variable, else `.mini-ci` in the home directory (or in `.`
/// when there is no home directory).
pub open spec fn data_root_spec(
    dir: Option<Seq<char>>,
    env_data: Option<Seq<char>>,
    home: Option<Seq<char>>,
) -> Seq<char> {
    match dir {
        Some(d) => d,
        None => match env_data {
            Some(e) => e,
            None => match home {
                Some(h) => path_join(h, ".mini-ci"@),
                None => path_join("."@, ".mini-ci"@),
            },
        },
    }
}

/// The data directory.
pub fn resolve_data_root(dir: Option<String>, env_data: Option<String>, home: Option<String>) -> (res:
    String)
    ensures
        res@ == data_root_spec(opt_view(dir), opt_view(env_data), opt_view(home)),
{
    match dir {
        Some(d) => d,
        None => match env_data {
            Some(e) => e,
            None => match home {
                Some(h) => join(h.as_str(), ".mini-ci"),
                None => join(".", ".mini-ci"),
            },
        },
    }
}

/// The address the server listens on: `127.0.0.1:<port>`.
pub fn listen_addr(port: u16) -> (res: String)
    ensures
        res@ == "127.0.0.1:"@ + decimal(port as int),
{
    let p = i64_to_decimal(port as i64);
    concat2("127.0.0.1:", p.as_str())
}

} // verus!
