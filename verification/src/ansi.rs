//! Removal of terminal control sequences from script output, and the log
//! lines that a script's output becomes.
//!
//! What is removed is fixed by one regular expression, run by the `regex`
//! crate: a CSI sequence (`ESC [`, digits and semicolons, one ASCII letter),
//! an OSC sequence (`ESC ]` up to the first BEL, with no line feed between)
//! or a carriage return. `ansi_stripped` states what replacing every
//! leftmost-first, non-overlapping match of that expression by nothing gives.

use vstd::prelude::*;
use crate::text::{concat3, push_char};

verus! {

#[verifier::external_type_specification]
#[verifier::external_body]
pub struct ExRegex(regex::Regex);

/// The expression, in the syntax of the `regex` crate, that matches one
/// terminal control sequence.
pub open spec fn ansi_pattern() -> Seq<char> {
    "\\x1b\\[[0-9;]*[a-zA-Z]|\\x1b\\].*?\\x07|\\r"@
}

pub open spec fn is_csi_param(c: char) -> bool {
    ('0' <= c && c <= '9') || c == ';'
}

pub open spec fn is_ascii_letter(c: char) -> bool {
    ('a' <= c && c <= 'z') || ('A' <= c && c <= 'Z')
}

/// The number of leading digits and semicolons of `s`.
pub open spec fn param_run(s: Seq<char>) -> nat
    decreases s.len(),
{
    if s.len() > 0 && is_csi_param(s[0]) {
        1 + param_run(s.drop_first())
    } else {
        0
    }
}

/// The index of the first BEL (`\x07`) of `s`, when no line feed comes
/// before it.
pub open spec fn bel_index(s: Seq<char>) -> Option<nat>
    decreases s.len(),
{
    if s.len() == 0 {
        None
    } else if s[0] == '\x07' {
        Some(0)
    } else if s[0] == '\n' {
        None
    } else {
        match bel_index(s.drop_first()) {
            Some(k) => Some(k + 1),
            None => None,
        }
    }
}

/// The length of the control sequence that starts `s`, or 0 when none does.
pub open spec fn ansi_match_len(s: Seq<char>) -> nat {
    if s.len() == 0 {
        0
    } else if s[0] == '\r' {
        1
    } else if s[0] == '\x1b' && s.len() >= 2 && s[1] == '[' {
        let k = param_run(s.skip(2));
        if 2 + k < s.len() && is_ascii_letter(s[2 + k as int]) {
            3 + k
        } else {
            0
        }
    } else if s[0] == '\x1b' && s.len() >= 2 && s[1] == ']' {
        match bel_index(s.skip(2)) {
            Some(j) => j + 3,
            None => 0,
        }
    } else {
        0
    }
}

pub proof fn lemma_bel_index_bound(s: Seq<char>)
    ensures
        bel_index(s) matches Some(j) ==> j < s.len() && s[j as int] == '\x07' && (forall|i: int|
            0 <= i < j ==> #[trigger] s[i] != '\n' && s[i] != '\x07'),
        bel_index(s) is None ==> forall|j: int|
            0 <= j < s.len() && #[trigger] s[j] == '\x07' ==> exists|i: int|
                0 <= i < j && s[i] == '\n',
    decreases s.len(),
{
    if s.len() > 0 && s[0] != '\x07' && s[0] != '\n' {
        let t = s.drop_first();
        lemma_bel_index_bound(t);
        if let Some(j) = bel_index(s) {
            assert forall|i: int| 0 <= i < j implies #[trigger] s[i] != '\n' && s[i] != '\x07' by {
                if i > 0 {
                    assert(s[i] == t[i - 1]);
                }
            }
        } else {
            assert forall|j: int| 0 <= j < s.len() && #[trigger] s[j] == '\x07' implies exists|i: int|
                0 <= i < j && s[i] == '\n' by {
                assert(t[j - 1] == s[j]);
                let i = choose|i: int| 0 <= i < j - 1 && t[i] == '\n';
                assert(s[i + 1] == '\n');
            }
        }
    } else if s.len() > 0 && s[0] == '\n' {
        assert forall|j: int| 0 <= j < s.len() && #[trigger] s[j] == '\x07' implies exists|i: int|
            0 <= i < j && s[i] == '\n' by {
            assert(s[0] == '\n');
        }
    }
}

pub proof fn lemma_match_len_bound(s: Seq<char>)
    ensures
        ansi_match_len(s) <= s.len(),
{
    if s.len() >= 2 && s[0] == '\x1b' && s[1] == ']' {
        lemma_bel_index_bound(s.skip(2));
    }
}

/// `s` with every terminal control sequence removed, scanning from the left
/// and going on after each removed sequence.
pub open spec fn ansi_stripped(s: Seq<char>) -> Seq<char>
    decreases s.len(),
{
    if s.len() == 0 {
        Seq::empty()
    } else {
        let n = ansi_match_len(s);
        if n > 0 {
            proof {
                lemma_match_len_bound(s);
            }
            ansi_stripped(s.skip(n as int))
        } else {
            seq![s[0]] + ansi_stripped(s.skip(1))
        }
    }
}

/// What `regex::Regex::replace_all` gives for a haystack and a replacement,
/// with the regex compiled from a pattern.
pub uninterp spec fn regex_replace_all_result(
    pattern: Seq<char>,
    hay: Seq<char>,
    rep: Seq<char>,
) -> Seq<char>;

/// A compiled regular expression together with the pattern it was compiled
/// from.
pub struct CompiledRegex {
    source: String,
    re: regex::Regex,
}

impl CompiledRegex {
    /// The pattern this expression was compiled from.
    pub closed spec fn source(&self) -> Seq<char> {
        self.source@
    }
}

/// `regex::Regex::new`: compiles `pattern`, `None` where it is not a valid
/// expression. Claimed: the result keeps `pattern` as its source, and the
/// terminal-control pattern of this module compiles.
#[verifier::external_body]
fn compile_regex(pattern: &str) -> (res: Option<CompiledRegex>)
    ensures
        res matches Some(r) ==> r.source() == pattern@,
        pattern@ == ansi_pattern() ==> res is Some,
{
    match regex::Regex::new(pattern) {
        Ok(re) => Some(CompiledRegex { source: pattern.to_string(), re }),
        Err(_) => None,
    }
}

/// `regex::Regex::replace_all`: replaces every leftmost-first,
/// non-overlapping match of `r` in `hay` by `rep`. Claimed: the result is
/// the named function of the source, haystack and replacement; for the
/// terminal-control pattern and an empty replacement it is `ansi_stripped`
/// (each alternative of that pattern matches a non-empty text, the three
/// alternatives differ in their first two characters, `[0-9;]*` is followed
/// by a letter it cannot contain, `.*?` stops at the first BEL and `.` does
/// not match a line feed).
#[verifier::external_body]
fn regex_replace_all(r: &CompiledRegex, hay: &str, rep: &str) -> (res: String)
    ensures
        res@ == regex_replace_all_result(r.source(), hay@, rep@),
        r.source() == ansi_pattern() && rep@.len() == 0 ==> res@ == ansi_stripped(hay@),
{
    r.re.replace_all(hay, rep).into_owned()
}

/// Removes terminal control sequences; compiled once, used for many lines.
pub struct AnsiStripper {
    re: CompiledRegex,
}

impl AnsiStripper {
    /// It holds the terminal-control pattern.
    #[verifier::type_invariant]
    closed spec fn wf(&self) -> bool {
        self.re.source() == ansi_pattern()
    }

    /// The expression this stripper removes matches of.
    pub closed spec fn pattern(&self) -> Seq<char> {
        self.re.source()
    }

    /// A stripper for the terminal-control pattern.
    pub fn new() -> (res: AnsiStripper)
        ensures
            res.pattern() == ansi_pattern(),
    {
        let pattern = "\\x1b\\[[0-9;]*[a-zA-Z]|\\x1b\\].*?\\x07|\\r";
        let re = compile_regex(pattern);
        AnsiStripper { re: re.unwrap() }
    }

    /// `s` with its terminal control sequences removed.
    pub fn strip(&self, s: &str) -> (res: String)
        ensures
            res@ == ansi_stripped(s@),
    {
        proof {
            use_type_invariant(self);
            reveal_strlit("");
        }
        regex_replace_all(&self.re, s, "")
    }
}

/// `s` with its terminal control sequences removed.
pub fn strip_ansi(s: &str) -> (res: String)
    ensures
        res@ == ansi_stripped(s@),
{
    AnsiStripper::new().strip(s)
}

/// The run-log entry for a line: `[label] line\n`.
pub open spec fn labelled(label: Seq<char>, line: Seq<char>) -> Seq<char> {
    seq!['['] + label + seq![']', ' '] + line + seq!['\n']
}

/// The run-log entry for one line that a script wrote on the stream named
/// `label`: the line without its terminal control sequences, labelled.
pub open spec fn log_line(label: Seq<char>, line: Seq<char>) -> Seq<char> {
    labelled(label, ansi_stripped(line))
}

/// The run-log entry for a line, as it is: `[label] line\n`.
pub fn labelled_line(label: &str, line: &str) -> (res: String)
    ensures
        res@ == labelled(label@, line@),
{
    let mut res = String::new();
    push_char(&mut res, '[');
    let head = concat3(res.as_str(), label, "] ");
    let body = concat3(head.as_str(), line, "\n");
    proof {
        reveal_strlit("] ");
        reveal_strlit("\n");
        assert(body@ =~= labelled(label@, line@));
    }
    body
}

/// The run-log entry for one output line: `[label] line\n`, the line
/// without its terminal control sequences.
pub fn format_log_line(stripper: &AnsiStripper, label: &str, line: &str) -> (res: String)
    ensures
        res@ == log_line(label@, line@),
{
    let clean = stripper.strip(line);
    labelled_line(label, clean.as_str())
}

/// Stripped text holds no carriage return.
pub proof fn law_stripped_has_no_carriage_return(s: Seq<char>)
    ensures
        !ansi_stripped(s).contains('\r'),
    decreases s.len(),
{
    if s.len() > 0 {
        let n = ansi_match_len(s);
        lemma_match_len_bound(s);
        if n > 0 {
            law_stripped_has_no_carriage_return(s.skip(n as int));
        } else {
            law_stripped_has_no_carriage_return(s.skip(1));
            let r = ansi_stripped(s.skip(1));
            assert(ansi_stripped(s) == seq![s[0]] + r);
            if ansi_stripped(s).contains('\r') {
                let i = choose|i: int| 0 <= i < ansi_stripped(s).len() && ansi_stripped(s)[i] == '\r';
                if i > 0 {
                    assert(r[i - 1] == '\r');
                }
            }
        }
    }
}

/// Stripping never makes text longer.
pub proof fn law_stripped_not_longer(s: Seq<char>)
    ensures
        ansi_stripped(s).len() <= s.len(),
    decreases s.len(),
{
    if s.len() > 0 {
        let n = ansi_match_len(s);
        lemma_match_len_bound(s);
        if n > 0 {
            law_stripped_not_longer(s.skip(n as int));
        } else {
            law_stripped_not_longer(s.skip(1));
        }
    }
}

/// Text without an escape character or a carriage return is kept as it is.
pub proof fn law_plain_text_kept(s: Seq<char>)
    requires
        !s.contains('\x1b'),
        !s.contains('\r'),
    ensures
        ansi_stripped(s) == s,
    decreases s.len(),
{
    if s.len() > 0 {
        assert(s[0] != '\x1b' && s[0] != '\r');
        let t = s.skip(1);
        assert forall|c: char| c == '\x1b' || c == '\r' implies !t.contains(c) by {
            if t.contains(c) {
                let i = choose|i: int| 0 <= i < t.len() && t[i] == c;
                assert(s[i + 1] == c);
            }
        }
        law_plain_text_kept(t);
        assert(seq![s[0]] + t =~= s);
    }
}

} // verus!
