//! Automatic runs: a project with `auto_run_on_change` set has its branch's
//! head on the remote looked up periodically, and its `auto_run_task` is run
//! when the head differs from the one seen at the last look.

use vstd::prelude::*;
use crate::models::Project;
use crate::tasks::{is_bare_filename, validate_task_name};
use crate::text::{chars_of, concat2, owned, string_from_chars, trimmed};

verus! {

/// Whether `c` ends the first field of a line of `git ls-remote`.
pub open spec fn is_field_end(c: char) -> bool {
    c == '\t' || c == ' ' || c == '\n' || c == '\r'
}

/// The number of characters before the first field end of `s`.
pub open spec fn field_len(s: Seq<char>) -> nat
    decreases s.len(),
{
    if s.len() == 0 || is_field_end(s[0]) {
        0
    } else {
        1 + field_len(s.drop_first())
    }
}

proof fn lemma_field_len(s: Seq<char>, i: int)
    requires
        0 <= i <= s.len(),
        forall|j: int| 0 <= j < i ==> !is_field_end(#[trigger] s[j]),
        i == s.len() || is_field_end(s[i]),
    ensures
        field_len(s) == i,
    decreases i,
{
    if i > 0 {
        lemma_field_len(s.drop_first(), i - 1);
    }
}

/// The commit that `git ls-remote <url> refs/heads/<branch>` names: the
/// first field of its output, `None` when the output is empty (no such
/// branch).
pub fn remote_head(ls_remote_out: &str) -> (res: Option<String>)
    ensures
        field_len(ls_remote_out@) == 0 <==> res is None,
        res matches Some(h) ==> h@ == ls_remote_out@.take(field_len(ls_remote_out@) as int),
        res is None <==> (ls_remote_out@.len() == 0 || ls_remote_out@[0] == '\t' || ls_remote_out@[0]
            == ' ' || ls_remote_out@[0] == '\n' || ls_remote_out@[0] == '\r'),
        res matches Some(h) ==> {
            &&& 0 < h@.len() <= ls_remote_out@.len()
            &&& h@ == ls_remote_out@.take(h@.len() as int)
            &&& forall|j: int|
                0 <= j < h@.len() ==> #[trigger] h@[j] != '\t' && h@[j] != ' ' && h@[j] != '\n' && h@[j]
                    != '\r'
            &&& h@.len() == ls_remote_out@.len() || ls_remote_out@[h@.len() as int] == '\t'
                || ls_remote_out@[h@.len() as int] == ' ' || ls_remote_out@[h@.len() as int] == '\n'
                || ls_remote_out@[h@.len() as int] == '\r'
        },
{
    let v = chars_of(ls_remote_out);
    let mut i: usize = 0;
    while i < v.len() && !(v[i] == '\t' || v[i] == ' ' || v[i] == '\n' || v[i] == '\r')
        invariant
            v@ == ls_remote_out@,
            i <= v.len(),
            forall|j: int| 0 <= j < i ==> !is_field_end(#[trigger] v@[j]),
        decreases v.len() - i,
    {
        i = i + 1;
    }
    proof {
        lemma_field_len(ls_remote_out@, i as int);
    }
    if i == 0 {
        return None;
    }
    let mut head: Vec<char> = Vec::new();
    let mut k: usize = 0;
    while k < i
        invariant
            v@ == ls_remote_out@,
            k <= i <= v.len(),
            head@ == v@.take(k as int),
        decreases i - k,
    {
        head.push(v[k]);
        assert(v@.take(k + 1) =~= v@.take(k as int).push(v@[k as int]));
        k = k + 1;
    }
    Some(string_from_chars(&head))
}

/// The first field of a line ends only at a tab, a space, a line feed or a
/// carriage return: a field `s` free of those, followed by a tab and the
/// rest `r` of the line, is read back whole.
pub proof fn law_first_field_read_whole(s: Seq<char>, r: Seq<char>)
    requires
        forall|j: int| 0 <= j < s.len() ==> #[trigger] s[j] != '\t' && s[j] != ' ' && s[j] != '\n' && s[j]
            != '\r',
    ensures
        field_len(s + seq!['\t'] + r) == s.len(),
        (s + seq!['\t'] + r).take(field_len(s + seq!['\t'] + r) as int) == s,
        s.len() > 0 ==> field_len(s + seq!['\t'] + r) != 0,
{
    let t = s + seq!['\t'] + r;
    assert forall|j: int| 0 <= j < s.len() implies !is_field_end(#[trigger] t[j]) by {
        assert(t[j] == s[j]);
    }
    assert(t[s.len() as int] == '\t');
    lemma_field_len(t, s.len() as int);
    assert(t.take(s.len() as int) =~= s);
}

/// The arguments of the `git ls-remote` that looks up a branch's head.
pub fn ls_remote_args(repo_url: &str, branch: &str) -> (res: Vec<String>)
    ensures
        res@.len() == 3,
        res@[0]@ == "ls-remote"@,
        res@[1]@ == repo_url@,
        res@[2]@ == "refs/heads/"@ + branch@,
{
    let mut res: Vec<String> = Vec::new();
    res.push(owned("ls-remote"));
    res.push(owned(repo_url));
    res.push(concat2("refs/heads/", branch));
    res
}

/// How often, in seconds, the remote heads of watched projects are looked
/// up.
pub const AUTO_RUN_POLL_SECS: u64 = 60;

/// Whether a project's remote head is looked up at all: automatic runs are
/// on and its task name is a bare file name, so a new head can start a run.
pub open spec fn watched(p: Project) -> bool {
    p.auto_run_on_change && is_bare_filename(trimmed(p.auto_run_task@))
}

/// Whether a project's remote head is looked up.
pub fn watches_remote(p: &Project) -> (res: bool)
    ensures
        res == watched(*p),
{
    p.auto_run_on_change && validate_task_name(p.auto_run_task.as_str()).is_ok()
}

/// Whether a project's task is to run: automatic runs are on, its task name
/// is a bare file name, a head was seen before and the remote head differs.
pub open spec fn auto_run_due(p: Project, last_seen: Option<Seq<char>>, head: Seq<char>) -> bool {
    &&& p.auto_run_on_change
    &&& is_bare_filename(trimmed(p.auto_run_task@))
    &&& last_seen matches Some(h) && h != head
}

/// The task to run for a project whose remote head is now `head`, having
/// been `last_seen` at the last look (`None` at the first).
pub fn auto_run_task(p: &Project, last_seen: &Option<String>, head: &str) -> (res: Option<String>)
    ensures
        res is Some <==> auto_run_due(
            *p,
            match last_seen {
                Some(h) => Some(h@),
                None => None,
            },
            head@,
        ),
        res matches Some(t) ==> t@ == trimmed(p.auto_run_task@),
{
    if !p.auto_run_on_change {
        return None;
    }
    let changed = match last_seen {
        Some(h) => {
            let now = owned(head);
            !(*h == now)
        },
        None => false,
    };
    if !changed {
        return None;
    }
    match validate_task_name(p.auto_run_task.as_str()) {
        Ok(t) => Some(t),
        Err(_) => None,
    }
}

} // verus!
