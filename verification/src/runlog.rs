//! Incremental reading of a run's log.
//!
//! A log only grows, by appended chunks. A reader asks for the log from a
//! character offset and gets the rest of the log together with its total
//! length in characters, which it passes as the offset of its next read.

use vstd::prelude::*;
use crate::models::{RunMeta, RunRow};
use crate::text::{chars_of, string_from_chars};

verus! {

/// The part of `log` from character `offset` on; empty past the end.
pub open spec fn log_tail(log: Seq<char>, offset: int) -> Seq<char> {
    if offset < log.len() {
        log.skip(offset)
    } else {
        Seq::empty()
    }
}

/// The log after `chunk` was appended to it.
pub open spec fn appended(log: Seq<char>, chunk: Seq<char>) -> Seq<char> {
    log + chunk
}

/// The part of `log` from character `offset` on (empty past the end),
/// and the number of characters of `log`.
pub fn log_since(log: &str, offset: usize) -> (res: (String, usize))
    ensures
        res.0@ == log_tail(log@, offset as int),
        res.1 == log@.len(),
{
    let v = chars_of(log);
    let n = v.len();
    let mut tail: Vec<char> = Vec::new();
    let mut i: usize = offset;
    while i < n
        invariant
            v@ == log@,
            n == v.len(),
            offset <= i,
            i < n ==> tail@ == v@.subrange(offset as int, i as int),
            i >= n ==> (offset < n ==> tail@ == v@.subrange(offset as int, n as int)) && (offset
                >= n ==> tail@.len() == 0),
        decreases n - i,
    {
        tail.push(v[i]);
        assert(v@.subrange(offset as int, i + 1) =~= v@.subrange(offset as int, i as int).push(
            v@[i as int],
        ));
        i = i + 1;
    }
    let s = string_from_chars(&tail);
    assert(s@ =~= log_tail(log@, offset as int));
    (s, n)
}

/// The number of characters of `log`.
pub fn log_char_len(log: &str) -> (res: usize)
    ensures
        res == log@.len(),
{
    chars_of(log).len()
}

/// A run's metadata: its fields without the log, and the log's length in
/// characters.
pub fn run_meta(row: &RunRow) -> (res: RunMeta)
    ensures
        res.id == row.id,
        res.project_id == row.project_id,
        res.task_name == row.task_name,
        res.status == row.status,
        res.log_char_len == row.log@.len(),
        res.started_at == row.started_at,
        res.finished_at == row.finished_at,
{
    RunMeta {
        id: row.id.clone(),
        project_id: row.project_id.clone(),
        task_name: row.task_name.clone(),
        status: row.status.clone(),
        log_char_len: log_char_len(row.log.as_str()),
        started_at: row.started_at,
        finished_at: row.finished_at,
    }
}

/// A run as served from a log offset: its log is cut to the part from
/// `offset` on, and the length of the whole log comes with it as the offset
/// of the next read.
pub fn run_since(row: RunRow, offset: usize) -> (res: (RunRow, usize))
    ensures
        res.0.id == row.id,
        res.0.project_id == row.project_id,
        res.0.task_name == row.task_name,
        res.0.status == row.status,
        res.0.log@ == log_tail(row.log@, offset as int),
        res.0.started_at == row.started_at,
        res.0.finished_at == row.finished_at,
        res.1 == row.log@.len(),
{
    let (tail, total) = log_since(row.log.as_str(), offset);
    (RunRow { log: tail, ..row }, total)
}

/// Reading from offset 0 gives the whole log.
pub proof fn law_read_from_start(log: Seq<char>)
    ensures
        log_tail(log, 0) == log,
{
    if log.len() > 0 {
        assert(log.skip(0) =~= log);
    }
}

/// Reading from the length that an earlier read returned gives exactly
/// what was appended since.
pub proof fn law_read_after_append(log: Seq<char>, chunk: Seq<char>)
    ensures
        log_tail(appended(log, chunk), log.len() as int) == chunk,
{
    assert(log_tail(appended(log, chunk), log.len() as int) =~= chunk);
}

/// What was read before an offset and what is read from it make up the
/// whole log.
pub proof fn law_reads_reassemble(log: Seq<char>, offset: int)
    requires
        0 <= offset <= log.len(),
    ensures
        log.take(offset) + log_tail(log, offset) == log,
{
    assert(log.take(offset) + log_tail(log, offset) =~= log);
}

/// A reader that read the log at one time, and reads again from the length
/// it was told, after any appends, has seen the later log whole.
pub proof fn law_two_reads_see_whole_log(earlier: Seq<char>, later: Seq<char>)
    requires
        earlier.len() <= later.len(),
        later.take(earlier.len() as int) == earlier,
    ensures
        log_tail(earlier, 0) + log_tail(later, earlier.len() as int) == later,
{
    law_read_from_start(earlier);
    law_reads_reassemble(later, earlier.len() as int);
}

} // verus!
