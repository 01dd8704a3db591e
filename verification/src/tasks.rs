//! Which tasks a repository offers, and which task names a run accepts.

use vstd::prelude::*;
use crate::models::TaskInfo;
use crate::order::{chars_lt, lemma_le_refl, lemma_le_total, lemma_le_trans};
use crate::text::{chars_le, chars_of, contains_char, ends_with, has_suffix, trim, trimmed};

verus! {

/// An entry of a repository's `.mini-ci` directory: its file name, and
/// whether it is a regular file (after following links).
#[derive(Debug, Clone)]
pub struct DirEntryInfo {
    pub name: String,
    pub is_file: bool,
}

/// Whether a directory entry is a task: a regular file whose name ends in
/// `.sh` and has no white space at either end (a run request is trimmed, so
/// it could not name such a file).
pub open spec fn is_task_script(e: DirEntryInfo) -> bool {
    e.is_file && has_suffix(e.name@, ".sh"@) && trimmed(e.name@) == e.name@
}

/// The names of the task scripts among `entries`, in directory order.
pub open spec fn task_names(entries: Seq<DirEntryInfo>) -> Seq<Seq<char>>
    decreases entries.len(),
{
    if entries.len() == 0 {
        Seq::empty()
    } else {
        let rest = task_names(entries.drop_last());
        if is_task_script(entries.last()) {
            rest.push(entries.last().name@)
        } else {
            rest
        }
    }
}

/// The names sorted: each comes before or equals the next.
pub open spec fn names_sorted(names: Seq<Seq<char>>) -> bool {
    forall|i: int, j: int| 0 <= i < j < names.len() ==> chars_le(#[trigger] names[i], #[trigger] names[j])
}

/// The views of a list of strings.
pub open spec fn views(v: Seq<String>) -> Seq<Seq<char>> {
    v.map_values(|s: String| s@)
}

proof fn lemma_insert_multiset<A>(s: Seq<A>, i: int, x: A)
    requires
        0 <= i <= s.len(),
    ensures
        s.insert(i, x).to_multiset() =~= s.to_multiset().insert(x),
{
    broadcast use vstd::seq_lib::group_to_multiset_ensures;

    let t = s.insert(i, x);
    assert(t.remove(i) =~= s);
    assert(t[i] == x);
    assert(t.contains(x));
}

/// The task scripts among a directory's entries, sorted by name.
pub fn select_task_scripts(entries: &Vec<DirEntryInfo>) -> (res: Vec<String>)
    ensures
        views(res@).to_multiset() == task_names(entries@).to_multiset(),
        names_sorted(views(res@)),
        forall|i: int|
            0 <= i < entries.len() && (#[trigger] entries@[i]).is_file && has_suffix(
                entries@[i].name@,
                ".sh"@,
            ) && trimmed(entries@[i].name@) == entries@[i].name@ ==> views(res@).contains(
                entries@[i].name@,
            ),
        forall|n: Seq<char>|
            #[trigger] views(res@).contains(n) ==> exists|i: int|
                0 <= i < entries.len() && (#[trigger] entries@[i]).name@ == n && entries@[i].is_file
                    && has_suffix(n, ".sh"@) && trimmed(n) == n,
{
    let mut res: Vec<String> = Vec::new();
    let mut keys: Vec<Vec<char>> = Vec::new();
    let mut k: usize = 0;
    assert(entries@.take(0) =~= Seq::<DirEntryInfo>::empty());
    assert(views(res@) =~= Seq::<Seq<char>>::empty());
    while k < entries.len()
        invariant
            k <= entries.len(),
            res.len() == keys.len(),
            forall|i: int| 0 <= i < res.len() ==> #[trigger] keys@[i]@ == res@[i]@,
            views(res@).to_multiset() == task_names(entries@.take(k as int)).to_multiset(),
            names_sorted(views(res@)),
        decreases entries.len() - k,
    {
        let e = &entries[k];
        assert(entries@.take(k + 1).drop_last() =~= entries@.take(k as int));
        let is_script = e.is_file && ends_with(e.name.as_str(), ".sh") && trim(e.name.as_str())
            == e.name;
        proof {
            reveal_strlit(".sh");
        }
        if is_script {
            let key = chars_of(e.name.as_str());
            let mut p: usize = 0;
            while p < keys.len() && !chars_lt(&key, &keys[p])
                invariant
                    p <= keys.len(),
                    res.len() == keys.len(),
                    forall|i: int| 0 <= i < res.len() ==> #[trigger] keys@[i]@ == res@[i]@,
                    forall|j: int| 0 <= j < p ==> chars_le(#[trigger] views(res@)[j], key@),
                decreases keys.len() - p,
            {
                assert(views(res@)[p as int] == keys@[p as int]@);
                p = p + 1;
            }
            let ghost old_views = views(res@);
            proof {
                if p < keys.len() {
                    assert(old_views[p as int] == keys@[p as int]@);
                    lemma_le_total(key@, old_views[p as int]);
                }
            }
            keys.insert(p, key);
            res.insert(p, e.name.clone());
            let ghost new_views = views(res@);
            proof {
                assert(new_views =~= old_views.insert(p as int, e.name@));
                lemma_insert_multiset(old_views, p as int, e.name@);
                assert forall|i: int, j: int| 0 <= i < j < new_views.len() implies chars_le(
                    #[trigger] new_views[i],
                    #[trigger] new_views[j],
                ) by {
                    if j < p {
                        assert(new_views[i] == old_views[i] && new_views[j] == old_views[j]);
                    } else if j == p {
                        assert(new_views[i] == old_views[i]);
                    } else if i < p {
                        assert(new_views[i] == old_views[i]);
                        assert(new_views[j] == old_views[j - 1]);
                        assert(chars_le(old_views[i], key@));
                        if (p as int) < j - 1 {
                            assert(chars_le(old_views[p as int], old_views[j - 1]));
                        } else {
                            lemma_le_refl(old_views[p as int]);
                        }
                        lemma_le_trans(key@, old_views[p as int], old_views[j - 1]);
                        lemma_le_trans(old_views[i], key@, old_views[j - 1]);
                    } else if i == p {
                        assert(new_views[j] == old_views[j - 1]);
                        if (p as int) < j - 1 {
                            assert(chars_le(old_views[p as int], old_views[j - 1]));
                        } else {
                            lemma_le_refl(old_views[p as int]);
                        }
                        lemma_le_trans(key@, old_views[p as int], old_views[j - 1]);
                    } else {
                        assert(new_views[i] == old_views[i - 1]);
                        assert(new_views[j] == old_views[j - 1]);
                    }
                }
                assert forall|i: int| 0 <= i < res.len() implies #[trigger] keys@[i]@
                    == res@[i]@ by {
                    if i < p {
                        assert(keys@[i]@ == old_views[i]);
                    } else if i > p {
                        assert(keys@[i]@ == old_views[i - 1]);
                    }
                }
            }
        }
        proof {
            broadcast use vstd::seq_lib::group_to_multiset_ensures;

            let t = entries@.take(k + 1);
            assert(t.last() == entries@[k as int]);
            assert(is_script == is_task_script(entries@[k as int]));
            if is_script {
                assert(task_names(t) == task_names(entries@.take(k as int)).push(e.name@));
            } else {
                assert(task_names(t) == task_names(entries@.take(k as int)));
            }
        }
        k = k + 1;
    }
    assert(entries@.take(entries.len() as int) =~= entries@);
    proof {
        law_every_script_is_listed(entries@, views(res@));
        assert forall|n: Seq<char>| #[trigger] views(res@).contains(n) implies exists|i: int|
            0 <= i < entries.len() && (#[trigger] entries@[i]).name@ == n && entries@[i].is_file
                && has_suffix(n, ".sh"@) && trimmed(n) == n by {
            law_listed_tasks_are_runnable(entries@, views(res@), n);
        }
    }
    res
}

/// The tasks, by name, in the order given.
pub fn task_infos(names: Vec<String>) -> (res: Vec<TaskInfo>)
    ensures
        res.len() == names.len(),
        forall|i: int| 0 <= i < names.len() ==> #[trigger] res@[i].name == names@[i],
{
    let mut res: Vec<TaskInfo> = Vec::new();
    let mut i: usize = 0;
    while i < names.len()
        invariant
            i <= names.len(),
            res.len() == i,
            forall|j: int| 0 <= j < i ==> #[trigger] res@[j].name == names@[j],
        decreases names.len() - i,
    {
        res.push(TaskInfo { name: names[i].clone() });
        i = i + 1;
    }
    res
}

/// Why a task name was refused.
#[derive(Debug, Clone, Copy, PartialEq, Eq, Structural)]
pub enum TaskNameError {
    /// After trimming, the name was empty or held a `/` or `\`.
    NotBareFilename,
}

impl TaskNameError {
    /// The text with which a request is refused.
    pub fn message(&self) -> (res: String)
        ensures
            res@ == "task_name must be a bare filename like build.sh"@,
    {
        "task_name must be a bare filename like build.sh".to_owned()
    }
}

/// Whether a trimmed task name is a bare file name.
pub open spec fn is_bare_filename(name: Seq<char>) -> bool {
    name.len() > 0 && !name.contains('/') && !name.contains('\\')
}

/// The task name of a run request, trimmed; refused when it is empty or
/// holds a path separator (`/` or `\`).
pub fn validate_task_name(raw: &str) -> (res: Result<String, TaskNameError>)
    ensures
        res matches Ok(name) ==> name@ == trimmed(raw@),
        res is Ok <==> is_bare_filename(trimmed(raw@)),
        res is Ok <==> (trimmed(raw@).len() > 0 && !trimmed(raw@).contains('/')
            && !trimmed(raw@).contains('\\')),
{
    let name = trim(raw);
    if contains_char(name.as_str(), '/') || contains_char(name.as_str(), '\\') || name.as_str().is_empty() {
        Err(TaskNameError::NotBareFilename)
    } else {
        Ok(name)
    }
}

/// A task name is refused exactly when, once trimmed, it is empty or holds
/// a `/` or a `\`; any other name is accepted as its trimmed text.
pub proof fn law_task_name_refused_only_for_separators_or_empty(raw: Seq<char>, name: Seq<char>)
    requires
        name == trimmed(raw),
    ensures
        is_bare_filename(name) <==> (name.len() > 0 && !name.contains('/') && !name.contains('\\')),
        (name.len() > 0 && forall|i: int| 0 <= i < name.len() ==> #[trigger] name[i] != '/' && name[i]
            != '\\') ==> is_bare_filename(name),
{
    if name.len() > 0 && forall|i: int| 0 <= i < name.len() ==> #[trigger] name[i] != '/' && name[i] != '\\' {
        assert(!name.contains('/'));
        assert(!name.contains('\\'));
    }
}

proof fn lemma_task_names_from_entries(entries: Seq<DirEntryInfo>, n: Seq<char>)
    requires
        task_names(entries).contains(n),
    ensures
        exists|i: int| 0 <= i < entries.len() && is_task_script(#[trigger] entries[i]) && entries[i].name@ == n,
    decreases entries.len(),
{
    let rest = task_names(entries.drop_last());
    if rest.contains(n) {
        lemma_task_names_from_entries(entries.drop_last(), n);
        let i = choose|i: int|
            0 <= i < entries.drop_last().len() && is_task_script(#[trigger] entries.drop_last()[i])
                && entries.drop_last()[i].name@ == n;
        assert(entries[i] == entries.drop_last()[i]);
    } else {
        let t = task_names(entries);
        let j = choose|j: int| 0 <= j < t.len() && t[j] == n;
        if is_task_script(entries.last()) {
            assert(t == rest.push(entries.last().name@));
            if j < rest.len() {
                assert(rest[j] == n);
            }
            assert(entries[entries.len() - 1] == entries.last());
        } else {
            assert(t == rest);
        }
    }
}

proof fn lemma_script_in_task_names(entries: Seq<DirEntryInfo>, i: int)
    requires
        0 <= i < entries.len(),
        is_task_script(entries[i]),
    ensures
        task_names(entries).contains(entries[i].name@),
    decreases entries.len(),
{
    let rest = task_names(entries.drop_last());
    if i == entries.len() - 1 {
        assert(entries.last() == entries[i]);
        let t = rest.push(entries[i].name@);
        assert(t[rest.len() as int] == entries[i].name@);
    } else {
        assert(entries.drop_last()[i] == entries[i]);
        lemma_script_in_task_names(entries.drop_last(), i);
        let j = choose|j: int| 0 <= j < rest.len() && rest[j] == entries[i].name@;
        if is_task_script(entries.last()) {
            assert(rest.push(entries.last().name@)[j] == rest[j]);
        }
    }
}

/// No script is left out of the listing: every entry that is a regular file
/// whose name ends in `.sh` and has no white space at either end is listed,
/// whatever else its name holds.
pub proof fn law_every_script_is_listed(entries: Seq<DirEntryInfo>, listed: Seq<Seq<char>>)
    requires
        listed.to_multiset() == task_names(entries).to_multiset(),
    ensures
        forall|i: int|
            0 <= i < entries.len() && (#[trigger] entries[i]).is_file && has_suffix(
                entries[i].name@,
                ".sh"@,
            ) && trimmed(entries[i].name@) == entries[i].name@ ==> listed.contains(entries[i].name@),
{
    broadcast use vstd::seq_lib::group_to_multiset_ensures;

    assert forall|i: int|
        0 <= i < entries.len() && (#[trigger] entries[i]).is_file && has_suffix(
            entries[i].name@,
            ".sh"@,
        ) && trimmed(entries[i].name@) == entries[i].name@ implies listed.contains(entries[i].name@) by {
        lemma_script_in_task_names(entries, i);
        assert(task_names(entries).to_multiset().count(entries[i].name@) > 0);
    }
}

/// Every listed task is run under the name it is listed with: trimming
/// leaves the name as it is, so a run request naming it is either accepted
/// unchanged (and the run looks for `.mini-ci/<name>`, a regular `.sh` file
/// of the directory) or, where the name holds a `\\`, refused.
pub proof fn law_listed_tasks_are_runnable(
    entries: Seq<DirEntryInfo>,
    listed: Seq<Seq<char>>,
    n: Seq<char>,
)
    requires
        listed.to_multiset() == task_names(entries).to_multiset(),
        listed.contains(n),
    ensures
        trimmed(n) == n,
        exists|i: int|
            0 <= i < entries.len() && (#[trigger] entries[i]).name@ == n && entries[i].is_file
                && has_suffix(n, ".sh"@),
{
    broadcast use vstd::seq_lib::group_to_multiset_ensures;

    assert(listed.to_multiset().count(n) > 0);
    assert(task_names(entries).contains(n));
    lemma_task_names_from_entries(entries, n);
}

} // verus!
