//! How requests for the web interface's files are answered, and the text
//! of a few response headers.

use vstd::prelude::*;
use crate::text::{chars_of, concat3, contains_char, owned, string_from_chars};

verus! {

/// The media type that `mime_guess` gives for a path, from its extension.
pub uninterp spec fn mime_guess_first(path: Seq<char>) -> Seq<char>;

/// `mime_guess::from_path(..).first_or_octet_stream()`, as text. Claimed:
/// the result is the named function of the path; a path without a `.` has
/// no extension and gets `application/octet-stream`.
#[verifier::external_body]
fn guess_mime(path: &str) -> (res: String)
    ensures
        res@ == mime_guess_first(path@),
        !path@.contains('.') ==> res@ == "application/octet-stream"@,
{
    mime_guess::from_path(path).first_or_octet_stream().as_ref().to_owned()
}

/// The number of leading `/` of `s`.
pub open spec fn leading_slashes(s: Seq<char>) -> nat
    decreases s.len(),
{
    if s.len() > 0 && s[0] == '/' {
        1 + leading_slashes(s.drop_first())
    } else {
        0
    }
}

/// The file that a request path asks for: the path without its leading
/// `/`s, or `index.html` when nothing is left.
pub open spec fn asset_path_spec(uri_path: Seq<char>) -> Seq<char> {
    let p = uri_path.skip(leading_slashes(uri_path) as int);
    if p.len() == 0 {
        "index.html"@
    } else {
        p
    }
}

proof fn lemma_leading_slashes(s: Seq<char>, i: int)
    requires
        0 <= i <= s.len(),
        forall|j: int| 0 <= j < i ==> s[j] == '/',
        i == s.len() || s[i] != '/',
    ensures
        leading_slashes(s) == i,
    decreases i,
{
    if i > 0 {
        lemma_leading_slashes(s.drop_first(), i - 1);
    }
}

/// The file that a request path asks for.
pub fn asset_path(uri_path: &str) -> (res: String)
    ensures
        res@ == asset_path_spec(uri_path@),
{
    let v = chars_of(uri_path);
    let mut i: usize = 0;
    while i < v.len() && v[i] == '/'
        invariant
            v@ == uri_path@,
            i <= v.len(),
            forall|j: int| 0 <= j < i ==> v@[j] == '/',
        decreases v.len() - i,
    {
        i = i + 1;
    }
    proof {
        lemma_leading_slashes(uri_path@, i as int);
    }
    if i == v.len() {
        return owned("index.html");
    }
    let mut rest: Vec<char> = Vec::new();
    let mut k: usize = i;
    while k < v.len()
        invariant
            v@ == uri_path@,
            i <= k <= v.len(),
            rest@ == v@.subrange(i as int, k as int),
        decreases v.len() - k,
    {
        rest.push(v[k]);
        assert(v@.subrange(i as int, k + 1) =~= v@.subrange(i as int, k as int).push(v@[k as int]));
        k = k + 1;
    }
    assert(rest@ =~= uri_path@.skip(i as int));
    string_from_chars(&rest)
}

/// How a request for a file of the web interface is answered.
#[derive(Debug, Clone)]
pub enum StaticPlan {
    /// Send the file, with this content type.
    Serve { content_type: String },
    /// Send `index.html` as `text/html` if it is there, else answer 404:
    /// a path without an extension is a route of the single-page interface.
    Index,
    /// Answer 404 `not found`.
    NotFound,
}

/// How to answer a request for the file `path` (as `asset_path` gives it),
/// given whether the interface has that file.
pub fn static_plan(path: &str, found: bool) -> (res: StaticPlan)
    ensures
        found ==> (res matches StaticPlan::Serve { content_type } && content_type@
            == mime_guess_first(path@)),
        !found && !path@.contains('.') ==> res is Index,
        !found && path@.contains('.') ==> res is NotFound,
{
    if found {
        StaticPlan::Serve { content_type: guess_mime(path) }
    } else if !contains_char(path, '.') {
        StaticPlan::Index
    } else {
        StaticPlan::NotFound
    }
}

/// The `Content-Disposition` of an artifact download.
pub fn attachment_disposition(filename: &str) -> (res: String)
    ensures
        res@ == "attachment; filename=\""@ + filename@ + "\""@,
{
    concat3("attachment; filename=\"", filename, "\"")
}

} // verus!
