//! Content-type inference from a file path: the extension of the path's
//! final component, looked up in a fixed extension-to-content-type table
//! with `application/octet-stream` as the fallback.

use vstd::prelude::*;
use vstd::string::StrSliceExecFns;
use vstd::string::StringExecFns;

verus! {

/// The index of the last occurrence of `c` in `s`, if any.
pub open spec fn last_occurrence(s: Seq<char>, c: char) -> Option<int>
    decreases s.len(),
{
    if s.len() == 0 {
        None
    } else if s[s.len() - 1] == c {
        Some(s.len() - 1)
    } else {
        last_occurrence(s.drop_last(), c)
    }
}

proof fn lemma_last_occurrence_bounds(s: Seq<char>, c: char)
    ensures
        match last_occurrence(s, c) {
            Some(i) => 0 <= i < s.len() && s[i] == c && (forall|j: int|
                i < j < s.len() ==> s[j] != c),
            None => forall|j: int| 0 <= j < s.len() ==> s[j] != c,
        },
    decreases s.len(),
{
    if s.len() > 0 && s[s.len() - 1] != c {
        let t = s.drop_last();
        lemma_last_occurrence_bounds(t, c);
        assert(forall|j: int| 0 <= j < t.len() ==> t[j] == s[j]);
        match last_occurrence(s, c) {
            Some(i) => {
                assert(s[i] == t[i]);
                assert forall|j: int| i < j < s.len() implies s[j] != c by {
                    if j < s.len() - 1 {
                        assert(t[j] != c);
                    }
                }
            },
            None => {
                assert forall|j: int| 0 <= j < s.len() implies s[j] != c by {
                    if j < s.len() - 1 {
                        assert(t[j] != c);
                    }
                }
            },
        }
    }
}

proof fn lemma_last_occurrence_at(s: Seq<char>, c: char, i: int)
    requires
        0 <= i < s.len(),
        s[i] == c,
        forall|j: int| i < j < s.len() ==> s[j] != c,
    ensures
        last_occurrence(s, c) == Some(i),
    decreases s.len(),
{
    if i < s.len() - 1 {
        lemma_last_occurrence_at(s.drop_last(), c, i);
    }
}

proof fn lemma_last_occurrence_absent(s: Seq<char>, c: char)
    requires
        forall|j: int| 0 <= j < s.len() ==> s[j] != c,
    ensures
        last_occurrence(s, c) is None,
    decreases s.len(),
{
    if s.len() > 0 {
        lemma_last_occurrence_absent(s.drop_last(), c);
    }
}

/// Finds the index of the last occurrence of `c` in `s`, scanning from the
/// end.
fn last_index_of(s: &str, c: char) -> (r: Option<usize>)
    ensures
        match r {
            Some(i) => last_occurrence(s@, c) == Some(i as int),
            None => last_occurrence(s@, c) is None,
        },
{
    let n = s.unicode_len();
    let mut i: usize = n;
    while i > 0
        invariant
            i <= n,
            n == s@.len(),
            forall|j: int| i <= j < n ==> s@[j] != c,
        decreases i,
    {
        i = i - 1;
        let ch = s.get_char(i);
        if ch == c {
            proof {
                lemma_last_occurrence_at(s@, c, i as int);
            }
            return Some(i);
        }
    }
    proof {
        lemma_last_occurrence_absent(s@, c);
    }
    None
}

/// The final component of a slash-delimited path: everything after the last
/// `/`, or the whole path when it contains none.
pub open spec fn spec_file_name(p: Seq<char>) -> Seq<char> {
    match last_occurrence(p, '/') {
        Some(i) => p.subrange(i + 1, p.len() as int),
        None => p,
    }
}

/// The extension of a path's final component: the part after the last `.`,
/// or `None` when the component has no `.`, or only a leading one (a hidden
/// file such as `.profile` has no extension).
pub open spec fn spec_extension(p: Seq<char>) -> Option<Seq<char>> {
    let name = spec_file_name(p);
    match last_occurrence(name, '.') {
        Some(i) => if i > 0 {
            Some(name.subrange(i + 1, name.len() as int))
        } else {
            None
        },
        None => None,
    }
}

fn file_name_part<'a>(path: &'a str) -> (r: &'a str)
    ensures
        r@ == spec_file_name(path@),
{
    proof {
        lemma_last_occurrence_bounds(path@, '/');
    }
    let n = path.unicode_len();
    match last_index_of(path, '/') {
        Some(i) => path.substring_char(i + 1, n),
        None => path,
    }
}

fn extension_part<'a>(path: &'a str) -> (r: Option<&'a str>)
    ensures
        r.deep_view() == spec_extension(path@),
{
    let name = file_name_part(path);
    proof {
        lemma_last_occurrence_bounds(name@, '.');
    }
    let n = name.unicode_len();
    match last_index_of(name, '.') {
        Some(i) => if i > 0 {
            Some(name.substring_char(i + 1, n))
        } else {
            None
        },
        None => None,
    }
}

fn str_eq(a: &str, b: &str) -> (r: bool)
    ensures
        r == (a@ == b@),
{
    let sa = String::from_str(a);
    let sb = String::from_str(b);
    sa.eq(&sb)
}

/// The fixed extension-to-content-type table (case-sensitive exact match),
/// with `application/octet-stream` for an unknown or missing extension.
pub open spec fn spec_mime_for_extension(ext: Option<Seq<char>>) -> Seq<char> {
    match ext {
        Some(e) => if e == "html"@ {
            "text/html;charset=utf-8"@
        } else if e == "css"@ {
            "text/css;charset=utf-8"@
        } else if e == "js"@ {
            "text/javascript;charset=utf-8"@
        } else if e == "json"@ {
            "application/json"@
        } else if e == "png"@ {
            "image/png"@
        } else if e == "jpg"@ {
            "image/jpeg"@
        } else if e == "jpeg"@ {
            "image/jpeg"@
        } else if e == "gif"@ {
            "image/gif"@
        } else {
            "application/octet-stream"@
        },
        None => "application/octet-stream"@,
    }
}

/// The content type served for a file at `p`: the table entry for the
/// extension of `p`'s final component.
pub open spec fn spec_mime_type(p: Seq<char>) -> Seq<char> {
    spec_mime_for_extension(spec_extension(p))
}

fn mime_for_extension(ext: &str) -> (r: &'static str)
    ensures
        r@ == spec_mime_for_extension(Some(ext@)),
{
    if str_eq(ext, "html") {
        "text/html;charset=utf-8"
    } else if str_eq(ext, "css") {
        "text/css;charset=utf-8"
    } else if str_eq(ext, "js") {
        "text/javascript;charset=utf-8"
    } else if str_eq(ext, "json") {
        "application/json"
    } else if str_eq(ext, "png") {
        "image/png"
    } else if str_eq(ext, "jpg") {
        "image/jpeg"
    } else if str_eq(ext, "jpeg") {
        "image/jpeg"
    } else if str_eq(ext, "gif") {
        "image/gif"
    } else {
        "application/octet-stream"
    }
}

/// Infers the content type to serve for the file at `path` from the
/// extension of its final component.
pub fn get_mime_type(path: &str) -> (r: &'static str)
    ensures
        r@ == spec_mime_type(path@),
{
    match extension_part(path) {
        Some(ext) => mime_for_extension(ext),
        None => "application/octet-stream",
    }
}

/// Content-type inference is a pure function of the file's extension: two
/// paths with the same extension are served with the same content type.
pub proof fn lemma_mime_depends_only_on_extension(p1: Seq<char>, p2: Seq<char>)
    requires
        spec_extension(p1) == spec_extension(p2),
    ensures
        spec_mime_type(p1) == spec_mime_type(p2),
{
}

} // verus!
