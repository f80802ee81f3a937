//! Paths as the shell bridge sees them: strings with forward slashes.
//!
//! A location is normalised before it is stored or printed, so that the line
//! handed to the shell means the same in every shell. The functions that take
//! a path apart (`file_name`, `extension`, `parent`) work on the separator
//! `/` and treat `\` as its alias.
use vstd::prelude::*;
use vstd::string::*;
use crate::text::{
    chars_of, concat2, concat3, last_index_of, matches_at, occurs_at, replace_char, rfind_char,
    str_equal, string_of, string_of_range, swap_char,
};

verus! {

/// Why a path could not be used.
#[derive(Debug, Clone, Copy, PartialEq, Eq)]
pub enum PathError {
    /// The path is relative; only the caller knows what it is relative to.
    NotAbsolute,
    /// The path has no last component to name a shortcut after.
    NoFileName,
}

impl PathError {
    /// The words in which the error is reported.
    pub open spec fn spec_message(self) -> Seq<char> {
        match self {
            PathError::NotAbsolute => "Unable to sanitize path."@,
            PathError::NoFileName => "Unable to extract file name for shortcut"@,
        }
    }

    /// The words in which the error is reported.
    pub fn message(&self) -> (r: String)
        ensures
            r@ == self.spec_message(),
    {
        match self {
            PathError::NotAbsolute => "Unable to sanitize path.".to_owned(),
            PathError::NoFileName => "Unable to extract file name for shortcut".to_owned(),
        }
    }
}

/// The prefix that marks a long path once its backslashes are slashes.
pub open spec fn long_path_prefix() -> Seq<char> {
    "//?/"@
}

/// `c` is an ASCII letter, as a drive is named by.
pub open spec fn is_drive_letter(c: char) -> bool {
    ('a' <= c && c <= 'z') || ('A' <= c && c <= 'Z')
}

/// A path is absolute when it starts at a root: with a separator, or with a
/// drive letter, a colon and a separator.
pub open spec fn spec_is_absolute(p: Seq<char>) -> bool {
    (p.len() >= 1 && (p[0] == '/' || p[0] == '\\')) || (p.len() >= 3 && is_drive_letter(p[0])
        && p[1] == ':' && (p[2] == '/' || p[2] == '\\'))
}

/// The normal form of a path: every backslash a slash, and the long-path
/// prefix taken off where the path starts with it. What follows the prefix
/// stays as it is.
pub open spec fn spec_sanitize(p: Seq<char>) -> Seq<char> {
    let q = swap_char(p, '\\', '/');
    if occurs_at(q, long_path_prefix(), 0) {
        q.skip(long_path_prefix().len() as int)
    } else {
        q
    }
}

/// A path in normal form holds no backslash and does not start with the
/// long-path prefix.
pub open spec fn is_sanitized(p: Seq<char>) -> bool {
    !p.contains('\\') && !occurs_at(p, long_path_prefix(), 0)
}

/// `q` without what a path may end in beside its last component: separators,
/// and a `.` behind a separator.
pub open spec fn spec_strip_tail(q: Seq<char>) -> Seq<char>
    decreases q.len(),
{
    if q.len() >= 1 && q.last() == '/' {
        spec_strip_tail(q.drop_last())
    } else if q.len() >= 2 && q[q.len() - 1] == '.' && q[q.len() - 2] == '/' {
        spec_strip_tail(q.take(q.len() - 2))
    } else {
        q
    }
}

/// The last component of `p`: what stands between the last separator and the
/// end, where separators and `.` components at the end do not count. A path
/// that is nothing but a root or `.`, or that ends in `..`, has none.
pub open spec fn spec_file_name(p: Seq<char>) -> Option<Seq<char>> {
    let q = spec_strip_tail(swap_char(p, '\\', '/'));
    let name = match last_index_of(q, '/') {
        Some(k) => q.skip(k + 1),
        None => q,
    };
    if name.len() == 0 || name == "."@ || name == ".."@ {
        None
    } else {
        Some(name)
    }
}

/// What follows the last dot of the last component, unless that dot is the
/// component's first character.
pub open spec fn spec_extension(p: Seq<char>) -> Option<Seq<char>> {
    match spec_file_name(p) {
        None => None,
        Some(name) => match last_index_of(name, '.') {
            None => None,
            Some(k) => if k > 0 {
                Some(name.skip(k + 1))
            } else {
                None
            },
        },
    }
}

/// The directory that holds `p`, for a path in normal form: what stands
/// before the last component and the separators in front of it. Where that
/// is a root, the root's separator stays. A root has no parent, and neither
/// has a path of one component without a root.
pub open spec fn spec_parent(p: Seq<char>) -> Option<Seq<char>> {
    let q = spec_strip_tail(p);
    match last_index_of(q, '/') {
        None => None,
        Some(k) => {
            let dir = spec_strip_tail(q.take(k));
            if dir.len() == 0 {
                Some(q.take(1))
            } else if dir.len() == 2 && dir[1] == ':' {
                Some(dir.push('/'))
            } else {
                Some(dir)
            }
        },
    }
}

/// `name` below the directory `dir`: joined by one separator, unless `dir`
/// is empty or already ends in one. A name that starts at the root stands
/// for itself.
pub open spec fn spec_join(dir: Seq<char>, name: Seq<char>) -> Seq<char> {
    if name.len() > 0 && name[0] == '/' {
        name
    } else if dir.len() == 0 || dir.last() == '/' {
        dir + name
    } else {
        dir + "/"@ + name
    }
}

/// Sanitizing is idempotent on normal forms: a path that holds no backslash
/// and does not start with the long-path prefix is its own normal form.
pub proof fn sanitize_keeps_sanitized(p: Seq<char>)
    requires
        is_sanitized(p),
    ensures
        spec_sanitize(p) == p,
{
    assert(swap_char(p, '\\', '/') =~= p);
}

/// The normal form of a path holds no backslash.
pub proof fn sanitized_has_no_backslash(p: Seq<char>)
    ensures
        !spec_sanitize(p).contains('\\'),
{
    let slashed = swap_char(p, '\\', '/');
    assert(!slashed.contains('\\'));
    if occurs_at(slashed, long_path_prefix(), 0) {
        let rest = slashed.skip(long_path_prefix().len() as int);
        assert forall|i: int| 0 <= i < rest.len() implies rest[i] != '\\' by {
            assert(rest[i] == slashed[i + long_path_prefix().len()]);
        }
    }
}

/// Whether `p` starts at a root.
pub fn is_absolute(p: &str) -> (r: bool)
    ensures
        r == spec_is_absolute(p@),
{
    let v = chars_of(p);
    absolute_chars(&v)
}

fn absolute_chars(v: &Vec<char>) -> (r: bool)
    ensures
        r == spec_is_absolute(v@),
{
    if v.len() >= 1 && (v[0] == '/' || v[0] == '\\') {
        return true;
    }
    if v.len() >= 3 {
        let c = v[0];
        let letter = ('a' <= c && c <= 'z') || ('A' <= c && c <= 'Z');
        letter && v[1] == ':' && (v[2] == '/' || v[2] == '\\')
    } else {
        false
    }
}

fn sanitize_chars(v: &Vec<char>) -> (out: Vec<char>)
    ensures
        out@ == spec_sanitize(v@),
{
    let slashed = replace_char(v, '\\', '/');
    let prefix = chars_of("//?/");
    if matches_at(&slashed, &prefix, 0) {
        let mut out: Vec<char> = Vec::new();
        let mut i: usize = prefix.len();
        while i < slashed.len()
            invariant
                prefix.len() <= i <= slashed.len(),
                out@ == slashed@.subrange(prefix.len() as int, i as int),
            decreases slashed.len() - i,
        {
            out.push(slashed[i]);
            i += 1;
        }
        assert(out@ =~= slashed@.skip(prefix.len() as int));
        out
    } else {
        slashed
    }
}

/// The normal form of an absolute path: backslashes become slashes and a
/// leading long-path prefix goes. A relative path is refused, since only the caller
/// can say what it is relative to.
pub fn sanitize(p: &str) -> (r: Result<String, PathError>)
    ensures
        match r {
            Ok(s) => spec_is_absolute(p@) && s@ == spec_sanitize(p@),
            Err(e) => !spec_is_absolute(p@) && e == PathError::NotAbsolute,
        },
{
    let v = chars_of(p);
    if !absolute_chars(&v) {
        return Err(PathError::NotAbsolute);
    }
    let out = sanitize_chars(&v);
    Ok(string_of(&out))
}

/// `q` without the separators and `.` components that it ends in.
pub fn strip_tail(q: Vec<char>) -> (r: Vec<char>)
    ensures
        r@ == spec_strip_tail(q@),
{
    let mut q = q;
    let ghost whole = q@;
    loop
        invariant
            spec_strip_tail(q@) == spec_strip_tail(whole),
        ensures
            q@ == spec_strip_tail(whole),
        decreases q@.len(),
    {
        let n = q.len();
        let ghost before = q@;
        if n >= 1 && q[n - 1] == '/' {
            q.pop();
            assert(q@ =~= before.drop_last());
        } else if n >= 2 && q[n - 1] == '.' && q[n - 2] == '/' {
            q.pop();
            q.pop();
            assert(q@ =~= before.take(before.len() - 2));
        } else {
            break ;
        }
    }
    q
}

/// The last component of `p`.
pub fn file_name(p: &str) -> (r: Option<String>)
    ensures
        match r {
            Some(name) => spec_file_name(p@) == Some(name@),
            None => spec_file_name(p@) is None,
        },
{
    let v = chars_of(p);
    let q = strip_tail(replace_char(&v, '\\', '/'));
    let end = q.len();
    let from: usize = match rfind_char(&q, '/') {
        Some(k) => k + 1,
        None => 0,
    };
    assert(q@.skip(0) =~= q@);
    let name = string_of_range(&q, from, end);
    if name.as_str().unicode_len() == 0 || str_equal(name.as_str(), ".") || str_equal(
        name.as_str(),
        "..",
    ) {
        None
    } else {
        Some(name)
    }
}

/// The extension of the last component of `p`.
pub fn extension(p: &str) -> (r: Option<String>)
    ensures
        match r {
            Some(ext) => spec_extension(p@) == Some(ext@),
            None => spec_extension(p@) is None,
        },
{
    match file_name(p) {
        None => None,
        Some(name) => {
            let v = chars_of(name.as_str());
            match rfind_char(&v, '.') {
                None => None,
                Some(k) => {
                    if k > 0 {
                        Some(string_of_range(&v, k + 1, v.len()))
                    } else {
                        None
                    }
                },
            }
        },
    }
}

/// The directory that holds `p`, a path in normal form.
pub fn parent(p: &str) -> (r: Option<String>)
    ensures
        match r {
            Some(dir) => spec_parent(p@) == Some(dir@),
            None => spec_parent(p@) is None,
        },
{
    let q = strip_tail(chars_of(p));
    match rfind_char(&q, '/') {
        None => None,
        Some(k) => {
            let mut front: Vec<char> = Vec::new();
            let mut i: usize = 0;
            while i < k
                invariant
                    i <= k < q@.len(),
                    front@ == q@.subrange(0, i as int),
                decreases k - i,
            {
                front.push(q[i]);
                i += 1;
            }
            assert(front@ =~= q@.take(k as int));
            let mut dir = strip_tail(front);
            if dir.len() == 0 {
                assert(q@.take(1) =~= seq![q@[0]]);
                dir.push(q[0]);
                assert(dir@ =~= q@.take(1));
            } else if dir.len() == 2 && dir[1] == ':' {
                dir.push('/');
            }
            Some(string_of(&dir))
        },
    }
}

/// `name` below the directory `dir`.
pub fn join(dir: &str, name: &str) -> (r: String)
    ensures
        r@ == spec_join(dir@, name@),
{
    let n = dir.unicode_len();
    if name.unicode_len() > 0 && name.get_char(0) == '/' {
        name.to_owned()
    } else if n == 0 || dir.get_char(n - 1) == '/' {
        concat2(dir, name)
    } else {
        concat3(dir, "/", name)
    }
}

} // verus!
