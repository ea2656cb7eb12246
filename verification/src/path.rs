//! A string model of the filesystem paths this crate computes.
//!
//! Paths travel through the resolution pipeline as plain strings; the only
//! operations the pipeline needs are testing whether a path is absolute and
//! joining a directory with a file name, as `std`'s path type does on Unix.
use vstd::prelude::*;

verus! {

/// A path is absolute when it starts with the separator.
pub open spec fn is_absolute_path(p: Seq<char>) -> bool {
    p.len() > 0 && p[0] == '/'
}

/// What joining `dir` with `file` yields: an absolute `file` stands alone,
/// an empty `dir` contributes nothing, and otherwise the two are glued
/// with exactly one separator between them.
pub open spec fn join_path(dir: Seq<char>, file: Seq<char>) -> Seq<char> {
    if is_absolute_path(file) {
        file
    } else if dir.len() == 0 {
        file
    } else if dir.last() == '/' {
        dir + file
    } else {
        dir.push('/') + file
    }
}

/// Whether `p` is absolute, decided on the string itself.
pub fn is_absolute(p: &str) -> (r: bool)
    ensures
        r == is_absolute_path(p@),
{
    p.unicode_len() > 0 && p.get_char(0) == '/'
}

/// Join a directory and a file name into one path.
pub fn join(dir: &str, file: &str) -> (r: String)
    ensures
        r@ == join_path(dir@, file@),
{
    if is_absolute(file) {
        return file.to_owned();
    }
    let dir_len = dir.unicode_len();
    if dir_len == 0 {
        return file.to_owned();
    }
    let mut r = dir.to_owned();
    if dir.get_char(dir_len - 1) == '/' {
        r.append(file);
    } else {
        r.append("/");
        r.append(file);
        proof {
            reveal_strlit("/");
            assert(r@ =~= dir@.push('/') + file@);
        }
    }
    r
}

} // verus!
