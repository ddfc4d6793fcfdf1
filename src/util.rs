//! Path helpers.
use vstd::prelude::*;
use vstd::string::StrSliceExecFns;
use crate::text::{after_last, segment_after_last, string_of};

verus! {

/// A path without what adds no component at its end: trailing `/` and
/// trailing `/.`.
pub open spec fn trim_tail(s: Seq<char>) -> Seq<char>
    decreases s.len(),
{
    if s.len() > 0 && s.last() == '/' {
        trim_tail(s.drop_last())
    } else if s.len() >= 2 && s.last() == '.' && s[s.len() - 2] == '/' {
        trim_tail(s.subrange(0, s.len() - 2))
    } else {
        s
    }
}

/// The final component of a path, as `Path::file_name` reads it: what
/// follows the last `/` once trailing `/` and `/.` are set aside;
/// `unknown` where that is empty, `.` or `..`.
pub open spec fn dir_name_of(path: Seq<char>) -> Seq<char> {
    let last = after_last(trim_tail(path), '/');
    if last.len() == 0 || last == "."@ || last == ".."@ {
        "unknown"@
    } else {
        last
    }
}

/// The path without trailing `/` and `/.`.
fn trim_path_tail(path: &str) -> (r: String)
    ensures
        r@ == trim_tail(path@),
{
    let n = path.unicode_len();
    let mut i: usize = n;
    proof {
        assert(path@.subrange(0, n as int) == path@);
    }
    loop
        invariant
            i <= n,
            n == path@.len(),
            trim_tail(path@) == trim_tail(path@.subrange(0, i as int)),
        ensures
            i <= n,
            trim_tail(path@) == path@.subrange(0, i as int),
        decreases i,
    {
        let ghost pre = path@.subrange(0, i as int);
        if i > 0 && path.get_char(i - 1) == '/' {
            proof {
                assert(pre.drop_last() == path@.subrange(0, i - 1));
            }
            i = i - 1;
        } else if i >= 2 && path.get_char(i - 1) == '.' && path.get_char(i - 2) == '/' {
            proof {
                assert(pre.subrange(0, pre.len() - 2) == path@.subrange(0, i - 2));
            }
            i = i - 2;
        } else {
            proof {
                if i > 0 {
                    assert(pre.last() == path@[i - 1]);
                }
                if i >= 2 {
                    assert(pre[pre.len() - 2] == path@[i - 2]);
                }
                assert(trim_tail(pre) == pre);
            }
            break;
        }
    }
    String::from_str(path.substring_char(0, i))
}

/// The final component of a path, which names a repository's directory.
pub fn dir_name(path: &str) -> (r: String)
    ensures
        r@ == dir_name_of(path@),
{
    let trimmed = trim_path_tail(path);
    let last = segment_after_last(trimmed.as_str(), '/');
    let dot = string_of(".");
    let dots = string_of("..");
    if last.unicode_len() == 0 || last == dot || last == dots {
        string_of("unknown")
    } else {
        last
    }
}

/// Path helpers for repository locations.
pub trait GitPathExt {
    /// The final component of the path, `unknown` where there is none.
    fn dir_name(&self) -> String;
}

impl GitPathExt for str {
    fn dir_name(&self) -> String {
        dir_name(self)
    }
}

} // verus!
